//! Small pure helpers: colour names and path strings.

use vstd::prelude::*;
use vstd::seq_lib::{to_multiset_build, to_multiset_insert};
use vstd::slice::slice_subrange;
use vstd::string::{StringSliceAdditionalSpecFns, StrSliceExecFns, StringExecFns};
use crate::c2d::{rgba, rgba_spec};
use crate::text::{is_white_space, str_eq, white_space};

verus! {

/// The palette: the packed colour that each known name stands for. Any name
/// that is not in the table is opaque black.
pub open spec fn color_name_rgba_spec(color: Seq<char>) -> u32 {
    if color == "red"@ {
        rgba_spec(0xff, 0x00, 0x00, 0xff)
    } else if color == "green"@ {
        rgba_spec(0x00, 0xff, 0x00, 0xff)
    } else if color == "blue"@ {
        rgba_spec(0x00, 0x00, 0xff, 0xff)
    } else if color == "dir"@ {
        rgba_spec(0x00, 0xb4, 0xd8, 0xff)
    } else if color == "white"@ {
        rgba_spec(0xff, 0xff, 0xff, 0xff)
    } else if color == "gray"@ {
        rgba_spec(0xbb, 0xbb, 0xbb, 0xff)
    } else if color == "black"@ {
        rgba_spec(0x00, 0x00, 0x00, 0xff)
    } else if color == "main-text"@ {
        rgba_spec(0xee, 0xee, 0xee, 0xff)
    } else if color == "main_bg"@ {
        rgba_spec(0x22, 0x22, 0x22, 0xff)
    } else if color == "selected_bg"@ {
        rgba_spec(0x44, 0x44, 0x44, 0xff)
    } else if color == "selected_bg_info"@ {
        rgba_spec(0x33, 0x33, 0x33, 0xff)
    } else if color == "selected_bg_dark"@ {
        rgba_spec(0x28, 0x28, 0x28, 0xff)
    } else if color == "selected_bg_light"@ {
        rgba_spec(0x60, 0x60, 0x60, 0xff)
    } else if color == "transparent"@ {
        rgba_spec(0x00, 0x00, 0x00, 0x00)
    } else if color == "tips"@ {
        rgba_spec(0xaa, 0xaa, 0xaa, 0xff)
    } else if color == "panel_bg"@ {
        rgba_spec(0x26, 0x26, 0x26, 0xff)
    } else {
        rgba_spec(0x00, 0x00, 0x00, 0xff)
    }
}

/// Looks a colour name up in the palette; unknown names give opaque black.
pub fn color_name_rgba(color: &str) -> (packed: u32)
    ensures
        packed == color_name_rgba_spec(color@),
{
    if str_eq(color, "red") {
        rgba(0xff, 0x00, 0x00, 0xff)
    } else if str_eq(color, "green") {
        rgba(0x00, 0xff, 0x00, 0xff)
    } else if str_eq(color, "blue") {
        rgba(0x00, 0x00, 0xff, 0xff)
    } else if str_eq(color, "dir") {
        rgba(0x00, 0xb4, 0xd8, 0xff)
    } else if str_eq(color, "white") {
        rgba(0xff, 0xff, 0xff, 0xff)
    } else if str_eq(color, "gray") {
        rgba(0xbb, 0xbb, 0xbb, 0xff)
    } else if str_eq(color, "black") {
        rgba(0x00, 0x00, 0x00, 0xff)
    } else if str_eq(color, "main-text") {
        rgba(0xee, 0xee, 0xee, 0xff)
    } else if str_eq(color, "main_bg") {
        rgba(0x22, 0x22, 0x22, 0xff)
    } else if str_eq(color, "selected_bg") {
        rgba(0x44, 0x44, 0x44, 0xff)
    } else if str_eq(color, "selected_bg_info") {
        rgba(0x33, 0x33, 0x33, 0xff)
    } else if str_eq(color, "selected_bg_dark") {
        rgba(0x28, 0x28, 0x28, 0xff)
    } else if str_eq(color, "selected_bg_light") {
        rgba(0x60, 0x60, 0x60, 0xff)
    } else if str_eq(color, "transparent") {
        rgba(0x00, 0x00, 0x00, 0x00)
    } else if str_eq(color, "tips") {
        rgba(0xaa, 0xaa, 0xaa, 0xff)
    } else if str_eq(color, "panel_bg") {
        rgba(0x26, 0x26, 0x26, 0xff)
    } else {
        rgba(0x00, 0x00, 0x00, 0xff)
    }
}

/// A path under a base directory: the two joined by exactly one slash,
/// unless the base is empty or already ends in one.
pub open spec fn join_path_spec(base: Seq<char>, path: Seq<char>) -> Seq<char> {
    if base.len() == 0 || base.last() == '/' {
        base + path
    } else {
        base + seq!['/'] + path
    }
}

/// Joins a path to a base directory.
pub fn join_path(base: &str, path: &str) -> (joined: String)
    ensures
        joined@ == join_path_spec(base@, path@),
{
    let len = base.unicode_len();
    let mut joined = String::from_str(base);
    if len == 0 || base.get_char(len - 1) == '/' {
        joined.append(path);
    } else {
        proof {
            reveal_strlit("/");
            assert("/"@ =~= seq!['/']);
        }
        joined.append("/");
        joined.append(path);
    }
    joined
}

/// The bytes of a text followed by a zero byte, as C expects a string.
pub fn str_to_c_null_term_bytes(data: &str) -> (bytes: Vec<u8>)
    ensures
        bytes@ == data.spec_bytes().push(0u8),
{
    let mut bytes = data.as_bytes_vec();
    bytes.push(0);
    bytes
}

/// The colour of the active element. The highlight does not pulse: the
/// colour is always zero.
pub fn get_active_color() -> (color: u32)
    ensures
        color == 0,
{
    0
}

/// Whether a character may not appear in a file name: one of
/// `\ / : * ? " ' < > |`.
pub open spec fn is_invalid_char_spec(c: char) -> bool {
    c == '\\' || c == '/' || c == ':' || c == '*' || c == '?' || c == '"' || c == '\'' || c == '<'
        || c == '>' || c == '|'
}

/// A character as it appears in a normalized name: an underscore in place
/// of a character that may not appear.
pub open spec fn normalized_char(c: char) -> char {
    if is_invalid_char_spec(c) {
        '_'
    } else {
        c
    }
}

/// Whether `start` is where a text begins once leading whitespace is cut:
/// everything before it is whitespace, and it is not.
pub open spec fn is_trim_start(text: Seq<char>, start: int) -> bool {
    &&& 0 <= start <= text.len()
    &&& forall|i: int| 0 <= i < start ==> white_space(#[trigger] text[i])
    &&& start < text.len() ==> !white_space(text[start])
}

/// Whether `end` is where a text ends once trailing whitespace is cut,
/// given where it begins.
pub open spec fn is_trim_end(text: Seq<char>, start: int, end: int) -> bool {
    &&& start <= end <= text.len()
    &&& forall|i: int| end <= i < text.len() ==> white_space(#[trigger] text[i])
    &&& start < end ==> !white_space(text[end - 1])
}

/// Whether a text is what is left of another once whitespace is cut from
/// both ends.
pub open spec fn is_trimmed(text: Seq<char>, trimmed: Seq<char>) -> bool {
    exists|start: int, end: int|
        is_trim_start(text, start) && is_trim_end(text, start, end) && trimmed == text.subrange(
            start,
            end,
        )
}

/// Whether a text begins with another.
pub open spec fn starts_with_spec(text: Seq<char>, prefix: Seq<char>) -> bool {
    prefix.len() <= text.len() && text.subrange(0, prefix.len() as int) == prefix
}

/// Whether a text ends with another.
pub open spec fn ends_with_spec(text: Seq<char>, suffix: Seq<char>) -> bool {
    suffix.len() <= text.len() && text.subrange(text.len() - suffix.len(), text.len() as int)
        == suffix
}

/// Whether a character may not appear in a file name.
pub fn is_invalid_char(c: char) -> (invalid: bool)
    ensures
        invalid == is_invalid_char_spec(c),
{
    c == '\\' || c == '/' || c == ':' || c == '*' || c == '?' || c == '"' || c == '\'' || c == '<'
        || c == '>' || c == '|'
}

/// Whether a text holds a character that may not appear in a file name.
pub fn has_invalid_char(text: &str) -> (found: bool)
    ensures
        found == exists|i: int| 0 <= i < text@.len() && is_invalid_char_spec(#[trigger] text@[i]),
{
    let len = text.unicode_len();
    let mut i: usize = 0;
    while i < len
        invariant
            i <= len,
            len == text@.len(),
            forall|j: int| 0 <= j < i ==> !is_invalid_char_spec(#[trigger] text@[j]),
        decreases len - i,
    {
        if is_invalid_char(text.get_char(i)) {
            return true;
        }
        i += 1;
    }
    false
}

/// A character as it appears in a normalized name.
pub fn normalize_char(c: char) -> (res: char)
    ensures
        res == normalized_char(c),
{
    if is_invalid_char(c) {
        '_'
    } else {
        c
    }
}

/// Cuts whitespace from both ends of a text.
pub fn trim(text: &str) -> (trimmed: String)
    ensures
        is_trimmed(text@, trimmed@),
{
    let len = text.unicode_len();
    let mut start: usize = 0;
    while start < len && is_white_space(text.get_char(start))
        invariant
            start <= len,
            len == text@.len(),
            forall|i: int| 0 <= i < start ==> white_space(#[trigger] text@[i]),
        decreases len - start,
    {
        start += 1;
    }
    let mut end: usize = len;
    while end > start && is_white_space(text.get_char(end - 1))
        invariant
            start <= end <= len,
            len == text@.len(),
            forall|i: int| end <= i < len ==> white_space(#[trigger] text@[i]),
        decreases end,
    {
        end -= 1;
    }
    let trimmed = String::from_str(text.substring_char(start, end));
    proof {
        assert(is_trim_start(text@, start as int));
        assert(is_trim_end(text@, start as int, end as int));
    }
    trimmed
}

/// Makes a text fit to be a file name: every character that may not appear
/// in one becomes an underscore, and then whitespace is cut from both ends.
pub fn normalize_path(path: &str) -> (name: String)
    ensures
        is_trimmed(path@.map_values(|c: char| normalized_char(c)), name@),
{
    let ghost replaced = path@.map_values(|c: char| normalized_char(c));
    let len = path.unicode_len();
    let mut fit = String::new();
    let mut i: usize = 0;
    while i < len
        invariant
            i <= len,
            len == path@.len(),
            replaced == path@.map_values(|c: char| normalized_char(c)),
            fit@ == replaced.take(i as int),
        decreases len - i,
    {
        fit.push(normalize_char(path.get_char(i)));
        assert(fit@ =~= replaced.take(i + 1));
        i += 1;
    }
    assert(fit@ =~= replaced);
    trim(fit.as_str())
}

/// Whether a text begins with a prefix.
pub fn starts_with(text: &str, prefix: &str) -> (res: bool)
    ensures
        res == starts_with_spec(text@, prefix@),
{
    let len = text.unicode_len();
    let prefix_len = prefix.unicode_len();
    if prefix_len > len {
        return false;
    }
    let mut i: usize = 0;
    while i < prefix_len
        invariant
            i <= prefix_len <= len,
            len == text@.len(),
            prefix_len == prefix@.len(),
            forall|j: int| 0 <= j < i ==> text@[j] == prefix@[j],
        decreases prefix_len - i,
    {
        if text.get_char(i) != prefix.get_char(i) {
            assert(text@.subrange(0, prefix_len as int)[i as int] != prefix@[i as int]);
            return false;
        }
        i += 1;
    }
    assert(text@.subrange(0, prefix_len as int) =~= prefix@);
    true
}

/// Whether a text ends with a suffix.
pub fn ends_with(text: &str, suffix: &str) -> (res: bool)
    ensures
        res == ends_with_spec(text@, suffix@),
{
    let len = text.unicode_len();
    let suffix_len = suffix.unicode_len();
    if suffix_len > len {
        return false;
    }
    let offset = len - suffix_len;
    let mut i: usize = 0;
    while i < suffix_len
        invariant
            i <= suffix_len <= len,
            offset == len - suffix_len,
            len == text@.len(),
            suffix_len == suffix@.len(),
            forall|j: int| 0 <= j < i ==> text@[offset + j] == suffix@[j],
        decreases suffix_len - i,
    {
        if text.get_char(offset + i) != suffix.get_char(i) {
            assert(text@.subrange(offset as int, len as int)[i as int] != suffix@[i as int]);
            return false;
        }
        i += 1;
    }
    assert(text@.subrange(offset as int, len as int) =~= suffix@);
    true
}

/// An entry of a directory, as its listing gives it.
pub struct LocalEntry {
    /// The entry's full path.
    pub path: String,
    /// The entry's name within the directory.
    pub name: String,
    /// Whether the entry is a directory.
    pub is_dir: bool,
    /// Whether the entry is a regular file.
    pub is_file: bool,
}

/// Whether a text comes before another in the order of strings: character
/// by character, by code point, a proper prefix first. This is the order
/// in which the standard library compares strings.
pub open spec fn text_lt(a: Seq<char>, b: Seq<char>) -> bool
    decreases a.len(),
{
    if b.len() == 0 {
        false
    } else if a.len() == 0 {
        true
    } else if a[0] != b[0] {
        (a[0] as u32) < (b[0] as u32)
    } else {
        text_lt(a.skip(1), b.skip(1))
    }
}

/// Whether `i` is the position of the first directory whose name begins
/// with the prefix.
pub open spec fn is_first_dir_with(entries: Seq<LocalEntry>, prefix: Seq<char>, i: int) -> bool {
    &&& 0 <= i < entries.len()
    &&& entries[i].is_dir && starts_with_spec(entries[i].name@, prefix)
    &&& forall|j: int|
        0 <= j < i ==> !((#[trigger] entries[j]).is_dir && starts_with_spec(entries[j].name@, prefix))
}

/// Whether an entry is a backup: a regular file whose name ends in `.zip`.
pub open spec fn is_backup(entry: LocalEntry) -> bool {
    entry.is_file && ends_with_spec(entry.name@, ".zip"@)
}

/// The names of the backups among the first `n` entries, in listing order.
pub open spec fn backup_names(entries: Seq<LocalEntry>, n: nat) -> Seq<Seq<char>>
    decreases n,
{
    if n == 0 || n > entries.len() {
        Seq::empty()
    } else {
        let earlier = backup_names(entries, (n - 1) as nat);
        if is_backup(entries[n - 1]) {
            earlier.push(entries[n - 1].name@)
        } else {
            earlier
        }
    }
}

/// Whether texts stand in descending order: none comes before a later one.
pub open spec fn is_descending(texts: Seq<Seq<char>>) -> bool {
    forall|i: int, j: int| 0 <= i < j < texts.len() ==> !text_lt(texts[i], texts[j])
}

/// The texts of a list of strings.
pub open spec fn texts_of(names: Seq<String>) -> Seq<Seq<char>> {
    names.map_values(|s: String| s@)
}

/// No text comes before itself, and of two texts at most one comes before
/// the other.
pub proof fn lemma_text_lt_asymmetric(a: Seq<char>, b: Seq<char>)
    ensures
        text_lt(a, b) ==> !text_lt(b, a),
    decreases a.len(),
{
    if a.len() > 0 && b.len() > 0 && a[0] == b[0] {
        lemma_text_lt_asymmetric(a.skip(1), b.skip(1));
    }
}

/// The order of texts is transitive.
pub proof fn lemma_text_lt_transitive(a: Seq<char>, b: Seq<char>, c: Seq<char>)
    ensures
        text_lt(a, b) && text_lt(b, c) ==> text_lt(a, c),
    decreases a.len(),
{
    if a.len() > 0 && b.len() > 0 && c.len() > 0 && a[0] == b[0] && b[0] == c[0] {
        lemma_text_lt_transitive(a.skip(1), b.skip(1), c.skip(1));
    }
}

/// Whether a text comes before another in the order of strings.
pub fn text_less(a: &str, b: &str) -> (less: bool)
    ensures
        less == text_lt(a@, b@),
{
    let a_len = a.unicode_len();
    let b_len = b.unicode_len();
    let mut i: usize = 0;
    assert(a@.skip(0) =~= a@ && b@.skip(0) =~= b@);
    loop
        invariant
            i <= a_len,
            i <= b_len,
            a_len == a@.len(),
            b_len == b@.len(),
            text_lt(a@, b@) == text_lt(a@.skip(i as int), b@.skip(i as int)),
        decreases a_len - i,
    {
        let ghost rest_a = a@.skip(i as int);
        let ghost rest_b = b@.skip(i as int);
        if i >= b_len {
            return false;
        }
        if i >= a_len {
            return true;
        }
        let x = a.get_char(i);
        let y = b.get_char(i);
        assert(rest_a[0] == x && rest_b[0] == y);
        if x != y {
            return (x as u32) < (y as u32);
        }
        assert(rest_a.skip(1) =~= a@.skip(i + 1));
        assert(rest_b.skip(1) =~= b@.skip(i + 1));
        i += 1;
    }
}

/// Finds, in a directory listing, the first directory whose name begins
/// with a prefix, and returns its path.
pub fn get_local_dir_start_with(entries: &Vec<LocalEntry>, prefix: &str) -> (path: Option<String>)
    ensures
        match path {
            Some(p) => exists|i: int|
                is_first_dir_with(entries@, prefix@, i) && p@ == entries@[i].path@,
            None => forall|i: int|
                0 <= i < entries@.len() ==> !((#[trigger] entries@[i]).is_dir && starts_with_spec(
                    entries@[i].name@,
                    prefix@,
                )),
        },
{
    let mut i: usize = 0;
    while i < entries.len()
        invariant
            i <= entries.len(),
            forall|j: int|
                0 <= j < i ==> !((#[trigger] entries@[j]).is_dir && starts_with_spec(
                    entries@[j].name@,
                    prefix@,
                )),
        decreases entries.len() - i,
    {
        let entry = &entries[i];
        if entry.is_dir && starts_with(entry.name.as_str(), prefix) {
            assert(is_first_dir_with(entries@, prefix@, i as int));
            return Some(entry.path.clone());
        }
        i += 1;
    }
    None
}

/// Lists the backups of a directory: the names of its regular files that
/// end in `.zip`, latest name first (names begin with the time of the
/// backup, so the order of strings is the order of time).
pub fn get_local_game_saves(entries: &Vec<LocalEntry>) -> (list: Vec<String>)
    ensures
        is_descending(texts_of(list@)),
        texts_of(list@).to_multiset() == backup_names(entries@, entries@.len()).to_multiset(),
{
    let mut list: Vec<String> = Vec::new();
    let mut i: usize = 0;
    assert(texts_of(list@) =~= backup_names(entries@, 0));
    while i < entries.len()
        invariant
            i <= entries.len(),
            is_descending(texts_of(list@)),
            texts_of(list@).to_multiset() == backup_names(entries@, i as nat).to_multiset(),
        decreases entries.len() - i,
    {
        let entry = &entries[i];
        if entry.is_file && ends_with(entry.name.as_str(), ".zip") {
            let ghost before = texts_of(list@);
            let ghost name = entry.name@;
            let mut at: usize = 0;
            while at < list.len() && !text_less(list[at].as_str(), entry.name.as_str())
                invariant
                    at <= list.len(),
                    before == texts_of(list@),
                    name == entry.name@,
                    forall|k: int| 0 <= k < at ==> !text_lt(#[trigger] before[k], name),
                decreases list.len() - at,
            {
                at += 1;
            }
            list.insert(at, entry.name.clone());
            proof {
                let after = texts_of(list@);
                assert(after =~= before.insert(at as int, name));
                to_multiset_insert(before, at as int, name);
                to_multiset_build(backup_names(entries@, i as nat), name);
                assert forall|x: int, y: int| 0 <= x < y < after.len() implies !text_lt(
                    after[x],
                    after[y],
                ) by {
                    if y == at {
                        assert(after[x] == before[x]);
                    } else if x == at {
                        assert(after[y] == before[y - 1]);
                        assert(text_lt(before[at as int], name));
                        lemma_text_lt_asymmetric(before[at as int], name);
                        if y - 1 > at {
                            assert(!text_lt(before[at as int], before[y - 1]));
                            lemma_text_lt_transitive(before[at as int], name, before[y - 1]);
                        }
                    } else {
                        let bx = if x < at {
                            x
                        } else {
                            x - 1
                        };
                        let by = if y < at {
                            y
                        } else {
                            y - 1
                        };
                        assert(after[x] == before[bx] && after[y] == before[by]);
                        assert(!text_lt(before[bx], before[by]));
                    }
                }
            }
        }
        i += 1;
    }
    list
}

/// The number of bytes a copy gathers before it writes them: 512 KiB.
pub const COPY_BLOCK_SIZE: usize = 524288;

/// The state of a copy that gathers what it reads into blocks of
/// [`COPY_BLOCK_SIZE`] bytes, so that the target is written in few large
/// pieces however small the pieces read are.
pub struct CopyBuffer {
    cache: Vec<u8>,
    total: u64,
}

impl CopyBuffer {
    /// The bytes read and not yet handed out for writing.
    pub closed spec fn pending(&self) -> Seq<u8> {
        self.cache@
    }

    /// The number of bytes read so far.
    pub closed spec fn spec_total(&self) -> u64 {
        self.total
    }

    /// Whether the buffer is in order: it holds less than a block.
    pub open spec fn wf(&self) -> bool {
        self.pending().len() < COPY_BLOCK_SIZE
    }

    /// A copy that has read nothing yet.
    pub fn new() -> (buffer: CopyBuffer)
        ensures
            buffer.wf(),
            buffer.pending() == Seq::<u8>::empty(),
            buffer.spec_total() == 0,
    {
        CopyBuffer { cache: Vec::new(), total: 0 }
    }

    /// The number of bytes read so far.
    #[verifier::when_used_as_spec(spec_total)]
    pub fn total(&self) -> (total: u64)
        ensures
            total == self.spec_total(),
    {
        self.total
    }

    /// Ends the copy: hands out what is left to write, if anything, and
    /// the number of bytes copied.
    pub fn finish(self) -> (rest: (Option<Vec<u8>>, u64))
        requires
            self.wf(),
        ensures
            rest.1 == self.spec_total(),
            match rest.0 {
                Some(block) => block@ == self.pending() && block@.len() > 0,
                None => self.pending().len() == 0,
            },
    {
        if self.cache.len() > 0 {
            (Some(self.cache), self.total)
        } else {
            (None, self.total)
        }
    }
}

/// What taking in a chunk does to the bytes gathered: once a whole block
/// is together it is handed out, and what follows it stays.
pub open spec fn copy_step(pending: Seq<u8>, chunk: Seq<u8>) -> (Seq<u8>, Option<Seq<u8>>) {
    let all = pending + chunk;
    if all.len() >= COPY_BLOCK_SIZE {
        (all.skip(COPY_BLOCK_SIZE as int), Some(all.take(COPY_BLOCK_SIZE as int)))
    } else {
        (all, None)
    }
}

/// Takes a chunk just read into the copy. Returns a block to write once
/// one is full; the block is exactly [`COPY_BLOCK_SIZE`] bytes, and blocks
/// and remainder together are the chunks in the order read.
pub fn copy_buf(buffer: &mut CopyBuffer, chunk: &[u8]) -> (block: Option<Vec<u8>>)
    requires
        old(buffer).wf(),
        chunk@.len() <= COPY_BLOCK_SIZE,
        old(buffer).spec_total() + chunk@.len() <= u64::MAX,
    ensures
        final(buffer).wf(),
        final(buffer).spec_total() == old(buffer).spec_total() + chunk@.len(),
        final(buffer).pending() == copy_step(old(buffer).pending(), chunk@).0,
        match block {
            Some(b) => copy_step(old(buffer).pending(), chunk@).1 == Some(b@),
            None => copy_step(old(buffer).pending(), chunk@).1.is_none(),
        },
{
    let size = chunk.len();
    buffer.total = buffer.total + size as u64;
    let current = buffer.cache.len();
    let ghost all = buffer.cache@ + chunk@;
    if current + size >= COPY_BLOCK_SIZE {
        let gap = COPY_BLOCK_SIZE - current;
        buffer.cache.extend_from_slice(slice_subrange(chunk, 0, gap));
        let mut block: Vec<u8> = Vec::new();
        core::mem::swap(&mut buffer.cache, &mut block);
        buffer.cache.extend_from_slice(slice_subrange(chunk, gap, size));
        assert(block@ =~= all.take(COPY_BLOCK_SIZE as int));
        assert(buffer.cache@ =~= all.skip(COPY_BLOCK_SIZE as int));
        Some(block)
    } else {
        buffer.cache.extend_from_slice(chunk);
        assert(buffer.cache@ =~= all);
        None
    }
}

/// Nothing is lost or reordered by a copy: after any chunk, what has been
/// handed out for writing, followed by what is still gathered, is what was
/// gathered before followed by the chunk.
pub proof fn lemma_copy_keeps_bytes(pending: Seq<u8>, chunk: Seq<u8>)
    requires
        pending.len() < COPY_BLOCK_SIZE,
        chunk.len() <= COPY_BLOCK_SIZE,
    ensures
        ({
            let step = copy_step(pending, chunk);
            &&& step.0.len() < COPY_BLOCK_SIZE
            &&& match step.1 {
                Some(block) => block.len() == COPY_BLOCK_SIZE && block + step.0 == pending + chunk,
                None => step.0 == pending + chunk,
            }
        }),
{
    let all = pending + chunk;
    if all.len() >= COPY_BLOCK_SIZE {
        assert(all.take(COPY_BLOCK_SIZE as int) + all.skip(COPY_BLOCK_SIZE as int) =~= all);
    }
}

} // verus!
