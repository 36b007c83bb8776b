//! File-system bookkeeping for the console's archives: which flags a file is
//! opened with, what has to happen around the open call, where a file's
//! cursor stands, and how an archive is addressed.
//!
//! The system calls themselves are made by the caller; this module decides
//! what to ask for and keeps the resulting state.

use vstd::prelude::*;
use vstd::slice::slice_subrange;
use crate::resource::MediaType;

verus! {

/// Open for reading.
pub const FS_OPEN_READ: u32 = 1;

/// Open for writing.
pub const FS_OPEN_WRITE: u32 = 2;

/// Create the file if it does not exist.
pub const FS_OPEN_CREATE: u32 = 4;

/// Flush after the write.
pub const FS_WRITE_FLUSH: u32 = 1;

/// Update the file's time stamp with the write.
pub const FS_WRITE_UPDATE_TIME: u32 = 256;

/// Attribute bit of a directory.
pub const FS_ATTRIBUTE_DIRECTORY: u32 = 1;

/// Attribute bit of a hidden entry.
pub const FS_ATTRIBUTE_HIDDEN: u32 = 256;

/// Attribute bit of an archive entry.
pub const FS_ATTRIBUTE_ARCHIVE: u32 = 65536;

/// Attribute bit of a read-only entry.
pub const FS_ATTRIBUTE_READ_ONLY: u32 = 16777216;

/// The kinds of archive the file system knows.
#[derive(Clone, Copy, PartialEq, Eq, Structural, Debug)]
pub enum ArchiveID {
    /// Read-only data shipped with the running program.
    RomFS,
    /// Save data of the running program.
    Savedata,
    /// Extra data of a title.
    Extdata,
    /// Extra data shared between titles.
    SharedExtdata,
    /// Save data of a system title.
    SystemSavedata,
    /// The SD card.
    Sdmc,
    /// The SD card, write only.
    SdmcWriteOnly,
    /// Extra data of the background download service.
    BossExtdata,
    /// Save data of a game card.
    GameCardSavedata,
    /// Save data of an installed title.
    UserSavedata,
    /// Save data of a demo.
    DemoSavedata,
}

/// How an archive is addressed when it is opened.
pub enum ArchivePath {
    /// No path: the archive is identified by its kind alone.
    Empty,
    /// A binary path of 32-bit words.
    Binary(Vec<u32>),
}

/// An archive path with its words as a sequence.
pub enum ArchivePathView {
    /// See [`ArchivePath::Empty`].
    Empty,
    /// See [`ArchivePath::Binary`].
    Binary(Seq<u32>),
}

impl View for ArchivePath {
    type V = ArchivePathView;

    open spec fn view(&self) -> ArchivePathView {
        match *self {
            ArchivePath::Empty => ArchivePathView::Empty,
            ArchivePath::Binary(words) => ArchivePathView::Binary(words@),
        }
    }
}

/// An open archive.
pub struct Archive {
    /// The kind of archive.
    pub id: ArchiveID,
    /// The system's handle for it.
    pub handle: u64,
}

/// An open file and the position of its cursor.
#[derive(Clone, Copy, PartialEq, Eq, Structural, Debug)]
pub struct File {
    handle: u32,
    offset: u64,
}

/// What is known about a file or directory.
#[derive(Clone, Copy, PartialEq, Eq, Structural, Debug)]
pub struct Metadata {
    attributes: u32,
    size: u64,
}

/// How a file is to be opened.
#[derive(Clone, Copy, PartialEq, Eq, Structural, Debug)]
pub struct OpenOptions {
    input_size: Option<u64>,
    read: bool,
    write: bool,
    append: bool,
    truncate: bool,
    create: bool,
    arch_handle: u64,
}

/// What has to happen to open a file with given options.
#[derive(Clone, Copy, PartialEq, Eq, Structural, Debug)]
pub struct OpenRequest {
    /// The archive to open the file in.
    pub arch_handle: u64,
    /// The flags of the first attempt.
    pub flags: u32,
    /// If the first attempt fails: the size to create the file with, after
    /// which it is opened for writing. `None` means the failure stands.
    pub create_size: Option<u64>,
    /// Whether the cursor starts at the end of the file.
    pub seek_end: bool,
    /// Whether the file is cut to length zero once open.
    pub truncate: bool,
}

/// A new position for a file's cursor.
#[derive(Clone, Copy, PartialEq, Eq, Structural, Debug)]
pub enum SeekFrom {
    /// Counted from the start of the file.
    Start(u64),
    /// Counted from the end of the file.
    End(i64),
    /// Counted from the current position.
    Current(i64),
}

/// The id under which a title's extra data is stored: the title's low id
/// without its lowest byte, except for a few titles that share the extra
/// data of another.
pub open spec fn extdata_redirect_spec(low_id: u32) -> u32 {
    if low_id == 0x00055E00 {
        0x0000055D
    } else if low_id == 0x0011C400 {
        0x000011C5
    } else if low_id == 0x00175E00 {
        0x00001648
    } else if low_id == 0x001B5100 {
        0x00001B50
    } else if low_id == 0x00179600 || low_id == 0x00179800 {
        0x00001794
    } else if low_id == 0x00179700 || low_id == 0x0017A800 {
        0x00001795
    } else if low_id == 0x0012DD00 || low_id == 0x0012DE00 {
        0x000012DC
    } else {
        low_id >> 8
    }
}

/// The id under which a title's extra data is stored.
pub fn extdata_redirect(low_id: u32) -> (id: u32)
    ensures
        id == extdata_redirect_spec(low_id),
{
    if low_id == 0x00055E00 {
        0x0000055D
    } else if low_id == 0x0011C400 {
        0x000011C5
    } else if low_id == 0x00175E00 {
        0x00001648
    } else if low_id == 0x001B5100 {
        0x00001B50
    } else if low_id == 0x00179600 || low_id == 0x00179800 {
        0x00001794
    } else if low_id == 0x00179700 || low_id == 0x0017A800 {
        0x00001795
    } else if low_id == 0x0012DD00 || low_id == 0x0012DE00 {
        0x000012DC
    } else {
        low_id >> 8
    }
}

/// The path that addresses an archive of a title, by kind of archive.
/// Kinds that cannot be opened for a title have none.
pub open spec fn archive_path(arch_id: ArchiveID, media: MediaType, high_id: u32, low_id: u32) -> Option<
    ArchivePathView,
> {
    match arch_id {
        ArchiveID::Sdmc | ArchiveID::Savedata => Some(ArchivePathView::Empty),
        ArchiveID::UserSavedata => Some(
            ArchivePathView::Binary(seq![media.code() as u32, low_id, high_id]),
        ),
        ArchiveID::Extdata | ArchiveID::BossExtdata => Some(
            ArchivePathView::Binary(
                seq![MediaType::Sd.code() as u32, extdata_redirect_spec(low_id), 0u32],
            ),
        ),
        ArchiveID::SystemSavedata => Some(
            ArchivePathView::Binary(
                seq![MediaType::Nand.code() as u32, 0x00020000u32 | (low_id >> 8)],
            ),
        ),
        ArchiveID::SharedExtdata => Some(
            ArchivePathView::Binary(
                seq![MediaType::Nand.code() as u32, extdata_redirect_spec(low_id), 0x00048000u32],
            ),
        ),
        _ => None,
    }
}

/// Decides how to address an archive of the given kind for a title.
pub fn arch(arch_id: ArchiveID, media: MediaType, high_id: u32, low_id: u32) -> (path: Option<
    ArchivePath,
>)
    ensures
        path.is_some() == archive_path(arch_id, media, high_id, low_id).is_some(),
        path matches Some(p) ==> archive_path(arch_id, media, high_id, low_id) == Some(p@),
{
    let ext_data = extdata_redirect(low_id);
    match arch_id {
        ArchiveID::Sdmc => Some(ArchivePath::Empty),
        ArchiveID::Savedata => Some(ArchivePath::Empty),
        ArchiveID::UserSavedata => {
            let mut words: Vec<u32> = Vec::new();
            words.push(media.as_u8() as u32);
            words.push(low_id);
            words.push(high_id);
            assert(words@ =~= seq![media.code() as u32, low_id, high_id]);
            Some(ArchivePath::Binary(words))
        },
        ArchiveID::Extdata | ArchiveID::BossExtdata => {
            let mut words: Vec<u32> = Vec::new();
            words.push(MediaType::Sd.as_u8() as u32);
            words.push(ext_data);
            words.push(0);
            assert(words@ =~= seq![MediaType::Sd.code() as u32, ext_data, 0u32]);
            Some(ArchivePath::Binary(words))
        },
        ArchiveID::SystemSavedata => {
            let mut words: Vec<u32> = Vec::new();
            words.push(MediaType::Nand.as_u8() as u32);
            words.push(0x00020000 | (low_id >> 8));
            assert(words@ =~= seq![
                MediaType::Nand.code() as u32,
                0x00020000u32 | (low_id >> 8),
            ]);
            Some(ArchivePath::Binary(words))
        },
        ArchiveID::SharedExtdata => {
            let mut words: Vec<u32> = Vec::new();
            words.push(MediaType::Nand.as_u8() as u32);
            words.push(ext_data);
            words.push(0x00048000);
            assert(words@ =~= seq![MediaType::Nand.code() as u32, ext_data, 0x00048000u32]);
            Some(ArchivePath::Binary(words))
        },
        _ => None,
    }
}

impl Archive {
    /// The kind of archive.
    pub fn id(&self) -> (id: ArchiveID)
        ensures
            id == self.id,
    {
        self.id
    }
}

impl File {
    /// The system's handle for the file.
    pub closed spec fn spec_handle(&self) -> u32 {
        self.handle
    }

    /// The position of the cursor.
    pub closed spec fn spec_offset(&self) -> u64 {
        self.offset
    }

    /// The cursor's position after a seek in a file of `len` bytes.
    pub open spec fn sought(self, pos: SeekFrom, len: u64) -> u64 {
        match pos {
            SeekFrom::Start(off) => off,
            SeekFrom::End(off) => ((len as i64) + off) as u64,
            SeekFrom::Current(off) => ((self.spec_offset() as i64) + off) as u64,
        }
    }

    /// The state of a file just opened: the cursor stands at the start, or
    /// at the end (`len`) if the file was opened to append and not
    /// truncated.
    pub fn opened(handle: u32, request: &OpenRequest, len: u64) -> (file: File)
        ensures
            file.spec_handle() == handle,
            file.spec_offset() == if request.seek_end && !request.truncate {
                len
            } else {
                0
            },
    {
        let mut file = File { handle, offset: 0 };
        if request.seek_end {
            file.offset = len;
        }
        if request.truncate {
            file.offset = 0;
        }
        file
    }

    /// The system's handle for the file.
    #[verifier::when_used_as_spec(spec_handle)]
    pub fn handle(&self) -> (handle: u32)
        ensures
            handle == self.spec_handle(),
    {
        self.handle
    }

    /// The position of the cursor.
    #[verifier::when_used_as_spec(spec_offset)]
    pub fn offset(&self) -> (offset: u64)
        ensures
            offset == self.spec_offset(),
    {
        self.offset
    }

    /// Moves the cursor past `count` bytes just read or written.
    pub fn advance(&mut self, count: u32)
        requires
            old(self).spec_offset() + count <= u64::MAX,
        ensures
            final(self).spec_offset() == old(self).spec_offset() + count,
            final(self).spec_handle() == old(self).spec_handle(),
    {
        self.offset = self.offset + count as u64;
    }

    /// Moves the cursor in a file of `len` bytes and returns its new
    /// position. Positions are taken as they come: one before the start of
    /// the file wraps around.
    pub fn seek(&mut self, pos: SeekFrom, len: u64) -> (offset: u64)
        requires
            pos matches SeekFrom::End(off) ==> i64::MIN <= (len as i64) + off <= i64::MAX,
            pos matches SeekFrom::Current(off) ==> i64::MIN <= (old(self).spec_offset() as i64)
                + off <= i64::MAX,
        ensures
            offset == old(self).sought(pos, len),
            final(self).spec_offset() == offset,
            final(self).spec_handle() == old(self).spec_handle(),
    {
        match pos {
            SeekFrom::Start(off) => {
                self.offset = off;
            },
            SeekFrom::End(off) => {
                let temp: i64 = #[verifier::truncate] (len as i64);
                self.offset = #[verifier::truncate] ((temp + off) as u64);
            },
            SeekFrom::Current(off) => {
                let temp: i64 = #[verifier::truncate] (self.offset as i64);
                self.offset = #[verifier::truncate] ((temp + off) as u64);
            },
        }
        self.offset
    }
}

impl Metadata {
    /// The attribute bits.
    pub closed spec fn spec_attributes(self) -> u32 {
        self.attributes
    }

    /// The size in bytes.
    pub closed spec fn spec_len(&self) -> u64 {
        self.size
    }

    /// Metadata with the given attribute bits and size.
    pub fn new(attributes: u32, size: u64) -> (metadata: Metadata)
        ensures
            metadata.spec_attributes() == attributes,
            metadata.spec_len() == size,
    {
        Metadata { attributes, size }
    }

    /// Metadata of a directory: the directory bit alone, size zero.
    pub fn directory() -> (metadata: Metadata)
        ensures
            metadata.spec_attributes() == FS_ATTRIBUTE_DIRECTORY,
            metadata.spec_len() == 0,
    {
        Metadata { attributes: FS_ATTRIBUTE_DIRECTORY, size: 0 }
    }

    /// Whether this is a directory: the directory bit is set.
    pub fn is_dir(&self) -> (dir: bool)
        ensures
            dir == (self.spec_attributes() & FS_ATTRIBUTE_DIRECTORY == FS_ATTRIBUTE_DIRECTORY),
    {
        let attributes = self.attributes;
        assert((attributes == attributes | 1u32) == (attributes & 1u32 == 1u32)) by (bit_vector);
        self.attributes == self.attributes | FS_ATTRIBUTE_DIRECTORY
    }

    /// Whether this is a regular file: anything that is not a directory.
    pub fn is_file(&self) -> (file: bool)
        ensures
            file == !(self.spec_attributes() & FS_ATTRIBUTE_DIRECTORY == FS_ATTRIBUTE_DIRECTORY),
    {
        !self.is_dir()
    }

    /// The size in bytes; directories have size zero.
    #[verifier::when_used_as_spec(spec_len)]
    pub fn len(&self) -> (size: u64)
        ensures
            size == self.spec_len(),
    {
        self.size
    }
}

/// The flags for a combination of read access, write access (asked for
/// directly or by appending) and creation. Creation alone, or nothing at
/// all, gives no flags, with which no file opens.
pub open spec fn open_flags_spec(read: bool, write: bool, create: bool) -> u32 {
    if !read && !write {
        0
    } else {
        ((if read {
            FS_OPEN_READ
        } else {
            0u32
        }) + (if write {
            FS_OPEN_WRITE
        } else {
            0u32
        }) + (if create {
            FS_OPEN_CREATE
        } else {
            0u32
        })) as u32
    }
}

impl OpenOptions {
    /// The options as plain values: size to create with, read, write,
    /// append, truncate, create, archive handle.
    pub closed spec fn view(self) -> (Option<u64>, bool, bool, bool, bool, bool, u64) {
        (
            self.input_size,
            self.read,
            self.write,
            self.append,
            self.truncate,
            self.create,
            self.arch_handle,
        )
    }

    /// The request that [`OpenOptions::open`] makes for given options.
    pub open spec fn request_of(self) -> OpenRequest {
        let v = self.view();
        OpenRequest {
            arch_handle: v.6,
            flags: open_flags_spec(v.1, v.2 || v.3, v.5),
            create_size: if v.5 {
                v.0
            } else {
                None
            },
            seek_end: v.3,
            truncate: v.4,
        }
    }

    /// A blank set of options: every option off, no archive.
    pub fn new() -> (options: OpenOptions)
        ensures
            options.view() == (None::<u64>, false, false, false, false, false, 0u64),
    {
        OpenOptions {
            input_size: None,
            read: false,
            write: false,
            append: false,
            truncate: false,
            create: false,
            arch_handle: 0,
        }
    }

    /// Sets whether the file is opened for reading.
    pub fn read(&mut self, read: bool) -> (options: &mut OpenOptions)
        ensures
            options.view() == (
                old(self).view().0,
                read,
                old(self).view().2,
                old(self).view().3,
                old(self).view().4,
                old(self).view().5,
                old(self).view().6,
            ),
            *final(self) == *final(options),
    {
        self.read = read;
        self
    }

    /// Sets the size a file is created with if it does not exist.
    pub fn input_size(&mut self, input_size: Option<u64>) -> (options: &mut OpenOptions)
        ensures
            options.view() == (
                input_size,
                old(self).view().1,
                old(self).view().2,
                old(self).view().3,
                old(self).view().4,
                old(self).view().5,
                old(self).view().6,
            ),
            *final(self) == *final(options),
    {
        self.input_size = input_size;
        self
    }

    /// Sets whether the file is opened for writing.
    pub fn write(&mut self, write: bool) -> (options: &mut OpenOptions)
        ensures
            options.view() == (
                old(self).view().0,
                old(self).view().1,
                write,
                old(self).view().3,
                old(self).view().4,
                old(self).view().5,
                old(self).view().6,
            ),
            *final(self) == *final(options),
    {
        self.write = write;
        self
    }

    /// Sets whether writes go to the end of the file. Appending implies
    /// write access.
    pub fn append(&mut self, append: bool) -> (options: &mut OpenOptions)
        ensures
            options.view() == (
                old(self).view().0,
                old(self).view().1,
                old(self).view().2,
                append,
                old(self).view().4,
                old(self).view().5,
                old(self).view().6,
            ),
            *final(self) == *final(options),
    {
        self.append = append;
        self
    }

    /// Sets whether the file is cut to length zero once open.
    pub fn truncate(&mut self, truncate: bool) -> (options: &mut OpenOptions)
        ensures
            options.view() == (
                old(self).view().0,
                old(self).view().1,
                old(self).view().2,
                old(self).view().3,
                truncate,
                old(self).view().5,
                old(self).view().6,
            ),
            *final(self) == *final(options),
    {
        self.truncate = truncate;
        self
    }

    /// Sets whether the file is created if it does not exist.
    pub fn create(&mut self, create: bool) -> (options: &mut OpenOptions)
        ensures
            options.view() == (
                old(self).view().0,
                old(self).view().1,
                old(self).view().2,
                old(self).view().3,
                old(self).view().4,
                create,
                old(self).view().6,
            ),
            *final(self) == *final(options),
    {
        self.create = create;
        self
    }

    /// Sets the archive the file is opened in.
    pub fn archive(&mut self, archive: &Archive) -> (options: &mut OpenOptions)
        ensures
            options.view() == (
                old(self).view().0,
                old(self).view().1,
                old(self).view().2,
                old(self).view().3,
                old(self).view().4,
                old(self).view().5,
                archive.handle,
            ),
            *final(self) == *final(options),
    {
        self.arch_handle = archive.handle;
        self
    }

    /// The flags the file is opened with.
    pub fn open_flags(&self) -> (flags: u32)
        ensures
            flags == open_flags_spec(self.view().1, self.view().2 || self.view().3, self.view().5),
    {
        match (self.read, self.write || self.append, self.create) {
            (true, false, false) => FS_OPEN_READ,
            (false, true, false) => FS_OPEN_WRITE,
            (false, true, true) => FS_OPEN_WRITE + FS_OPEN_CREATE,
            (true, false, true) => FS_OPEN_READ + FS_OPEN_CREATE,
            (true, true, false) => FS_OPEN_READ + FS_OPEN_WRITE,
            (true, true, true) => FS_OPEN_READ + FS_OPEN_WRITE + FS_OPEN_CREATE,
            _ => 0,
        }
    }

    /// Says what has to happen to open a file with these options: the flags
    /// of the first attempt; whether, should that fail, the file is created
    /// with a given size and opened for writing; and what is done to the
    /// file once open.
    pub fn open(&self) -> (request: OpenRequest)
        ensures
            request == self.request_of(),
    {
        OpenRequest {
            arch_handle: self.arch_handle,
            flags: self.open_flags(),
            create_size: if self.create {
                self.input_size
            } else {
                None
            },
            seek_end: self.append,
            truncate: self.truncate,
        }
    }
}

/// Whether `i` is where a run of UTF-16 units ends: at the first zero unit,
/// or at the end if there is none.
pub open spec fn is_nul_end(v: Seq<u16>, i: int) -> bool {
    &&& 0 <= i <= v.len()
    &&& forall|j: int| 0 <= j < i ==> v[j] != 0
    &&& i < v.len() ==> v[i] == 0
}

/// Cuts a run of UTF-16 units before its first zero unit.
pub fn truncate_utf16_at_nul(v: &[u16]) -> (head: &[u16])
    ensures
        is_nul_end(v@, head@.len() as int),
        head@ == v@.take(head@.len() as int),
{
    let mut i: usize = 0;
    while i < v.len()
        invariant
            i <= v.len(),
            forall|j: int| 0 <= j < i ==> v@[j] != 0,
        decreases v.len() - i,
    {
        if v[i] == 0 {
            let head = slice_subrange(v, 0, i);
            assert(head@ =~= v@.take(i as int));
            return head;
        }
        i += 1;
    }
    assert(v@ =~= v@.take(v@.len() as int));
    v
}

} // verus!
