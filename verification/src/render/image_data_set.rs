//! The image cache: title icons loaded in the background, and QR codes
//! generated on demand.
//!
//! The cache owns pixel data and hands out [`ImageHandle`]s, which name an
//! image without borrowing it. Title icons are keyed by title id. A key that
//! is not resident is queued for a background loader exactly once; the
//! loader's result, success or failure, is remembered so that nothing is
//! retried every frame. QR codes are keyed by their text and live only as
//! long as some node asks for them each frame.

use vstd::prelude::*;
use std::collections::HashMap;
use crate::resource::{MediaType, TitleInfo};
use crate::text::{decimal_u64, parse_u64, str_eq};

verus! {

/// Names a drawable image.
#[derive(Clone, Copy, PartialEq, Eq, Structural, Hash, Debug)]
pub enum ImageHandle {
    /// An entry of the built-in sprite sheet, by index.
    Sheet(usize),
    /// A title icon held by the cache, by title id.
    Icon(u64),
    /// A QR code held by the cache, by position in its list.
    QrCode(usize),
}

/// How far the loading of a queued icon has come.
pub enum PendingState {
    /// Not loaded yet.
    Waiting,
    /// The loader found no icon.
    Failed,
    /// The loader delivered these pixels.
    Loaded(Vec<u16>),
}

/// A queued icon request.
pub struct PendingIcon {
    /// The title whose icon is wanted.
    pub id: u64,
    /// Where the title is installed.
    pub media: MediaType,
    /// What the loader has reported so far.
    pub state: PendingState,
}

/// A cached QR code.
pub struct QrCode {
    /// The text the code encodes.
    pub text: String,
    /// Its grayscale pixels, row by row.
    pub image: Vec<u8>,
    /// How often the code was asked for since the last release.
    pub uses: u16,
}

/// A cached QR code as plain values.
pub struct QrCodeView {
    /// The text the code encodes.
    pub text: Seq<char>,
    /// Its grayscale pixels.
    pub image: Seq<u8>,
    /// How often the code was asked for since the last release.
    pub uses: u16,
}

impl View for QrCode {
    type V = QrCodeView;

    open spec fn view(&self) -> QrCodeView {
        QrCodeView { text: self.text@, image: self.image@, uses: self.uses }
    }
}

/// Error correction level of a generated QR code.
#[derive(Clone, Copy, PartialEq, Eq, Structural, Debug)]
pub enum QrEcc {
    /// Recovers about 7% of the code.
    Low,
    /// Recovers about 15%.
    Medium,
    /// Recovers about 25%.
    Quartile,
    /// Recovers about 30%.
    High,
}

/// The number of pixels of a title icon.
pub const ICON_PIXELS: usize = 2304;

/// The number of bytes of one record of the icon cache file: eight for
/// the title id and two for each pixel.
pub const ICON_RECORD_SIZE: usize = 4616;

/// Side length, in pixels, of the QR codes the cache generates.
pub const QRCODE_SIZE: usize = 128;

/// The contents of the cache.
pub struct ImageState {
    /// Resident icons: pixels, or `None` where loading failed.
    pub data: Map<u64, Option<Vec<u16>>>,
    /// Icons read ahead of time that no node has asked for yet.
    pub raw: Map<u64, Vec<u16>>,
    /// Requests queued for the loader, oldest first.
    pub pending: Seq<PendingIcon>,
    /// The cached QR codes.
    pub qrcodes: Seq<QrCodeView>,
    /// Whether the loader has delivered something since the flag was last
    /// read.
    pub need_update: bool,
}

/// The image cache.
pub struct ImageDataSet {
    data: HashMap<u64, Option<Vec<u16>>>,
    raw: HashMap<u64, Vec<u16>>,
    data_pending: Vec<PendingIcon>,
    qrcodes: Vec<QrCode>,
    need_update: bool,
}

impl View for ImageDataSet {
    type V = ImageState;

    closed spec fn view(&self) -> ImageState {
        ImageState {
            data: self.data@,
            raw: self.raw@,
            pending: self.data_pending@,
            qrcodes: self.qrcodes@.map_values(|q: QrCode| q@),
            need_update: self.need_update,
        }
    }
}

/// What the QR generator makes of a text at a given error correction level
/// and image size: the grayscale pixels, or `None` where it reports an
/// error.
pub uninterp spec fn qr_image(text: Seq<char>, ecc: QrEcc, size: nat) -> Option<Seq<u8>>;

/// Whether some queued request is for the given title.
pub open spec fn has_pending(pending: Seq<PendingIcon>, id: u64) -> bool {
    exists|i: int| 0 <= i < pending.len() && (#[trigger] pending[i]).id == id
}

/// Whether `i` is the position of the oldest queued request for the title.
pub open spec fn is_first_pending(pending: Seq<PendingIcon>, id: u64, i: int) -> bool {
    &&& 0 <= i < pending.len()
    &&& pending[i].id == id
    &&& forall|j: int| 0 <= j < i ==> (#[trigger] pending[j]).id != id
}

/// The position of the oldest queued request for the title, if any.
pub open spec fn pending_index(pending: Seq<PendingIcon>, id: u64) -> Option<int> {
    if exists|i: int| is_first_pending(pending, id, i) {
        Some(choose|i: int| is_first_pending(pending, id, i))
    } else {
        None
    }
}

/// Whether `i` is the position of the oldest request still waiting.
pub open spec fn is_first_waiting(pending: Seq<PendingIcon>, i: int) -> bool {
    &&& 0 <= i < pending.len()
    &&& pending[i].state is Waiting
    &&& forall|j: int| 0 <= j < i ==> !((#[trigger] pending[j]).state is Waiting)
}

/// Whether `i` is the position of the first cached QR code for the text.
pub open spec fn is_first_qrcode(qrcodes: Seq<QrCodeView>, text: Seq<char>, i: int) -> bool {
    &&& 0 <= i < qrcodes.len()
    &&& qrcodes[i].text == text
    &&& forall|j: int| 0 <= j < i ==> (#[trigger] qrcodes[j]).text != text
}

/// The position of the first cached QR code for the text, if any.
pub open spec fn qrcode_index(qrcodes: Seq<QrCodeView>, text: Seq<char>) -> Option<int> {
    if exists|i: int| is_first_qrcode(qrcodes, text, i) {
        Some(choose|i: int| is_first_qrcode(qrcodes, text, i))
    } else {
        None
    }
}

/// The result of asking for a title's icon: the cache afterwards, and the
/// handle if the icon can be drawn now.
///
/// A resident key answers at once. A key read ahead of time becomes
/// resident. A queued key whose loading has finished becomes resident, as
/// pixels or as a remembered failure, and leaves the queue. A queued key
/// still waiting changes nothing. Any other key is queued.
pub open spec fn lookup_icon(s: ImageState, id: u64, media: MediaType) -> (
    ImageState,
    Option<ImageHandle>,
) {
    if s.data.contains_key(id) {
        (
            s,
            if s.data[id] is Some {
                Some(ImageHandle::Icon(id))
            } else {
                None
            },
        )
    } else if s.raw.contains_key(id) {
        (
            ImageState { data: s.data.insert(id, Some(s.raw[id])), raw: s.raw.remove(id), ..s },
            Some(ImageHandle::Icon(id)),
        )
    } else {
        match pending_index(s.pending, id) {
            Some(i) => match s.pending[i].state {
                PendingState::Waiting => (s, None),
                PendingState::Failed => (
                    ImageState { data: s.data.insert(id, None), pending: s.pending.remove(i), ..s },
                    None,
                ),
                PendingState::Loaded(pixels) => if pixels.len() > 0 {
                    (
                        ImageState {
                            data: s.data.insert(id, Some(pixels)),
                            pending: s.pending.remove(i),
                            ..s
                        },
                        Some(ImageHandle::Icon(id)),
                    )
                } else {
                    (
                        ImageState {
                            data: s.data.insert(id, None),
                            pending: s.pending.remove(i),
                            ..s
                        },
                        None,
                    )
                },
            },
            None => (
                ImageState {
                    pending: s.pending.push(
                        PendingIcon { id, media, state: PendingState::Waiting },
                    ),
                    ..s
                },
                None,
            ),
        }
    }
}

/// The result of asking for a title icon by its key: the title id in
/// decimal and the medium's name, `"sd"` or anything else for internal
/// memory. A key that is not a number resolves to nothing.
pub open spec fn lookup_image(s: ImageState, id: Seq<char>, media: Seq<char>) -> (
    ImageState,
    Option<ImageHandle>,
) {
    match decimal_u64(id) {
        Some(n) => lookup_icon(
            s,
            n,
            if media == "sd"@ {
                MediaType::Sd
            } else {
                MediaType::Nand
            },
        ),
        None => (s, None),
    }
}

/// The cache after the loader has reported on a title: the oldest request
/// for it holds the outcome, and the update flag is raised.
pub open spec fn complete_icon(s: ImageState, id: u64, icon: Option<Vec<u16>>) -> ImageState {
    ImageState {
        pending: match pending_index(s.pending, id) {
            Some(i) => s.pending.update(
                i,
                PendingIcon {
                    id: s.pending[i].id,
                    media: s.pending[i].media,
                    state: match icon {
                        Some(pixels) => PendingState::Loaded(pixels),
                        None => PendingState::Failed,
                    },
                },
            ),
            None => s.pending,
        },
        need_update: true,
        ..s
    }
}

/// Reading the update flag: the cache with the flag lowered, and the value
/// the flag had.
pub open spec fn take_update(s: ImageState) -> (ImageState, bool) {
    (ImageState { need_update: false, ..s }, s.need_update)
}

/// A use counter one higher, held at the top of its range.
pub open spec fn counted(uses: u16) -> u16 {
    if uses < u16::MAX {
        (uses + 1) as u16
    } else {
        uses
    }
}

/// The result of storing what the generator made of a text that was asked
/// for: a new entry at the end of the list, used once, and its handle; or
/// nothing where the generator failed.
pub open spec fn store_qrcode(s: ImageState, text: Seq<char>, generated: Option<Seq<u8>>) -> (
    ImageState,
    Option<ImageHandle>,
) {
    match generated {
        Some(image) => (
            ImageState { qrcodes: s.qrcodes.push(QrCodeView { text, image, uses: 1 }), ..s },
            Some(ImageHandle::QrCode(s.qrcodes.len() as usize)),
        ),
        None => (s, None),
    }
}

/// The result of asking for a QR code: a cached code answers at once and
/// its use is counted; otherwise what the generator made of the text is
/// stored.
pub open spec fn lookup_qrcode(s: ImageState, text: Seq<char>, generated: Option<Seq<u8>>) -> (
    ImageState,
    Option<ImageHandle>,
) {
    match qrcode_index(s.qrcodes, text) {
        Some(i) => (
            ImageState {
                qrcodes: s.qrcodes.update(
                    i,
                    QrCodeView { uses: counted(s.qrcodes[i].uses), ..s.qrcodes[i] },
                ),
                ..s
            },
            Some(ImageHandle::QrCode(i as usize)),
        ),
        None => store_qrcode(s, text, generated),
    }
}

/// Of the first `n` QR codes, those that were asked for since the last
/// release, in order, with their use counters starting again.
pub open spec fn used_qrcodes(qrcodes: Seq<QrCodeView>, n: nat) -> Seq<QrCodeView>
    decreases n,
{
    if n == 0 || n > qrcodes.len() {
        Seq::empty()
    } else {
        let earlier = used_qrcodes(qrcodes, (n - 1) as nat);
        if qrcodes[n - 1].uses > 0 {
            earlier.push(QrCodeView { uses: 0, ..qrcodes[n - 1] })
        } else {
            earlier
        }
    }
}

/// The cache after a frame has been drawn: QR codes that no node asked for
/// during the frame are dropped, and the use counters start again.
pub open spec fn release_unused(s: ImageState) -> ImageState {
    ImageState { qrcodes: used_qrcodes(s.qrcodes, s.qrcodes.len()), ..s }
}

/// The record appended to the icon cache file for one icon: the title id,
/// most significant byte first, then each pixel, low byte first.
pub open spec fn icon_record(id: u64, pixels: Seq<u16>) -> Seq<u8> {
    id_bytes(id) + pixel_bytes(pixels)
}

/// The eight bytes of a title id, most significant first.
pub open spec fn id_bytes(id: u64) -> Seq<u8> {
    seq![
        (id >> 56) as u8,
        (id >> 48) as u8,
        (id >> 40) as u8,
        (id >> 32) as u8,
        (id >> 24) as u8,
        (id >> 16) as u8,
        (id >> 8) as u8,
        id as u8,
    ]
}

/// The bytes of a run of pixels, two per pixel, low byte first.
pub open spec fn pixel_bytes(pixels: Seq<u16>) -> Seq<u8>
    decreases pixels.len(),
{
    if pixels.len() == 0 {
        Seq::empty()
    } else {
        pixel_bytes(pixels.drop_last()).push(pixels.last() as u8).push((pixels.last() >> 8) as u8)
    }
}

/// The number of whole records in the bytes of an icon cache file. What
/// follows the last whole record is not read.
pub open spec fn record_count(bytes: Seq<u8>) -> int {
    (bytes.len() as int) / (ICON_RECORD_SIZE as int)
}

/// The title id of the record at a position of an icon cache file.
pub open spec fn record_id(bytes: Seq<u8>, r: int) -> u64 {
    let at = r * ICON_RECORD_SIZE;
    (bytes[at] as u64) << 56 | (bytes[at + 1] as u64) << 48 | (bytes[at + 2] as u64) << 40 | (bytes[at
        + 3] as u64) << 32 | (bytes[at + 4] as u64) << 24 | (bytes[at + 5] as u64) << 16 | (bytes[at
        + 6] as u64) << 8 | (bytes[at + 7] as u64)
}

/// The pixel at a position of the record at a position of an icon cache
/// file.
pub open spec fn record_pixel(bytes: Seq<u8>, r: int, j: int) -> u16 {
    let at = r * ICON_RECORD_SIZE + 8 + 2 * j;
    (bytes[at] as u16) | (bytes[at + 1] as u16) << 8
}

/// The pixels of the record at a position of an icon cache file.
pub open spec fn record_pixels(bytes: Seq<u8>, r: int) -> Seq<u16> {
    Seq::new(ICON_PIXELS as nat, |j: int| record_pixel(bytes, r, j))
}

/// Whether a title id is that of one of the given titles.
pub open spec fn is_known_title(titles: Seq<TitleInfo>, id: u64) -> bool {
    exists|i: int| 0 <= i < titles.len() && (#[trigger] titles[i]).id == id
}

/// The icons that the first `n` records of an icon cache file hold for the
/// given titles. Where a title has several records, the last one counts.
pub open spec fn cached_icons(bytes: Seq<u8>, titles: Seq<TitleInfo>, n: nat) -> Map<u64, Seq<u16>>
    decreases n,
{
    if n == 0 {
        Map::empty()
    } else {
        let earlier = cached_icons(bytes, titles, (n - 1) as nat);
        let id = record_id(bytes, n - 1);
        if is_known_title(titles, id) {
            earlier.insert(id, record_pixels(bytes, n - 1))
        } else {
            earlier
        }
    }
}

/// Generates a QR code image with `qrcode_generator::to_image`.
///
/// Trusted: the generator's result is a function of the text, the level and
/// the size alone; the contract gives it the name [`qr_image`] and maps an
/// error to `None`. Sizes are limited so that the image buffer can be
/// allocated.
#[verifier::external_body]
fn generate_qrcode(text: &str, ecc: QrEcc, size: usize) -> (res: Option<Vec<u8>>)
    requires
        size <= 4096,
    ensures
        res.is_some() == qr_image(text@, ecc, size as nat).is_some(),
        res matches Some(image) ==> qr_image(text@, ecc, size as nat) == Some(image@),
{
    let level = match ecc {
        QrEcc::Low => qrcode_generator::QrCodeEcc::Low,
        QrEcc::Medium => qrcode_generator::QrCodeEcc::Medium,
        QrEcc::Quartile => qrcode_generator::QrCodeEcc::Quartile,
        QrEcc::High => qrcode_generator::QrCodeEcc::High,
    };
    match qrcode_generator::to_image(text, level, size) {
        Ok(image) => Some(image),
        Err(_) => None,
    }
}

/// The icons read ahead of time that no node has asked for yet.
pub fn get_image_raw_buf(images: &ImageDataSet) -> (raw: &HashMap<u64, Vec<u16>>)
    ensures
        raw@ == images@.raw,
{
    &images.raw
}

/// Builds the record to append to the icon cache file for a loaded icon.
pub fn icon_cache_record(id: u64, pixels: &Vec<u16>) -> (record: Vec<u8>)
    ensures
        record@ == icon_record(id, pixels@),
{
    let mut record: Vec<u8> = Vec::new();
    record.push(#[verifier::truncate] ((id >> 56) as u8));
    record.push(#[verifier::truncate] ((id >> 48) as u8));
    record.push(#[verifier::truncate] ((id >> 40) as u8));
    record.push(#[verifier::truncate] ((id >> 32) as u8));
    record.push(#[verifier::truncate] ((id >> 24) as u8));
    record.push(#[verifier::truncate] ((id >> 16) as u8));
    record.push(#[verifier::truncate] ((id >> 8) as u8));
    record.push(#[verifier::truncate] (id as u8));
    assert(record@ =~= id_bytes(id));
    let mut i: usize = 0;
    while i < pixels.len()
        invariant
            i <= pixels.len(),
            record@ == id_bytes(id) + pixel_bytes(pixels@.take(i as int)),
        decreases pixels.len() - i,
    {
        let pixel = pixels[i];
        proof {
            let next = pixels@.take(i + 1);
            assert(next.drop_last() =~= pixels@.take(i as int));
            assert(next.last() == pixel);
            assert((id_bytes(id) + pixel_bytes(pixels@.take(i as int))).push(pixel as u8).push(
                (pixel >> 8) as u8,
            ) =~= id_bytes(id) + pixel_bytes(next));
        }
        record.push(#[verifier::truncate] (pixel as u8));
        record.push(#[verifier::truncate] ((pixel >> 8) as u8));
        i += 1;
    }
    proof {
        assert(pixels@.take(pixels.len() as int) =~= pixels@);
    }
    record
}

fn read_id(bytes: &Vec<u8>, at: usize) -> (id: u64)
    requires
        at + 8 <= bytes.len(),
    ensures
        id == (bytes[at as int] as u64) << 56 | (bytes[at + 1] as u64) << 48 | (bytes[at + 2] as u64)
            << 40 | (bytes[at + 3] as u64) << 32 | (bytes[at + 4] as u64) << 24 | (bytes[at
            + 5] as u64) << 16 | (bytes[at + 6] as u64) << 8 | (bytes[at + 7] as u64),
{
    (bytes[at] as u64) << 56 | (bytes[at + 1] as u64) << 48 | (bytes[at + 2] as u64) << 40 | (bytes[at
        + 3] as u64) << 32 | (bytes[at + 4] as u64) << 24 | (bytes[at + 5] as u64) << 16 | (bytes[at
        + 6] as u64) << 8 | (bytes[at + 7] as u64)
}

fn read_pixels(bytes: &Vec<u8>, at: usize) -> (pixels: Vec<u16>)
    requires
        at + 2 * ICON_PIXELS <= bytes.len(),
    ensures
        pixels@.len() == ICON_PIXELS,
        forall|j: int|
            0 <= j < ICON_PIXELS ==> #[trigger] pixels@[j] == (bytes[at + 2 * j] as u16) | (bytes[at
                + 2 * j + 1] as u16) << 8,
{
    let mut pixels: Vec<u16> = Vec::new();
    let mut j: usize = 0;
    while j < ICON_PIXELS
        invariant
            j <= ICON_PIXELS,
            at + 2 * ICON_PIXELS <= bytes.len(),
            pixels@.len() == j,
            forall|k: int|
                0 <= k < j ==> #[trigger] pixels@[k] == (bytes[at + 2 * k] as u16) | (bytes[at + 2
                    * k + 1] as u16) << 8,
        decreases ICON_PIXELS - j,
    {
        let low = bytes[at + 2 * j] as u16;
        let high = bytes[at + 2 * j + 1] as u16;
        pixels.push(low | high << 8);
        j += 1;
    }
    pixels
}

fn known_title(titles: &Vec<TitleInfo>, id: u64) -> (known: bool)
    ensures
        known == is_known_title(titles@, id),
{
    let mut i: usize = 0;
    while i < titles.len()
        invariant
            i <= titles.len(),
            forall|k: int| 0 <= k < i ==> (#[trigger] titles@[k]).id != id,
        decreases titles.len() - i,
    {
        if titles[i].id == id {
            return true;
        }
        i += 1;
    }
    false
}

impl ImageDataSet {
    /// An empty cache.
    pub fn new() -> (images: ImageDataSet)
        ensures
            images@.data == Map::<u64, Option<Vec<u16>>>::empty(),
            images@.raw == Map::<u64, Vec<u16>>::empty(),
            images@.pending == Seq::<PendingIcon>::empty(),
            images@.qrcodes == Seq::<QrCodeView>::empty(),
            !images@.need_update,
    {
        let images = ImageDataSet {
            data: HashMap::new(),
            raw: HashMap::new(),
            data_pending: Vec::new(),
            qrcodes: Vec::new(),
            need_update: false,
        };
        assert(images.qrcodes@.map_values(|q: QrCode| q@) =~= Seq::<QrCodeView>::empty());
        images
    }

    /// Hands the cache an icon that was read ahead of time, to be used when
    /// a node first asks for it.
    pub fn preload(&mut self, id: u64, pixels: Vec<u16>)
        ensures
            final(self)@ == (ImageState { raw: old(self)@.raw.insert(id, pixels), ..old(self)@ }),
    {
        self.raw.insert(id, pixels);
    }

    /// Reads an icon cache file: every whole record of a known title is
    /// handed to the cache as an icon read ahead of time. Icons read ahead
    /// before stay, unless the file holds the same title.
    pub fn load_icon_cache(&mut self, bytes: &Vec<u8>, titles: &Vec<TitleInfo>)
        ensures
            final(self)@ == (ImageState { raw: final(self)@.raw, ..old(self)@ }),
            forall|id: u64|
                cached_icons(bytes@, titles@, record_count(bytes@) as nat).contains_key(id)
                    ==> (#[trigger] final(self)@.raw.contains_key(id)) && final(self)@.raw[id]@
                    == cached_icons(bytes@, titles@, record_count(bytes@) as nat)[id],
            forall|id: u64|
                !cached_icons(bytes@, titles@, record_count(bytes@) as nat).contains_key(id) ==> (
                (#[trigger] final(self)@.raw.contains_key(id)) == old(self)@.raw.contains_key(id))
                    && (old(self)@.raw.contains_key(id) ==> final(self)@.raw[id] == old(
                    self,
                )@.raw[id]),
    {
        let count = bytes.len() / ICON_RECORD_SIZE;
        let mut r: usize = 0;
        while r < count
            invariant
                r <= count,
                count == record_count(bytes@),
                self@ == (ImageState { raw: self@.raw, ..old(self)@ }),
                forall|id: u64|
                    cached_icons(bytes@, titles@, r as nat).contains_key(id)
                        ==> (#[trigger] self@.raw.contains_key(id)) && self@.raw[id]@ == cached_icons(
                        bytes@,
                        titles@,
                        r as nat,
                    )[id],
                forall|id: u64|
                    !cached_icons(bytes@, titles@, r as nat).contains_key(id) ==> (
                    (#[trigger] self@.raw.contains_key(id)) == old(self)@.raw.contains_key(id)) && (
                    old(self)@.raw.contains_key(id) ==> self@.raw[id] == old(self)@.raw[id]),
            decreases count - r,
        {
            assert(r * ICON_RECORD_SIZE + ICON_RECORD_SIZE <= bytes.len()) by (nonlinear_arith)
                requires
                    r < count,
                    count == bytes.len() / ICON_RECORD_SIZE,
            ;
            let at = r * ICON_RECORD_SIZE;
            let id = read_id(bytes, at);
            let ghost before = self@.raw;
            let ghost earlier = cached_icons(bytes@, titles@, r as nat);
            let ghost later = cached_icons(bytes@, titles@, (r + 1) as nat);
            assert(id == record_id(bytes@, r as int));
            if known_title(titles, id) {
                let pixels = read_pixels(bytes, at + 8);
                assert(pixels@ =~= record_pixels(bytes@, r as int));
                self.raw.insert(id, pixels);
                assert(later == earlier.insert(id, pixels@));
            } else {
                assert(later == earlier);
            }
            proof {
                assert forall|k: u64| later.contains_key(k) implies (
                #[trigger] self@.raw.contains_key(k)) && self@.raw[k]@ == later[k] by {
                    if k != id || !is_known_title(titles@, id) {
                        assert(earlier.contains_key(k));
                        assert(before.contains_key(k));
                    }
                }
                assert forall|k: u64| !later.contains_key(k) implies (
                (#[trigger] self@.raw.contains_key(k)) == old(self)@.raw.contains_key(k)) && (old(
                    self,
                )@.raw.contains_key(k) ==> self@.raw[k] == old(self)@.raw[k]) by {
                    assert(!earlier.contains_key(k));
                    assert(before.contains_key(k) == old(self)@.raw.contains_key(k));
                }
            }
            r += 1;
        }
        proof {
            let all = cached_icons(bytes@, titles@, record_count(bytes@) as nat);
            assert(all == cached_icons(bytes@, titles@, r as nat));
            assert forall|id: u64| !all.contains_key(id) implies ((#[trigger] self@.raw.contains_key(
                id,
            )) == old(self)@.raw.contains_key(id)) by {}
            assert forall|id: u64| !all.contains_key(id) && old(self)@.raw.contains_key(
                id,
            ) implies #[trigger] self@.raw[id] == old(self)@.raw[id] by {
                assert(self@.raw.contains_key(id) == old(self)@.raw.contains_key(id));
            }
        }
    }

    /// Reads and lowers the update flag.
    pub fn is_update(&mut self) -> (updated: bool)
        ensures
            (final(self)@, updated) == take_update(old(self)@),
    {
        if self.need_update {
            self.need_update = false;
            return true;
        }
        false
    }

    fn find_pending(&self, id: u64) -> (found: Option<usize>)
        ensures
            match found {
                Some(i) => pending_index(self@.pending, id) == Some(i as int),
                None => pending_index(self@.pending, id).is_none(),
            },
    {
        let mut i: usize = 0;
        while i < self.data_pending.len()
            invariant
                i <= self.data_pending.len(),
                forall|j: int| 0 <= j < i ==> (#[trigger] self.data_pending@[j]).id != id,
            decreases self.data_pending.len() - i,
        {
            if self.data_pending[i].id == id {
                proof {
                    let pending = self@.pending;
                    assert(is_first_pending(pending, id, i as int));
                    let c = choose|c: int| is_first_pending(pending, id, c);
                    assert(is_first_pending(pending, id, c));
                    assert(c == i) by {
                        if c < i {
                            assert(pending[c].id != id);
                        }
                        if i < c {
                            assert(pending[i as int].id != id);
                        }
                    }
                }
                return Some(i);
            }
            i += 1;
        }
        proof {
            let pending = self@.pending;
            assert forall|c: int| !is_first_pending(pending, id, c) by {
                if 0 <= c < pending.len() {
                    assert(pending[c].id != id);
                }
            }
        }
        None
    }

    fn find_qrcode(&self, text: &str) -> (found: Option<usize>)
        ensures
            match found {
                Some(i) => qrcode_index(self@.qrcodes, text@) == Some(i as int),
                None => qrcode_index(self@.qrcodes, text@).is_none(),
            },
    {
        let ghost codes = self@.qrcodes;
        let mut i: usize = 0;
        while i < self.qrcodes.len()
            invariant
                i <= self.qrcodes.len(),
                codes == self@.qrcodes,
                codes.len() == self.qrcodes.len(),
                forall|j: int| 0 <= j < codes.len() ==> (#[trigger] codes[j]) == self.qrcodes@[j]@,
                forall|j: int| 0 <= j < i ==> (#[trigger] codes[j]).text != text@,
            decreases self.qrcodes.len() - i,
        {
            if str_eq(self.qrcodes[i].text.as_str(), text) {
                proof {
                    assert(codes[i as int].text == text@);
                    assert(is_first_qrcode(codes, text@, i as int));
                    let c = choose|c: int| is_first_qrcode(codes, text@, c);
                    assert(is_first_qrcode(codes, text@, c));
                    assert(c == i) by {
                        if c < i {
                            assert(codes[c].text != text@);
                        }
                        if i < c {
                            assert(codes[i as int].text != text@);
                        }
                    }
                }
                return Some(i);
            }
            proof {
                assert(codes[i as int].text != text@);
            }
            i += 1;
        }
        proof {
            assert forall|c: int| !is_first_qrcode(codes, text@, c) by {
                if 0 <= c < codes.len() {
                    assert(codes[c].text != text@);
                }
            }
        }
        None
    }

    /// Caches a QR code image under its text. An image cached under the
    /// same text is replaced and keeps its use counter; a new entry has not
    /// been used yet.
    pub fn add_qrcode(&mut self, id: String, image: Vec<u8>)
        ensures
            final(self)@ == (ImageState {
                qrcodes: match qrcode_index(old(self)@.qrcodes, id@) {
                    Some(i) => old(self)@.qrcodes.update(
                        i,
                        QrCodeView { image: image@, ..old(self)@.qrcodes[i] },
                    ),
                    None => old(self)@.qrcodes.push(
                        QrCodeView { text: id@, image: image@, uses: 0 },
                    ),
                },
                ..old(self)@
            }),
    {
        let ghost before = self@.qrcodes;
        match self.find_qrcode(id.as_str()) {
            Some(i) => {
                self.qrcodes[i].image = image;
                assert(self@.qrcodes =~= before.update(
                    i as int,
                    QrCodeView { image: image@, ..before[i as int] },
                ));
            },
            None => {
                self.qrcodes.push(QrCode { text: id, image, uses: 0 });
                assert(self@.qrcodes =~= before.push(
                    QrCodeView { text: id@, image: image@, uses: 0 },
                ));
            },
        }
    }

    /// Stores what the generator made of a text that was asked for at the
    /// end of the list, and returns the new code's handle; nothing is
    /// stored where the generator failed.
    pub fn store_generated(&mut self, id: &str, generated: Option<Vec<u8>>) -> (handle: Option<
        ImageHandle,
    >)
        ensures
            (final(self)@, handle) == store_qrcode(
                old(self)@,
                id@,
                match generated {
                    Some(image) => Some(image@),
                    None => None,
                },
            ),
    {
        match generated {
            Some(image) => {
                let index = self.qrcodes.len();
                let ghost before = self@.qrcodes;
                self.qrcodes.push(QrCode { text: String::from_str(id), image, uses: 1 });
                assert(self@.qrcodes =~= before.push(
                    QrCodeView { text: id@, image: image@, uses: 1 },
                ));
                Some(ImageHandle::QrCode(index))
            },
            None => None,
        }
    }

    /// Resolves a QR code by its text, generating and caching it on first
    /// use, and counts the use for this frame.
    pub fn get_qrcode(&mut self, id: &str) -> (handle: Option<ImageHandle>)
        ensures
            (final(self)@, handle) == lookup_qrcode(
                old(self)@,
                id@,
                qr_image(id@, QrEcc::Low, QRCODE_SIZE as nat),
            ),
    {
        match self.find_qrcode(id) {
            Some(i) => {
                let ghost before = self@.qrcodes;
                let uses = self.qrcodes[i].uses;
                if uses < u16::MAX {
                    self.qrcodes[i].uses = uses + 1;
                }
                assert(self@.qrcodes =~= before.update(
                    i as int,
                    QrCodeView { uses: counted(before[i as int].uses), ..before[i as int] },
                ));
                Some(ImageHandle::QrCode(i))
            },
            None => {
                let generated = generate_qrcode(id, QrEcc::Low, QRCODE_SIZE);
                self.store_generated(id, generated)
            },
        }
    }

    /// Drops the QR codes that no node asked for during the frame just
    /// drawn, and starts counting uses again. The codes that stay move up,
    /// so handles to QR codes do not outlive a release.
    pub fn release_qrcode(&mut self)
        ensures
            final(self)@ == release_unused(old(self)@),
    {
        let ghost before = self@.qrcodes;
        let mut codes: Vec<QrCode> = Vec::new();
        core::mem::swap(&mut self.qrcodes, &mut codes);
        assert(self@.qrcodes =~= used_qrcodes(before, 0));
        for code in iter: codes.into_iter()
            invariant
                iter.seq().map_values(|q: QrCode| q@) == before,
                self@.qrcodes == used_qrcodes(before, iter.index() as nat),
                self@ == (ImageState { qrcodes: self@.qrcodes, ..old(self)@ }),
        {
            let ghost kept = self@.qrcodes;
            assert(code@ == before[iter.index()]);
            if code.uses > 0 {
                self.qrcodes.push(QrCode { text: code.text, image: code.image, uses: 0 });
                assert(self@.qrcodes =~= kept.push(
                    QrCodeView { uses: 0, ..before[iter.index()] },
                ));
            }
        }
    }

    /// Whether a background loader has to be started: none is running and
    /// the queue is not empty.
    pub fn loading_missing_image(&self, loader_running: bool) -> (start: bool)
        ensures
            start == (!loader_running && self@.pending.len() > 0),
    {
        !loader_running && self.data_pending.len() > 0
    }

    /// The oldest request that is still waiting, for the loader to work on.
    pub fn next_missing(&self) -> (request: Option<(u64, MediaType)>)
        ensures
            match request {
                Some((id, media)) => exists|i: int|
                    is_first_waiting(self@.pending, i) && self@.pending[i].id == id
                        && self@.pending[i].media == media,
                None => forall|i: int|
                    0 <= i < self@.pending.len() ==> !((#[trigger] self@.pending[i]).state is Waiting),
            },
    {
        let mut i: usize = 0;
        while i < self.data_pending.len()
            invariant
                i <= self.data_pending.len(),
                forall|j: int| 0 <= j < i ==> !((#[trigger] self.data_pending@[j]).state is Waiting),
            decreases self.data_pending.len() - i,
        {
            let entry = &self.data_pending[i];
            match entry.state {
                PendingState::Waiting => {
                    assert(is_first_waiting(self@.pending, i as int));
                    return Some((entry.id, entry.media));
                },
                _ => {},
            }
            i += 1;
        }
        None
    }

    /// Records the loader's report on a title, pixels or failure, and
    /// raises the update flag.
    pub fn complete_loading(&mut self, id: u64, icon: Option<Vec<u16>>)
        ensures
            final(self)@ == complete_icon(old(self)@, id, icon),
    {
        match self.find_pending(id) {
            Some(i) => {
                let media = self.data_pending[i].media;
                let state = match icon {
                    Some(pixels) => PendingState::Loaded(pixels),
                    None => PendingState::Failed,
                };
                self.data_pending.set(i, PendingIcon { id, media, state });
            },
            None => {},
        }
        self.need_update = true;
    }

    /// Resolves a title icon by id; see [`lookup_icon`].
    pub fn get_image_by_id(&mut self, id: u64, media: MediaType) -> (handle: Option<ImageHandle>)
        ensures
            (final(self)@, handle) == lookup_icon(old(self)@, id, media),
    {
        match self.data.get(&id) {
            Some(item) => {
                return if item.is_some() {
                    Some(ImageHandle::Icon(id))
                } else {
                    None
                };
            },
            None => {},
        }
        match self.raw.remove(&id) {
            Some(pixels) => {
                self.data.insert(id, Some(pixels));
                return Some(ImageHandle::Icon(id));
            },
            None => {},
        }
        assert(self@ == old(self)@) by {
            assert(self.raw@ =~= old(self).raw@);
        }
        match self.find_pending(id) {
            Some(i) => {
                match self.data_pending[i].state {
                    PendingState::Waiting => {
                        return None;
                    },
                    _ => {},
                }
                let entry = self.data_pending.remove(i);
                match entry.state {
                    PendingState::Loaded(pixels) => {
                        if pixels.len() > 0 {
                            self.data.insert(id, Some(pixels));
                            Some(ImageHandle::Icon(id))
                        } else {
                            self.data.insert(id, None);
                            None
                        }
                    },
                    _ => {
                        self.data.insert(id, None);
                        None
                    },
                }
            },
            None => {
                self.data_pending.push(PendingIcon { id, media, state: PendingState::Waiting });
                None
            },
        }
    }

    /// Resolves a title icon by its key: the title id in decimal, and the
    /// medium's name (`"sd"`, anything else meaning internal memory). A key
    /// that is not a number resolves to nothing and leaves the cache alone.
    pub fn get_image(&mut self, id: &str, media: &str) -> (handle: Option<ImageHandle>)
        ensures
            (final(self)@, handle) == lookup_image(old(self)@, id@, media@),
    {
        match parse_u64(id) {
            Some(n) => {
                let media = if str_eq(media, "sd") {
                    MediaType::Sd
                } else {
                    MediaType::Nand
                };
                self.get_image_by_id(n, media)
            },
            None => None,
        }
    }

    /// The requests queued for the loader, oldest first.
    pub fn pending(&self) -> (pending: &Vec<PendingIcon>)
        ensures
            pending@ == self@.pending,
    {
        &self.data_pending
    }

    /// The number of cached QR codes.
    pub fn qrcode_count(&self) -> (count: usize)
        ensures
            count == self@.qrcodes.len(),
    {
        self.qrcodes.len()
    }

    /// The pixels of a resident icon.
    pub fn icon_pixels(&self, id: u64) -> (pixels: Option<&Vec<u16>>)
        ensures
            match pixels {
                Some(p) => self@.data.contains_key(id) && self@.data[id] == Some(*p),
                None => !self@.data.contains_key(id) || self@.data[id].is_none(),
            },
    {
        match self.data.get(&id) {
            Some(item) => item.as_ref(),
            None => None,
        }
    }

    /// The pixels of a cached QR code, by its position in the list.
    pub fn qrcode_pixels(&self, index: usize) -> (pixels: Option<&Vec<u8>>)
        ensures
            match pixels {
                Some(p) => index < self@.qrcodes.len() && self@.qrcodes[index as int].image == p@,
                None => index >= self@.qrcodes.len(),
            },
    {
        if index < self.qrcodes.len() {
            Some(&self.qrcodes[index].image)
        } else {
            None
        }
    }
}

proof fn lemma_first_pending(pending: Seq<PendingIcon>, id: u64, i: int)
    requires
        is_first_pending(pending, id, i),
    ensures
        pending_index(pending, id) == Some(i),
{
    let c = choose|c: int| is_first_pending(pending, id, c);
    assert(is_first_pending(pending, id, c));
    if c < i {
        assert(pending[c].id != id);
    }
    if i < c {
        assert(pending[i].id != id);
    }
}

/// Miss, then hit. Asking for an icon that is neither resident, read ahead
/// nor queued returns nothing and queues exactly one request; asking again
/// while the request waits changes nothing. Once the loader has delivered
/// pixels, the update flag reads as raised once and then as lowered, and
/// the same key returns its handle: the pixels are resident and the request
/// has left the queue.
pub proof fn lemma_miss_then_hit(s: ImageState, id: u64, media: MediaType, pixels: Vec<u16>)
    requires
        !s.data.contains_key(id),
        !s.raw.contains_key(id),
        !has_pending(s.pending, id),
        !s.need_update,
        pixels.len() > 0,
    ensures
        ({
            let miss = lookup_icon(s, id, media);
            let again = lookup_icon(miss.0, id, media);
            let loaded = complete_icon(again.0, id, Some(pixels));
            let flag = take_update(loaded);
            let hit = lookup_icon(flag.0, id, media);
            let flag_again = take_update(hit.0);
            &&& miss.1.is_none()
            &&& miss.0.pending == s.pending.push(
                PendingIcon { id, media, state: PendingState::Waiting },
            )
            &&& again == (miss.0, None::<ImageHandle>)
            &&& flag.1
            &&& !flag_again.1
            &&& hit.1 == Some(ImageHandle::Icon(id))
            &&& hit.0.data == s.data.insert(id, Some(pixels))
            &&& hit.0.pending == s.pending
            &&& hit.0.raw == s.raw
        }),
{
    let n = s.pending.len() as int;
    assert forall|c: int| !is_first_pending(s.pending, id, c) by {
        if 0 <= c < s.pending.len() {
            assert(s.pending[c].id != id);
        }
    }
    let miss = lookup_icon(s, id, media);
    let queued = s.pending.push(PendingIcon { id, media, state: PendingState::Waiting });
    assert(miss.0.pending == queued);
    assert(is_first_pending(queued, id, n)) by {
        assert forall|j: int| 0 <= j < n implies (#[trigger] queued[j]).id != id by {
            assert(queued[j] == s.pending[j]);
        }
    }
    lemma_first_pending(queued, id, n);
    let again = lookup_icon(miss.0, id, media);
    assert(again == (miss.0, None::<ImageHandle>));
    let loaded = complete_icon(again.0, id, Some(pixels));
    let done = queued.update(n, PendingIcon { id, media, state: PendingState::Loaded(pixels) });
    assert(loaded.pending == done);
    assert(is_first_pending(done, id, n)) by {
        assert forall|j: int| 0 <= j < n implies (#[trigger] done[j]).id != id by {
            assert(done[j] == s.pending[j]);
        }
    }
    lemma_first_pending(done, id, n);
    let flag = take_update(loaded);
    let hit = lookup_icon(flag.0, id, media);
    assert(done.remove(n) =~= s.pending);
}

proof fn lemma_pixel_bytes(pixels: Seq<u16>)
    ensures
        pixel_bytes(pixels).len() == 2 * pixels.len(),
        forall|j: int|
            0 <= j < pixels.len() ==> pixel_bytes(pixels)[2 * j] == (#[trigger] pixels[j]) as u8
                && pixel_bytes(pixels)[2 * j + 1] == (pixels[j] >> 8) as u8,
    decreases pixels.len(),
{
    if pixels.len() > 0 {
        let head = pixels.drop_last();
        lemma_pixel_bytes(head);
        assert forall|j: int| 0 <= j < pixels.len() implies pixel_bytes(pixels)[2 * j] == (
        #[trigger] pixels[j]) as u8 && pixel_bytes(pixels)[2 * j + 1] == (pixels[j] >> 8) as u8 by {
            if j < head.len() {
                assert(head[j] == pixels[j]);
            }
        }
    }
}

/// What is written to the icon cache file is read back as it was: the
/// record of an icon holds exactly one whole record, with the icon's title
/// id and its pixels.
pub proof fn lemma_icon_record_round_trip(id: u64, pixels: Seq<u16>)
    requires
        pixels.len() == ICON_PIXELS,
    ensures
        record_count(icon_record(id, pixels)) == 1,
        record_id(icon_record(id, pixels), 0) == id,
        record_pixels(icon_record(id, pixels), 0) == pixels,
{
    let record = icon_record(id, pixels);
    lemma_pixel_bytes(pixels);
    assert(record.len() == ICON_RECORD_SIZE);
    assert(id == ((id >> 56) as u8 as u64) << 56 | ((id >> 48) as u8 as u64) << 48 | ((id >> 40) as u8
        as u64) << 40 | ((id >> 32) as u8 as u64) << 32 | ((id >> 24) as u8 as u64) << 24 | ((id
        >> 16) as u8 as u64) << 16 | ((id >> 8) as u8 as u64) << 8 | (id as u8 as u64))
        by (bit_vector);
    assert forall|j: int| 0 <= j < ICON_PIXELS implies record_pixel(record, 0, j) == pixels[j] by {
        let p = pixels[j];
        assert(record[8 + 2 * j] == pixel_bytes(pixels)[2 * j]);
        assert(record[8 + 2 * j + 1] == pixel_bytes(pixels)[2 * j + 1]);
        assert(p == (p as u8 as u16) | ((p >> 8) as u8 as u16) << 8) by (bit_vector);
    }
    assert(record_pixels(record, 0) =~= pixels);
}

} // verus!
