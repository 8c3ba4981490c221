//! What is on the clipboard, and what of it is new.

use crate::codec::{
    decode_image, encode_png, file_pixels, holds_rgba, is_lower_hex, png_file, png_signature_text,
    rgba_len, IMAGE_READER_LIMIT_BYTES,
};
use crate::config::default_poll_interval;
use crate::security::{bytes_hash, calculate_bytes_hash};
use crate::text::{chars_of, same_text, starts_with};
use vstd::prelude::*;

pub mod arboard_backend;
pub mod windows;
pub mod x11;

verus! {

/// The error of the system clipboard.
#[verifier::external_type_specification]
#[verifier::external_body]
pub struct ExArboardError(arboard::Error);

/// Something that can be copied and pasted.
#[derive(Debug)]
pub enum ClipboardItem {
    Text(String),
    ImagePng(Vec<u8>),
    /// The path of a copied file, in the encoding of the platform.
    FilePath(Vec<u8>),
}

/// A clipboard item with its text as a character sequence.
pub enum ClipboardItemView {
    Text(Seq<char>),
    ImagePng(Seq<u8>),
    FilePath(Seq<u8>),
}

impl View for ClipboardItem {
    type V = ClipboardItemView;

    open spec fn view(&self) -> ClipboardItemView {
        match *self {
            ClipboardItem::Text(text) => ClipboardItemView::Text(text@),
            ClipboardItem::ImagePng(png) => ClipboardItemView::ImagePng(png@),
            ClipboardItem::FilePath(path) => ClipboardItemView::FilePath(path@),
        }
    }
}

/// What an optional item is.
pub open spec fn optional_item(item: Option<ClipboardItem>) -> Option<ClipboardItemView> {
    match item {
        Some(item) => Some(item@),
        None => None,
    }
}

/// What optional bytes hold.
pub open spec fn optional_bytes(bytes: Option<Vec<u8>>) -> Option<Seq<u8>> {
    match bytes {
        Some(bytes) => Some(bytes@),
        None => None,
    }
}

/// Why a clipboard cannot be read, written or watched.
#[derive(Debug, Clone)]
pub struct ClipboardError {
    pub message: String,
}

/// Access to a clipboard.
pub trait ClipboardBackend: Send {
    /// The name of the backend.
    fn name(&self) -> &'static str;

    /// What has come onto the clipboard since the last snapshot, if anything has.
    fn read_snapshot(&mut self) -> Result<Option<ClipboardItem>, ClipboardError>;

    /// Puts an item onto the clipboard.
    fn write_item(&mut self, item: ClipboardItem) -> Result<(), ClipboardError>;
}

/// A source of clipboard changes.
pub trait ClipboardWatcher: Send {
    /// Returns when the clipboard may have changed.
    fn wait_for_change(&mut self) -> Result<(), ClipboardError>;
}

/// A watcher for clipboards that do not report changes: it lets an interval pass.
#[derive(Debug, Clone)]
pub struct PollingWatcher {
    interval_ms: u64,
}

impl PollingWatcher {
    /// The milliseconds between two looks at the clipboard.
    pub closed spec fn interval(self) -> u64 {
        self.interval_ms
    }

    /// A watcher with the default interval.
    pub fn new() -> (watcher: Self)
        ensures
            watcher.interval() == 300,
    {
        PollingWatcher { interval_ms: default_poll_interval() }
    }

    /// A watcher with a configured interval.
    pub fn with_interval(interval_ms: u64) -> (watcher: Self)
        ensures
            watcher.interval() == interval_ms,
    {
        PollingWatcher { interval_ms }
    }

    /// How long to wait before the next look at the clipboard, in milliseconds.
    pub fn interval_ms(&self) -> (interval_ms: u64)
        ensures
            interval_ms == self.interval(),
    {
        self.interval_ms
    }
}

/// Why an image cannot be put into another form.
#[derive(Debug, Clone, Copy, PartialEq, Eq, Structural)]
pub enum ImageFailure {
    /// The pixels are fewer than the dimensions say.
    InvalidDimensions,
    /// The image has no pixels, so it cannot be written as PNG.
    Encoding,
    /// The file cannot be read as an image.
    Decoding,
}

/// The PNG file of an RGBA image in a buffer: there is one wherever there are pixels and the buffer
/// holds them.
pub open spec fn png_outcome(width: u32, height: u32, rgba: Seq<u8>) -> Result<
    Seq<u8>,
    ImageFailure,
> {
    if !holds_rgba(width, height, rgba.len()) {
        Err(ImageFailure::InvalidDimensions)
    } else if width == 0 || height == 0 {
        Err(ImageFailure::Encoding)
    } else {
        Ok(png_file(width, height, rgba.take(rgba_len(width, height))))
    }
}

/// What the reader finds in the PNG file of an RGBA image in a buffer: the very pixels, unless they
/// take up more memory than it allows itself.
pub open spec fn read_back(width: u32, height: u32, rgba: Seq<u8>) -> Option<(u32, u32, Seq<u8>)> {
    if rgba_len(width, height) <= IMAGE_READER_LIMIT_BYTES {
        Some((width, height, rgba.take(rgba_len(width, height))))
    } else {
        None
    }
}

/// The hash that stands for an image whatever file it came in: that of the PNG file that this
/// crate makes of its pixels.
pub open spec fn canonical_hash_outcome(width: u32, height: u32, rgba: Seq<u8>) -> Result<
    Seq<char>,
    ImageFailure,
> {
    match png_outcome(width, height, rgba) {
        Ok(png) => Ok(bytes_hash(png)),
        Err(failure) => Err(failure),
    }
}

/// The hash that stands for the image in a file: every file that can be read has one, and files
/// with the same pixels have the same.
pub open spec fn canonical_file_hash_outcome(file: Seq<u8>) -> Result<Seq<char>, ImageFailure> {
    match file_pixels(file) {
        Some((width, height, pixels)) => Ok(bytes_hash(png_file(width, height, pixels))),
        None => Err(ImageFailure::Decoding),
    }
}

/// Whether a hash or a failure is the expected one. A hash has 64 lower case hexadecimal digits.
pub open spec fn is_hash_outcome(
    actual: Result<String, ImageFailure>,
    expected: Result<Seq<char>, ImageFailure>,
) -> bool {
    match (actual, expected) {
        (Ok(hash), Ok(expected)) => {
            &&& hash@ == expected
            &&& hash@.len() == 64
            &&& forall|i: int| 0 <= i < 64 ==> is_lower_hex(#[trigger] hash@[i])
        },
        (Err(failure), Err(expected)) => failure == expected,
        _ => false,
    }
}

/// Writes an RGBA image as a PNG file. Dimensions count modulo the range of the format's own. The
/// reader finds the very pixels in the file, alpha included.
pub fn rgba_to_png(width: usize, height: usize, rgba: &[u8]) -> (png: Result<Vec<u8>, ImageFailure>)
    ensures
        match (png, png_outcome(width as u32, height as u32, rgba@)) {
            (Ok(png), Ok(expected)) => png@ == expected,
            (Err(failure), Err(expected)) => failure == expected,
            _ => false,
        },
        png matches Ok(file) ==> file_pixels(file@) == read_back(
            width as u32,
            height as u32,
            rgba@,
        ),
{
    match encode_png(width as u32, height as u32, rgba) {
        Ok(Some(png)) => Ok(png),
        Ok(None) => Err(ImageFailure::InvalidDimensions),
        Err(_) => Err(ImageFailure::Encoding),
    }
}

proof fn lemma_row_is_part_of_image(width: u32, height: u32)
    requires
        height > 0,
    ensures
        4 * width <= rgba_len(width, height),
{
    assert(4 * width <= 4 * width * height) by (nonlinear_arith)
        requires
            height > 0,
    ;
}

/// The hash that stands for the image in a file.
pub fn canonical_image_hash_from_png(bytes: &[u8]) -> (hash: Result<String, ImageFailure>)
    ensures
        is_hash_outcome(hash, canonical_file_hash_outcome(bytes@)),
{
    match decode_image(bytes) {
        Ok((width, height, pixels)) => {
            proof {
                lemma_row_is_part_of_image(width, height);
                assert(pixels@.take(rgba_len(width, height)) =~= pixels@);
                assert(pixels@.len() == pixels.len());
            }
            canonical_image_hash_from_rgba(width as usize, height as usize, &pixels)
        },
        Err(_) => Err(ImageFailure::Decoding),
    }
}

/// The hash that stands for an RGBA image.
pub fn canonical_image_hash_from_rgba(width: usize, height: usize, rgba: &[u8]) -> (hash: Result<
    String,
    ImageFailure,
>)
    ensures
        is_hash_outcome(hash, canonical_hash_outcome(width as u32, height as u32, rgba@)),
{
    match rgba_to_png(width, height, rgba) {
        Ok(png) => Ok(calculate_bytes_hash(&png)),
        Err(failure) => Err(failure),
    }
}

/// Takes the text that is on the clipboard for seen, if there is any.
pub fn mark_current_text_seen(last_text: &mut String, text: Result<String, arboard::Error>)
    ensures
        final(last_text)@ == (match text {
            Ok(text) => text@,
            Err(_) => old(last_text)@,
        }),
{
    if let Ok(text) = text {
        *last_text = text;
    }
}

/// The name of the backend for a platform and a session.
pub open spec fn backend_name(session_type: Option<Seq<char>>, is_windows: bool) -> Seq<char> {
    if is_windows {
        "windows"@
    } else if session_type == Some("x11"@) {
        "x11"@
    } else {
        "arboard"@
    }
}

/// The name of the backend for a platform and a session.
pub fn select_backend_name(session_type: Option<&str>, is_windows: bool) -> (name: &'static str)
    ensures
        name@ == backend_name(crate::text::optional_str(session_type), is_windows),
{
    if is_windows {
        return "windows";
    }
    match session_type {
        Some(session) => if same_text(session, "x11") {
            "x11"
        } else {
            "arboard"
        },
        None => "arboard",
    }
}

/// Whether a text is what a PNG file looks like when a clipboard offers it as text.
pub fn clipboard_text_looks_like_png_bytes(text: &str) -> (looks: bool)
    ensures
        looks == png_signature_text().is_prefix_of(text@),
{
    let chars = chars_of(text);
    let signature = "\u{fffd}PNG\r\n\u{1a}\n";
    proof {
        reveal_strlit("\u{fffd}PNG\r\n\u{1a}\n");
        assert(signature@ =~= png_signature_text());
    }
    starts_with(&chars, signature)
}

/// An RGBA image as a clipboard hands it out.
#[derive(Debug)]
pub struct RawImage {
    pub width: usize,
    pub height: usize,
    pub bytes: Vec<u8>,
}

/// What a backend has handed out last, in model form.
pub struct SeenView {
    pub text: Seq<char>,
    pub image_hash: Seq<char>,
}

/// What a look at the clipboard leaves behind and hands out.
pub struct Sighting {
    pub seen: SeenView,
    pub item: Option<ClipboardItemView>,
}

/// An image whose hash is not the last one is handed out, and its hash kept.
pub open spec fn image_sighting(seen: SeenView, png: Seq<u8>, hash: Seq<char>) -> Sighting {
    if hash == seen.image_hash {
        Sighting { seen, item: None }
    } else {
        Sighting {
            seen: SeenView { image_hash: hash, ..seen },
            item: Some(ClipboardItemView::ImagePng(png)),
        }
    }
}

/// A text that is not the last one is handed out, and kept.
pub open spec fn text_sighting(seen: SeenView, text: Seq<char>) -> Sighting {
    if text == seen.text {
        Sighting { seen, item: None }
    } else {
        Sighting { seen: SeenView { text, ..seen }, item: Some(ClipboardItemView::Text(text)) }
    }
}

/// A text is handed out if it is new, unless it is a PNG file in the guise of a text.
pub open spec fn plain_text_sighting(seen: SeenView, text: Seq<char>) -> Sighting {
    if png_signature_text().is_prefix_of(text) {
        Sighting { seen, item: None }
    } else {
        text_sighting(seen, text)
    }
}

/// What a backend has handed out last: nothing is handed out twice in a row.
#[derive(Debug)]
pub struct Seen {
    last_text: String,
    last_image_hash: String,
}

impl View for Seen {
    type V = SeenView;

    closed spec fn view(&self) -> SeenView {
        SeenView { text: self.last_text@, image_hash: self.last_image_hash@ }
    }
}

impl Seen {
    /// Nothing has been handed out.
    pub fn new() -> (seen: Self)
        ensures
            seen@.text == Seq::<char>::empty(),
            seen@.image_hash == Seq::<char>::empty(),
    {
        Seen { last_text: String::new(), last_image_hash: String::new() }
    }

    /// Hands out an image if its hash is new.
    pub fn take_image(&mut self, png: Vec<u8>, hash: String) -> (item: Option<ClipboardItem>)
        ensures
            image_sighting(old(self)@, png@, hash@) == (Sighting {
                seen: final(self)@,
                item: optional_item(item),
            }),
    {
        if same_text(&hash, &self.last_image_hash) {
            return None;
        }
        self.last_image_hash = hash;
        Some(ClipboardItem::ImagePng(png))
    }

    /// Hands out a text if it is new.
    pub fn take_text(&mut self, text: String) -> (item: Option<ClipboardItem>)
        ensures
            text_sighting(old(self)@, text@) == (Sighting {
                seen: final(self)@,
                item: optional_item(item),
            }),
    {
        if same_text(&text, &self.last_text) {
            return None;
        }
        self.last_text = text.clone();
        Some(ClipboardItem::Text(text))
    }

    /// Hands out a text if it is new and no PNG file in the guise of a text.
    pub fn take_plain_text(&mut self, text: String) -> (item: Option<ClipboardItem>)
        ensures
            plain_text_sighting(old(self)@, text@) == (Sighting {
                seen: final(self)@,
                item: optional_item(item),
            }),
    {
        if clipboard_text_looks_like_png_bytes(&text) {
            return None;
        }
        self.take_text(text)
    }

    /// Takes the image in a file for handed out.
    pub fn note_image(&mut self, file: &[u8]) -> (noted: Result<(), ImageFailure>)
        ensures
            final(self)@.text == old(self)@.text,
            match canonical_file_hash_outcome(file@) {
                Ok(hash) => noted is Ok && final(self)@.image_hash == hash,
                Err(failure) => {
                    &&& noted == Err::<(), ImageFailure>(failure)
                    &&& final(self)@ == old(self)@
                },
            },
    {
        match canonical_image_hash_from_png(file) {
            Ok(hash) => {
                self.last_image_hash = hash;
                Ok(())
            },
            Err(failure) => Err(failure),
        }
    }

    /// Takes the text that is on the clipboard for handed out, if there is any.
    pub fn note_text(&mut self, text: Result<String, arboard::Error>)
        ensures
            final(self)@ == (match text {
                Ok(text) => SeenView { text: text@, ..old(self)@ },
                Err(_) => old(self)@,
            }),
    {
        mark_current_text_seen(&mut self.last_text, text)
    }

    /// Hands out an RGBA image, as PNG, if it is new.
    pub fn take_raw_image(&mut self, image: RawImage) -> (item: Result<
        Option<ClipboardItem>,
        ImageFailure,
    >)
        ensures
            match png_outcome(image.width as u32, image.height as u32, image.bytes@) {
                Ok(png) => {
                    &&& item matches Ok(item)
                    &&& image_sighting(old(self)@, png, bytes_hash(png)) == (Sighting {
                        seen: final(self)@,
                        item: optional_item(item),
                    })
                },
                Err(failure) => {
                    &&& item matches Err(actual)
                    &&& actual == failure
                    &&& final(self)@ == old(self)@
                },
            },
    {
        match rgba_to_png(image.width, image.height, &image.bytes) {
            Ok(png) => {
                let hash = calculate_bytes_hash(&png);
                Ok(self.take_image(png, hash))
            },
            Err(failure) => Err(failure),
        }
    }
}

/// What has been handed out is not handed out again at the next look, be it text or image.
pub proof fn nothing_is_handed_out_twice_in_a_row(
    seen: SeenView,
    text: Seq<char>,
    png: Seq<u8>,
    hash: Seq<char>,
)
    ensures
        text_sighting(text_sighting(seen, text).seen, text).item is None,
        plain_text_sighting(plain_text_sighting(seen, text).seen, text).item is None,
        image_sighting(image_sighting(seen, png, hash).seen, png, hash).item is None,
        text_sighting(text_sighting(seen, text).seen, text).seen == text_sighting(seen, text).seen,
        image_sighting(image_sighting(seen, png, hash).seen, png, hash).seen == image_sighting(
            seen,
            png,
            hash,
        ).seen,
{
}

/// An image that was put onto the clipboard is not handed out as new when the clipboard offers its
/// pixels back.
pub proof fn written_image_is_not_new(
    seen: SeenView,
    file: Seq<u8>,
    width: u32,
    height: u32,
    pixels: Seq<u8>,
    png: Seq<u8>,
)
    requires
        file_pixels(file) == Some((width, height, pixels)),
        pixels.len() == rgba_len(width, height),
        png_outcome(width, height, pixels) == Ok::<Seq<u8>, ImageFailure>(png),
        canonical_file_hash_outcome(file) == Ok::<Seq<char>, ImageFailure>(seen.image_hash),
    ensures
        image_sighting(seen, png, bytes_hash(png)).item is None,
{
    assert(pixels.take(rgba_len(width, height)) =~= pixels);
}

/// An image with pixels is written as PNG exactly when the buffer holds all of them.
pub proof fn images_with_pixels_are_written(width: u32, height: u32, rgba: Seq<u8>)
    requires
        width > 0,
        height > 0,
        rgba.len() <= usize::MAX,
    ensures
        rgba.len() >= rgba_len(width, height) ==> png_outcome(width, height, rgba) is Ok,
        rgba.len() < rgba_len(width, height) ==> png_outcome(width, height, rgba) == Err::<
            Seq<u8>,
            ImageFailure,
        >(ImageFailure::InvalidDimensions),
{
    lemma_row_is_part_of_image(width, height);
}

/// An image has one hash, whatever file it comes in: files with the same pixels and the pixels
/// themselves have the same, and bytes that are no image have none.
pub proof fn same_pixels_have_the_same_hash(
    a: Seq<u8>,
    b: Seq<u8>,
    width: u32,
    height: u32,
    pixels: Seq<u8>,
)
    requires
        width > 0,
        height > 0,
        pixels.len() == rgba_len(width, height),
        pixels.len() <= usize::MAX,
        file_pixels(a) == Some((width, height, pixels)),
    ensures
        canonical_file_hash_outcome(a) is Ok,
        canonical_file_hash_outcome(a) == canonical_hash_outcome(width, height, pixels),
        file_pixels(b) == file_pixels(a) ==> canonical_file_hash_outcome(b)
            == canonical_file_hash_outcome(a),
        file_pixels(b) is None ==> canonical_file_hash_outcome(b) is Err,
{
    lemma_row_is_part_of_image(width, height);
    assert(pixels.take(rgba_len(width, height)) =~= pixels);
}

/// The hash that stands for an image is that of its PNG file, so an image is known by the hash
/// under which it travels: the file that this crate makes of it, read again, has its own hash.
pub proof fn own_files_have_their_own_hash(width: u32, height: u32, rgba: Seq<u8>, png: Seq<u8>)
    requires
        png_outcome(width, height, rgba) == Ok::<Seq<u8>, ImageFailure>(png),
        rgba_len(width, height) <= IMAGE_READER_LIMIT_BYTES,
        file_pixels(png) == read_back(width, height, rgba),
    ensures
        canonical_file_hash_outcome(png) == Ok::<Seq<char>, ImageFailure>(bytes_hash(png)),
{
}

/// Different images have different files, and it is the file that is hashed: the width and the
/// height count as well as the pixels. That a file reads back to its image is what `rgba_to_png`
/// ensures.
pub proof fn different_images_have_different_files(
    width_a: u32,
    height_a: u32,
    rgba_a: Seq<u8>,
    png_a: Seq<u8>,
    width_b: u32,
    height_b: u32,
    rgba_b: Seq<u8>,
    png_b: Seq<u8>,
)
    requires
        png_outcome(width_a, height_a, rgba_a) == Ok::<Seq<u8>, ImageFailure>(png_a),
        png_outcome(width_b, height_b, rgba_b) == Ok::<Seq<u8>, ImageFailure>(png_b),
        rgba_len(width_a, height_a) <= IMAGE_READER_LIMIT_BYTES,
        rgba_len(width_b, height_b) <= IMAGE_READER_LIMIT_BYTES,
        file_pixels(png_a) == read_back(width_a, height_a, rgba_a),
        file_pixels(png_b) == read_back(width_b, height_b, rgba_b),
    ensures
        (width_a, height_a, rgba_a.take(rgba_len(width_a, height_a))) != (
            width_b,
            height_b,
            rgba_b.take(rgba_len(width_b, height_b)),
        ) ==> png_a != png_b,
{
}

/// A text that an image has left on the clipboard is not handed out once it was taken for seen.
pub proof fn stale_text_is_not_new(seen: SeenView, text: Seq<char>)
    ensures
        text_sighting(SeenView { text, ..seen }, text).item is None,
        plain_text_sighting(SeenView { text, ..seen }, text).item is None,
{
}

/// A PNG file in the guise of a text is never handed out as a text.
pub proof fn png_text_is_not_handed_out(seen: SeenView, text: Seq<char>)
    requires
        png_signature_text().is_prefix_of(text),
    ensures
        plain_text_sighting(seen, text).item is None,
        plain_text_sighting(seen, text).seen == seen,
{
}

} // verus!
