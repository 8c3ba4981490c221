//! What a look at a clipboard hands out, and what is remembered of it.

use crate::clipboard::arboard_backend::{
    offered_text_sighting, ArboardBackend, ArboardStep, ArboardWrite,
};
use crate::clipboard::windows::{
    bitmap_has_header_and_pixels, dib_bytes, WindowsBackend, WindowsWrite,
};
use crate::clipboard::x11::{
    x11_image_sighting, x11_text_sighting, TargetWrite, X11Backend, X11Error, X11Step,
};
use crate::clipboard::{
    backend_name, clipboard_text_looks_like_png_bytes, image_sighting, mark_current_text_seen,
    optional_bytes, optional_item, plain_text_sighting, select_backend_name, text_sighting,
    ClipboardItem, ClipboardItemView, ImageFailure, PollingWatcher, RawImage, Seen, SeenView,
    Sighting,
};
use crate::codec::{file_pixels, lossy_text, png_file};
use crate::security::bytes_hash;
use vstd::prelude::*;
use vstd::utf8::{encode_utf8, encode_utf8_decode_utf8, encode_utf8_valid_utf8};

verus! {

/// Items and bytes are seen whole: nothing of them is left out of sight.
pub proof fn items_are_seen_whole(item: ClipboardItem, bytes: Vec<u8>)
    ensures
        match item {
            ClipboardItem::Text(text) => item@ == ClipboardItemView::Text(text@),
            ClipboardItem::ImagePng(png) => item@ == ClipboardItemView::ImagePng(png@),
            ClipboardItem::FilePath(path) => item@ == ClipboardItemView::FilePath(path@),
        },
        optional_item(None) is None,
        optional_item(Some(item)) == Some(item@),
        optional_bytes(None) is None,
        optional_bytes(Some(bytes)) == Some(bytes@),
{
}

/// Every text that differs from the last is handed out, whole, and remembered; the last is neither
/// handed out again nor forgotten; and the last image stays what it was.
pub proof fn every_new_text_is_handed_out(seen: SeenView, text: Seq<char>)
    ensures
        text != seen.text ==> text_sighting(seen, text).item == Some(ClipboardItemView::Text(text)),
        text == seen.text ==> text_sighting(seen, text).item is None,
        text_sighting(seen, text).seen.text == text,
        text_sighting(seen, text).seen.image_hash == seen.image_hash,
{
}

/// Every text that differs from the last and is no PNG file is handed out, whole, and remembered.
/// Any other is not handed out and changes nothing.
pub proof fn every_new_plain_text_is_handed_out(seen: SeenView, text: Seq<char>)
    ensures
        ({
            let signature = seq!['\u{fffd}', 'P', 'N', 'G', '\r', '\n', '\u{1a}', '\n'];
            let sighting = plain_text_sighting(seen, text);
            if text != seen.text && !signature.is_prefix_of(text) {
                &&& sighting.item == Some(ClipboardItemView::Text(text))
                &&& sighting.seen.text == text
                &&& sighting.seen.image_hash == seen.image_hash
            } else {
                sighting.item is None && sighting.seen == seen
            }
        }),
{
}

/// Every image whose hash differs from the last is handed out, byte for byte, and its hash is
/// remembered; the last is not handed out again; and the last text stays what it was.
pub proof fn every_new_image_is_handed_out(seen: SeenView, png: Seq<u8>, hash: Seq<char>)
    ensures
        hash != seen.image_hash ==> image_sighting(seen, png, hash).item == Some(
            ClipboardItemView::ImagePng(png),
        ),
        hash == seen.image_hash ==> image_sighting(seen, png, hash).item is None,
        image_sighting(seen, png, hash).seen.image_hash == hash,
        image_sighting(seen, png, hash).seen.text == seen.text,
{
}

/// The halves of a snapshot: an image by the hash of its bytes, a text as the bytes read as text,
/// and nothing where nothing is offered.
pub proof fn halves_of_a_snapshot_are_taken_as_offered(
    seen: SeenView,
    bytes: Seq<u8>,
    text: Seq<char>,
)
    ensures
        x11_image_sighting(seen, None) == (Sighting { seen, item: None }),
        x11_text_sighting(seen, None) == (Sighting { seen, item: None }),
        offered_text_sighting(seen, None) == (Sighting { seen, item: None }),
        x11_image_sighting(seen, Some(bytes)) == (if bytes_hash(bytes) == seen.image_hash {
            Sighting { seen, item: None }
        } else {
            Sighting {
                seen: SeenView { text: seen.text, image_hash: bytes_hash(bytes) },
                item: Some(ClipboardItemView::ImagePng(bytes)),
            }
        }),
        ({
            let signature = seq!['\u{fffd}', 'P', 'N', 'G', '\r', '\n', '\u{1a}', '\n'];
            let read = lossy_text(bytes);
            x11_text_sighting(seen, Some(bytes)) == (if read == seen.text || signature.is_prefix_of(
                read,
            ) {
                Sighting { seen, item: None }
            } else {
                Sighting {
                    seen: SeenView { text: read, image_hash: seen.image_hash },
                    item: Some(ClipboardItemView::Text(read)),
                }
            })
        }),
        ({
            let signature = seq!['\u{fffd}', 'P', 'N', 'G', '\r', '\n', '\u{1a}', '\n'];
            offered_text_sighting(seen, Some(text)) == (if text == seen.text
                || signature.is_prefix_of(text) {
                Sighting { seen, item: None }
            } else {
                Sighting {
                    seen: SeenView { text, image_hash: seen.image_hash },
                    item: Some(ClipboardItemView::Text(text)),
                }
            })
        }),
{
    assert(x11_image_sighting(seen, Some(bytes)).seen.text == seen.text);
}

/// A snapshot of the X11 clipboard hands out the image, byte for byte, if its hash is not the last;
/// else the text, if it is not the last and no PNG file; else nothing. What is handed out is
/// remembered, and nothing else changes.
pub proof fn x11_snapshots_hand_out_what_is_new(
    backend: &mut X11Backend,
    image: Option<Vec<u8>>,
    text: Option<Vec<u8>>,
    item: Option<ClipboardItem>,
)
    requires
        call_ensures(X11Backend::read_snapshot, (backend, image, text), item),
    ensures
        ({
            let before = old(backend)@;
            let after = final(backend)@;
            let signature = seq!['\u{fffd}', 'P', 'N', 'G', '\r', '\n', '\u{1a}', '\n'];
            if image is Some && bytes_hash(image->0@) != before.image_hash {
                &&& item matches Some(ClipboardItem::ImagePng(png))
                &&& png@ == image->0@
                &&& after.image_hash == bytes_hash(image->0@)
                &&& after.text == before.text
            } else if text is Some && lossy_text(text->0@) != before.text
                && !signature.is_prefix_of(lossy_text(text->0@)) {
                &&& item matches Some(ClipboardItem::Text(read))
                &&& read@ == lossy_text(text->0@)
                &&& after.text == lossy_text(text->0@)
                &&& after.image_hash == before.image_hash
            } else {
                item is None && after == before
            }
        }),
{
}

/// A snapshot of the X11 clipboard that offers just a text, in UTF-8, hands out exactly that text
/// and remembers it, for every text that differs from the last and is no PNG file.
pub proof fn x11_snapshots_hand_out_every_new_text(
    backend: &mut X11Backend,
    text: Seq<char>,
    bytes: Vec<u8>,
    item: Option<ClipboardItem>,
)
    requires
        bytes@ == encode_utf8(text),
        call_ensures(X11Backend::read_snapshot, (backend, None, Some(bytes)), item),
        text != old(backend)@.text,
        !seq!['\u{fffd}', 'P', 'N', 'G', '\r', '\n', '\u{1a}', '\n'].is_prefix_of(text),
    ensures
        item matches Some(ClipboardItem::Text(read)) && read@ == text,
        final(backend)@.text == text,
        final(backend)@.image_hash == old(backend)@.image_hash,
{
    encode_utf8_valid_utf8(text);
    encode_utf8_decode_utf8(text);
}

/// The halves of a snapshot of the X11 clipboard hand out what the whole would: a new image, and
/// else a new text that is no PNG file.
pub proof fn x11_halves_hand_out_what_is_new(
    first: &mut X11Backend,
    image: Option<Vec<u8>>,
    step: X11Step,
    second: &mut X11Backend,
    text: Option<Vec<u8>>,
    item: Option<ClipboardItem>,
)
    requires
        call_ensures(X11Backend::image_read, (first, image), step),
        call_ensures(X11Backend::text_read, (second, text), item),
    ensures
        if image is Some && bytes_hash(image->0@) != old(first)@.image_hash {
            &&& step matches X11Step::Done(ClipboardItem::ImagePng(png))
            &&& png@ == image->0@
            &&& final(first)@.image_hash == bytes_hash(image->0@)
            &&& final(first)@.text == old(first)@.text
        } else {
            step is ReadText && final(first)@ == old(first)@
        },
        ({
            let signature = seq!['\u{fffd}', 'P', 'N', 'G', '\r', '\n', '\u{1a}', '\n'];
            if text is Some && lossy_text(text->0@) != old(second)@.text
                && !signature.is_prefix_of(lossy_text(text->0@)) {
                &&& item matches Some(ClipboardItem::Text(read))
                &&& read@ == lossy_text(text->0@)
                &&& final(second)@.text == lossy_text(text->0@)
                &&& final(second)@.image_hash == old(second)@.image_hash
            } else {
                item is None && final(second)@ == old(second)@
            }
        }),
{
}

/// A snapshot of a clipboard without a backend of its own hands out the image, as the PNG file of
/// its pixels, if its hash is not the last; else the text, if it is not the last and no PNG file;
/// else nothing. It fails, and changes nothing, exactly where there is an image that cannot be
/// written.
pub proof fn offered_snapshots_hand_out_what_is_new(
    backend: &mut ArboardBackend,
    image: Option<RawImage>,
    text: Option<String>,
    item: Result<Option<ClipboardItem>, ImageFailure>,
)
    requires
        call_ensures(ArboardBackend::read_snapshot, (backend, image, text), item),
    ensures
        ({
            let before = old(backend)@;
            let after = final(backend)@;
            let signature = seq!['\u{fffd}', 'P', 'N', 'G', '\r', '\n', '\u{1a}', '\n'];
            let width = image->0.width as u32;
            let height = image->0.height as u32;
            let bytes = image->0.bytes@;
            let held = 4 * width <= usize::MAX && 4 * width * height <= bytes.len();
            let file = png_file(width, height, bytes.take(4 * width * height));
            if image is Some && !held {
                item == Err::<Option<ClipboardItem>, ImageFailure>(ImageFailure::InvalidDimensions)
                    && after == before
            } else if image is Some && (width == 0 || height == 0) {
                item == Err::<Option<ClipboardItem>, ImageFailure>(ImageFailure::Encoding) && after
                    == before
            } else if image is Some && bytes_hash(file) != before.image_hash {
                &&& item matches Ok(Some(ClipboardItem::ImagePng(png)))
                &&& png@ == file
                &&& after.image_hash == bytes_hash(file)
                &&& after.text == before.text
            } else if text is Some && text->0@ != before.text && !signature.is_prefix_of(
                text->0@,
            ) {
                &&& item matches Ok(Some(ClipboardItem::Text(read)))
                &&& read@ == text->0@
                &&& after.text == text->0@
                &&& after.image_hash == before.image_hash
            } else {
                item matches Ok(none) && none is None && after == before
            }
        }),
{
}

/// A snapshot of a clipboard without a backend of its own that offers just a text hands out exactly
/// that text and remembers it, for every text that differs from the last and is no PNG file.
pub proof fn offered_snapshots_hand_out_every_new_text(
    backend: &mut ArboardBackend,
    text: String,
    item: Result<Option<ClipboardItem>, ImageFailure>,
)
    requires
        call_ensures(ArboardBackend::read_snapshot, (backend, None, Some(text)), item),
        text@ != old(backend)@.text,
        !seq!['\u{fffd}', 'P', 'N', 'G', '\r', '\n', '\u{1a}', '\n'].is_prefix_of(text@),
    ensures
        item matches Ok(Some(ClipboardItem::Text(read))) && read@ == text@,
        final(backend)@.text == text@,
        final(backend)@.image_hash == old(backend)@.image_hash,
{
}

/// The halves of a snapshot of a clipboard without a backend of its own hand out what the whole
/// would.
pub proof fn offered_halves_hand_out_what_is_new(
    first: &mut ArboardBackend,
    image: RawImage,
    step: Result<ArboardStep, ImageFailure>,
    second: &mut ArboardBackend,
    text: Option<String>,
    item: Option<ClipboardItem>,
)
    requires
        call_ensures(ArboardBackend::image_read, (first, Some(image)), step),
        call_ensures(ArboardBackend::text_read, (second, text), item),
    ensures
        ({
            let width = image.width as u32;
            let height = image.height as u32;
            let held = 4 * width <= usize::MAX && 4 * width * height <= image.bytes@.len();
            let file = png_file(width, height, image.bytes@.take(4 * width * height));
            if !held || width == 0 || height == 0 {
                step is Err && final(first)@ == old(first)@
            } else if bytes_hash(file) != old(first)@.image_hash {
                &&& step matches Ok(ArboardStep::Done(ClipboardItem::ImagePng(png)))
                &&& png@ == file
                &&& final(first)@.image_hash == bytes_hash(file)
                &&& final(first)@.text == old(first)@.text
            } else {
                step matches Ok(step) && step is ReadText && final(first)@ == old(first)@
            }
        }),
        ({
            let signature = seq!['\u{fffd}', 'P', 'N', 'G', '\r', '\n', '\u{1a}', '\n'];
            if text is Some && text->0@ != old(second)@.text && !signature.is_prefix_of(text->0@) {
                &&& item matches Some(ClipboardItem::Text(read))
                &&& read@ == text->0@
                &&& final(second)@.text == text->0@
                &&& final(second)@.image_hash == old(second)@.image_hash
            } else {
                item is None && final(second)@ == old(second)@
            }
        }),
{
}

/// A text is taken by what it is: a new one is handed out, whole, and remembered.
pub proof fn taken_texts_are_handed_out(
    seen: &mut Seen,
    text: String,
    item: Option<ClipboardItem>,
)
    requires
        call_ensures(Seen::take_text, (seen, text), item),
    ensures
        text@ != old(seen)@.text <==> item is Some,
        item matches Some(item) ==> (item matches ClipboardItem::Text(taken) && taken@ == text@),
        final(seen)@.text == text@,
        final(seen)@.image_hash == old(seen)@.image_hash,
{
}

/// A text that may be a PNG file is taken likewise, unless it is one.
pub proof fn taken_plain_texts_are_handed_out(
    seen: &mut Seen,
    text: String,
    item: Option<ClipboardItem>,
)
    requires
        call_ensures(Seen::take_plain_text, (seen, text), item),
    ensures
        ({
            let signature = seq!['\u{fffd}', 'P', 'N', 'G', '\r', '\n', '\u{1a}', '\n'];
            if text@ != old(seen)@.text && !signature.is_prefix_of(text@) {
                &&& item matches Some(ClipboardItem::Text(taken))
                &&& taken@ == text@
                &&& final(seen)@.text == text@
                &&& final(seen)@.image_hash == old(seen)@.image_hash
            } else {
                item is None && final(seen)@ == old(seen)@
            }
        }),
{
}

/// An image is taken by its hash: a new one is handed out, byte for byte, and remembered.
pub proof fn taken_images_are_handed_out(
    seen: &mut Seen,
    png: Vec<u8>,
    hash: String,
    item: Option<ClipboardItem>,
)
    requires
        call_ensures(Seen::take_image, (seen, png, hash), item),
    ensures
        hash@ != old(seen)@.image_hash <==> item is Some,
        item matches Some(item) ==> (item matches ClipboardItem::ImagePng(taken) && taken@ == png@),
        final(seen)@.image_hash == hash@,
        final(seen)@.text == old(seen)@.text,
{
}

/// An image that was put onto the clipboard is remembered by the PNG file of its pixels, on every
/// backend alike, and a file that is no image changes nothing.
pub proof fn written_images_are_remembered(
    seen: &mut Seen,
    offered: &mut ArboardBackend,
    windows: &mut WindowsBackend,
    file: &[u8],
    noted: Result<(), ImageFailure>,
    noted_offered: Result<(), ImageFailure>,
    noted_windows: Result<(), ImageFailure>,
)
    requires
        call_ensures(Seen::note_image, (seen, file), noted),
        call_ensures(ArboardBackend::note_image_written, (offered, file), noted_offered),
        call_ensures(WindowsBackend::note_image_written, (windows, file), noted_windows),
    ensures
        final(seen)@.text == old(seen)@.text,
        final(offered)@.text == old(offered)@.text,
        final(windows)@.seen.text == old(windows)@.seen.text,
        final(windows)@.last_files == old(windows)@.last_files,
        final(windows)@.pending_files == old(windows)@.pending_files,
        match file_pixels(file@) {
            Some((width, height, pixels)) => {
                let hash = bytes_hash(png_file(width, height, pixels));
                &&& noted is Ok && final(seen)@.image_hash == hash
                &&& noted_offered is Ok && final(offered)@.image_hash == hash
                &&& noted_windows is Ok && final(windows)@.seen.image_hash == hash
            },
            None => {
                &&& noted is Err && final(seen)@ == old(seen)@
                &&& noted_offered is Err && final(offered)@ == old(offered)@
                &&& noted_windows is Err && final(windows)@ == old(windows)@
            },
        },
{
}

/// What is put onto a clipboard for an item is the very text, or the very image: its PNG file, its
/// pixels, or its bitmap. File paths are not put there.
pub proof fn items_are_written_as_they_are(
    item: ClipboardItem,
    x11: Option<TargetWrite>,
    offered: Result<ArboardWrite, ImageFailure>,
    windows: Result<WindowsWrite, ImageFailure>,
)
    requires
        call_ensures(X11Backend::write_request, (item,), x11),
        call_ensures(ArboardBackend::write_request, (&item,), offered),
        call_ensures(WindowsBackend::write_request, (&item,), windows),
    ensures
        match item {
            ClipboardItem::Text(text) => {
                &&& x11 matches Some(x11)
                &&& x11.target@ == seq!['t', 'e', 'x', 't', '/', 'p', 'l', 'a', 'i', 'n']
                &&& x11.bytes@ == encode_utf8(text@)
                &&& offered matches Ok(ArboardWrite::Text(offered))
                &&& offered@ == text@
                &&& windows matches Ok(WindowsWrite::Text(windows))
                &&& windows@ == text@
            },
            ClipboardItem::ImagePng(png) => {
                &&& x11 matches Some(x11)
                &&& x11.target@ == seq!['i', 'm', 'a', 'g', 'e', '/', 'p', 'n', 'g']
                &&& x11.bytes@ == png@
                &&& match file_pixels(png@) {
                    Some((width, height, pixels)) => {
                        &&& offered matches Ok(ArboardWrite::Image(image))
                        &&& image.width == width
                        &&& image.height == height
                        &&& image.bytes@ == pixels
                        &&& windows matches Ok(WindowsWrite::Image { dib })
                        &&& dib@.len() == 40 + pixels.len()
                        &&& dib@ == dib_bytes(width, height, pixels)
                    },
                    None => {
                        &&& offered matches Err(failure)
                        &&& failure == ImageFailure::Decoding
                        &&& windows matches Err(other)
                        &&& other == ImageFailure::Decoding
                    },
                }
            },
            ClipboardItem::FilePath(_) => {
                &&& x11 is None
                &&& offered matches Ok(ArboardWrite::Nothing)
                &&& windows matches Ok(WindowsWrite::Nothing)
            },
        },
{
    reveal_strlit("text/plain");
    reveal_strlit("image/png");
    if let ClipboardItem::ImagePng(png) = item {
        if let Some((width, height, pixels)) = file_pixels(png@) {
            bitmap_has_header_and_pixels(width, height, pixels);
        }
    }
}

/// A text looks like a PNG file exactly when it starts with the characters of the signature.
pub proof fn png_files_are_told_by_their_signature(text: &str, looks: bool)
    requires
        call_ensures(clipboard_text_looks_like_png_bytes, (text,), looks),
    ensures
        looks <==> {
            &&& text@.len() >= 8
            &&& text@[0] == '\u{fffd}'
            &&& text@[1] == 'P'
            &&& text@[2] == 'N'
            &&& text@[3] == 'G'
            &&& text@[4] == '\r'
            &&& text@[5] == '\n'
            &&& text@[6] == '\u{1a}'
            &&& text@[7] == '\n'
        },
{
    let signature = seq!['\u{fffd}', 'P', 'N', 'G', '\r', '\n', '\u{1a}', '\n'];
    if text@.len() >= 8 {
        if looks {
            assert(forall|i: int| 0 <= i < 8 ==> #[trigger] text@[i] == signature[i]);
        }
        assert(text@.subrange(0, 8) =~= signature <==> forall|i: int|
            0 <= i < 8 ==> #[trigger] text@[i] == signature[i]);
    }
}

/// Windows has its own backend, and so has an X11 session anywhere else.
pub proof fn backends_are_chosen_by_platform_and_session(session: Option<Seq<char>>)
    ensures
        backend_name(session, true) == seq!['w', 'i', 'n', 'd', 'o', 'w', 's'],
        backend_name(session, false) == (if session == Some(seq!['x', '1', '1']) {
            seq!['x', '1', '1']
        } else {
            seq!['a', 'r', 'b', 'o', 'a', 'r', 'd']
        }),
{
    reveal_strlit("windows");
    reveal_strlit("x11");
    reveal_strlit("arboard");
    assert("x11"@ =~= seq!['x', '1', '1']);
}

/// A text that is on the clipboard is remembered as it is, on every backend alike, and nothing else
/// changes; where there is none, nothing changes at all.
pub proof fn current_texts_are_remembered(
    seen: &mut Seen,
    offered: &mut ArboardBackend,
    windows: &mut WindowsBackend,
    last_text: &mut String,
    text: Result<String, arboard::Error>,
)
    requires
        call_ensures(Seen::note_text, (seen, text), ()),
        call_ensures(ArboardBackend::note_current_text, (offered, text), ()),
        call_ensures(WindowsBackend::note_current_text, (windows, text), ()),
        call_ensures(mark_current_text_seen, (last_text, text), ()),
    ensures
        final(seen)@.image_hash == old(seen)@.image_hash,
        final(offered)@.image_hash == old(offered)@.image_hash,
        final(windows)@.seen.image_hash == old(windows)@.seen.image_hash,
        final(windows)@.last_files == old(windows)@.last_files,
        final(windows)@.pending_files == old(windows)@.pending_files,
        text matches Ok(text) ==> {
            &&& final(seen)@.text == text@
            &&& final(offered)@.text == text@
            &&& final(windows)@.seen.text == text@
            &&& final(last_text)@ == text@
        },
        text is Err ==> {
            &&& final(seen)@ == old(seen)@
            &&& final(offered)@ == old(offered)@
            &&& final(windows)@ == old(windows)@
            &&& final(last_text)@ == old(last_text)@
        },
{
}

/// An image in a buffer is taken as the PNG file of its pixels, by the hash of that file.
pub proof fn taken_buffers_are_handed_out(
    seen: &mut Seen,
    image: RawImage,
    item: Result<Option<ClipboardItem>, ImageFailure>,
)
    requires
        call_ensures(Seen::take_raw_image, (seen, image), item),
    ensures
        ({
            let width = image.width as u32;
            let height = image.height as u32;
            let held = 4 * width <= usize::MAX && 4 * width * height <= image.bytes@.len();
            let file = png_file(width, height, image.bytes@.take(4 * width * height));
            if !held || width == 0 || height == 0 {
                item is Err && final(seen)@ == old(seen)@
            } else {
                &&& final(seen)@.image_hash == bytes_hash(file)
                &&& final(seen)@.text == old(seen)@.text
                &&& if bytes_hash(file) != old(seen)@.image_hash {
                    item matches Ok(Some(ClipboardItem::ImagePng(png))) && png@ == file
                } else {
                    item matches Ok(none) && none is None
                }
            }
        }),
{
}

/// Backends start without a memory, and that for X11 exactly where `xclip` could be started.
pub proof fn backends_start_without_a_memory(
    seen: Seen,
    offered: ArboardBackend,
    windows: WindowsBackend,
    xclip_started: bool,
    x11: Result<X11Backend, X11Error>,
)
    requires
        call_ensures(Seen::new, (), seen),
        call_ensures(ArboardBackend::new, (), offered),
        call_ensures(WindowsBackend::new, (), windows),
        call_ensures(X11Backend::new, (xclip_started,), x11),
    ensures
        seen@.text.len() == 0 && seen@.image_hash.len() == 0,
        offered@.text.len() == 0 && offered@.image_hash.len() == 0,
        windows@.seen.text.len() == 0 && windows@.seen.image_hash.len() == 0,
        windows@.last_files.len() == 0 && windows@.pending_files.len() == 0,
        x11 is Ok <==> xclip_started,
        x11 matches Ok(x11) ==> x11@.text.len() == 0 && x11@.image_hash.len() == 0,
{
}

/// The backend that is chosen goes by the name that it gives itself.
pub proof fn chosen_backends_give_their_names(
    session: Option<&str>,
    is_windows: bool,
    chosen: &'static str,
    windows: &WindowsBackend,
    windows_name: &'static str,
    x11: &X11Backend,
    x11_name: &'static str,
    offered: &ArboardBackend,
    offered_name: &'static str,
)
    requires
        call_ensures(select_backend_name, (session, is_windows), chosen),
        call_ensures(WindowsBackend::name, (windows,), windows_name),
        call_ensures(X11Backend::name, (x11,), x11_name),
        call_ensures(ArboardBackend::name, (offered,), offered_name),
    ensures
        is_windows ==> chosen@ == windows_name@,
        !is_windows && (session matches Some(session) && session@ == seq!['x', '1', '1'])
            ==> chosen@ == x11_name@,
        !is_windows && !(session matches Some(session) && session@ == seq!['x', '1', '1'])
            ==> chosen@ == offered_name@,
        windows_name@ == seq!['w', 'i', 'n', 'd', 'o', 'w', 's'],
        x11_name@ == seq!['x', '1', '1'],
        offered_name@ == seq!['a', 'r', 'b', 'o', 'a', 'r', 'd'],
{
    reveal_strlit("windows");
    reveal_strlit("x11");
    reveal_strlit("arboard");
    assert("x11"@ =~= seq!['x', '1', '1']);
}

/// A watcher waits for the interval that it was given, and for 300 milliseconds where it was given
/// none.
pub proof fn watchers_keep_their_interval(
    interval_ms: u64,
    given: PollingWatcher,
    plain: PollingWatcher,
    watcher: &PollingWatcher,
    waits_ms: u64,
)
    requires
        call_ensures(PollingWatcher::with_interval, (interval_ms,), given),
        call_ensures(PollingWatcher::new, (), plain),
        call_ensures(PollingWatcher::interval_ms, (watcher,), waits_ms),
    ensures
        *watcher == given ==> waits_ms == interval_ms,
        *watcher == plain ==> waits_ms == 300,
{
}

} // verus!
