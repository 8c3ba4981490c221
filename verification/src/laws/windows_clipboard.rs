//! The Windows clipboard: snapshots of it, and the bitmaps that are put there.

use crate::clipboard::windows::{
    dib_header, dib_payload, follows, le32, negated, optional_paths, paths_view,
    red_and_blue_swapped, WindowsBackend, WindowsContents, WindowsStep, WindowsView,
};
use crate::clipboard::{
    optional_item, ClipboardItem, ClipboardItemView, ImageFailure, RawImage, SeenView,
};
use crate::codec::{file_pixels, png_file};
use crate::security::bytes_hash;
use vstd::prelude::*;

verus! {

/// Lists of paths are seen whole: every path, in order, byte for byte.
pub proof fn paths_are_seen_whole(paths: Vec<Vec<u8>>)
    ensures
        paths_view(paths@).len() == paths@.len(),
        forall|i: int| 0 <= i < paths@.len() ==> #[trigger] paths_view(paths@)[i] == paths@[i]@,
        optional_paths(None) is None,
        optional_paths(Some(paths)) == Some(paths_view(paths@)),
{
}

/// A step hands out the very item that a format has decided on, and asks for the next format where
/// it has decided nothing.
pub proof fn steps_follow_what_was_decided(
    step: WindowsStep,
    item: Option<ClipboardItemView>,
    next: WindowsStep,
)
    ensures
        follows(step, Some(item), next) <==> (step matches WindowsStep::Done(actual)
            && optional_item(actual) == item),
        follows(step, None, next) <==> step == next,
{
}

/// Where files are pending, the first of them is handed out and the others stay pending; where none
/// are, nothing is decided. Nothing else changes.
pub proof fn pending_files_come_first(state: WindowsView)
    ensures
        ({
            let sighting = state.begun();
            &&& sighting.state.seen == state.seen
            &&& sighting.state.last_files == state.last_files
            &&& if state.pending_files.len() > 0 {
                &&& sighting.outcome == Some(
                    Some(ClipboardItemView::FilePath(state.pending_files[0])),
                )
                &&& sighting.state.pending_files == state.pending_files.skip(1)
            } else {
                sighting.outcome is None && sighting.state.pending_files == state.pending_files
            }
        }),
{
    if state.pending_files.len() > 0 {
        assert(state.pending_files.drop_first() =~= state.pending_files.skip(1));
    }
}

/// Every text that differs from the last is handed out and remembered, whatever it is. No other
/// text decides anything. Nothing else changes.
pub proof fn new_text_is_handed_out(state: WindowsView, text: Option<Seq<char>>)
    ensures
        ({
            let sighting = state.text_seen(text);
            &&& sighting.state.seen.image_hash == state.seen.image_hash
            &&& sighting.state.last_files == state.last_files
            &&& sighting.state.pending_files == state.pending_files
            &&& if text is Some && text->0 != state.seen.text {
                &&& sighting.outcome == Some(Some(ClipboardItemView::Text(text->0)))
                &&& sighting.state.seen.text == text->0
            } else {
                sighting.outcome is None && sighting.state.seen.text == state.seen.text
            }
        }),
{
}

/// Of every list of files that has files and differs from the last, the first is handed out, the
/// others are pending, and the list is remembered. No other list decides anything. Nothing else
/// changes.
pub proof fn new_files_are_handed_out(state: WindowsView, files: Option<Seq<Seq<u8>>>)
    ensures
        ({
            let sighting = state.files_seen(files);
            &&& sighting.state.seen == state.seen
            &&& if files is Some && files->0.len() > 0 && files->0 != state.last_files {
                &&& sighting.outcome == Some(Some(ClipboardItemView::FilePath(files->0[0])))
                &&& sighting.state.last_files == files->0
                &&& sighting.state.pending_files == files->0.skip(1)
            } else {
                &&& sighting.outcome is None
                &&& sighting.state.last_files == state.last_files
                &&& sighting.state.pending_files == state.pending_files
            }
        }),
{
    if files is Some && files->0.len() > 0 {
        assert(files->0.drop_first() =~= files->0.skip(1));
    }
}

/// Every PNG file that can be read decides the snapshot: it is handed out, byte for byte, and
/// remembered, if the hash of its pixels differs from the last, and nothing is handed out
/// otherwise. No other file decides anything. Nothing else changes.
pub proof fn readable_png_decides(state: WindowsView, png: Option<Seq<u8>>)
    ensures
        ({
            let sighting = state.png_seen(png);
            &&& sighting.state.seen.text == state.seen.text
            &&& sighting.state.last_files == state.last_files
            &&& sighting.state.pending_files == state.pending_files
            &&& if png is Some && png->0.len() > 0 && file_pixels(png->0) is Some {
                let (width, height, pixels) = file_pixels(png->0)->0;
                let hash = bytes_hash(png_file(width, height, pixels));
                &&& sighting.state.seen.image_hash == hash
                &&& sighting.outcome == Some(
                    if hash != state.seen.image_hash {
                        Some(ClipboardItemView::ImagePng(png->0))
                    } else {
                        None
                    },
                )
            } else {
                &&& sighting.state.seen.image_hash == state.seen.image_hash
                &&& sighting.outcome is None
            }
        }),
{
}

/// The bitmap always decides the snapshot: the PNG file that is made of it is handed out and
/// remembered if its hash differs from the last, and nothing is handed out otherwise. Nothing else
/// changes.
pub proof fn bitmap_decides(state: WindowsView, bitmap: Option<Seq<u8>>)
    ensures
        ({
            let sighting = state.bitmap_seen(bitmap);
            &&& sighting.state.seen.text == state.seen.text
            &&& sighting.state.last_files == state.last_files
            &&& sighting.state.pending_files == state.pending_files
            &&& if bitmap is Some {
                &&& sighting.state.seen.image_hash == bytes_hash(bitmap->0)
                &&& sighting.outcome == Some(
                    if bytes_hash(bitmap->0) != state.seen.image_hash {
                        Some(ClipboardItemView::ImagePng(bitmap->0))
                    } else {
                        None
                    },
                )
            } else {
                &&& sighting.state.seen.image_hash == state.seen.image_hash
                &&& sighting.outcome == Some(None::<ClipboardItemView>)
            }
        }),
{
}

/// A whole snapshot hands out, in this order, the next pending file, a new text, the first of a new
/// list of files, a new PNG file, and a new bitmap where there is no PNG file that can be read. What
/// is handed out is remembered, and nothing else changes.
pub proof fn snapshots_hand_out_what_is_new(state: WindowsView, contents: WindowsContents)
    ensures
        ({
            let after = state.snapshot(contents).state;
            let outcome = state.snapshot(contents).outcome;
            let seen = state.seen;
            if state.pending_files.len() > 0 {
                &&& outcome == Some(Some(ClipboardItemView::FilePath(state.pending_files[0])))
                &&& after == (WindowsView {
                    seen,
                    last_files: state.last_files,
                    pending_files: state.pending_files.skip(1),
                })
            } else if contents.text is Some && contents.text->0 != seen.text {
                &&& outcome == Some(Some(ClipboardItemView::Text(contents.text->0)))
                &&& after == (WindowsView {
                    seen: SeenView { text: contents.text->0, image_hash: seen.image_hash },
                    last_files: state.last_files,
                    pending_files: state.pending_files,
                })
            } else if contents.files is Some && contents.files->0.len() > 0 && contents.files->0
                != state.last_files {
                &&& outcome == Some(Some(ClipboardItemView::FilePath(contents.files->0[0])))
                &&& after == (WindowsView {
                    seen,
                    last_files: contents.files->0,
                    pending_files: contents.files->0.skip(1),
                })
            } else if contents.png is Some && contents.png->0.len() > 0 && file_pixels(
                contents.png->0,
            ) is Some {
                let (width, height, pixels) = file_pixels(contents.png->0)->0;
                let hash = bytes_hash(png_file(width, height, pixels));
                &&& outcome == Some(
                    if hash != seen.image_hash {
                        Some(ClipboardItemView::ImagePng(contents.png->0))
                    } else {
                        None
                    },
                )
                &&& after == (WindowsView {
                    seen: SeenView { text: seen.text, image_hash: hash },
                    last_files: state.last_files,
                    pending_files: state.pending_files,
                })
            } else if contents.bitmap is Some && bytes_hash(contents.bitmap->0)
                != seen.image_hash {
                &&& outcome == Some(Some(ClipboardItemView::ImagePng(contents.bitmap->0)))
                &&& after == (WindowsView {
                    seen: SeenView { text: seen.text, image_hash: bytes_hash(contents.bitmap->0) },
                    last_files: state.last_files,
                    pending_files: state.pending_files,
                })
            } else {
                outcome == Some(None::<ClipboardItemView>) && after == state
            }
        }),
{
    if state.pending_files.len() > 0 {
        assert(state.pending_files.drop_first() =~= state.pending_files.skip(1));
    }
    if contents.files is Some && contents.files->0.len() > 0 {
        assert(contents.files->0.drop_first() =~= contents.files->0.skip(1));
    }
}

/// The bitmap comes into question exactly where no file is pending, the text is not new, the list
/// of files is not new, and there is no PNG file that can be read; nothing has changed then.
pub proof fn bitmap_is_asked_for_last(state: WindowsView, contents: WindowsContents)
    ensures
        ({
            let before = state.before_bitmap(contents);
            &&& before.outcome is None <==> {
                &&& state.pending_files.len() == 0
                &&& contents.text is None || contents.text->0 == state.seen.text
                &&& contents.files is None || contents.files->0.len() == 0 || contents.files->0
                    == state.last_files
                &&& contents.png is None || contents.png->0.len() == 0 || file_pixels(
                    contents.png->0,
                ) is None
            }
            &&& before.outcome is None ==> before.state == state
        }),
{
}

/// A snapshot of a clipboard that offers just a text hands out exactly that text and remembers it,
/// for every text that differs from the last, whatever it is.
pub proof fn every_new_text_is_handed_out(
    backend: &mut WindowsBackend,
    text: String,
    item: Result<Option<ClipboardItem>, ImageFailure>,
)
    requires
        old(backend)@.pending_files.len() == 0,
        text@ != old(backend)@.seen.text,
        call_ensures(WindowsBackend::read_snapshot, (backend, Some(text), None, None, None), item),
    ensures
        item matches Ok(Some(ClipboardItem::Text(read))) && read@ == text@,
        final(backend)@.seen.text == text@,
        final(backend)@.seen.image_hash == old(backend)@.seen.image_hash,
        final(backend)@.last_files == old(backend)@.last_files,
        final(backend)@.pending_files == old(backend)@.pending_files,
{
}

/// A snapshot hands out the first that is new of the pending files, the text, the copied files, the
/// PNG file and the bitmap, byte for byte. It fails exactly where it comes to a bitmap that cannot
/// be written, and changes nothing then.
pub proof fn first_that_is_new_is_handed_out(
    backend: &mut WindowsBackend,
    text: Option<String>,
    files: Option<Vec<Vec<u8>>>,
    png: Option<Vec<u8>>,
    image: Option<RawImage>,
    item: Result<Option<ClipboardItem>, ImageFailure>,
)
    requires
        call_ensures(WindowsBackend::read_snapshot, (backend, text, files, png, image), item),
    ensures
        ({
            let before = old(backend)@;
            let after = final(backend)@;
            let width = image->0.width as u32;
            let height = image->0.height as u32;
            let bytes = image->0.bytes@;
            let held = 4 * width <= usize::MAX && 4 * width * height <= bytes.len();
            let bitmap = png_file(width, height, bytes.take(4 * width * height));
            if before.pending_files.len() > 0 {
                &&& item matches Ok(Some(ClipboardItem::FilePath(path)))
                &&& path@ == before.pending_files[0]
                &&& after.pending_files == before.pending_files.skip(1)
                &&& after.seen == before.seen
                &&& after.last_files == before.last_files
            } else if text is Some && text->0@ != before.seen.text {
                &&& item matches Ok(Some(ClipboardItem::Text(read)))
                &&& read@ == text->0@
                &&& after.seen.text == text->0@
                &&& after.seen.image_hash == before.seen.image_hash
                &&& after.last_files == before.last_files
                &&& after.pending_files == before.pending_files
            } else if files is Some && files->0@.len() > 0 && paths_view(files->0@)
                != before.last_files {
                &&& item matches Ok(Some(ClipboardItem::FilePath(path)))
                &&& path@ == files->0@[0]@
                &&& after.seen == before.seen
                &&& after.last_files == paths_view(files->0@)
                &&& after.pending_files == paths_view(files->0@).skip(1)
            } else if png is Some && png->0@.len() > 0 && file_pixels(png->0@) is Some {
                let pixels = file_pixels(png->0@)->0;
                let hash = bytes_hash(png_file(pixels.0, pixels.1, pixels.2));
                &&& after.seen.image_hash == hash
                &&& after.seen.text == before.seen.text
                &&& after.last_files == before.last_files
                &&& after.pending_files == before.pending_files
                &&& if hash != before.seen.image_hash {
                    item matches Ok(Some(ClipboardItem::ImagePng(read))) && read@ == png->0@
                } else {
                    item matches Ok(none) && none is None
                }
            } else if image is Some && !held {
                item matches Err(failure) && failure == ImageFailure::InvalidDimensions && after
                    == before
            } else if image is Some && (width == 0 || height == 0) {
                item matches Err(failure) && failure == ImageFailure::Encoding && after == before
            } else if image is Some && bytes_hash(bitmap) != before.seen.image_hash {
                &&& item matches Ok(Some(ClipboardItem::ImagePng(read)))
                &&& read@ == bitmap
                &&& after.seen.image_hash == bytes_hash(bitmap)
                &&& after.seen.text == before.seen.text
                &&& after.last_files == before.last_files
                &&& after.pending_files == before.pending_files
            } else {
                item matches Ok(none) && none is None && after == before
            }
        }),
{
    let before = old(backend)@;
    if before.pending_files.len() > 0 {
        assert(before.pending_files.drop_first() =~= before.pending_files.skip(1));
    }
    if files is Some && files->0@.len() > 0 {
        let paths = paths_view(files->0@);
        assert(paths.drop_first() =~= paths.skip(1));
        assert(paths.first() == files->0@[0]@);
    }
}

/// A number is written with its lowest byte first.
pub proof fn numbers_are_little_endian(value: u32)
    ensures
        le32(value).len() == 4,
        le32(value)[0] + 0x100 * le32(value)[1] + 0x1_0000 * le32(value)[2] + 0x100_0000 * le32(
            value,
        )[3] == value,
{
    let low = value % 0x100;
    let rest = value / 0x100;
    assert(value == low + 0x100 * rest);
    assert(value / 0x1_0000 == rest / 0x100);
    assert(value / 0x100_0000 == value / 0x1_0000 / 0x100);
    assert(value / 0x100_0000 < 0x100);
}

/// A number and its negative add up to 2^32, and zero is its own.
pub proof fn negatives_are_complements(value: u32)
    ensures
        value > 0 ==> negated(value) + value == 0x1_0000_0000,
        negated(0) == 0,
{
}

proof fn lemma_little_endian_field(bytes: Seq<u8>, start: int, value: u32)
    requires
        0 <= start,
        start + 4 <= bytes.len(),
        bytes.subrange(start, start + 4) == le32(value),
    ensures
        bytes[start] + 0x100 * bytes[start + 1] + 0x1_0000 * bytes[start + 2] + 0x100_0000
            * bytes[start + 3] == value,
{
    let field = bytes.subrange(start, start + 4);
    numbers_are_little_endian(value);
    assert(field[0] == bytes[start]);
    assert(field[1] == bytes[start + 1]);
    assert(field[2] == bytes[start + 2]);
    assert(field[3] == bytes[start + 3]);
}

proof fn lemma_header_fields(width: u32, height: u32, size: u32)
    ensures
        ({
            let header = dib_header(width, height, size);
            &&& header.len() == 40
            &&& header.subrange(0, 4) == le32(40)
            &&& header.subrange(4, 8) == le32(width)
            &&& header.subrange(8, 12) == le32(negated(height))
            &&& header.subrange(12, 16) == seq![1u8, 0u8, 32u8, 0u8]
            &&& header.subrange(16, 20) == le32(0)
            &&& header.subrange(20, 24) == le32(size)
            &&& header.subrange(24, 40) == Seq::new(16, |i: int| 0u8)
        }),
{
    let header = dib_header(width, height, size);
    assert(header.subrange(0, 4) =~= le32(40));
    assert(header.subrange(4, 8) =~= le32(width));
    assert(header.subrange(8, 12) =~= le32(negated(height)));
    assert(header.subrange(12, 16) =~= seq![1u8, 0u8, 32u8, 0u8]);
    assert(header.subrange(16, 20) =~= le32(0));
    assert(header.subrange(20, 24) =~= le32(size));
    assert(le32(0) =~= seq![0u8, 0u8, 0u8, 0u8]);
    assert(header.subrange(24, 40) =~= le32(0) + le32(0) + le32(0) + le32(0));
    assert(header.subrange(24, 40) =~= Seq::new(16, |i: int| 0u8));
}

/// The header of a bitmap holds, in little endian, its own size of 40, the width, the height as a
/// negative number, one plane of 32 bits without compression, and the size of the pixels, and zeros
/// from there on. That the height is negative says that the rows run from the top.
pub proof fn headers_describe_the_bitmap(width: u32, height: u32, rgba: Vec<u8>, dib: Vec<u8>)
    requires
        call_ensures(dib_payload, (width, height, rgba), dib),
    ensures
        dib@.len() == 40 + rgba@.len(),
        dib@[0] + 0x100 * dib@[1] + 0x1_0000 * dib@[2] + 0x100_0000 * dib@[3] == 40,
        dib@[4] + 0x100 * dib@[5] + 0x1_0000 * dib@[6] + 0x100_0000 * dib@[7] == width,
        height > 0 ==> dib@[8] + 0x100 * dib@[9] + 0x1_0000 * dib@[10] + 0x100_0000 * dib@[11]
            + height == 0x1_0000_0000,
        height == 0 ==> dib@[8] == 0 && dib@[9] == 0 && dib@[10] == 0 && dib@[11] == 0,
        dib@[12] + 0x100 * dib@[13] == 1,
        dib@[14] + 0x100 * dib@[15] == 32,
        dib@[16] + 0x100 * dib@[17] + 0x1_0000 * dib@[18] + 0x100_0000 * dib@[19] == 0,
        rgba@.len() <= u32::MAX ==> dib@[20] + 0x100 * dib@[21] + 0x1_0000 * dib@[22] + 0x100_0000
            * dib@[23] == rgba@.len(),
        forall|i: int| 24 <= i < 40 ==> #[trigger] dib@[i] == 0,
{
    let size = rgba@.len() as u32;
    lemma_header_fields(width, height, size);
    let header = dib_header(width, height, size);
    assert(dib@.len() == 40 + rgba@.len());
    assert(dib@.subrange(0, 4) =~= header.subrange(0, 4));
    assert(dib@.subrange(4, 8) =~= header.subrange(4, 8));
    assert(dib@.subrange(8, 12) =~= header.subrange(8, 12));
    assert(dib@.subrange(12, 16) =~= header.subrange(12, 16));
    assert(dib@.subrange(16, 20) =~= header.subrange(16, 20));
    assert(dib@.subrange(20, 24) =~= header.subrange(20, 24));
    lemma_little_endian_field(dib@, 0, 40);
    lemma_little_endian_field(dib@, 4, width);
    lemma_little_endian_field(dib@, 8, negated(height));
    lemma_little_endian_field(dib@, 16, 0);
    lemma_little_endian_field(dib@, 20, size);
    negatives_are_complements(height);
    assert(dib@[12] == dib@.subrange(12, 16)[0]);
    assert(dib@[13] == dib@.subrange(12, 16)[1]);
    assert(dib@[14] == dib@.subrange(12, 16)[2]);
    assert(dib@[15] == dib@.subrange(12, 16)[3]);
    assert forall|i: int| 24 <= i < 40 implies #[trigger] dib@[i] == 0 by {
        assert(dib@[i] == header.subrange(24, 40)[i - 24]);
    }
}

/// The pixels follow the header one by one, each with its blue, green, red and alpha in this order.
pub proof fn pixels_are_stored_blue_first(
    width: u32,
    height: u32,
    rgba: Vec<u8>,
    dib: Vec<u8>,
    i: int,
)
    requires
        call_ensures(dib_payload, (width, height, rgba), dib),
        0 <= i,
        4 * i + 4 <= rgba@.len(),
    ensures
        dib@[40 + 4 * i] == rgba@[4 * i + 2],
        dib@[40 + 4 * i + 1] == rgba@[4 * i + 1],
        dib@[40 + 4 * i + 2] == rgba@[4 * i],
        dib@[40 + 4 * i + 3] == rgba@[4 * i + 3],
{
    let swapped = red_and_blue_swapped(rgba@);
    assert(dib_header(width, height, rgba@.len() as u32).len() == 40);
    assert(forall|j: int| 0 <= j < rgba@.len() ==> #[trigger] dib@[40 + j] == swapped[j]);
    assert((4 * i) / 4 * 4 == 4 * i && (4 * i) % 4 == 0);
    assert((4 * i + 1) / 4 * 4 == 4 * i && (4 * i + 1) % 4 == 1);
    assert((4 * i + 2) / 4 * 4 == 4 * i && (4 * i + 2) % 4 == 2);
    assert((4 * i + 3) / 4 * 4 == 4 * i && (4 * i + 3) % 4 == 3);
    assert(dib@[40 + (4 * i)] == swapped[4 * i]);
    assert(dib@[40 + (4 * i + 1)] == swapped[4 * i + 1]);
    assert(dib@[40 + (4 * i + 2)] == swapped[4 * i + 2]);
    assert(dib@[40 + (4 * i + 3)] == swapped[4 * i + 3]);
}

/// The steps of a snapshot hand out what the whole would, and ask for the next format where they
/// hand out nothing.
pub proof fn steps_hand_out_what_is_new(
    begun: &mut WindowsBackend,
    begin_step: WindowsStep,
    texts: &mut WindowsBackend,
    text: Option<String>,
    text_step: WindowsStep,
    lists: &mut WindowsBackend,
    files: Option<Vec<Vec<u8>>>,
    files_step: WindowsStep,
)
    requires
        call_ensures(WindowsBackend::begin_snapshot, (begun,), begin_step),
        call_ensures(WindowsBackend::text_read, (texts, text), text_step),
        call_ensures(WindowsBackend::files_read, (lists, files), files_step),
    ensures
        if old(begun)@.pending_files.len() > 0 {
            &&& begin_step matches WindowsStep::Done(Some(ClipboardItem::FilePath(path)))
            &&& path@ == old(begun)@.pending_files[0]
            &&& final(begun)@.pending_files == old(begun)@.pending_files.skip(1)
        } else {
            begin_step is ReadText && final(begun)@ == old(begun)@
        },
        if text is Some && text->0@ != old(texts)@.seen.text {
            &&& text_step matches WindowsStep::Done(Some(ClipboardItem::Text(read)))
            &&& read@ == text->0@
            &&& final(texts)@.seen.text == text->0@
        } else {
            text_step is ReadFiles && final(texts)@ == old(texts)@
        },
        if files is Some && files->0@.len() > 0 && paths_view(files->0@) != old(lists)@.last_files {
            &&& files_step matches WindowsStep::Done(Some(ClipboardItem::FilePath(path)))
            &&& path@ == files->0@[0]@
            &&& final(lists)@.last_files == paths_view(files->0@)
            &&& final(lists)@.pending_files == paths_view(files->0@).skip(1)
        } else {
            files_step is ReadPng && final(lists)@ == old(lists)@
        },
{
    let pending = old(begun)@.pending_files;
    if pending.len() > 0 {
        assert(pending.drop_first() =~= pending.skip(1));
    }
    if files is Some && files->0@.len() > 0 {
        let paths = paths_view(files->0@);
        assert(paths.drop_first() =~= paths.skip(1));
        assert(paths.first() == files->0@[0]@);
    }
}

/// The image steps of a snapshot likewise: a PNG file that can be read decides, and else the bitmap.
pub proof fn image_steps_hand_out_what_is_new(
    files: &mut WindowsBackend,
    png: Option<Vec<u8>>,
    png_step: WindowsStep,
    bitmaps: &mut WindowsBackend,
    image: RawImage,
    item: Result<Option<ClipboardItem>, ImageFailure>,
)
    requires
        call_ensures(WindowsBackend::png_read, (files, png), png_step),
        call_ensures(WindowsBackend::image_read, (bitmaps, Some(image)), item),
    ensures
        if png is Some && png->0@.len() > 0 && file_pixels(png->0@) is Some {
            let pixels = file_pixels(png->0@)->0;
            let hash = bytes_hash(png_file(pixels.0, pixels.1, pixels.2));
            &&& final(files)@.seen.image_hash == hash
            &&& if hash != old(files)@.seen.image_hash {
                png_step matches WindowsStep::Done(Some(ClipboardItem::ImagePng(read))) && read@
                    == png->0@
            } else {
                png_step matches WindowsStep::Done(none) && none is None
            }
        } else {
            png_step is ReadImage && final(files)@ == old(files)@
        },
        ({
            let width = image.width as u32;
            let height = image.height as u32;
            let held = 4 * width <= usize::MAX && 4 * width * height <= image.bytes@.len();
            let bitmap = png_file(width, height, image.bytes@.take(4 * width * height));
            if !held || width == 0 || height == 0 {
                item is Err && final(bitmaps)@ == old(bitmaps)@
            } else {
                &&& final(bitmaps)@.seen.image_hash == bytes_hash(bitmap)
                &&& if bytes_hash(bitmap) != old(bitmaps)@.seen.image_hash {
                    item matches Ok(Some(ClipboardItem::ImagePng(read))) && read@ == bitmap
                } else {
                    item matches Ok(none) && none is None
                }
            }
        }),
{
}

} // verus!
