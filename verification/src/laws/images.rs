//! Images, their files and their hashes.

use crate::clipboard::windows::bitmap_outcome;
use crate::clipboard::{
    canonical_file_hash_outcome, canonical_hash_outcome, canonical_image_hash_from_png,
    canonical_image_hash_from_rgba, is_hash_outcome, png_outcome, read_back, rgba_to_png,
    ImageFailure, RawImage,
};
use crate::codec::{file_pixels, holds_rgba, png_file, png_signature, png_signature_text, rgba_len};
use crate::security::bytes_hash;
use vstd::prelude::*;

verus! {

/// An image has four bytes for each pixel, and a buffer holds it if it has at least so many, and
/// those of a row can be counted.
pub proof fn pixels_have_four_bytes(width: u32, height: u32, len: nat)
    ensures
        rgba_len(width, height) == 4 * width * height,
        holds_rgba(width, height, len) <==> 4 * width <= usize::MAX && 4 * width * height <= len,
{
}

/// Every image with pixels that its buffer holds has a PNG file: that of the very dimensions and
/// pixels, and of nothing behind them. An image that its buffer does not hold is refused for that,
/// and one without pixels cannot be written.
pub proof fn files_are_made_of_the_very_pixels(width: u32, height: u32, rgba: Seq<u8>)
    ensures
        ({
            let held = 4 * width <= usize::MAX && 4 * width * height <= rgba.len();
            let outcome = png_outcome(width, height, rgba);
            &&& !held ==> outcome == Err::<Seq<u8>, ImageFailure>(ImageFailure::InvalidDimensions)
            &&& held && (width == 0 || height == 0) ==> outcome == Err::<Seq<u8>, ImageFailure>(
                ImageFailure::Encoding,
            )
            &&& held && width > 0 && height > 0 ==> outcome == Ok::<Seq<u8>, ImageFailure>(
                png_file(width, height, rgba.take(4 * width * height)),
            )
        }),
{
}

/// What is read of the file of an image are its dimensions and pixels, as long as these take up at
/// most 512 MiB.
pub proof fn files_are_read_back(width: u32, height: u32, rgba: Seq<u8>)
    ensures
        4 * width * height <= 536_870_912 ==> read_back(width, height, rgba) == Some(
            (width, height, rgba.take(4 * width * height)),
        ),
        4 * width * height > 536_870_912 ==> read_back(width, height, rgba) is None,
{
}

/// The hash that stands for an image is that of the whole PNG file of its dimensions and pixels,
/// and an image that has no file has no hash.
pub proof fn images_are_known_by_their_files(
    width: u32,
    height: u32,
    rgba: Seq<u8>,
    hash: Result<String, ImageFailure>,
)
    requires
        is_hash_outcome(hash, canonical_hash_outcome(width, height, rgba)),
    ensures
        ({
            let held = 4 * width <= usize::MAX && 4 * width * height <= rgba.len();
            if !held {
                hash == Err::<String, ImageFailure>(ImageFailure::InvalidDimensions)
            } else if width == 0 || height == 0 {
                hash == Err::<String, ImageFailure>(ImageFailure::Encoding)
            } else {
                hash matches Ok(hash) && hash@ == bytes_hash(
                    png_file(width, height, rgba.take(4 * width * height)),
                )
            }
        }),
{
}

/// The hash that stands for the image in a file is that of the PNG file of its dimensions and
/// pixels, whatever the format of the file; a file that cannot be read has none.
pub proof fn files_are_known_by_their_pixels(file: Seq<u8>, hash: Result<String, ImageFailure>)
    requires
        is_hash_outcome(hash, canonical_file_hash_outcome(file)),
    ensures
        match file_pixels(file) {
            Some((width, height, pixels)) => hash matches Ok(hash) && hash@ == bytes_hash(
                png_file(width, height, pixels),
            ),
            None => hash == Err::<String, ImageFailure>(ImageFailure::Decoding),
        },
{
}

/// The hash of the image in a file, as it is kept, is that of the PNG file of its dimensions and
/// pixels.
pub proof fn kept_hashes_are_of_the_pixels(file: Seq<u8>)
    ensures
        match file_pixels(file) {
            Some((width, height, pixels)) => canonical_file_hash_outcome(file) == Ok::<
                Seq<char>,
                ImageFailure,
            >(bytes_hash(png_file(width, height, pixels))),
            None => canonical_file_hash_outcome(file) == Err::<Seq<char>, ImageFailure>(
                ImageFailure::Decoding,
            ),
        },
{
}

/// The bitmap on a clipboard counts as the PNG file of its dimensions and pixels; where there is no
/// bitmap there is no file, and a bitmap that cannot be written is a failure.
pub proof fn bitmaps_become_files(image: RawImage)
    ensures
        bitmap_outcome(None) == Ok::<Option<Seq<u8>>, ImageFailure>(None),
        ({
            let width = image.width as u32;
            let height = image.height as u32;
            let held = 4 * width <= usize::MAX && 4 * width * height <= image.bytes@.len();
            &&& !held ==> bitmap_outcome(Some(image)) == Err::<Option<Seq<u8>>, ImageFailure>(
                ImageFailure::InvalidDimensions,
            )
            &&& held && (width == 0 || height == 0) ==> bitmap_outcome(Some(image)) == Err::<
                Option<Seq<u8>>,
                ImageFailure,
            >(ImageFailure::Encoding)
            &&& held && width > 0 && height > 0 ==> bitmap_outcome(Some(image)) == Ok::<
                Option<Seq<u8>>,
                ImageFailure,
            >(Some(png_file(width, height, image.bytes@.take(4 * width * height))))
        }),
{
}

/// A PNG file starts with these eight bytes, and as a text with these eight characters.
pub proof fn signatures_are_these()
    ensures
        png_signature() == seq![137u8, 80u8, 78u8, 71u8, 13u8, 10u8, 26u8, 10u8],
        png_signature_text() == seq!['\u{fffd}', 'P', 'N', 'G', '\r', '\n', '\u{1a}', '\n'],
{
}

/// An image is written as PNG exactly when it has pixels and the buffer holds them, and the reader
/// finds the very dimensions and pixels in the file, up to 512 MiB.
pub proof fn written_files_hold_the_image(
    width: usize,
    height: usize,
    rgba: &[u8],
    png: Result<Vec<u8>, ImageFailure>,
)
    requires
        call_ensures(rgba_to_png, (width, height, rgba), png),
        width <= u32::MAX,
        height <= u32::MAX,
    ensures
        png is Ok <==> width > 0 && height > 0 && 4 * width <= usize::MAX && 4 * width * height
            <= rgba@.len(),
        png matches Ok(file) ==> 4 * width * height <= 536_870_912 ==> file_pixels(file@) == Some(
            (width as u32, height as u32, rgba@.take(4 * width * height)),
        ),
        png == Err::<Vec<u8>, ImageFailure>(ImageFailure::InvalidDimensions) <==> !(4 * width
            <= usize::MAX && 4 * width * height <= rgba@.len()),
        png != Err::<Vec<u8>, ImageFailure>(ImageFailure::Decoding),
{
}

/// The hash of an image is that of its PNG file, be the image in a file or a buffer.
pub proof fn hashes_stand_for_the_pixels(
    file: &[u8],
    file_hash: Result<String, ImageFailure>,
    width: usize,
    height: usize,
    rgba: &[u8],
    hash: Result<String, ImageFailure>,
)
    requires
        call_ensures(canonical_image_hash_from_png, (file,), file_hash),
        call_ensures(canonical_image_hash_from_rgba, (width, height, rgba), hash),
        width <= u32::MAX,
        height <= u32::MAX,
    ensures
        match file_pixels(file@) {
            Some((w, h, pixels)) => file_hash matches Ok(found) && found@ == bytes_hash(
                png_file(w, h, pixels),
            ),
            None => file_hash is Err,
        },
        hash is Ok <==> width > 0 && height > 0 && 4 * width <= usize::MAX && 4 * width * height
            <= rgba@.len(),
        hash matches Ok(hash) ==> hash@ == bytes_hash(
            png_file(width as u32, height as u32, rgba@.take(4 * width * height)),
        ),
{
}

} // verus!
