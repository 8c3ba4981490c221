//! The text forms that payloads, identifiers and replies take on the wire.
//!
//! Every item marked `external_body` or `assume_specification` here rests on code outside this
//! crate; its contract is what the rest of the crate may rely on.

use base64::prelude::BASE64_STANDARD;
use base64::Engine;
use image::{ImageBuffer, ImageFormat, RgbaImage};
use std::io::Cursor;
use vstd::prelude::*;
use vstd::utf8::{decode_utf8, encode_utf8, is_ascii_chars, valid_utf8};

verus! {

/// The error of `base64::Engine::decode`.
#[verifier::external_type_specification]
#[verifier::external_body]
pub struct ExDecodeError(base64::DecodeError);

/// The error of `String::from_utf8`.
#[verifier::external_type_specification]
#[verifier::external_body]
pub struct ExFromUtf8Error(std::string::FromUtf8Error);

/// The error of `serde_json::from_slice`.
#[verifier::external_type_specification]
#[verifier::external_body]
pub struct ExJsonError(serde_json::Error);

/// The error of the image coders.
#[verifier::external_type_specification]
#[verifier::external_body]
pub struct ExImageError(image::ImageError);

/// The standard base64 text of `bytes`, as `BASE64_STANDARD.encode` writes it.
pub uninterp spec fn base64_text(bytes: Seq<u8>) -> Seq<char>;

/// The bytes that `BASE64_STANDARD.decode` reads out of `text`, `None` where it refuses the text.
pub uninterp spec fn base64_bytes(text: Seq<char>) -> Option<Seq<u8>>;

/// The length of the base64 text of `len` bytes: four characters for every three bytes begun.
pub open spec fn base64_len(len: nat) -> nat {
    ((len + 2) / 3 * 4) as nat
}

/// `BASE64_STANDARD.encode`: the padded text of the standard alphabet. It is ASCII, has four
/// characters for every three bytes begun, and decodes to the bytes it was made from. The call
/// allocates the whole text, so its length must fit an allocation.
#[verifier::external_body]
pub(crate) fn encode_base64(bytes: &[u8]) -> (text: String)
    requires
        base64_len(bytes@.len()) <= isize::MAX,
    ensures
        text@ == base64_text(bytes@),
        text@.len() == base64_len(bytes@.len()),
        is_ascii_chars(text@),
        base64_bytes(text@) == Some(bytes@),
{
    BASE64_STANDARD.encode(bytes)
}

/// `BASE64_STANDARD.decode`: accepts canonical text only, so text that it accepts is the text of
/// the bytes it hands out. That text lies in memory, so its length fits an allocation.
#[verifier::external_body]
pub(crate) fn decode_base64(text: &str) -> (bytes: Result<Vec<u8>, base64::DecodeError>)
    ensures
        match bytes {
            Ok(bytes) => {
                &&& base64_bytes(text@) == Some(bytes@)
                &&& base64_text(bytes@) == text@
                &&& base64_len(bytes@.len()) == text@.len()
                &&& base64_len(bytes@.len()) <= isize::MAX
                &&& is_ascii_chars(text@)
            },
            Err(_) => base64_bytes(text@) is None,
        },
{
    BASE64_STANDARD.decode(text)
}

/// Bytes that percent-encoding leaves as they are: ASCII letters and digits, `-`, `_`, `.`, `~`.
pub open spec fn is_unreserved(byte: u8) -> bool {
    ||| 0x30 <= byte <= 0x39
    ||| 0x41 <= byte <= 0x5a
    ||| 0x61 <= byte <= 0x7a
    ||| byte == 0x2d
    ||| byte == 0x5f
    ||| byte == 0x2e
    ||| byte == 0x7e
}

/// The upper case hexadecimal digit of a value below sixteen.
pub open spec fn upper_hex_digit(value: u8) -> char {
    if value < 10 {
        (0x30 + value) as char
    } else {
        (0x41 + value - 10) as char
    }
}

/// What percent-encoding makes of one byte.
pub open spec fn percent_encoded_byte(byte: u8) -> Seq<char> {
    if is_unreserved(byte) {
        seq![byte as char]
    } else {
        seq!['%', upper_hex_digit((byte / 16) as u8), upper_hex_digit((byte % 16) as u8)]
    }
}

/// What percent-encoding makes of a byte sequence.
pub open spec fn percent_encoded(bytes: Seq<u8>) -> Seq<char>
    decreases bytes.len(),
{
    if bytes.len() == 0 {
        Seq::empty()
    } else {
        percent_encoded(bytes.drop_last()) + percent_encoded_byte(bytes.last())
    }
}

/// `urlencoding::encode`: percent-encodes every byte of the UTF-8 text except ASCII letters and
/// digits, `-`, `_`, `.` and `~`, with upper case hexadecimal digits.
#[verifier::external_body]
pub(crate) fn url_encode(text: &str) -> (encoded: String)
    ensures
        encoded@ == percent_encoded(encode_utf8(text@)),
{
    urlencoding::encode(text).into_owned()
}

/// `String::from_utf8`: the text that the bytes encode, where they are valid UTF-8.
pub assume_specification[ String::from_utf8 ](vec: Vec<u8>) -> (text: Result<
    String,
    std::string::FromUtf8Error,
>)
    ensures
        match text {
            Ok(text) => valid_utf8(vec@) && encode_utf8(text@) == vec@,
            Err(_) => !valid_utf8(vec@),
        },
;

/// The text that `String::from_utf8_lossy` makes of `bytes`.
pub uninterp spec fn lossy_text(bytes: Seq<u8>) -> Seq<char>;

/// The eight bytes that every PNG file starts with.
pub open spec fn png_signature() -> Seq<u8> {
    seq![0x89u8, 0x50u8, 0x4eu8, 0x47u8, 0x0du8, 0x0au8, 0x1au8, 0x0au8]
}

/// The PNG signature read as lossy text: its first byte is no UTF-8 and becomes the replacement
/// character, the others are ASCII.
pub open spec fn png_signature_text() -> Seq<char> {
    seq!['\u{fffd}', 'P', 'N', 'G', '\r', '\n', '\u{1a}', '\n']
}

/// `String::from_utf8_lossy`: valid UTF-8 is decoded as it stands; elsewhere every invalid
/// sequence becomes the replacement character, as the lone continuation byte at the start of a
/// PNG file does. Something always comes of something.
#[verifier::external_body]
pub(crate) fn decode_lossy(bytes: &[u8]) -> (text: String)
    ensures
        text@ == lossy_text(bytes@),
        valid_utf8(bytes@) ==> text@ == decode_utf8(bytes@),
        png_signature().is_prefix_of(bytes@) ==> png_signature_text().is_prefix_of(text@),
        bytes@.len() > 0 ==> text@.len() > 0,
{
    String::from_utf8_lossy(bytes).into_owned()
}

/// What a JSON document holds under `field`: `None` where `body` is no JSON document, `Some(None)`
/// where it is no object, lacks the member or holds something else than a string there.
pub uninterp spec fn json_string_member(body: Seq<u8>, field: Seq<char>) -> Option<
    Option<Seq<char>>,
>;

/// `serde_json::from_slice`, then `Value::get` and `Value::as_str` on the document.
#[verifier::external_body]
pub(crate) fn read_json_string(body: &[u8], field: &str) -> (member: Result<
    Option<String>,
    serde_json::Error,
>)
    ensures
        match member {
            Ok(Some(text)) => json_string_member(body@, field@) == Some(Some(text@)),
            Ok(None) => json_string_member(body@, field@) == Some(None::<Seq<char>>),
            Err(_) => json_string_member(body@, field@) is None,
        },
{
    let document: serde_json::Value = serde_json::from_slice(body)?;
    Ok(document.get(field).and_then(|value| value.as_str()).map(str::to_string))
}

/// The bytes of an RGBA image: four for each pixel.
pub open spec fn rgba_len(width: u32, height: u32) -> int {
    4 * width * height
}

/// Whether `len` bytes hold an RGBA image, and its size can be counted.
pub open spec fn holds_rgba(width: u32, height: u32, len: nat) -> bool {
    4 * width <= usize::MAX && rgba_len(width, height) <= len
}

/// The memory that the image reader takes up at most: it refuses images with more pixels.
pub const IMAGE_READER_LIMIT_BYTES: u64 = 512 * 1024 * 1024;

/// The PNG file of an RGBA image that has pixels.
pub uninterp spec fn png_file(width: u32, height: u32, pixels: Seq<u8>) -> Seq<u8>;

/// The width, the height and the RGBA pixels of an image file, `None` where it cannot be read. That
/// this depends on the file alone rests on no decoder being registered in the process.
pub uninterp spec fn file_pixels(file: Seq<u8>) -> Option<(u32, u32, Seq<u8>)>;

/// `ImageBuffer::from_raw`, then `ImageBuffer::write_to` in the PNG format. `Ok(None)` stands for a
/// buffer that is too small for the dimensions; bytes behind the last pixel are left out. An image
/// without pixels is refused, and no other. PNG stores the pixels without loss: the reader finds
/// them again, unless they take up more memory than it allows itself.
#[verifier::external_body]
pub(crate) fn encode_png(width: u32, height: u32, rgba: &[u8]) -> (png: Result<
    Option<Vec<u8>>,
    image::ImageError,
>)
    ensures
        match png {
            Ok(Some(file)) => {
                let pixels = rgba@.take(rgba_len(width, height));
                &&& holds_rgba(width, height, rgba@.len())
                &&& width > 0 && height > 0
                &&& file@ == png_file(width, height, pixels)
                &&& file_pixels(file@) == (if rgba_len(width, height) <= IMAGE_READER_LIMIT_BYTES {
                    Some((width, height, pixels))
                } else {
                    None
                })
            },
            Ok(None) => !holds_rgba(width, height, rgba@.len()),
            Err(_) => holds_rgba(width, height, rgba@.len()) && (width == 0 || height == 0),
        },
{
    let image: RgbaImage = match ImageBuffer::from_raw(width, height, rgba.to_vec()) {
        Some(image) => image,
        None => return Ok(None),
    };
    let mut file = Cursor::new(Vec::new());
    image.write_to(&mut file, ImageFormat::Png)?;
    Ok(Some(file.into_inner()))
}

/// `image::load_from_memory`, then `DynamicImage::to_rgba8`: the image has pixels, and four bytes
/// for each of them. The formats that are read are those that were built in, PNG always among them;
/// the reader also asks decoders that were registered in the process, and none ever is.
#[verifier::external_body]
pub(crate) fn decode_image(file: &[u8]) -> (image: Result<(u32, u32, Vec<u8>), image::ImageError>)
    ensures
        match image {
            Ok((width, height, pixels)) => {
                &&& file_pixels(file@) == Some((width, height, pixels@))
                &&& pixels@.len() == rgba_len(width, height)
                &&& width > 0 && height > 0
            },
            Err(_) => file_pixels(file@) is None,
        },
{
    let image = image::load_from_memory(file)?.to_rgba8();
    Ok((image.width(), image.height(), image.into_raw()))
}

/// A lower case hexadecimal digit.
pub open spec fn is_lower_hex(c: char) -> bool {
    ||| '0' <= c <= '9'
    ||| 'a' <= c <= 'f'
}

/// The shape of a random UUID in text: five groups of lower case hexadecimal digits, of 8, 4, 4, 4
/// and 12 digits, parted by hyphens. The third starts with the version digit 4, the fourth with
/// one of the variant digits 8, 9, a and b.
pub open spec fn is_uuid_v4_text(text: Seq<char>) -> bool {
    &&& text.len() == 36
    &&& text[14] == '4'
    &&& text[19] == '8' || text[19] == '9' || text[19] == 'a' || text[19] == 'b'
    &&& forall|i: int|
        0 <= i < 36 ==> if i == 8 || i == 13 || i == 18 || i == 23 {
            #[trigger] text[i] == '-'
        } else {
            is_lower_hex(text[i])
        }
}

/// `Uuid::new_v4` and its text form. The digits are random: only the shape is the same every time.
#[verifier::external_body]
pub(crate) fn new_message_id() -> (id: String)
    ensures
        is_uuid_v4_text(id@),
{
    uuid::Uuid::new_v4().to_string()
}

proof fn lemma_percent_encoded_first(bytes: Seq<u8>)
    requires
        bytes.len() > 0,
    ensures
        percent_encoded(bytes) == percent_encoded_byte(bytes.first()) + percent_encoded(
            bytes.drop_first(),
        ),
    decreases bytes.len(),
{
    if bytes.len() == 1 {
        assert(bytes.drop_last() =~= Seq::<u8>::empty());
        assert(bytes.drop_first() =~= Seq::<u8>::empty());
        assert(percent_encoded(Seq::<u8>::empty()) =~= Seq::<char>::empty());
    } else {
        lemma_percent_encoded_first(bytes.drop_last());
        assert(bytes.drop_last().drop_first() =~= bytes.drop_first().drop_last());
        assert(percent_encoded_byte(bytes.first()) + percent_encoded(bytes.drop_first().drop_last())
            + percent_encoded_byte(bytes.last()) =~= percent_encoded_byte(bytes.first()) + (
        percent_encoded(bytes.drop_first().drop_last()) + percent_encoded_byte(bytes.last())));
    }
}

/// Percent-encoded text is made of ASCII letters and digits, `-`, `_`, `.`, `~` and `%` alone: it
/// holds nothing that parts a URL.
pub proof fn percent_encoded_text_is_url_safe(bytes: Seq<u8>, i: int)
    requires
        0 <= i < percent_encoded(bytes).len(),
    ensures
        ({
            let c = percent_encoded(bytes)[i];
            c == '%' || (c <= '\u{7f}' && is_unreserved(c as u8))
        }),
    decreases bytes.len(),
{
    let front = percent_encoded(bytes.drop_last());
    if i < front.len() {
        percent_encoded_text_is_url_safe(bytes.drop_last(), i);
    }
}

/// Percent-encoding loses nothing: different bytes have different texts.
pub proof fn percent_encoding_is_injective(a: Seq<u8>, b: Seq<u8>)
    requires
        percent_encoded(a) == percent_encoded(b),
    ensures
        a == b,
    decreases a.len(),
{
    if a.len() > 0 {
        lemma_percent_encoded_first(a);
    }
    if b.len() > 0 {
        lemma_percent_encoded_first(b);
    }
    if a.len() == 0 || b.len() == 0 {
        assert(a.len() > 0 ==> percent_encoded(a).len() >= percent_encoded_byte(a.first()).len());
        assert(b.len() > 0 ==> percent_encoded(b).len() >= percent_encoded_byte(b.first()).len());
        assert(percent_encoded(a).len() == 0);
        assert(a.len() == 0 && b.len() == 0);
    } else {
        let text = percent_encoded(a);
        let head_a = percent_encoded_byte(a.first());
        let head_b = percent_encoded_byte(b.first());
        let tail_a = percent_encoded(a.drop_first());
        let tail_b = percent_encoded(b.drop_first());
        assert(text[0] == head_a[0] && text[0] == head_b[0]);
        assert(head_a.len() == head_b.len());
        if head_a.len() == 3 {
            assert(text[1] == head_a[1] && text[1] == head_b[1]);
            assert(text[2] == head_a[2] && text[2] == head_b[2]);
        }
        assert(a.first() == b.first());
        assert(tail_a =~= text.skip(head_a.len() as int));
        assert(tail_b =~= text.skip(head_b.len() as int));
        percent_encoding_is_injective(a.drop_first(), b.drop_first());
        assert(a =~= seq![a.first()] + a.drop_first());
        assert(b =~= seq![b.first()] + b.drop_first());
    }
}

} // verus!
