//! Hashes, tokens, percent-encoding and base64 lengths.

use crate::codec::{base64_len, is_lower_hex, percent_encoded};
use crate::security::{
    bearer_text, bearer_value, bytes_hash, calculate_bytes_hash, hex_text, lower_hex, sha256_digest,
};
use vstd::prelude::*;

verus! {

/// Every byte is written as two digits whose values, the first times sixteen plus the second, make
/// it up; the digits are `0` to `9` and `a` to `f`.
pub proof fn hex_digits_make_up_the_bytes(bytes: Seq<u8>, i: int)
    requires
        0 <= i < bytes.len(),
    ensures
        lower_hex(bytes).len() == 2 * bytes.len(),
        ({
            let high = lower_hex(bytes)[2 * i];
            let low = lower_hex(bytes)[2 * i + 1];
            &&& ('0' <= high && high <= '9') || ('a' <= high && high <= 'f')
            &&& ('0' <= low && low <= '9') || ('a' <= low && low <= 'f')
            &&& bytes[i] == 16 * (if high <= '9' {
                high as int - 48
            } else {
                high as int - 87
            }) + (if low <= '9' {
                low as int - 48
            } else {
                low as int - 87
            })
        }),
{
    assert((2 * i) / 2 == i && (2 * i) % 2 == 0);
    assert((2 * i + 1) / 2 == i && (2 * i + 1) % 2 == 1);
}

/// A lower case hexadecimal digit is one of the sixteen characters.
pub proof fn lower_hex_digits_are_these(c: char)
    ensures
        is_lower_hex(c) <==> ('0' <= c && c <= '9') || ('a' <= c && c <= 'f'),
{
}

/// The hash of bytes is the digest of all of them: it gives the digest back, byte for byte.
pub proof fn hash_is_the_digest_of_all_bytes(bytes: Seq<u8>, i: int)
    requires
        0 <= i < sha256_digest(bytes).len(),
    ensures
        bytes_hash(bytes).len() == 2 * sha256_digest(bytes).len(),
        ({
            let high = bytes_hash(bytes)[2 * i];
            let low = bytes_hash(bytes)[2 * i + 1];
            sha256_digest(bytes)[i] == 16 * (if high <= '9' {
                high as int - 48
            } else {
                high as int - 87
            }) + (if low <= '9' {
                low as int - 48
            } else {
                low as int - 87
            })
        }),
{
    hex_digits_make_up_the_bytes(sha256_digest(bytes), i);
}

/// Bytes have the same hash exactly when they have the same digest.
pub proof fn hashes_differ_as_digests_do(a: Seq<u8>, b: Seq<u8>)
    ensures
        bytes_hash(a) == bytes_hash(b) <==> sha256_digest(a) == sha256_digest(b),
{
    if bytes_hash(a) == bytes_hash(b) {
        crate::security::hex_text_is_injective(sha256_digest(a), sha256_digest(b));
    }
}

/// A bearer value is the word `Bearer`, a space and the token, so no two tokens share one.
pub proof fn bearer_value_carries_the_token(a: Seq<char>, b: Seq<char>)
    ensures
        bearer_text(a) == seq!['B', 'e', 'a', 'r', 'e', 'r', ' '] + a,
        bearer_text(a) == bearer_text(b) ==> a == b,
{
    reveal_strlit("Bearer ");
    assert("Bearer "@ =~= seq!['B', 'e', 'a', 'r', 'e', 'r', ' ']);
    if bearer_text(a) == bearer_text(b) {
        assert(a =~= bearer_text(a).skip(7));
        assert(b =~= bearer_text(b).skip(7));
    }
}

/// Percent-encoding goes byte by byte: what stands next to a byte does not matter.
pub proof fn percent_encoding_goes_byte_by_byte(a: Seq<u8>, b: Seq<u8>)
    ensures
        percent_encoded(a + b) == percent_encoded(a) + percent_encoded(b),
    decreases b.len(),
{
    if b.len() == 0 {
        assert(a + b =~= a);
        assert(percent_encoded(a) + percent_encoded(b) =~= percent_encoded(a));
    } else {
        percent_encoding_goes_byte_by_byte(a, b.drop_last());
        assert((a + b).drop_last() =~= a + b.drop_last());
        assert((a + b).last() == b.last());
        assert(percent_encoded(a + b) =~= percent_encoded(a) + percent_encoded(b));
    }
}

/// Letters, digits, `-`, `.`, `_` and `~` stand for themselves; every other byte becomes a percent
/// sign and two digits, `0` to `9` and `A` to `F`, whose values make it up.
pub proof fn percent_encoding_of_a_byte(byte: u8)
    ensures
        ({
            let text = percent_encoded(seq![byte]);
            let stands = (48 <= byte && byte <= 57) || (65 <= byte && byte <= 90) || (97 <= byte
                && byte <= 122) || byte == 45 || byte == 46 || byte == 95 || byte == 126;
            if stands {
                text.len() == 1 && text[0] as int == byte
            } else {
                &&& text.len() == 3
                &&& text[0] == '%'
                &&& ('0' <= text[1] && text[1] <= '9') || ('A' <= text[1] && text[1] <= 'F')
                &&& ('0' <= text[2] && text[2] <= '9') || ('A' <= text[2] && text[2] <= 'F')
                &&& byte == 16 * (if text[1] <= '9' {
                    text[1] as int - 48
                } else {
                    text[1] as int - 55
                }) + (if text[2] <= '9' {
                    text[2] as int - 48
                } else {
                    text[2] as int - 55
                })
            }
        }),
        percent_encoded(Seq::<u8>::empty()) == Seq::<char>::empty(),
{
    assert(seq![byte].drop_last() =~= Seq::<u8>::empty());
    assert(seq![byte].last() == byte);
    assert(percent_encoded(Seq::<u8>::empty()) =~= Seq::<char>::empty());
    assert(percent_encoded(seq![byte]) =~= crate::codec::percent_encoded_byte(byte));
}

/// A base64 text has four characters for every three bytes begun, and no more.
pub proof fn base64_takes_four_for_three(len: nat)
    ensures
        base64_len(len) % 4 == 0,
        4 * len <= 3 * base64_len(len) < 4 * len + 12,
{
}

/// The text of bytes has two digits for each, whose values make it up.
pub proof fn hex_texts_make_up_the_bytes(bytes: &[u8], text: String, i: int)
    requires
        call_ensures(hex_text, (bytes,), text),
        0 <= i < bytes@.len(),
    ensures
        text@.len() == 2 * bytes@.len(),
        ({
            let high = text@[2 * i];
            let low = text@[2 * i + 1];
            &&& ('0' <= high && high <= '9') || ('a' <= high && high <= 'f')
            &&& ('0' <= low && low <= '9') || ('a' <= low && low <= 'f')
            &&& bytes@[i] == 16 * (if high <= '9' {
                high as int - 48
            } else {
                high as int - 87
            }) + (if low <= '9' {
                low as int - 48
            } else {
                low as int - 87
            })
        }),
{
    hex_digits_make_up_the_bytes(bytes@, i);
}

/// A hash has 64 digits, two for each of the 32 bytes of the SHA-256 digest of all bytes.
pub proof fn hashes_are_digests_of_all_bytes(bytes: &[u8], hash: String, i: int)
    requires
        call_ensures(calculate_bytes_hash, (bytes,), hash),
        0 <= i < 32,
    ensures
        hash@.len() == 64,
        hash@ == bytes_hash(bytes@),
        ({
            let high = hash@[2 * i];
            let low = hash@[2 * i + 1];
            &&& ('0' <= high && high <= '9') || ('a' <= high && high <= 'f')
            &&& ('0' <= low && low <= '9') || ('a' <= low && low <= 'f')
            &&& sha256_digest(bytes@)[i] == 16 * (if high <= '9' {
                high as int - 48
            } else {
                high as int - 87
            }) + (if low <= '9' {
                low as int - 48
            } else {
                low as int - 87
            })
        }),
{
    assert(2 * sha256_digest(bytes@).len() == 64);
    hex_digits_make_up_the_bytes(sha256_digest(bytes@), i);
}

/// The value that stands for a token is the word `Bearer`, a space and the token.
pub proof fn bearer_values_carry_the_token(token: &str, value: String)
    requires
        call_ensures(bearer_value, (token,), value),
    ensures
        value@ == seq!['B', 'e', 'a', 'r', 'e', 'r', ' '] + token@,
{
    bearer_value_carries_the_token(token@, token@);
}

} // verus!
