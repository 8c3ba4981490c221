//! Payload hashes.

use crate::codec::is_lower_hex;
use sha2::{Digest, Sha256};
use vstd::prelude::*;

verus! {

/// The SHA-256 digest of `bytes`.
pub uninterp spec fn sha256_digest(bytes: Seq<u8>) -> Seq<u8>;

/// `Sha256::new`, `update` and `finalize`: the 32 digest bytes of what was fed in.
#[verifier::external_body]
fn sha256(bytes: &[u8]) -> (digest: Vec<u8>)
    ensures
        digest@ == sha256_digest(bytes@),
        digest@.len() == 32,
{
    let mut hasher = Sha256::new();
    hasher.update(bytes);
    hasher.finalize().to_vec()
}

/// The lower case hexadecimal digit of a value below sixteen.
pub open spec fn lower_hex_digit(value: u8) -> char {
    if value < 10 {
        (0x30 + value) as char
    } else {
        (0x61 + value - 10) as char
    }
}

/// Two lower case hexadecimal digits for every byte, the high one first.
pub open spec fn lower_hex(bytes: Seq<u8>) -> Seq<char> {
    Seq::new(
        2 * bytes.len(),
        |i: int|
            lower_hex_digit(
                if i % 2 == 0 {
                    (bytes[i / 2] / 16) as u8
                } else {
                    (bytes[i / 2] % 16) as u8
                },
            ),
    )
}

/// The hash under which a payload travels: the SHA-256 digest in lower case hexadecimal.
pub open spec fn bytes_hash(bytes: Seq<u8>) -> Seq<char> {
    lower_hex(sha256_digest(bytes))
}

fn hex_digit(value: u8) -> (digit: char)
    requires
        value < 16,
    ensures
        digit == lower_hex_digit(value),
{
    if value < 10 {
        (0x30 + value) as char
    } else {
        (0x61 + (value - 10)) as char
    }
}

/// Writes bytes in lower case hexadecimal.
pub fn hex_text(bytes: &[u8]) -> (text: String)
    ensures
        text@ == lower_hex(bytes@),
{
    let mut text = String::new();
    let mut i: usize = 0;
    assert(text@ =~= lower_hex(bytes@.take(0)));
    while i < bytes.len()
        invariant
            i <= bytes.len(),
            text@ == lower_hex(bytes@.take(i as int)),
        decreases bytes.len() - i,
    {
        text.push(hex_digit(bytes[i] / 16));
        text.push(hex_digit(bytes[i] % 16));
        assert(lower_hex(bytes@.take(i as int)).push(lower_hex_digit(bytes@[i as int] / 16)).push(
            lower_hex_digit(bytes@[i as int] % 16),
        ) =~= lower_hex(bytes@.take(i + 1)));
        i += 1;
    }
    assert(bytes@.take(bytes@.len() as int) =~= bytes@);
    text
}

/// The SHA-256 digest of `bytes` in lower case hexadecimal.
pub fn calculate_bytes_hash(bytes: &[u8]) -> (hash: String)
    ensures
        hash@ == bytes_hash(bytes@),
        hash@.len() == 64,
        forall|i: int| 0 <= i < 64 ==> is_lower_hex(#[trigger] hash@[i]),
{
    let digest = sha256(bytes);
    hex_text(&digest)
}

/// The `Authorization` header value of a bearer token.
pub open spec fn bearer_text(token: Seq<char>) -> Seq<char> {
    "Bearer "@ + token
}

/// The `Authorization` header value of a bearer token.
pub fn bearer_value(token: &str) -> (value: String)
    ensures
        value@ == bearer_text(token@),
{
    let mut value = "Bearer ".to_owned();
    value.append(token);
    value
}

/// Writing in hexadecimal loses nothing: different bytes have different texts.
pub proof fn hex_text_is_injective(a: Seq<u8>, b: Seq<u8>)
    requires
        lower_hex(a) == lower_hex(b),
    ensures
        a == b,
{
    assert(lower_hex(a).len() == 2 * a.len() && lower_hex(b).len() == 2 * b.len());
    assert forall|i: int| 0 <= i < a.len() implies a[i] == b[i] by {
        let high = 2 * i;
        let low = 2 * i + 1;
        assert(high / 2 == i && high % 2 == 0 && low / 2 == i && low % 2 == 1);
        assert(lower_hex(a)[high] == lower_hex_digit((a[i] / 16) as u8));
        assert(lower_hex(b)[high] == lower_hex_digit((b[i] / 16) as u8));
        assert(lower_hex(a)[low] == lower_hex_digit((a[i] % 16) as u8));
        assert(lower_hex(b)[low] == lower_hex_digit((b[i] % 16) as u8));
    }
    assert(a =~= b);
}

} // verus!
