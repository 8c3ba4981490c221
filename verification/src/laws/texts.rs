//! Work on single texts and byte slices.

use crate::text::{
    chars_of, same_bytes, same_text, starts_with, text_between, trim_trailing_slashes,
};
use vstd::prelude::*;

verus! {

/// Byte slices are the same exactly when they have as many bytes and no byte differs.
pub proof fn same_slices_have_the_same_bytes(a: &[u8], b: &[u8], same: bool)
    requires
        call_ensures(same_bytes, (a, b), same),
    ensures
        same <==> a@.len() == b@.len() && forall|i: int|
            0 <= i < a@.len() ==> #[trigger] a@[i] == b@[i],
{
    if a@.len() == b@.len() && forall|i: int| 0 <= i < a@.len() ==> #[trigger] a@[i] == b@[i] {
        assert(a@ =~= b@);
    }
}

/// Texts are the same exactly when they have as many characters and no character differs.
pub proof fn same_texts_have_the_same_characters(a: &str, b: &str, same: bool)
    requires
        call_ensures(same_text, (a, b), same),
    ensures
        same <==> a@.len() == b@.len() && forall|i: int|
            0 <= i < a@.len() ==> #[trigger] a@[i] == b@[i],
{
    if a@.len() == b@.len() && forall|i: int| 0 <= i < a@.len() ==> #[trigger] a@[i] == b@[i] {
        assert(a@ =~= b@);
    }
}

/// Taking a text apart and putting all of it together again gives the text.
pub proof fn texts_are_put_together_again(text: &str, chars: Vec<char>, again: String)
    requires
        call_ensures(chars_of, (text,), chars),
        chars@.len() <= usize::MAX,
        call_ensures(text_between, (&chars, 0, chars@.len() as usize), again),
    ensures
        chars@ == text@,
        again@ == text@,
{
    assert(chars@.subrange(0, chars@.len() as int) =~= chars@);
}

/// What stands between two places of a text are its characters from the first up to the second.
pub proof fn pieces_are_cut_where_they_stand(
    chars: &Vec<char>,
    start: usize,
    end: usize,
    text: String,
    i: int,
)
    requires
        start <= end <= chars@.len(),
        call_ensures(text_between, (chars, start, end), text),
        0 <= i < end - start,
    ensures
        text@.len() == end - start,
        text@[i] == chars@[start + i],
{
}

/// Characters start with a prefix exactly when they are the prefix and something behind it.
pub proof fn prefixes_come_first(chars: &Vec<char>, prefix: &str, found: bool)
    requires
        call_ensures(starts_with, (chars, prefix), found),
    ensures
        found <==> prefix@.len() <= chars@.len() && forall|i: int|
            0 <= i < prefix@.len() ==> #[trigger] chars@[i] == prefix@[i],
{
    let len = prefix@.len() as int;
    if prefix@.len() <= chars@.len() {
        if found {
            assert forall|i: int| 0 <= i < len implies #[trigger] chars@[i] == prefix@[i] by {
                assert(chars@.subrange(0, len)[i] == prefix@[i]);
            }
        }
        if forall|i: int| 0 <= i < len ==> #[trigger] chars@[i] == prefix@[i] {
            assert(chars@.subrange(0, len) =~= prefix@);
        }
    }
}

/// Trimming takes off slashes at the end, all of them, and nothing else.
pub proof fn trimming_takes_the_slashes_at_the_end(text: &str, chars: Vec<char>)
    requires
        call_ensures(trim_trailing_slashes, (text,), chars),
    ensures
        chars@.len() <= text@.len(),
        chars@ == text@.take(chars@.len() as int),
        chars@.len() > 0 ==> chars@.last() != '/',
        forall|i: int| chars@.len() <= i < text@.len() ==> #[trigger] text@[i] == '/',
{
    crate::text::only_trailing_slashes_go(text@);
    assert(chars@ =~= text@.take(chars@.len() as int));
}

} // verus!
