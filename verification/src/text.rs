//! Helpers on strings that the rest of the crate leans on.

use vstd::prelude::*;
use vstd::utf8::{encode_utf8, encode_utf8_decode_utf8};

verus! {

/// Two texts with the same UTF-8 encoding are the same text.
pub proof fn lemma_same_bytes_same_text(a: Seq<char>, b: Seq<char>)
    requires
        encode_utf8(a) == encode_utf8(b),
    ensures
        a == b,
{
    encode_utf8_decode_utf8(a);
    encode_utf8_decode_utf8(b);
}

/// Whether two string slices hold the same text.
pub fn str_eq(a: &str, b: &str) -> (same: bool)
    ensures
        same == (a@ == b@),
{
    let x = a.as_bytes();
    let y = b.as_bytes();
    if x.len() != y.len() {
        return false;
    }
    let mut i: usize = 0;
    while i < x.len()
        invariant
            i <= x@.len(),
            x@.len() == y@.len(),
            x@ == encode_utf8(a@),
            y@ == encode_utf8(b@),
            forall|j: int| 0 <= j < i ==> x@[j] == y@[j],
        decreases x@.len() - i,
    {
        if x[i] != y[i] {
            return false;
        }
        i += 1;
    }
    proof {
        assert(x@ =~= y@);
        lemma_same_bytes_same_text(a@, b@);
    }
    true
}

/// `text` without the slashes it ends in.
pub open spec fn strip_trailing_slashes(text: Seq<char>) -> Seq<char>
    decreases text.len(),
{
    if text.len() > 0 && text.last() == '/' {
        strip_trailing_slashes(text.drop_last())
    } else {
        text
    }
}

/// What [`strip_trailing_slashes`] returns is a prefix of its argument that
/// does not end in a slash, and only slashes were dropped.
pub proof fn lemma_strip_trailing_slashes(text: Seq<char>)
    ensures
        strip_trailing_slashes(text).len() <= text.len(),
        strip_trailing_slashes(text) == text.subrange(
            0,
            strip_trailing_slashes(text).len() as int,
        ),
        strip_trailing_slashes(text).len() > 0 ==> strip_trailing_slashes(text).last() != '/',
        forall|i: int|
            strip_trailing_slashes(text).len() <= i < text.len() ==> text[i] == '/',
    decreases text.len(),
{
    if text.len() > 0 && text.last() == '/' {
        let shorter = text.drop_last();
        lemma_strip_trailing_slashes(shorter);
        let kept = strip_trailing_slashes(shorter);
        assert(kept == text.subrange(0, kept.len() as int));
        assert forall|i: int| kept.len() <= i < text.len() implies text[i] == '/' by {
            if i < shorter.len() {
                assert(shorter[i] == text[i]);
            }
        }
    } else {
        assert(text == text.subrange(0, text.len() as int));
    }
}

/// Stripping twice is stripping once.
pub proof fn lemma_strip_trailing_slashes_twice(text: Seq<char>)
    ensures
        strip_trailing_slashes(strip_trailing_slashes(text)) == strip_trailing_slashes(text),
{
    lemma_strip_trailing_slashes(text);
}

/// Cuts the trailing slashes off `text`.
pub fn trim_trailing_slashes(text: &str) -> (trimmed: &str)
    ensures
        trimmed@ == strip_trailing_slashes(text@),
{
    let mut end = text.unicode_len();
    assert(text@.subrange(0, end as int) == text@);
    while end > 0 && text.get_char(end - 1) == '/'
        invariant
            end <= text@.len(),
            strip_trailing_slashes(text@) == strip_trailing_slashes(text@.subrange(0, end as int)),
        decreases end,
    {
        assert(text@.subrange(0, end as int).drop_last() == text@.subrange(0, end - 1));
        end -= 1;
    }
    text.substring_char(0, end)
}

} // verus!
