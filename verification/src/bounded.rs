//! Fixed-capacity text buffer (`heapless::String`) that holds a config document
//! once its comments are stripped, with the byte accounting of UTF-8.

use vstd::prelude::*;

verus! {

/// Capacity, in bytes, of the buffer that holds a comment-stripped config document.
pub const MAX_CONFIG_LEN: usize = 10240;

/// Number of bytes `c` takes in UTF-8 (what `char::len_utf8` returns).
pub open spec fn char_utf8_len(c: char) -> nat {
    if (c as u32) <= 0x7f {
        1
    } else if (c as u32) <= 0x7ff {
        2
    } else if (c as u32) <= 0xffff {
        3
    } else {
        4
    }
}

/// Number of bytes the UTF-8 encoding of `s` takes.
pub open spec fn utf8_len(s: Seq<char>) -> nat
    decreases s.len(),
{
    if s.len() == 0 {
        0
    } else {
        utf8_len(s.drop_last()) + char_utf8_len(s.last())
    }
}

/// The UTF-8 length of a concatenation is the sum of the two lengths.
pub proof fn lemma_utf8_len_append(a: Seq<char>, b: Seq<char>)
    ensures
        utf8_len(a + b) == utf8_len(a) + utf8_len(b),
    decreases b.len(),
{
    if b.len() == 0 {
        assert(a + b =~= a);
    } else {
        lemma_utf8_len_append(a, b.drop_last());
        assert((a + b).drop_last() =~= a + b.drop_last());
    }
}

#[verifier::external_type_specification]
#[verifier::external_body]
pub struct ExHeaplessString<const N: usize>(heapless::String<N>);

/// The characters held by a config text buffer.
pub uninterp spec fn config_text_chars(s: heapless::String<MAX_CONFIG_LEN>) -> Seq<char>;

/// `heapless::String::new`: an empty buffer.
#[verifier::external_body]
pub(crate) fn config_text_new() -> (s: heapless::String<MAX_CONFIG_LEN>)
    ensures
        config_text_chars(s) == Seq::<char>::empty(),
{
    heapless::String::new()
}

/// `heapless::String::push`: succeeds exactly when the UTF-8 encoding of the
/// extended contents still fits in the capacity; on failure the buffer is left
/// unchanged.
#[verifier::external_body]
pub(crate) fn config_text_push(s: &mut heapless::String<MAX_CONFIG_LEN>, c: char) -> (r: Result<(), ()>)
    ensures
        utf8_len(config_text_chars(*old(s)).push(c)) <= MAX_CONFIG_LEN ==> (r is Ok
            && config_text_chars(*final(s)) == config_text_chars(*old(s)).push(c)),
        utf8_len(config_text_chars(*old(s)).push(c)) > MAX_CONFIG_LEN ==> (r is Err
            && config_text_chars(*final(s)) == config_text_chars(*old(s))),
{
    s.push(c)
}

} // verus!
