//! Functions that move, borrow, extend and slice strings.
use vstd::prelude::*;
use vstd::string::StringSliceAdditionalSpecFns;
use vstd::string::StringExecFns;
use vstd::utf8::encode_utf8;
use vstd::utf8::encode_utf8_valid_utf8;
use vstd::utf8::is_char_boundary_iff_not_is_continuation_byte;
use vstd::utf8::is_char_boundary_start_end_of_seq;

verus! {

/// The byte that ends the first word.
pub const WORD_END: u8 = 32;

/// The length in bytes of the first word of `bytes`: the index of the first
/// space, or the whole length where there is none.
pub open spec fn first_word_len(bytes: Seq<u8>) -> int
    decreases bytes.len(),
{
    if bytes.len() == 0 {
        0
    } else if bytes[0] == WORD_END {
        0
    } else {
        1 + first_word_len(bytes.drop_first())
    }
}

/// The first word never reaches past the text, and it stops at the first
/// space, if there is one.
proof fn lemma_first_word_len(bytes: Seq<u8>, i: int)
    requires
        0 <= i <= bytes.len(),
        forall|j: int| 0 <= j < i ==> bytes[j] != WORD_END,
        i == bytes.len() || bytes[i] == WORD_END,
    ensures
        first_word_len(bytes) == i,
    decreases i,
{
    if i > 0 {
        lemma_first_word_len(bytes.drop_first(), i - 1);
    }
}

/// Returns the first word of `s`: everything before its first space, or all
/// of `s` where it holds no space.
pub fn first_word(s: &String) -> (r: &str)
    ensures
        r.spec_bytes() == encode_utf8(s@).subrange(0, first_word_len(encode_utf8(s@))),
{
    let t = s.as_str();
    let bytes = t.as_bytes();
    let mut i: usize = 0;
    while i < bytes.len()
        invariant
            t@ == s@,
            bytes@ == t.spec_bytes(),
            i <= bytes@.len(),
            forall|j: int| 0 <= j < i ==> bytes@[j] != WORD_END,
        decreases bytes@.len() - i,
    {
        if bytes[i] == WORD_END {
            proof {
                lemma_first_word_len(bytes@, i as int);
                encode_utf8_valid_utf8(t@);
                is_char_boundary_iff_not_is_continuation_byte(bytes@, i as int);
            }
            let (head, _) = t.split_at(i);
            return head;
        }
        i = i + 1;
    }
    proof {
        lemma_first_word_len(bytes@, i as int);
        encode_utf8_valid_utf8(t@);
        is_char_boundary_start_end_of_seq(bytes@);
    }
    let (head, _) = t.split_at(i);
    head
}

/// Returns a fresh string holding `hello`.
pub fn no_dangle() -> (r: String)
    ensures
        r@ == "hello"@,
{
    let s = "hello".to_owned();
    s
}

/// Appends `, world` to `some_string`.
pub fn change(some_string: &mut String)
    ensures
        final(some_string)@ == old(some_string)@ + ", world"@,
{
    some_string.append(", world");
}

/// Returns the length of `s` in bytes of its UTF-8 encoding.
pub fn calculate_length(s: &String) -> (r: usize)
    ensures
        r == encode_utf8(s@).len(),
{
    s.as_str().as_bytes().len()
}

/// Returns a fresh string holding `hello`, handing its ownership to the caller.
pub fn gives_ownership() -> (r: String)
    ensures
        r@ == "hello"@,
{
    let some_string = "hello".to_owned();
    some_string
}

/// Takes ownership of `a_string` and hands the same string back.
pub fn takes_and_gives_back(a_string: String) -> (r: String)
    ensures
        r == a_string,
{
    a_string
}

} // verus!
