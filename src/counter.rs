//! A single-pass counter of lines, words and characters.
//!
//! Counting is byte-oriented: every count is taken over the UTF-8 encoding of
//! the input, so a non-ASCII character contributes one character per byte.
//! The word and line counts follow a deliberately simple rule: a non-empty
//! text starts with one line and one word, every line feed adds a line, and
//! every space, tab or line feed adds a word, even where such delimiters are
//! consecutive or stand at either end of the text.
use vstd::prelude::*;
use vstd::string::StringSliceAdditionalSpecFns;

verus! {

/// The line-feed byte.
pub const LINE_FEED: u8 = 10;

/// The space byte.
pub const SPACE: u8 = 32;

/// The horizontal-tab byte.
pub const TAB: u8 = 9;

/// A byte that ends a line.
pub open spec fn is_line_feed(b: u8) -> bool {
    b == LINE_FEED
}

/// A byte that separates words: a space, a tab or a line feed.
pub open spec fn is_delimiter(b: u8) -> bool {
    b == SPACE || b == TAB || b == LINE_FEED
}

/// A byte that counts as a character: anything but a line feed.
pub open spec fn is_counted_char(b: u8) -> bool {
    b != LINE_FEED
}

/// How many bytes of `bytes` satisfy `p`.
pub open spec fn count_where(bytes: Seq<u8>, p: spec_fn(u8) -> bool) -> nat
    decreases bytes.len(),
{
    if bytes.len() == 0 {
        0
    } else {
        count_where(bytes.drop_last(), p) + if p(bytes.last()) { 1nat } else { 0nat }
    }
}

/// The number of line feeds in `bytes`.
pub open spec fn line_feeds(bytes: Seq<u8>) -> nat {
    count_where(bytes, |b: u8| is_line_feed(b))
}

/// Lines of a text: none for the empty text, else one more than its line feeds.
pub open spec fn line_count(bytes: Seq<u8>) -> nat {
    if bytes.len() == 0 {
        0
    } else {
        1 + line_feeds(bytes)
    }
}

/// Words of a text: none for the empty text, else one more than its delimiters.
pub open spec fn word_count_of(bytes: Seq<u8>) -> nat {
    if bytes.len() == 0 {
        0
    } else {
        1 + count_where(bytes, |b: u8| is_delimiter(b))
    }
}

/// Characters of a text: every byte but the line feeds.
pub open spec fn char_count(bytes: Seq<u8>) -> nat {
    count_where(bytes, |b: u8| is_counted_char(b))
}

/// The triple `(lines, words, chars)` that [`word_count`] returns for a text
/// whose UTF-8 encoding is `bytes`.
pub open spec fn counts(bytes: Seq<u8>) -> (int, int, int) {
    (line_count(bytes) as int, word_count_of(bytes) as int, char_count(bytes) as int)
}

/// No predicate holds of more bytes than there are.
pub proof fn lemma_count_where_bounded(bytes: Seq<u8>, p: spec_fn(u8) -> bool)
    ensures
        count_where(bytes, p) <= bytes.len(),
    decreases bytes.len(),
{
    if bytes.len() > 0 {
        lemma_count_where_bounded(bytes.drop_last(), p);
    }
}

/// Counting over a prefix one byte longer adds at most that byte.
proof fn lemma_count_where_step(bytes: Seq<u8>, i: int, p: spec_fn(u8) -> bool)
    requires
        0 <= i < bytes.len(),
    ensures
        count_where(bytes.subrange(0, i + 1), p) == count_where(bytes.subrange(0, i), p) + if p(
            bytes[i],
        ) {
            1nat
        } else {
            0nat
        },
{
    assert(bytes.subrange(0, i + 1).drop_last() =~= bytes.subrange(0, i));
}

/// The character count of a text lies between zero and its length in bytes.
pub proof fn lemma_char_count_bounded(bytes: Seq<u8>)
    ensures
        0 <= counts(bytes).2 <= bytes.len(),
{
    lemma_count_where_bounded(bytes, |b: u8| is_counted_char(b));
}

/// The line count of a non-empty text is its number of line feeds plus one;
/// that of the empty text is zero.
pub proof fn lemma_lines_are_line_feeds_plus_one(bytes: Seq<u8>)
    ensures
        counts(bytes).0 == line_feeds(bytes) + if bytes.len() > 0 { 1int } else { 0int },
{
}

/// Counting is a function of the text alone: two strings with the same
/// contents give the same counts.
pub proof fn lemma_counts_deterministic(s: &str, t: &str)
    requires
        s@ == t@,
    ensures
        counts(s.spec_bytes()) == counts(t.spec_bytes()),
{
}

/// Counts the lines, words and characters of `s` in one pass over its bytes.
///
/// The empty string gives `(0, 0, 0)`. Otherwise lines are one plus the line
/// feeds, words are one plus the spaces, tabs and line feeds, and characters
/// are all bytes but the line feeds.
pub fn word_count(s: &str) -> (r: (i32, i32, i32))
    requires
        s.spec_bytes().len() < i32::MAX,
    ensures
        (r.0 as int, r.1 as int, r.2 as int) == counts(s.spec_bytes()),
        r.0 == line_feeds(s.spec_bytes()) + if s.spec_bytes().len() > 0 { 1int } else { 0int },
        0 <= r.2 <= s.spec_bytes().len(),
{
    let bytes = s.as_bytes();
    if bytes.len() == 0 {
        return (0, 0, 0);
    }
    let ghost text = bytes@;
    let ghost lf = |b: u8| is_line_feed(b);
    let ghost delim = |b: u8| is_delimiter(b);
    let ghost counted = |b: u8| is_counted_char(b);
    let mut lines: i32 = 1;
    let mut words: i32 = 1;
    let mut chars: i32 = 0;
    let mut i: usize = 0;
    while i < bytes.len()
        invariant
            text == bytes@,
            text.len() < i32::MAX,
            lf == (|b: u8| is_line_feed(b)),
            delim == (|b: u8| is_delimiter(b)),
            counted == (|b: u8| is_counted_char(b)),
            i <= text.len(),
            lines == 1 + count_where(text.subrange(0, i as int), lf),
            words == 1 + count_where(text.subrange(0, i as int), delim),
            chars == count_where(text.subrange(0, i as int), counted),
        decreases text.len() - i,
    {
        let item = bytes[i];
        proof {
            lemma_count_where_step(text, i as int, lf);
            lemma_count_where_step(text, i as int, delim);
            lemma_count_where_step(text, i as int, counted);
            lemma_count_where_bounded(text.subrange(0, i as int), lf);
            lemma_count_where_bounded(text.subrange(0, i as int), delim);
            lemma_count_where_bounded(text.subrange(0, i as int), counted);
        }
        if item == LINE_FEED {
            lines = lines + 1;
        }
        if item == SPACE || item == TAB || item == LINE_FEED {
            words = words + 1;
        }
        if item != LINE_FEED {
            chars = chars + 1;
        }
        i = i + 1;
    }
    proof {
        assert(text.subrange(0, text.len() as int) =~= text);
        lemma_char_count_bounded(text);
    }
    (lines, words, chars)
}

} // verus!
