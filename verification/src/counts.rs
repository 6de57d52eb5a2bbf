//! The three counters: lines, words, and bytes of a text buffer.

use vstd::prelude::*;

verus! {

/// A byte that separates words: the space or the newline character.
pub open spec fn is_separator(b: u8) -> bool {
    b == 32 || b == 10
}

/// Number of newline bytes in the buffer.
pub open spec fn newline_tally(s: Seq<u8>) -> nat
    decreases s.len(),
{
    if s.len() == 0 {
        0
    } else {
        newline_tally(s.drop_last()) + if s.last() == 10 { 1nat } else { 0nat }
    }
}

/// Number of lines: one per newline byte, plus one more when a non-empty
/// final segment is left unterminated.
pub open spec fn line_count(s: Seq<u8>) -> nat {
    newline_tally(s) + if s.len() > 0 && s.last() != 10 { 1nat } else { 0nat }
}

/// True when position `i` starts a word: a non-separator byte at the very
/// beginning of the buffer or right after a separator.
pub open spec fn starts_word(s: Seq<u8>, i: int) -> bool {
    &&& 0 <= i < s.len()
    &&& !is_separator(s[i])
    &&& (i == 0 || is_separator(s[i - 1]))
}

/// Number of maximal runs of non-separator bytes; each run is counted at
/// the position where it starts.
pub open spec fn word_count(s: Seq<u8>) -> nat
    decreases s.len(),
{
    if s.len() == 0 {
        0
    } else {
        word_count(s.drop_last()) + if starts_word(s, s.len() - 1) { 1nat } else { 0nat }
    }
}

proof fn lemma_newline_tally_step(s: Seq<u8>, i: int)
    requires
        0 <= i < s.len(),
    ensures
        newline_tally(s.take(i + 1)) == newline_tally(s.take(i)) + if s[i] == 10 {
            1nat
        } else {
            0nat
        },
{
    assert(s.take(i + 1).drop_last() =~= s.take(i));
    assert(s.take(i + 1).last() == s[i]);
}

proof fn lemma_word_count_step(s: Seq<u8>, i: int)
    requires
        0 <= i < s.len(),
    ensures
        word_count(s.take(i + 1)) == word_count(s.take(i)) + if starts_word(s, i) {
            1nat
        } else {
            0nat
        },
{
    let t = s.take(i + 1);
    assert(t.drop_last() =~= s.take(i));
    assert(t[i] == s[i]);
    assert(i > 0 ==> t[i - 1] == s[i - 1]);
    assert(starts_word(t, i) == starts_word(s, i));
}

/// A buffer's newline tally never exceeds its length, and is strictly
/// below it when the final byte is not a newline.
proof fn lemma_newline_tally_le_len(s: Seq<u8>)
    ensures
        newline_tally(s) <= s.len(),
        s.len() > 0 && s.last() != 10 ==> newline_tally(s) < s.len(),
    decreases s.len(),
{
    if s.len() > 0 {
        lemma_newline_tally_le_len(s.drop_last());
    }
}

/// A buffer's line count never exceeds its byte count.
pub proof fn lemma_line_count_le_len(s: Seq<u8>)
    ensures
        line_count(s) <= s.len(),
{
    lemma_newline_tally_le_len(s);
}

/// A buffer's word count never exceeds its byte count.
pub proof fn lemma_word_count_le_len(s: Seq<u8>)
    ensures
        word_count(s) <= s.len(),
    decreases s.len(),
{
    if s.len() > 0 {
        lemma_word_count_le_len(s.drop_last());
    }
}

/// Line count of the buffer: its newline-terminated segments, plus a
/// final unterminated segment when that is non-empty.
pub fn get_newline_count(buf: &Vec<u8>) -> (count: usize)
    ensures
        count == line_count(buf@),
{
    let mut newlines: usize = 0;
    let mut i: usize = 0;
    while i < buf.len()
        invariant
            i <= buf@.len(),
            newlines == newline_tally(buf@.take(i as int)),
            newlines <= i,
        decreases buf@.len() - i,
    {
        proof {
            lemma_newline_tally_step(buf@, i as int);
        }
        if buf[i] == 10 {
            newlines = newlines + 1;
        }
        i = i + 1;
    }
    assert(buf@.take(i as int) =~= buf@);
    if buf.len() > 0 && buf[buf.len() - 1] != 10 {
        proof {
            lemma_newline_tally_le_len(buf@);
        }
        newlines + 1
    } else {
        newlines
    }
}

/// Word count of the buffer: its maximal runs of bytes that are neither
/// space nor newline.
pub fn get_word_count(buf: &Vec<u8>) -> (count: usize)
    ensures
        count == word_count(buf@),
{
    let mut words: usize = 0;
    let mut i: usize = 0;
    while i < buf.len()
        invariant
            i <= buf@.len(),
            words == word_count(buf@.take(i as int)),
            words <= i,
        decreases buf@.len() - i,
    {
        proof {
            lemma_word_count_step(buf@, i as int);
        }
        let b = buf[i];
        if b != 32 && b != 10 {
            if i == 0 || buf[i - 1] == 32 || buf[i - 1] == 10 {
                words = words + 1;
            }
        }
        i = i + 1;
    }
    assert(buf@.take(i as int) =~= buf@);
    words
}

/// Byte count of the buffer: its exact length, with no interpretation of
/// the bytes.
pub fn get_byte_count(buf: &Vec<u8>) -> (count: usize)
    ensures
        count == buf@.len(),
{
    buf.len()
}

/// Idempotence of counting: each counter's contract admits exactly one
/// result for a given buffer, so repeated counts of an unchanged buffer
/// must agree.
pub proof fn lemma_counting_idempotent(
    s: Seq<u8>,
    lines1: nat,
    lines2: nat,
    words1: nat,
    words2: nat,
    bytes1: nat,
    bytes2: nat,
)
    requires
        lines1 == line_count(s),
        lines2 == line_count(s),
        words1 == word_count(s),
        words2 == word_count(s),
        bytes1 == s.len(),
        bytes2 == s.len(),
    ensures
        lines1 == lines2,
        words1 == words2,
        bytes1 == bytes2,
{
}

} // verus!
