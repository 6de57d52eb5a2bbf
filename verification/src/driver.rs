//! The driver's verified core: the per-file step that counts one buffer,
//! renders its row, and accumulates running totals, together with the
//! decisions that shape a run.

use vstd::prelude::*;
use crate::counts::get_byte_count;
use crate::counts::get_newline_count;
use crate::counts::get_word_count;
use crate::counts::lemma_line_count_le_len;
use crate::counts::lemma_word_count_le_len;
use crate::counts::line_count;
use crate::counts::word_count;
use crate::output::DisplaySelection;
use crate::output::row;
use crate::output::write_output;

verus! {

/// The three counts of one buffer, or the running totals over several.
pub struct Counts {
    pub lines: usize,
    pub words: usize,
    pub bytes: usize,
}

impl Counts {
    /// Totals accumulated from buffer counts keep each count within the
    /// byte total, since no buffer holds more lines or words than bytes.
    pub open spec fn wf(self) -> bool {
        self.lines <= self.bytes && self.words <= self.bytes
    }

    /// Zeroed totals: the accumulator's starting state.
    pub fn zero() -> (c: Counts)
        ensures
            c.lines == 0,
            c.words == 0,
            c.bytes == 0,
            c.wf(),
    {
        Counts { lines: 0, words: 0, bytes: 0 }
    }
}

/// One driver step: count the buffer, render its row under the given
/// display selection and name, and add the buffer's counts to the
/// running totals.
pub fn process_file(buf: &Vec<u8>, name: &Vec<u8>, sel: &DisplaySelection, totals: &mut Counts) -> (out: Vec<u8>)
    requires
        old(totals).wf(),
        old(totals).bytes + buf@.len() <= usize::MAX,
    ensures
        out@ == row(line_count(buf@), word_count(buf@), buf@.len(), *sel, name@),
        final(totals).lines == old(totals).lines + line_count(buf@),
        final(totals).words == old(totals).words + word_count(buf@),
        final(totals).bytes == old(totals).bytes + buf@.len(),
        final(totals).wf(),
{
    proof {
        lemma_line_count_le_len(buf@);
        lemma_word_count_le_len(buf@);
    }
    let lines = get_newline_count(buf);
    let words = get_word_count(buf);
    let bytes = get_byte_count(buf);
    let out = write_output(lines, words, bytes, name, sel);
    totals.lines = totals.lines + lines;
    totals.words = totals.words + words;
    totals.bytes = totals.bytes + bytes;
    out
}

/// Sum of the line counts of a sequence of buffers.
pub open spec fn sum_lines(bufs: Seq<Seq<u8>>) -> nat
    decreases bufs.len(),
{
    if bufs.len() == 0 {
        0
    } else {
        sum_lines(bufs.drop_last()) + line_count(bufs.last())
    }
}

/// Sum of the word counts of a sequence of buffers.
pub open spec fn sum_words(bufs: Seq<Seq<u8>>) -> nat
    decreases bufs.len(),
{
    if bufs.len() == 0 {
        0
    } else {
        sum_words(bufs.drop_last()) + word_count(bufs.last())
    }
}

/// Sum of the byte counts of a sequence of buffers.
pub open spec fn sum_bytes(bufs: Seq<Seq<u8>>) -> nat
    decreases bufs.len(),
{
    if bufs.len() == 0 {
        0
    } else {
        sum_bytes(bufs.drop_last()) + bufs.last().len()
    }
}

/// Totals as the driver builds them: starting from zero, one
/// `process_file` step per buffer, in order, each step adding that
/// buffer's line, word, and byte counts to the respective component.
pub open spec fn accumulated_totals(bufs: Seq<Seq<u8>>) -> (nat, nat, nat)
    decreases bufs.len(),
{
    if bufs.len() == 0 {
        (0, 0, 0)
    } else {
        let t = accumulated_totals(bufs.drop_last());
        let b = bufs.last();
        (t.0 + line_count(b), t.1 + word_count(b), t.2 + b.len())
    }
}

/// Totals law: accumulating counts buffer by buffer yields, in each
/// component, the sum of the individual buffers' counts.
pub proof fn lemma_totals_are_sums(bufs: Seq<Seq<u8>>)
    ensures
        accumulated_totals(bufs).0 == sum_lines(bufs),
        accumulated_totals(bufs).1 == sum_words(bufs),
        accumulated_totals(bufs).2 == sum_bytes(bufs),
    decreases bufs.len(),
{
    if bufs.len() > 0 {
        lemma_totals_are_sums(bufs.drop_last());
    }
}

/// The totals row appears exactly when more than one file was processed.
pub fn totals_row_needed(file_count: usize) -> (needed: bool)
    ensures
        needed == (file_count > 1),
{
    file_count > 1
}

/// What an invocation does once its flags are parsed.
#[derive(Debug, PartialEq, Eq)]
pub enum RunAction {
    PrintUsage,
    CountFiles,
}

/// Usage is printed, and no file processed, exactly when help was asked
/// for or no file was named.
pub fn choose_action(help: bool, file_count: usize) -> (action: RunAction)
    ensures
        action is PrintUsage <==> help || file_count == 0,
{
    if help || file_count == 0 {
        RunAction::PrintUsage
    } else {
        RunAction::CountFiles
    }
}

} // verus!
