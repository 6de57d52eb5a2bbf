//! Rendering one output row: the selected counts in fixed-width fields,
//! then the display name.

use vstd::prelude::*;

verus! {

/// Which of the three counts a row displays, fixed once per run.
pub struct DisplaySelection {
    pub lines: bool,
    pub words: bool,
    pub bytes: bool,
}

impl DisplaySelection {
    /// Display policy: with no count flag given, all three counts are
    /// shown; with at least one given, exactly the given ones are shown.
    pub fn from_flags(bytes_flag: bool, lines_flag: bool, words_flag: bool) -> (sel:
        DisplaySelection)
        ensures
            !bytes_flag && !lines_flag && !words_flag ==> sel.lines && sel.words && sel.bytes,
            bytes_flag || lines_flag || words_flag ==> sel.lines == lines_flag && sel.words
                == words_flag && sel.bytes == bytes_flag,
    {
        if bytes_flag || lines_flag || words_flag {
            DisplaySelection { lines: lines_flag, words: words_flag, bytes: bytes_flag }
        } else {
            DisplaySelection { lines: true, words: true, bytes: true }
        }
    }
}

/// The ASCII digit byte for a value below ten.
pub open spec fn digit_byte(d: nat) -> u8 {
    (48 + d) as u8
}

/// Decimal representation of `n` as ASCII digit bytes, most significant
/// digit first.
pub open spec fn decimal(n: nat) -> Seq<u8>
    decreases n,
{
    if n < 10 {
        seq![digit_byte(n)]
    } else {
        decimal(n / 10).push(digit_byte(n % 10))
    }
}

/// `k` space bytes.
pub open spec fn spaces(k: nat) -> Seq<u8> {
    Seq::new(k, |i: int| 32u8)
}

/// A count rendered right-aligned in a field of minimum width eight:
/// space padding on the left, and no padding once the digits alone fill
/// the field.
pub open spec fn field(n: nat) -> Seq<u8> {
    if decimal(n).len() >= 8 {
        decimal(n)
    } else {
        spaces((8 - decimal(n).len()) as nat) + decimal(n)
    }
}

/// One output row: the selected counts in the fixed order lines, words,
/// bytes, then one space, the display name, and a newline.
pub open spec fn row(
    lines: nat,
    words: nat,
    bytes: nat,
    sel: DisplaySelection,
    name: Seq<u8>,
) -> Seq<u8> {
    (if sel.lines {
        field(lines)
    } else {
        Seq::<u8>::empty()
    }) + (if sel.words {
        field(words)
    } else {
        Seq::<u8>::empty()
    }) + (if sel.bytes {
        field(bytes)
    } else {
        Seq::<u8>::empty()
    }) + seq![32u8] + name + seq![10u8]
}

/// Decimal digits of `n`, most significant first.
fn decimal_digits(n: usize) -> (digits: Vec<u8>)
    ensures
        digits@ == decimal(n as nat),
    decreases n,
{
    if n < 10 {
        let mut digits: Vec<u8> = Vec::new();
        digits.push(48 + (n as u8));
        assert(digits@ =~= decimal(n as nat));
        digits
    } else {
        let mut digits = decimal_digits(n / 10);
        digits.push(48 + ((n % 10) as u8));
        assert(digits@ =~= decimal(n as nat));
        digits
    }
}

/// A count rendered into its eight-wide field.
fn render_field(n: usize) -> (out: Vec<u8>)
    ensures
        out@ == field(n as nat),
{
    let mut digits = decimal_digits(n);
    if digits.len() >= 8 {
        digits
    } else {
        let pad: usize = 8 - digits.len();
        let mut out: Vec<u8> = Vec::new();
        let mut j: usize = 0;
        while j < pad
            invariant
                j <= pad,
                out@ =~= spaces(j as nat),
            decreases pad - j,
        {
            out.push(32);
            assert(out@ =~= spaces((j + 1) as nat));
            j = j + 1;
        }
        out.append(&mut digits);
        assert(out@ =~= field(n as nat));
        out
    }
}

/// Format one row for the given counts, display selection, and name.
pub fn write_output(
    lines: usize,
    words: usize,
    bytes: usize,
    name: &Vec<u8>,
    sel: &DisplaySelection,
) -> (out: Vec<u8>)
    ensures
        out@ == row(lines as nat, words as nat, bytes as nat, *sel, name@),
{
    let mut out: Vec<u8> = Vec::new();
    if sel.lines {
        let mut f = render_field(lines);
        out.append(&mut f);
    }
    if sel.words {
        let mut f = render_field(words);
        out.append(&mut f);
    }
    if sel.bytes {
        let mut f = render_field(bytes);
        out.append(&mut f);
    }
    out.push(32);
    out.extend_from_slice(name.as_slice());
    out.push(10);
    assert(out@ =~= row(lines as nat, words as nat, bytes as nat, *sel, name@));
    out
}

} // verus!
