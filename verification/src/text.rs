//! The two texts that the game reads: a stage layout and the saved stage.
//!
//! A layout is text of one line per row. Lines end with a line feed, before
//! which a carriage return may stand; the last line need not end at all. The
//! saved stage is a number in decimal and nothing else.

use vstd::prelude::*;
use crate::stage::layout_view;

verus! {

/// The length of the first line of `text`: the number of characters before
/// the first line feed, or all of them where there is none.
pub open spec fn spec_first_line_len(text: Seq<char>) -> int
    decreases text.len(),
{
    if text.len() == 0 || text[0] == '\n' {
        0
    } else {
        1 + spec_first_line_len(text.skip(1))
    }
}

/// A line without the carriage return at its end, if it has one.
pub open spec fn spec_strip_return(line: Seq<char>) -> Seq<char> {
    if line.len() > 0 && line.last() == '\r' {
        line.drop_last()
    } else {
        line
    }
}

/// The lines of `text`. A line ends at a line feed, and a carriage return
/// just before the line feed belongs to the line ending. What follows the
/// last line feed is a line of its own unless it is empty.
pub open spec fn spec_lines(text: Seq<char>) -> Seq<Seq<char>>
    decreases text.len(),
{
    if text.len() == 0 {
        Seq::empty()
    } else {
        let len = spec_first_line_len(text);
        if len < 0 || len >= text.len() {
            seq![text]
        } else {
            seq![spec_strip_return(text.take(len))] + spec_lines(text.skip(len + 1))
        }
    }
}

/// The first line feed of a text is where its first line ends.
proof fn lemma_first_line_len(text: Seq<char>, len: int)
    requires
        0 <= len <= text.len(),
        forall|k: int| 0 <= k < len ==> text[k] != '\n',
        len == text.len() || text[len] == '\n',
    ensures
        spec_first_line_len(text) == len,
    decreases len,
{
    if len > 0 {
        let rest = text.skip(1);
        assert forall|k: int| 0 <= k < len - 1 implies rest[k] != '\n' by {
            assert(rest[k] == text[k + 1]);
        }
        lemma_first_line_len(rest, len - 1);
    }
}

/// Splits the text of a layout into its rows, as `spec_lines` says.
pub fn layout_from_text(text: &Vec<char>) -> (rows: Vec<Vec<char>>)
    ensures
        layout_view(rows@) == spec_lines(text@),
{
    let mut rows: Vec<Vec<char>> = Vec::new();
    let mut line: Vec<char> = Vec::new();
    let mut start: usize = 0;
    let mut i: usize = 0;
    assert(text@.skip(0) =~= text@);
    assert(layout_view(rows@) + spec_lines(text@) =~= spec_lines(text@));
    assert(line@ =~= text@.subrange(0, 0));
    while i < text.len()
        invariant
            start <= i <= text.len(),
            line@ == text@.subrange(start as int, i as int),
            forall|k: int| start <= k < i ==> text@[k] != '\n',
            spec_lines(text@) == layout_view(rows@) + spec_lines(text@.skip(start as int)),
        decreases text.len() - i,
    {
        let c = text[i];
        if c == '\n' {
            let ghost rest = text@.skip(start as int);
            let ghost done = layout_view(rows@);
            proof {
                assert forall|k: int| 0 <= k < i - start implies rest[k] != '\n' by {
                    assert(rest[k] == text@[start + k]);
                }
                lemma_first_line_len(rest, i - start);
                assert(rest.take(i - start) =~= line@);
                assert(rest.skip(i - start + 1) =~= text@.skip(i + 1));
            }
            let n = line.len();
            if n > 0 && line[n - 1] == '\r' {
                line.pop();
            }
            assert(line@ =~= spec_strip_return(rest.take(i - start)));
            let ghost row = line@;
            rows.push(line);
            line = Vec::new();
            start = i + 1;
            proof {
                assert(layout_view(rows@) =~= done + seq![row]);
                assert(spec_lines(rest) == seq![row] + spec_lines(text@.skip(start as int)));
                assert(spec_lines(text@) =~= layout_view(rows@) + spec_lines(text@.skip(start as int)));
                assert(line@ =~= text@.subrange(start as int, start as int));
            }
        } else {
            line.push(c);
            assert(line@ =~= text@.subrange(start as int, i + 1));
        }
        i += 1;
    }
    let ghost rest = text@.skip(start as int);
    let ghost done = layout_view(rows@);
    if start < text.len() {
        proof {
            assert forall|k: int| 0 <= k < rest.len() implies rest[k] != '\n' by {
                assert(rest[k] == text@[start + k]);
            }
            lemma_first_line_len(rest, rest.len() as int);
            assert(line@ =~= rest);
        }
        rows.push(line);
        assert(layout_view(rows@) =~= done + seq![rest]);
    } else {
        assert(rest.len() == 0);
        assert(done + spec_lines(rest) =~= done);
    }
    rows
}

/// Whether `c` is a decimal digit.
pub open spec fn spec_is_digit(c: char) -> bool {
    '0' <= c <= '9'
}

/// The number that the decimal digits `digits` spell.
pub open spec fn spec_decimal_value(digits: Seq<char>) -> nat
    decreases digits.len(),
{
    if digits.len() == 0 {
        0
    } else {
        spec_decimal_value(digits.drop_last()) * 10 + (digits.last() as nat - '0' as nat) as nat
    }
}

/// Whether `digits` holds decimal digits only.
pub open spec fn spec_all_digits(digits: Seq<char>) -> bool {
    forall|k: int| 0 <= k < digits.len() ==> spec_is_digit(#[trigger] digits[k])
}

/// A text without the plus sign at its front, if it has one.
pub open spec fn spec_unsigned(text: Seq<char>) -> Seq<char> {
    if text.len() > 0 && text[0] == '+' {
        text.skip(1)
    } else {
        text
    }
}

/// The number that `text` holds, if it holds one: decimal digits, at least
/// one, before which a plus sign may stand, spelling a number that fits in 32
/// bits. Nothing else may stand in the text, neither a blank nor a line end.
pub open spec fn spec_parse_number(text: Seq<char>) -> Option<u32> {
    let digits = spec_unsigned(text);
    if digits.len() > 0 && spec_all_digits(digits) && spec_decimal_value(digits) <= u32::MAX {
        Some(spec_decimal_value(digits) as u32)
    } else {
        None
    }
}

/// The value of decimal digits grows with every digit.
proof fn lemma_decimal_value_grows(digits: Seq<char>, n: int)
    requires
        0 <= n <= digits.len(),
        spec_all_digits(digits),
    ensures
        spec_decimal_value(digits.take(n)) <= spec_decimal_value(digits),
    decreases digits.len() - n,
{
    if n < digits.len() {
        lemma_decimal_value_grows(digits, n + 1);
        assert(digits.take(n + 1).drop_last() =~= digits.take(n));
        assert(spec_is_digit(digits[n]));
    } else {
        assert(digits.take(n) =~= digits);
    }
}

/// Reads the number that `text` holds, as `spec_parse_number` says.
pub fn parse_number(text: &Vec<char>) -> (number: Option<u32>)
    ensures
        number == spec_parse_number(text@),
{
    let first: usize = if text.len() > 0 && text[0] == '+' { 1 } else { 0 };
    let ghost digits = spec_unsigned(text@);
    assert(text@.skip(0) =~= text@);
    if first >= text.len() {
        return None;
    }
    assert(digits.take(0) =~= Seq::<char>::empty());
    let mut value: u64 = 0;
    let mut i: usize = first;
    while i < text.len()
        invariant
            first <= i <= text.len(),
            digits == spec_unsigned(text@),
            digits == text@.skip(first as int),
            forall|k: int| 0 <= k < i - first ==> spec_is_digit(#[trigger] digits[k]),
            value == spec_decimal_value(digits.take(i - first)),
            value <= u32::MAX,
        decreases text.len() - i,
    {
        let c = text[i];
        assert(digits[i - first] == c);
        if c < '0' || c > '9' {
            assert(!spec_all_digits(digits));
            return None;
        }
        assert(digits.take(i - first + 1).drop_last() =~= digits.take(i - first));
        let digit: u64 = (c as u64) - ('0' as u64);
        value = value * 10 + digit;
        if value > 0xffff_ffff {
            proof {
                if spec_all_digits(digits) {
                    lemma_decimal_value_grows(digits, i - first + 1);
                }
            }
            return None;
        }
        i += 1;
    }
    assert(digits.take(digits.len() as int) =~= digits);
    Some(value as u32)
}

/// The stage that the save data names: the number that the text holds, or the
/// first stage where it holds none.
pub fn load_starting_stage(savedata: &Vec<char>) -> (stage: u32)
    ensures
        stage == match spec_parse_number(savedata@) {
            Some(number) => number,
            None => 0,
        },
{
    match parse_number(savedata) {
        Some(number) => number,
        None => 0,
    }
}

} // verus!
