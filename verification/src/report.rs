//! The tabular report of a sweep: one header line, then one line per cell.
//!
//! A line has five comma-separated fields. The shares of correct, incorrect
//! and ambiguous reads are handed in as text, since the library holds the
//! numbers of reads and not their shares. The line of a failed cell names
//! the failure where the first share would stand, and leaves the other
//! fields empty.

use crate::config::ProgramConfig;
use crate::config::ProgramResult;
use crate::error::EvalError;
use vstd::prelude::*;
use vstd::string::StringExecFns;

verus! {

/// The header line of a report.
pub open spec fn header_text() -> Seq<char> {
    "configuration,correct_percent,incorrect_percent,ambiguous_percent,time_secs"@
}

/// The header line of a report.
pub fn header() -> (line: &'static str)
    ensures
        line@ == header_text(),
{
    "configuration,correct_percent,incorrect_percent,ambiguous_percent,time_secs"
}

/// The character of a decimal digit.
pub open spec fn digit_of(d: int) -> char {
    if d == 0 {
        '0'
    } else if d == 1 {
        '1'
    } else if d == 2 {
        '2'
    } else if d == 3 {
        '3'
    } else if d == 4 {
        '4'
    } else if d == 5 {
        '5'
    } else if d == 6 {
        '6'
    } else if d == 7 {
        '7'
    } else if d == 8 {
        '8'
    } else {
        '9'
    }
}

/// A number in decimal notation, without leading zeros.
pub open spec fn decimal_of(n: nat) -> Seq<char>
    decreases n,
{
    if n < 10 {
        seq![digit_of(n as int)]
    } else {
        decimal_of(n / 10).push(digit_of((n % 10) as int))
    }
}

/// The characters of a list of digits that starts with the last digit.
pub open spec fn reversed_digits(digits: Seq<u8>) -> Seq<char>
    decreases digits.len(),
{
    if digits.len() == 0 {
        Seq::empty()
    } else {
        seq![digit_of(digits.last() as int)] + reversed_digits(digits.drop_last())
    }
}

fn digit_text(d: u8) -> (text: &'static str)
    requires
        d < 10,
    ensures
        text@ == seq![digit_of(d as int)],
{
    proof {
        reveal_strlit("0");
        reveal_strlit("1");
        reveal_strlit("2");
        reveal_strlit("3");
        reveal_strlit("4");
        reveal_strlit("5");
        reveal_strlit("6");
        reveal_strlit("7");
        reveal_strlit("8");
        reveal_strlit("9");
    }
    let text = if d == 0 {
        "0"
    } else if d == 1 {
        "1"
    } else if d == 2 {
        "2"
    } else if d == 3 {
        "3"
    } else if d == 4 {
        "4"
    } else if d == 5 {
        "5"
    } else if d == 6 {
        "6"
    } else if d == 7 {
        "7"
    } else if d == 8 {
        "8"
    } else {
        "9"
    };
    text
}

/// Writes a number in decimal notation.
pub fn decimal(n: u64) -> (text: String)
    ensures
        text@ == decimal_of(n as nat),
{
    let mut digits: Vec<u8> = Vec::new();
    let mut rest: u64 = n;
    while rest >= 10
        invariant
            decimal_of(n as nat) == decimal_of(rest as nat) + reversed_digits(digits@),
            forall|i: int| 0 <= i < digits@.len() ==> digits@[i] < 10,
        decreases rest,
    {
        let ghost before = digits@;
        let digit: u8 = (rest % 10) as u8;
        digits.push(digit);
        proof {
            assert(digits@.drop_last() == before);
        }
        rest = rest / 10;
    }
    let ghost before = digits@;
    digits.push(rest as u8);
    proof {
        assert(digits@.drop_last() == before);
    }
    let mut text = String::new();
    let mut i: usize = digits.len();
    proof {
        assert(digits@.take(i as int) == digits@);
    }
    while i > 0
        invariant
            i <= digits@.len(),
            forall|k: int| 0 <= k < digits@.len() ==> digits@[k] < 10,
            text@ + reversed_digits(digits@.take(i as int)) == reversed_digits(digits@),
        decreases i,
    {
        let ghost left = digits@.take(i as int);
        i = i - 1;
        text.append(digit_text(digits[i]));
        proof {
            assert(left.drop_last() == digits@.take(i as int));
        }
    }
    text
}

/// The line of a cell that was scored: how the configuration is named, the
/// three shares, and the duration in seconds.
pub open spec fn row_text(
    result: ProgramResult,
    correct: Seq<char>,
    incorrect: Seq<char>,
    ambiguous: Seq<char>,
) -> Seq<char> {
    result.config.specific.spec_to_string() + ","@ + correct + ","@ + incorrect + ","@ + ambiguous
        + ","@ + decimal_of(result.duration as nat)
}

/// Writes the line of a cell that was scored. The shares of correct,
/// incorrect and ambiguous reads are given as text.
pub fn result_row(result: &ProgramResult, correct: &str, incorrect: &str, ambiguous: &str) -> (line:
    String)
    ensures
        line@ == row_text(*result, correct@, incorrect@, ambiguous@),
{
    let mut line = result.config.to_string();
    line.append(",");
    line.append(correct);
    line.append(",");
    line.append(incorrect);
    line.append(",");
    line.append(ambiguous);
    line.append(",");
    line.append(decimal(result.duration).as_str());
    line
}

/// The line of a cell whose run failed: how the configuration is named,
/// the failure, and three empty fields.
pub open spec fn failure_text(config: ProgramConfig, error: EvalError) -> Seq<char> {
    config.specific.spec_to_string() + ",error:"@ + error.spec_name() + ",,,"@
}

/// Writes the line of a cell whose run failed.
pub fn failure_row(config: &ProgramConfig, error: &EvalError) -> (line: String)
    ensures
        line@ == failure_text(*config, *error),
{
    let mut line = config.to_string();
    line.append(",error:");
    line.append(error.name());
    line.append(",,,");
    line
}

} // verus!
