//! Text of the diagnostic log: one line per failure, stamped with the time
//! in seconds since the Unix epoch.

use vstd::prelude::*;
use vstd::string::StringExecFns;

verus! {

/// The character that writes the digit `d`.
pub open spec fn digit(d: nat) -> char {
    if d == 0 {
        '0'
    } else if d == 1 {
        '1'
    } else if d == 2 {
        '2'
    } else if d == 3 {
        '3'
    } else if d == 4 {
        '4'
    } else if d == 5 {
        '5'
    } else if d == 6 {
        '6'
    } else if d == 7 {
        '7'
    } else if d == 8 {
        '8'
    } else {
        '9'
    }
}

/// The decimal numeral of `n`, most significant digit first, without
/// leading zeros.
pub open spec fn decimal(n: nat) -> Seq<char>
    decreases n,
{
    if n < 10 {
        seq![digit(n)]
    } else {
        decimal(n / 10).push(digit(n % 10))
    }
}

/// The line that records `message` at `epoch_seconds`:
/// `[<epoch_seconds>]: <message>`.
pub open spec fn log_line_text(epoch_seconds: nat, message: Seq<char>) -> Seq<char> {
    seq!['['] + decimal(epoch_seconds) + seq![']', ':', ' '] + message
}

/// Digits read back to front: the numeral whose least significant digit
/// comes first in `digits`.
spec fn numeral(digits: Seq<u8>) -> Seq<char> {
    Seq::new(digits.len(), |i: int| digit(digits[digits.len() - 1 - i] as nat))
}

fn digit_text(d: u8) -> (text: &'static str)
    requires
        d < 10,
    ensures
        text@ == seq![digit(d as nat)],
{
    proof {
        reveal_strlit("0");
        reveal_strlit("1");
        reveal_strlit("2");
        reveal_strlit("3");
        reveal_strlit("4");
        reveal_strlit("5");
        reveal_strlit("6");
        reveal_strlit("7");
        reveal_strlit("8");
        reveal_strlit("9");
    }
    let text = if d == 0 {
        "0"
    } else if d == 1 {
        "1"
    } else if d == 2 {
        "2"
    } else if d == 3 {
        "3"
    } else if d == 4 {
        "4"
    } else if d == 5 {
        "5"
    } else if d == 6 {
        "6"
    } else if d == 7 {
        "7"
    } else if d == 8 {
        "8"
    } else {
        "9"
    };
    text
}

/// Writes `n` in decimal.
pub fn decimal_string(n: u64) -> (s: String)
    ensures
        s@ == decimal(n as nat),
{
    let mut digits: Vec<u8> = Vec::new();
    digits.push((n % 10) as u8);
    let mut rest: u64 = n / 10;
    while rest > 0
        invariant
            digits@.len() > 0,
            forall|k: int| 0 <= k < digits@.len() ==> digits@[k] < 10,
            decimal(n as nat) == (if rest == 0 {
                Seq::<char>::empty()
            } else {
                decimal(rest as nat)
            }) + numeral(digits@),
        decreases rest,
    {
        digits.push((rest % 10) as u8);
        rest = rest / 10;
    }
    let mut s = String::new();
    let mut i: usize = digits.len();
    while i > 0
        invariant
            i <= digits@.len(),
            forall|k: int| 0 <= k < digits@.len() ==> digits@[k] < 10,
            s@ == numeral(digits@).subrange(0, digits@.len() - i),
        decreases i,
    {
        i -= 1;
        s.append(digit_text(digits[i]));
    }
    s
}

/// Formats one line of the diagnostic log, without a line break.
pub fn log_line(epoch_seconds: u64, message: &str) -> (line: String)
    ensures
        line@ == log_line_text(epoch_seconds as nat, message@),
{
    proof {
        reveal_strlit("[");
        reveal_strlit("]: ");
    }
    let mut line = "[".to_owned();
    let stamp = decimal_string(epoch_seconds);
    line.append(stamp.as_str());
    line.append("]: ");
    line.append(message);
    line
}

} // verus!
