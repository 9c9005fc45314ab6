//! Emission of the JSON request envelopes, at the byte level. A string value
//! travels as its UTF-8 bytes between quotes, with the two metacharacters and
//! the control range escaped; everything else is spliced through unchanged.

use vstd::prelude::*;
use vstd::string::StringSliceAdditionalSpecFns;

verus! {

/// Hexadecimal digit for a nibble, lower case.
pub open spec fn hex_digit(n: u8) -> u8 {
    if n < 10 {
        (48 + n) as u8
    } else {
        (87 + n) as u8
    }
}

/// One byte of a UTF-8 string as it appears inside a JSON string literal:
/// quote and backslash are escaped, control bytes become `\u00XX`, and all
/// other bytes (multi-byte UTF-8 sequences included) pass through.
pub open spec fn escape_byte(b: u8) -> Seq<u8> {
    if b == 34 {
        seq![92u8, 34u8]
    } else if b == 92 {
        seq![92u8, 92u8]
    } else if b < 32 {
        seq![92u8, 117u8, 48u8, 48u8, hex_digit(b / 16), hex_digit(b % 16)]
    } else {
        seq![b]
    }
}

pub open spec fn json_escaped(s: Seq<u8>) -> Seq<u8>
    decreases s.len(),
{
    if s.len() == 0 {
        Seq::empty()
    } else {
        json_escaped(s.drop_last()) + escape_byte(s.last())
    }
}

/// A whole JSON string literal: quotes around the escaped bytes.
pub open spec fn json_string(s: Seq<u8>) -> Seq<u8> {
    seq![34u8] + json_escaped(s) + seq![34u8]
}

/// Appends the escaped form of every byte of `s`.
pub fn push_escaped(out: &mut Vec<u8>, s: &[u8])
    ensures
        final(out)@ == old(out)@ + json_escaped(s@),
{
    let n = s.len();
    let mut i: usize = 0;
    while i < n
        invariant
            0 <= i <= n,
            n == s@.len(),
            out@ == old(out)@ + json_escaped(s@.take(i as int)),
        decreases n - i,
    {
        let b = s[i];
        if b == 34 {
            out.push(92);
            out.push(34);
        } else if b == 92 {
            out.push(92);
            out.push(92);
        } else if b < 32 {
            out.push(92);
            out.push(117);
            out.push(48);
            out.push(48);
            let hi = b / 16;
            let lo = b % 16;
            out.push(if hi < 10 { 48 + hi } else { 87 + hi });
            out.push(if lo < 10 { 48 + lo } else { 87 + lo });
        } else {
            out.push(b);
        }
        proof {
            assert(s@.take(i as int + 1).drop_last() =~= s@.take(i as int));
            assert(s@.take(i as int + 1).last() == s@[i as int]);
            assert(out@ =~= old(out)@ + json_escaped(s@.take(i as int + 1)));
        }
        i = i + 1;
    }
    proof {
        assert(s@.take(n as int) =~= s@);
    }
}

/// Appends a JSON string literal holding the UTF-8 bytes of `s`.
pub fn push_json_string(out: &mut Vec<u8>, s: &str)
    ensures
        final(out)@ == old(out)@ + json_string(s.spec_bytes()),
{
    out.push(34);
    push_escaped(out, s.as_bytes());
    out.push(34);
    proof {
        assert(out@ =~= old(out)@ + json_string(s.spec_bytes()));
    }
}

/// Appends the UTF-8 bytes of `s` unquoted and unescaped, for text that is
/// already a JSON token, such as the decimal text of a numeric value.
pub fn push_raw_str(out: &mut Vec<u8>, s: &str)
    ensures
        final(out)@ == old(out)@ + s.spec_bytes(),
{
    out.extend_from_slice(s.as_bytes());
}

/// States of the JSON number grammar, walked byte by byte: an optional
/// minus, an integer part without leading zeros, an optional fraction, an
/// optional exponent.
#[derive(Debug, Clone, Copy, PartialEq, Eq, Structural)]
pub enum NumberState {
    Start,
    Minus,
    IntZero,
    IntDigits,
    Dot,
    Frac,
    ExpMark,
    ExpSign,
    ExpDigits,
    Reject,
}

pub open spec fn number_accepting(st: NumberState) -> bool {
    st is IntZero || st is IntDigits || st is Frac || st is ExpDigits
}

/// One step of the number grammar on byte `b`.
pub open spec fn spec_number_step(st: NumberState, b: u8) -> NumberState {
    let digit = 48 <= b && b <= 57;
    match st {
        NumberState::Start => if b == 45 {
            NumberState::Minus
        } else if b == 48 {
            NumberState::IntZero
        } else if digit {
            NumberState::IntDigits
        } else {
            NumberState::Reject
        },
        NumberState::Minus => if b == 48 {
            NumberState::IntZero
        } else if digit {
            NumberState::IntDigits
        } else {
            NumberState::Reject
        },
        NumberState::IntZero => if b == 46 {
            NumberState::Dot
        } else if b == 101 || b == 69 {
            NumberState::ExpMark
        } else {
            NumberState::Reject
        },
        NumberState::IntDigits => if digit {
            NumberState::IntDigits
        } else if b == 46 {
            NumberState::Dot
        } else if b == 101 || b == 69 {
            NumberState::ExpMark
        } else {
            NumberState::Reject
        },
        NumberState::Dot => if digit {
            NumberState::Frac
        } else {
            NumberState::Reject
        },
        NumberState::Frac => if digit {
            NumberState::Frac
        } else if b == 101 || b == 69 {
            NumberState::ExpMark
        } else {
            NumberState::Reject
        },
        NumberState::ExpMark => if b == 43 || b == 45 {
            NumberState::ExpSign
        } else if digit {
            NumberState::ExpDigits
        } else {
            NumberState::Reject
        },
        NumberState::ExpSign => if digit {
            NumberState::ExpDigits
        } else {
            NumberState::Reject
        },
        NumberState::ExpDigits => if digit {
            NumberState::ExpDigits
        } else {
            NumberState::Reject
        },
        NumberState::Reject => NumberState::Reject,
    }
}

/// The grammar's state after reading all of `s`.
pub open spec fn number_run(s: Seq<u8>) -> NumberState
    decreases s.len(),
{
    if s.len() == 0 {
        NumberState::Start
    } else {
        spec_number_step(number_run(s.drop_last()), s.last())
    }
}

/// `s` is exactly one JSON number token, the wire form of a float64 value.
pub open spec fn is_number_text(s: Seq<u8>) -> bool {
    number_accepting(number_run(s))
}

fn number_step(st: NumberState, b: u8) -> (r: NumberState)
    ensures
        r == spec_number_step(st, b),
{
    let digit = 48 <= b && b <= 57;
    match st {
        NumberState::Start => if b == 45 {
            NumberState::Minus
        } else if b == 48 {
            NumberState::IntZero
        } else if digit {
            NumberState::IntDigits
        } else {
            NumberState::Reject
        },
        NumberState::Minus => if b == 48 {
            NumberState::IntZero
        } else if digit {
            NumberState::IntDigits
        } else {
            NumberState::Reject
        },
        NumberState::IntZero => if b == 46 {
            NumberState::Dot
        } else if b == 101 || b == 69 {
            NumberState::ExpMark
        } else {
            NumberState::Reject
        },
        NumberState::IntDigits => if digit {
            NumberState::IntDigits
        } else if b == 46 {
            NumberState::Dot
        } else if b == 101 || b == 69 {
            NumberState::ExpMark
        } else {
            NumberState::Reject
        },
        NumberState::Dot => if digit {
            NumberState::Frac
        } else {
            NumberState::Reject
        },
        NumberState::Frac => if digit {
            NumberState::Frac
        } else if b == 101 || b == 69 {
            NumberState::ExpMark
        } else {
            NumberState::Reject
        },
        NumberState::ExpMark => if b == 43 || b == 45 {
            NumberState::ExpSign
        } else if digit {
            NumberState::ExpDigits
        } else {
            NumberState::Reject
        },
        NumberState::ExpSign => if digit {
            NumberState::ExpDigits
        } else {
            NumberState::Reject
        },
        NumberState::ExpDigits => if digit {
            NumberState::ExpDigits
        } else {
            NumberState::Reject
        },
        NumberState::Reject => NumberState::Reject,
    }
}

/// Whether `s` would splice into a request as one well-formed JSON number.
/// Callers building write operations can hold their value texts to this
/// before a request is framed.
pub fn check_number_text(s: &str) -> (r: bool)
    ensures
        r == is_number_text(s.spec_bytes()),
{
    let bytes = s.as_bytes();
    let n = bytes.len();
    let mut st = NumberState::Start;
    let mut i: usize = 0;
    while i < n
        invariant
            0 <= i <= n,
            n == bytes@.len(),
            bytes@ == s.spec_bytes(),
            st == number_run(bytes@.take(i as int)),
        decreases n - i,
    {
        proof {
            assert(bytes@.take(i as int + 1).drop_last() =~= bytes@.take(i as int));
            assert(bytes@.take(i as int + 1).last() == bytes@[i as int]);
        }
        st = number_step(st, bytes[i]);
        i = i + 1;
    }
    proof {
        assert(bytes@.take(n as int) =~= bytes@);
    }
    match st {
        NumberState::IntZero => true,
        NumberState::IntDigits => true,
        NumberState::Frac => true,
        NumberState::ExpDigits => true,
        _ => false,
    }
}

} // verus!
