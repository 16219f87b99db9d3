//! Domain error type surfaced to applications.

use vstd::prelude::*;
use vstd::string::StringExecFns;

verus! {

/// An application-level error: the coded outcome a handler can attach to a
/// response.
#[derive(Debug)]
pub struct Error {
    /// Error code.
    pub code: u32,
    /// Namespace for the error code.
    pub codespace: String,
    /// Output of the application's logger (may be non-deterministic).
    pub log: String,
    /// Additional information (may be non-deterministic).
    pub info: String,
}

/// The character of a decimal digit.
pub open spec fn spec_digit(d: int) -> char {
    if d == 0 {
        '0'
    } else if d == 1 {
        '1'
    } else if d == 2 {
        '2'
    } else if d == 3 {
        '3'
    } else if d == 4 {
        '4'
    } else if d == 5 {
        '5'
    } else if d == 6 {
        '6'
    } else if d == 7 {
        '7'
    } else if d == 8 {
        '8'
    } else {
        '9'
    }
}

/// The decimal rendering of `n`, most significant digit first, without
/// leading zeroes (a single zero for zero).
pub open spec fn spec_decimal(n: u32) -> Seq<char>
    decreases n,
{
    if n < 10 {
        seq![spec_digit(n as int)]
    } else {
        spec_decimal(n / 10) + seq![spec_digit((n % 10) as int)]
    }
}

/// The one-character string of a decimal digit.
fn digit_str(d: u32) -> (r: &'static str)
    requires
        d < 10,
    ensures
        r@ =~= seq![spec_digit(d as int)],
{
    proof {
        reveal_strlit("0");
        reveal_strlit("1");
        reveal_strlit("2");
        reveal_strlit("3");
        reveal_strlit("4");
        reveal_strlit("5");
        reveal_strlit("6");
        reveal_strlit("7");
        reveal_strlit("8");
        reveal_strlit("9");
    }
    if d == 0 {
        "0"
    } else if d == 1 {
        "1"
    } else if d == 2 {
        "2"
    } else if d == 3 {
        "3"
    } else if d == 4 {
        "4"
    } else if d == 5 {
        "5"
    } else if d == 6 {
        "6"
    } else if d == 7 {
        "7"
    } else if d == 8 {
        "8"
    } else {
        "9"
    }
}

/// Appends the decimal rendering of `n` to `out`.
pub fn push_decimal(n: u32, out: &mut String)
    ensures
        final(out)@ == old(out)@ + spec_decimal(n),
    decreases n,
{
    if n < 10 {
        out.append(digit_str(n));
        assert(out@ =~= old(out)@ + spec_decimal(n));
    } else {
        push_decimal(n / 10, out);
        out.append(digit_str(n % 10));
        assert(out@ =~= old(out)@ + spec_decimal(n));
    }
}

/// The rendering of an error, naming each of its fields.
pub open spec fn spec_error_message(e: &Error) -> Seq<char> {
    "Error: [Code: "@ + spec_decimal(e.code) + "], [Codespace: "@ + e.codespace@ + "], [Log: "@
        + e.log@ + "], [Info: "@ + e.info@ + "]"@
}

impl Error {
    /// Renders the error for a reader, naming each field.
    pub fn message(&self) -> (r: String)
        ensures
            r@ == spec_error_message(self),
    {
        proof {
            reveal_strlit("Error: [Code: ");
            reveal_strlit("], [Codespace: ");
            reveal_strlit("], [Log: ");
            reveal_strlit("], [Info: ");
            reveal_strlit("]");
        }
        let mut r = String::from_str("Error: [Code: ");
        push_decimal(self.code, &mut r);
        r.append("], [Codespace: ");
        r.append(self.codespace.as_str());
        r.append("], [Log: ");
        r.append(self.log.as_str());
        r.append("], [Info: ");
        r.append(self.info.as_str());
        r.append("]");
        assert(r@ =~= spec_error_message(self));
        r
    }
}

} // verus!
