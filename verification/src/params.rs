//! Typed query-parameter values and their canonical text rendering.

use vstd::prelude::*;
use vstd::string::StringExecFns;

verus! {

/// A typed query-parameter value, rendered to text when a URL is built.
///
/// Floating-point values are carried as their decimal rendering, produced by
/// the caller; the verified code never computes with them.
#[derive(Debug)]
pub enum ParamsValueType {
    Text(String),
    Integer(i32),
    Float(String),
    Boolean(bool),
}

/// The character for one decimal digit.
pub open spec fn dec_digit_char(d: int) -> char {
    if d == 0 {
        '0'
    } else if d == 1 {
        '1'
    } else if d == 2 {
        '2'
    } else if d == 3 {
        '3'
    } else if d == 4 {
        '4'
    } else if d == 5 {
        '5'
    } else if d == 6 {
        '6'
    } else if d == 7 {
        '7'
    } else if d == 8 {
        '8'
    } else {
        '9'
    }
}

/// The decimal digits of a natural number, most significant first.
pub open spec fn dec_digits(n: nat) -> Seq<char>
    decreases n,
{
    if n < 10 {
        seq![dec_digit_char(n as int)]
    } else {
        dec_digits(n / 10) + seq![dec_digit_char((n % 10) as int)]
    }
}

/// The base-ten rendering of a signed integer: a `-` sign for negative
/// values, followed by the decimal digits.
pub open spec fn dec_str_i32(i: int) -> Seq<char> {
    if i < 0 {
        seq!['-'] + dec_digits((-i) as nat)
    } else {
        dec_digits(i as nat)
    }
}

/// Relies on `i32`'s `Display` implementation: it writes the value in base
/// ten, with a leading `-` when the value is negative.
#[verifier::external_body]
fn render_integer(i: i32) -> (r: String)
    ensures
        r@ == dec_str_i32(i as int),
{
    format!("{}", i)
}

impl ParamsValueType {
    /// The canonical text form used when the value is placed in a query
    /// string: text and pre-rendered floats stand as given, integers in base
    /// ten, booleans as `true` / `false`.
    pub open spec fn text_of(self) -> Seq<char> {
        match self {
            ParamsValueType::Text(s) => s@,
            ParamsValueType::Integer(i) => dec_str_i32(i as int),
            ParamsValueType::Float(t) => t@,
            ParamsValueType::Boolean(b) => if b {
                "true"@
            } else {
                "false"@
            },
        }
    }

    /// Renders the value to its canonical text form.
    pub fn to_text(&self) -> (r: String)
        ensures
            r@ == self.text_of(),
    {
        match self {
            ParamsValueType::Text(s) => s.clone(),
            ParamsValueType::Integer(i) => render_integer(*i),
            ParamsValueType::Float(t) => t.clone(),
            ParamsValueType::Boolean(b) => if *b {
                String::from_str("true")
            } else {
                String::from_str("false")
            },
        }
    }
}

} // verus!
