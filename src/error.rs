//! The two error kinds of the store and the messages they carry.

use vstd::prelude::*;
use vstd::string::StringExecFns;

verus! {

/// Decimal digits of a natural number, most significant first.
pub open spec fn decimal(n: nat) -> Seq<char>
    decreases n,
{
    if n < 10 {
        seq![digit(n)]
    } else {
        decimal(n / 10) + seq![digit(n % 10)]
    }
}

pub open spec fn digit(d: nat) -> char {
    seq!['0', '1', '2', '3', '4', '5', '6', '7', '8', '9'][d as int]
}

#[derive(Debug)]
pub enum Error {
    /// The referenced id, or id pair, is not stored.
    NotFound { msg: String },
    /// The request breaks a rule of the current state (a duplicate assignment).
    InvalidInput { msg: String },
}

/// The kind of an error, without its message.
#[derive(Clone, Copy, Debug, PartialEq, Eq, Structural)]
pub enum ErrorKind {
    NotFound,
    InvalidInput,
}

impl Error {
    pub open spec fn spec_kind(&self) -> ErrorKind {
        match self {
            Error::NotFound { .. } => ErrorKind::NotFound,
            Error::InvalidInput { .. } => ErrorKind::InvalidInput,
        }
    }

    pub open spec fn spec_message(&self) -> Seq<char> {
        match self {
            Error::NotFound { msg } => msg@,
            Error::InvalidInput { msg } => msg@,
        }
    }

    #[verifier::when_used_as_spec(spec_kind)]
    pub fn kind(&self) -> (r: ErrorKind)
        ensures
            r == self.spec_kind(),
    {
        match self {
            Error::NotFound { .. } => ErrorKind::NotFound,
            Error::InvalidInput { .. } => ErrorKind::InvalidInput,
        }
    }

    /// The human-readable message, naming the id or ids concerned.
    pub fn message(&self) -> (r: &String)
        ensures
            r@ == self.spec_message(),
    {
        match self {
            Error::NotFound { msg } => msg,
            Error::InvalidInput { msg } => msg,
        }
    }
}

/// Relies on `format!` with `{}` on a `u64`: an integer is written in decimal.
#[verifier::external_body]
fn decimal_text(n: u64) -> (r: String)
    ensures
        r@ == decimal(n as nat),
{
    format!("{}", n)
}

/// `before`, then `id` in decimal, then `after`.
pub fn text_with_id(before: &str, id: u64, after: &str) -> (r: String)
    ensures
        r@ == before@ + decimal(id as nat) + after@,
{
    let mut r = String::from_str(before);
    let digits = decimal_text(id);
    r.append(digits.as_str());
    r.append(after);
    r
}

/// `before`, `a` in decimal, `middle`, `b` in decimal, then `after`.
pub fn text_with_ids(before: &str, a: u64, middle: &str, b: u64, after: &str) -> (r: String)
    ensures
        r@ == before@ + decimal(a as nat) + middle@ + decimal(b as nat) + after@,
{
    let mut r = text_with_id(before, a, middle);
    let digits = decimal_text(b);
    r.append(digits.as_str());
    r.append(after);
    r
}

} // verus!
