//! Why an amount could not be read.

use vstd::prelude::*;
use vstd::string::StringExecFns;

verus! {

/// The ways in which reading an amount fails.
///
/// Contracts speak of these; running code gets a [`ParseError`], which
/// gives out its message only.
#[derive(Clone, Copy, Debug, PartialEq, Eq, Structural)]
pub enum ParseErrorKind {
    /// A character stood where a decimal digit was expected.
    InvalidDigit(char),
    /// The amount does not fit in 64 bits.
    Overflow,
    /// A single character follows the decimal point.
    BadCentsLength,
    /// A second decimal point follows the first.
    ExtraDecimalPoint,
    /// The text holds a character outside ASCII.
    NonAscii,
}

/// What is said of a failure of the given kind, after the common prefix.
pub open spec fn kind_text(kind: ParseErrorKind) -> Seq<char> {
    match kind {
        ParseErrorKind::InvalidDigit(c) => "invalid digit '"@.push(c) + "'"@,
        ParseErrorKind::Overflow => "value overflows"@,
        ParseErrorKind::BadCentsLength => "cents must be two digits long"@,
        ParseErrorKind::ExtraDecimalPoint => "too many decimal points"@,
        ParseErrorKind::NonAscii => "non-ASCII strings are not allowed"@,
    }
}

/// The whole message of a failure of the given kind.
pub open spec fn message(kind: ParseErrorKind) -> Seq<char> {
    "failed to parse dollars: "@ + kind_text(kind)
}

/// Opaque error capturing a failure to parse a [`Dollars`](crate::Dollars)
/// from a string.
///
/// The kind of failure shows in contracts and in the message; no accessor
/// hands it to running code.
#[derive(Debug)]
pub struct ParseError(ParseErrorKind);

impl Clone for ParseError {
    fn clone(&self) -> (r: ParseError)
        ensures
            r.kind() == self.kind(),
    {
        ParseError(self.0)
    }
}

impl ParseError {
    /// The kind of failure that this error reports.
    pub closed spec fn kind(&self) -> ParseErrorKind {
        self.0
    }

    /// What went wrong, as the message says it after the common prefix.
    pub fn cause(&self) -> (r: String)
        ensures
            r@ == kind_text(self.kind()),
    {
        match self.0 {
            ParseErrorKind::InvalidDigit(c) => {
                let mut s = String::from_str("invalid digit '");
                s.push(c);
                s.append("'");
                s
            },
            ParseErrorKind::Overflow => String::from_str("value overflows"),
            ParseErrorKind::BadCentsLength => String::from_str("cents must be two digits long"),
            ParseErrorKind::ExtraDecimalPoint => String::from_str("too many decimal points"),
            ParseErrorKind::NonAscii => String::from_str("non-ASCII strings are not allowed"),
        }
    }

    /// The human-readable message.
    pub fn to_string(&self) -> (r: String)
        ensures
            r@ == message(self.kind()),
    {
        let mut s = String::from_str("failed to parse dollars: ");
        let cause = self.cause();
        s.append(cause.as_str());
        s
    }
}

impl From<ParseErrorKind> for ParseError {
    fn from(kind: ParseErrorKind) -> (r: ParseError)
        ensures
            r.kind() == kind,
    {
        ParseError(kind)
    }
}

impl vstd::std_specs::convert::FromSpecImpl<ParseErrorKind> for ParseError {
    open spec fn obeys_from_spec() -> bool {
        true
    }

    closed spec fn from_spec(kind: ParseErrorKind) -> ParseError {
        ParseError(kind)
    }
}

} // verus!
