use vstd::prelude::*;

verus! {

/// Either kind of failure the codec can report.
#[derive(Debug)]
pub enum Error {
    Parse(ParsePacketErr),
    Validate(ValidateErr),
}

/// A structurally well-formed packet whose field values break a protocol rule.
#[derive(Debug)]
pub struct ValidateErr(pub String);

/// Malformed or truncated bytes; always recoverable by dropping the packet.
#[derive(Debug)]
pub enum ParsePacketErr {
    /// A length or value disagrees with the rest of the buffer.
    NotMatch(String),
    /// The buffer is too short for what its fields announce.
    BufSize(String),
    /// A field holds a value outside its allowed set.
    BadValue(String),
    /// A reason string is not valid UTF-8.
    NotUtf8,
    /// More attribute records than parsing is willing to consume.
    TooManyAttrs,
}

/// The shape of a parse failure, with the diagnostic text abstracted away.
/// Contracts speak of this so that they do not pin human-readable messages.
#[derive(Debug, PartialEq, Eq, Structural, Clone, Copy)]
pub enum ParseErrKind {
    NotMatch,
    BufSize,
    BadValue,
    NotUtf8,
    TooManyAttrs,
}

impl ParsePacketErr {
    pub open spec fn kind(&self) -> ParseErrKind {
        match self {
            ParsePacketErr::NotMatch(_) => ParseErrKind::NotMatch,
            ParsePacketErr::BufSize(_) => ParseErrKind::BufSize,
            ParsePacketErr::BadValue(_) => ParseErrKind::BadValue,
            ParsePacketErr::NotUtf8 => ParseErrKind::NotUtf8,
            ParsePacketErr::TooManyAttrs => ParseErrKind::TooManyAttrs,
        }
    }
}

/// A typed attribute that can be checked against the protocol's value rules.
pub trait AttrValidator {
    /// When the value rules hold of this attribute.
    spec fn valid(&self) -> bool;

    fn validate(&self) -> (r: Option<ValidateErr>)
        ensures
            r is None <==> self.valid(),
    ;
}

} // verus!
