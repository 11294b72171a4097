//! The result vocabulary the tokenizer emits: tokens, their mathematical
//! model, and positioned diagnostics.

use vstd::prelude::*;

use crate::tables::{Axis, Button};

verus! {

/// Which half of an analog axis's value domain a mapping applies to, on
/// the input or output side.
#[derive(Clone, Copy, Debug, PartialEq, Eq, Structural)]
pub enum AxisRange {
    LowerHalf,
    UpperHalf,
    Full,
}

/// One decoded field of a mapping line. `Platform` and `Name` borrow the
/// field's text from the line itself.
#[derive(Clone, Copy, Debug)]
#[allow(inconsistent_fields)]
pub enum Token<'a> {
    /// The device identifier, as the 128-bit value its text encodes.
    Uuid(u128),
    /// The raw value of a `platform` pair, passed through uninterpreted.
    Platform(&'a str),
    /// The device name, taken verbatim and never validated.
    Name(&'a str),
    /// Binds physical axis `from` to a canonical axis.
    AxisMapping { from: u16, to: Axis, input: AxisRange, output: AxisRange, inverted: bool },
    /// Binds physical button `from` to a canonical button.
    ButtonMapping { from: u16, to: Button },
    /// A hat-switch binding; its conversion into an axis or button mapping
    /// is a downstream concern.
    HatMapping { hat: u16, direction: u16, to: Button },
}

/// Spec-level shape of a token: text fields as character sequences.
#[allow(inconsistent_fields)]
pub ghost enum TokenModel {
    Uuid(u128),
    Platform(Seq<char>),
    Name(Seq<char>),
    AxisMapping { from: u16, to: Axis, input: AxisRange, output: AxisRange, inverted: bool },
    ButtonMapping { from: u16, to: Button },
    HatMapping { hat: u16, direction: u16, to: Button },
}

impl<'a> View for Token<'a> {
    type V = TokenModel;

    open spec fn view(&self) -> TokenModel {
        match *self {
            Token::Uuid(g) => TokenModel::Uuid(g),
            Token::Platform(s) => TokenModel::Platform(s@),
            Token::Name(s) => TokenModel::Name(s@),
            Token::AxisMapping { from, to, input, output, inverted } => (TokenModel::AxisMapping {
                from,
                to,
                input,
                output,
                inverted,
            }),
            Token::ButtonMapping { from, to } => (TokenModel::ButtonMapping { from, to }),
            Token::HatMapping { hat, direction, to } => (TokenModel::HatMapping {
                hat,
                direction,
                to,
            }),
        }
    }
}

/// The ways decoding a field can fail.
#[derive(Clone, Copy, Debug, PartialEq, Eq, Structural)]
pub enum ErrorKind {
    InvalidGuid,
    InvalidKeyValPair,
    InvalidValue,
    UnknownAxis,
    UnknownButton,
    InvalidParserState,
    UnexpectedEnd,
}

/// A diagnostic: the kind of failure and the offset where the offending
/// field began. Offsets count characters of the line, not bytes; on a
/// line of ASCII text — every part of the format except possibly the
/// free-text name — the two counts coincide.
#[derive(Clone, Copy, Debug, PartialEq, Eq, Structural)]
pub struct Error {
    pub position: usize,
    pub kind: ErrorKind,
}

impl Error {
    pub fn new(kind: ErrorKind, position: usize) -> (e: Error)
        ensures
            e == (Error { position, kind }),
    {
        Error { position, kind }
    }

    /// A fixed human-readable phrase for each error kind.
    pub fn description(&self) -> (r: &'static str)
        ensures
            r@ == kind_text(self.kind),
    {
        match self.kind {
            ErrorKind::InvalidGuid => "GUID is invalid",
            ErrorKind::InvalidKeyValPair => "expected key value pair",
            ErrorKind::InvalidValue => "value is not valid",
            ErrorKind::UnknownAxis => "invalid axis name",
            ErrorKind::UnknownButton => "invalid button name",
            ErrorKind::InvalidParserState => "attempt to parse after unrecoverable error",
            ErrorKind::UnexpectedEnd => "mapping does not have all required fields",
        }
    }
}

/// The phrase `description` returns for each kind.
pub open spec fn kind_text(kind: ErrorKind) -> Seq<char> {
    match kind {
        ErrorKind::InvalidGuid => "GUID is invalid"@,
        ErrorKind::InvalidKeyValPair => "expected key value pair"@,
        ErrorKind::InvalidValue => "value is not valid"@,
        ErrorKind::UnknownAxis => "invalid axis name"@,
        ErrorKind::UnknownButton => "invalid button name"@,
        ErrorKind::InvalidParserState => "attempt to parse after unrecoverable error"@,
        ErrorKind::UnexpectedEnd => "mapping does not have all required fields"@,
    }
}

/// An executable token agrees with a spec-level result when the variants
/// coincide and text fields have the stated views.
pub open spec fn token_result_matches<'a>(
    r: Result<Token<'a>, Error>,
    m: Result<TokenModel, Error>,
) -> bool {
    match (r, m) {
        (Ok(t), Ok(tm)) => t@ == tm,
        (Err(e), Err(em)) => e == em,
        _ => false,
    }
}

} // verus!
