//! The tokenizer: a cursor and a stage over one borrowed mapping line,
//! yielding one token (or one positioned diagnostic) per comma-delimited
//! field. Its whole behaviour is pinned to the spec-level interpreter
//! `spec_step`.
//!
//! The cursor, and every position a diagnostic carries, counts
//! characters of the line, not bytes; the two coincide wherever the line
//! is ASCII, which the format is everywhere but possibly the free-text
//! name field.

use vstd::prelude::*;

use crate::decode::{decode_pair, spec_decode_pair};
use crate::guid::{guid_of, parse_guid};
use crate::text::{find_char_from, lemma_spec_find_bounds, spec_find, str_eq};
use crate::token::{token_result_matches, Error, ErrorKind, Token, TokenModel};

verus! {

/// The stage the tokenizer is in. `Invalid` is terminal: entered on a
/// line-fatal error, never left.
#[derive(Clone, Copy, Debug, PartialEq, Eq, Structural)]
pub enum State {
    Uuid,
    Name,
    KeyVal,
    Invalid,
}

/// Spec-level image of a tokenizer: the line's characters, the cursor,
/// and the stage.
pub ghost struct ParserModel {
    pub line: Seq<char>,
    pub pos: int,
    pub stage: State,
}

/// Spec-level outcome of one `next_token` call: what is returned, and the
/// cursor and stage afterwards.
pub ghost struct StepModel {
    pub output: Option<Result<TokenModel, Error>>,
    pub pos: int,
    pub stage: State,
}

/// The cursor after consuming a field that ends at `c`: past the comma,
/// or the end of the line when the field ran to it.
pub open spec fn advance(len: int, c: int) -> int {
    if c == len {
        len
    } else {
        c + 1
    }
}

/// One step of the identifier stage: the field up to the next comma must
/// parse as an identifier (else `InvalidGuid`, fatal) and a comma must
/// follow it (else `UnexpectedEnd`, fatal).
pub open spec fn step_uuid(m: ParserModel) -> StepModel {
    let c = spec_find(m.line, m.pos, ',');
    match guid_of(m.line.subrange(m.pos, c)) {
        None => StepModel {
            output: Some(Err(Error { position: m.pos as usize, kind: ErrorKind::InvalidGuid })),
            pos: m.pos,
            stage: State::Invalid,
        },
        Some(g) => if c == m.line.len() {
            StepModel {
                output: Some(
                    Err(Error { position: m.pos as usize, kind: ErrorKind::UnexpectedEnd }),
                ),
                pos: m.pos,
                stage: State::Invalid,
            }
        } else {
            StepModel {
                output: Some(Ok(TokenModel::Uuid(g))),
                pos: c + 1,
                stage: State::Name,
            }
        },
    }
}

/// One step of the name stage: the field is taken verbatim; it always
/// succeeds and always moves on to the pair stage.
pub open spec fn step_name(m: ParserModel) -> StepModel {
    let c = spec_find(m.line, m.pos, ',');
    StepModel {
        output: Some(Ok(TokenModel::Name(m.line.subrange(m.pos, c)))),
        pos: advance(m.line.len() as int, c),
        stage: State::KeyVal,
    }
}

/// What one `key:value` field yields: exactly one colon must split it
/// (else `InvalidKeyValPair`); a `platform` key passes its value through;
/// anything else goes to the micro-grammar decoder.
pub open spec fn key_val_output(pair: Seq<char>, at: int) -> Result<TokenModel, Error> {
    let k = spec_find(pair, 0, ':');
    if k == pair.len() {
        Err(Error { position: at as usize, kind: ErrorKind::InvalidKeyValPair })
    } else if spec_find(pair, k + 1, ':') < pair.len() {
        Err(Error { position: at as usize, kind: ErrorKind::InvalidKeyValPair })
    } else {
        let key = pair.subrange(0, k);
        let value = pair.subrange(k + 1, pair.len() as int);
        if key == "platform"@ {
            Ok(TokenModel::Platform(value))
        } else {
            spec_decode_pair(key, value, at)
        }
    }
}

/// One step of the pair stage. Errors here are field-local: the stage
/// stays `KeyVal` and the cursor moves to the next field regardless.
pub open spec fn step_key_val(m: ParserModel) -> StepModel {
    let c = spec_find(m.line, m.pos, ',');
    StepModel {
        output: Some(key_val_output(m.line.subrange(m.pos, c), m.pos)),
        pos: advance(m.line.len() as int, c),
        stage: State::KeyVal,
    }
}

/// The interpreter `next_token` is proved against: nothing once the line
/// is consumed; otherwise one step of the current stage, `Invalid`
/// reporting `InvalidParserState` forever.
pub open spec fn spec_step(m: ParserModel) -> StepModel {
    if m.pos >= m.line.len() {
        StepModel { output: None, pos: m.pos, stage: m.stage }
    } else {
        match m.stage {
            State::Uuid => step_uuid(m),
            State::Name => step_name(m),
            State::KeyVal => step_key_val(m),
            State::Invalid => StepModel {
                output: Some(
                    Err(Error { position: m.pos as usize, kind: ErrorKind::InvalidParserState }),
                ),
                pos: m.pos,
                stage: State::Invalid,
            },
        }
    }
}

/// A returned option agrees with the interpreter's output.
pub open spec fn step_output_matches<'a>(
    r: Option<Result<Token<'a>, Error>>,
    m: Option<Result<TokenModel, Error>>,
) -> bool {
    match (r, m) {
        (None, None) => true,
        (Some(a), Some(b)) => token_result_matches(a, b),
        _ => false,
    }
}

/// The tokenizer. Bound to one borrowed line; not reused across lines.
pub struct Parser<'a> {
    data: &'a str,
    pos: usize,
    state: State,
}

impl<'a> View for Parser<'a> {
    type V = ParserModel;

    closed spec fn view(&self) -> ParserModel {
        ParserModel { line: self.data@, pos: self.pos as int, stage: self.state }
    }
}

impl<'a> Parser<'a> {
    /// A fresh tokenizer at the start of `mapping`, in the identifier
    /// stage.
    pub fn new(mapping: &'a str) -> (p: Parser<'a>)
        ensures
            p@ == (ParserModel { line: mapping@, pos: 0, stage: State::Uuid }),
    {
        Parser { data: mapping, pos: 0, state: State::Uuid }
    }

    /// Exactly one step of `spec_step`: `None` once the line is consumed,
    /// otherwise the token or diagnostic of the current field, with the
    /// cursor and stage advanced as the interpreter says.
    pub fn next_token(&mut self) -> (r: Option<Result<Token<'a>, Error>>)
        ensures
            final(self)@ == (ParserModel {
                line: old(self)@.line,
                pos: spec_step(old(self)@).pos,
                stage: spec_step(old(self)@).stage,
            }),
            step_output_matches(r, spec_step(old(self)@).output),
    {
        let n = self.data.unicode_len();
        if self.pos >= n {
            None
        } else {
            Some(
                match self.state {
                    State::Uuid => self.parse_uuid(),
                    State::Name => self.parse_name(),
                    State::KeyVal => self.parse_key_val(),
                    State::Invalid => Err(Error::new(ErrorKind::InvalidParserState, self.pos)),
                },
            )
        }
    }

    /// The identifier stage, on a not-yet-consumed line.
    fn parse_uuid(&mut self) -> (r: Result<Token<'a>, Error>)
        requires
            old(self)@.pos < old(self)@.line.len(),
            old(self)@.stage == State::Uuid,
        ensures
            final(self)@ == (ParserModel {
                line: old(self)@.line,
                pos: step_uuid(old(self)@).pos,
                stage: step_uuid(old(self)@).stage,
            }),
            step_uuid(old(self)@).output == Some(token_result_unview(r)),
            token_result_matches(r, token_result_unview(r)),
    {
        let next_comma = self.next_comma_or_end();
        let field = self.data.substring_char(self.pos, next_comma);
        let parsed = parse_guid(field);
        match parsed {
            None => {
                self.state = State::Invalid;
                Err(Error::new(ErrorKind::InvalidGuid, self.pos))
            },
            Some(g) => {
                if next_comma == self.data.unicode_len() {
                    self.state = State::Invalid;
                    Err(Error::new(ErrorKind::UnexpectedEnd, self.pos))
                } else {
                    self.state = State::Name;
                    self.pos = next_comma + 1;
                    Ok(Token::Uuid(g))
                }
            },
        }
    }

    /// The name stage, on a not-yet-consumed line.
    fn parse_name(&mut self) -> (r: Result<Token<'a>, Error>)
        requires
            old(self)@.pos < old(self)@.line.len(),
        ensures
            final(self)@ == (ParserModel {
                line: old(self)@.line,
                pos: step_name(old(self)@).pos,
                stage: step_name(old(self)@).stage,
            }),
            step_name(old(self)@).output == Some(token_result_unview(r)),
            token_result_matches(r, token_result_unview(r)),
    {
        let next_comma = self.next_comma_or_end();
        let name = self.data.substring_char(self.pos, next_comma);
        self.state = State::KeyVal;
        self.pos = if next_comma == self.data.unicode_len() {
            next_comma
        } else {
            next_comma + 1
        };
        Ok(Token::Name(name))
    }

    /// The pair stage, on a not-yet-consumed line.
    fn parse_key_val(&mut self) -> (r: Result<Token<'a>, Error>)
        requires
            old(self)@.pos < old(self)@.line.len(),
        ensures
            final(self)@ == (ParserModel {
                line: old(self)@.line,
                pos: step_key_val(old(self)@).pos,
                stage: State::KeyVal,
            }),
            step_key_val(old(self)@).output == Some(token_result_unview(r)),
            token_result_matches(r, token_result_unview(r)),
    {
        let next_comma = self.next_comma_or_end();
        let pair = self.data.substring_char(self.pos, next_comma);
        let at = self.pos;
        self.pos = if next_comma == self.data.unicode_len() {
            next_comma
        } else {
            next_comma + 1
        };
        self.state = State::KeyVal;
        let np = pair.unicode_len();
        let k = find_char_from(pair, 0, ':');
        proof {
            lemma_spec_find_bounds(pair@, 0, ':');
        }
        if k == np {
            return Err(Error::new(ErrorKind::InvalidKeyValPair, at));
        }
        let k2 = find_char_from(pair, k + 1, ':');
        if k2 < np {
            return Err(Error::new(ErrorKind::InvalidKeyValPair, at));
        }
        let key = pair.substring_char(0, k);
        let value = pair.substring_char(k + 1, np);
        if str_eq(key, "platform") {
            return Ok(Token::Platform(value));
        }
        decode_pair(key, value, at)
    }

    /// Index of the next comma at or after the cursor, or the line's end.
    fn next_comma_or_end(&self) -> (r: usize)
        requires
            self@.pos <= self@.line.len(),
        ensures
            r == spec_find(self@.line, self@.pos, ','),
            self@.pos <= r <= self@.line.len(),
    {
        proof {
            lemma_spec_find_bounds(self@.line, self@.pos, ',');
        }
        find_char_from(self.data, self.pos, ',')
    }
}

/// The spec-level image of a returned token or diagnostic.
pub open spec fn token_result_unview<'a>(r: Result<Token<'a>, Error>) -> Result<TokenModel, Error> {
    match r {
        Ok(t) => Ok(t@),
        Err(e) => Err(e),
    }
}

} // verus!
