//! The tokenizer's general laws, stated over the spec-level interpreter
//! and proved once for every line.

use vstd::prelude::*;

use crate::decode::spec_decode_pair;
use crate::guid::guid_of;
use crate::parser::{spec_step, ParserModel, State};
use crate::text::spec_find;
use crate::token::{Error, ErrorKind, TokenModel};

verus! {

/// Law: a field that parses as an identifier, with a comma after it,
/// yields the identifier token and moves the tokenizer to the name stage.
pub proof fn lemma_valid_guid_advances(m: ParserModel, g: u128)
    requires
        m.stage == State::Uuid,
        0 <= m.pos < m.line.len(),
        guid_of(m.line.subrange(m.pos, spec_find(m.line, m.pos, ','))) == Some(g),
        spec_find(m.line, m.pos, ',') < m.line.len(),
    ensures
        spec_step(m).output == Some(Ok::<TokenModel, Error>(TokenModel::Uuid(g))),
        spec_step(m).stage == State::Name,
        spec_step(m).pos == spec_find(m.line, m.pos, ',') + 1,
{
}

/// Law: a field that does not parse as an identifier is line-fatal: it
/// yields `InvalidGuid` and latches the terminal stage.
pub proof fn lemma_invalid_guid_is_fatal(m: ParserModel)
    requires
        m.stage == State::Uuid,
        0 <= m.pos < m.line.len(),
        guid_of(m.line.subrange(m.pos, spec_find(m.line, m.pos, ','))) is None,
    ensures
        spec_step(m).output == Some(
            Err::<TokenModel, Error>(
                Error { position: m.pos as usize, kind: ErrorKind::InvalidGuid },
            ),
        ),
        spec_step(m).stage == State::Invalid,
        spec_step(m).pos == m.pos,
{
}

/// Law: the terminal stage reinforces itself: every further request on a
/// not-yet-consumed line reports `InvalidParserState` and stays put.
pub proof fn lemma_fatal_is_terminal(m: ParserModel)
    requires
        m.stage == State::Invalid,
    ensures
        spec_step(m).stage == State::Invalid,
        spec_step(m).pos == m.pos,
        m.pos < m.line.len() ==> spec_step(m).output == Some(
            Err::<TokenModel, Error>(
                Error { position: m.pos as usize, kind: ErrorKind::InvalidParserState },
            ),
        ),
        m.pos >= m.line.len() ==> spec_step(m).output is None,
{
}

/// Law: a line holding only a valid identifier, with no comma after it,
/// is incomplete: it yields `UnexpectedEnd` and latches the terminal
/// stage.
pub proof fn lemma_guid_only_line_is_fatal(m: ParserModel)
    requires
        m.stage == State::Uuid,
        0 <= m.pos < m.line.len(),
        guid_of(m.line.subrange(m.pos, spec_find(m.line, m.pos, ','))) is Some,
        spec_find(m.line, m.pos, ',') == m.line.len(),
    ensures
        spec_step(m).output == Some(
            Err::<TokenModel, Error>(
                Error { position: m.pos as usize, kind: ErrorKind::UnexpectedEnd },
            ),
        ),
        spec_step(m).stage == State::Invalid,
        spec_step(m).pos == m.pos,
{
}

/// Law: from the start of a non-empty line whose first field is not a
/// valid identifier, the first call reports `InvalidGuid` at offset 0,
/// and the state after the failure is a fixpoint: it reports
/// `InvalidParserState` at 0 and reproduces itself, on that call and so
/// on every later one — no token is ever produced after the failure.
pub proof fn lemma_invalid_guid_line_latches(line: Seq<char>)
    requires
        line.len() > 0,
        guid_of(line.subrange(0, spec_find(line, 0, ','))) is None,
    ensures
        ({
            let m0 = ParserModel { line: line, pos: 0, stage: State::Uuid };
            let m1 = ParserModel { line: line, pos: 0, stage: State::Invalid };
            &&& spec_step(m0).output == Some(
                Err::<TokenModel, Error>(Error { position: 0, kind: ErrorKind::InvalidGuid }),
            )
            &&& spec_step(m0).pos == 0
            &&& spec_step(m0).stage == State::Invalid
            &&& spec_step(m1).output == Some(
                Err::<TokenModel, Error>(
                    Error { position: 0, kind: ErrorKind::InvalidParserState },
                ),
            )
            &&& spec_step(m1).pos == 0
            &&& spec_step(m1).stage == State::Invalid
        }),
{
}

/// Law: a non-empty line that holds only a valid identifier — no comma
/// anywhere — is incomplete: the first call reports `UnexpectedEnd` at
/// offset 0, and the state after it is the same self-reproducing
/// terminal fixpoint, reporting `InvalidParserState` at 0 on every later
/// call, never nothing and never a token.
pub proof fn lemma_guid_only_line_latches(line: Seq<char>)
    requires
        line.len() > 0,
        spec_find(line, 0, ',') == line.len(),
        guid_of(line) is Some,
    ensures
        ({
            let m0 = ParserModel { line: line, pos: 0, stage: State::Uuid };
            let m1 = ParserModel { line: line, pos: 0, stage: State::Invalid };
            &&& spec_step(m0).output == Some(
                Err::<TokenModel, Error>(Error { position: 0, kind: ErrorKind::UnexpectedEnd }),
            )
            &&& spec_step(m0).pos == 0
            &&& spec_step(m0).stage == State::Invalid
            &&& spec_step(m1).output == Some(
                Err::<TokenModel, Error>(
                    Error { position: 0, kind: ErrorKind::InvalidParserState },
                ),
            )
            &&& spec_step(m1).pos == 0
            &&& spec_step(m1).stage == State::Invalid
        }),
{
    assert(line.subrange(0, line.len() as int) =~= line);
}

/// Law: the name field is never validated: whatever text stands before
/// the next comma, empty included, comes back verbatim as the name
/// token; the tokenizer moves to the pair stage with the cursor past the
/// consumed field (at the line's end when the name was the last field).
pub proof fn lemma_name_taken_verbatim(m: ParserModel)
    requires
        m.stage == State::Name,
        0 <= m.pos < m.line.len(),
    ensures
        spec_step(m).output == Some(
            Ok::<TokenModel, Error>(
                TokenModel::Name(m.line.subrange(m.pos, spec_find(m.line, m.pos, ','))),
            ),
        ),
        spec_step(m).stage == State::KeyVal,
        spec_step(m).pos == (if spec_find(m.line, m.pos, ',') == m.line.len() {
            m.line.len() as int
        } else {
            spec_find(m.line, m.pos, ',') + 1
        }),
{
}

/// Law: a pair field with zero colons, or two or more, yields
/// `InvalidKeyValPair` at the field's start; the error is field-local:
/// the stage stays `KeyVal` and the cursor moves past the field, so the
/// next field is parsed as usual.
pub proof fn lemma_bad_pair_is_field_local(m: ParserModel)
    requires
        m.stage == State::KeyVal,
        0 <= m.pos < m.line.len(),
        ({
            let pair = m.line.subrange(m.pos, spec_find(m.line, m.pos, ','));
            let k = spec_find(pair, 0, ':');
            k == pair.len() || spec_find(pair, k + 1, ':') < pair.len()
        }),
    ensures
        spec_step(m).output == Some(
            Err::<TokenModel, Error>(
                Error { position: m.pos as usize, kind: ErrorKind::InvalidKeyValPair },
            ),
        ),
        spec_step(m).stage == State::KeyVal,
        spec_step(m).pos == (if spec_find(m.line, m.pos, ',') == m.line.len() {
            m.line.len() as int
        } else {
            spec_find(m.line, m.pos, ',') + 1
        }),
{
}

/// Law: a pair whose key is exactly `platform` passes its value through
/// uninterpreted, whatever the value holds; no table is consulted and no
/// grammar applies.
pub proof fn lemma_platform_passthrough(m: ParserModel)
    requires
        m.stage == State::KeyVal,
        0 <= m.pos < m.line.len(),
        ({
            let pair = m.line.subrange(m.pos, spec_find(m.line, m.pos, ','));
            let k = spec_find(pair, 0, ':');
            &&& k < pair.len()
            &&& spec_find(pair, k + 1, ':') == pair.len()
            &&& pair.subrange(0, k) == "platform"@
        }),
    ensures
        spec_step(m).output == Some(
            Ok::<TokenModel, Error>(
                TokenModel::Platform(
                    ({
                        let pair = m.line.subrange(m.pos, spec_find(m.line, m.pos, ','));
                        pair.subrange(spec_find(pair, 0, ':') + 1, pair.len() as int)
                    }),
                ),
            ),
        ),
        spec_step(m).stage == State::KeyVal,
{
}

/// Law: a well-split pair whose key is not `platform` is decided by the
/// micro-grammar decoder alone, on the key, the value and the field's
/// position.
pub proof fn lemma_pair_delegates_to_decoder(m: ParserModel)
    requires
        m.stage == State::KeyVal,
        0 <= m.pos < m.line.len(),
        ({
            let pair = m.line.subrange(m.pos, spec_find(m.line, m.pos, ','));
            let k = spec_find(pair, 0, ':');
            &&& k < pair.len()
            &&& spec_find(pair, k + 1, ':') == pair.len()
            &&& pair.subrange(0, k) != "platform"@
        }),
    ensures
        ({
            let pair = m.line.subrange(m.pos, spec_find(m.line, m.pos, ','));
            let k = spec_find(pair, 0, ':');
            spec_step(m).output == Some(
                spec_decode_pair(pair.subrange(0, k), pair.subrange(k + 1, pair.len() as int), m.pos),
            )
        }),
        spec_step(m).stage == State::KeyVal,
{
}

/// Law: the line is processed strictly left to right: one step never
/// moves the cursor backward, and never past the end of the line.
pub proof fn lemma_cursor_moves_forward(m: ParserModel)
    requires
        0 <= m.pos <= m.line.len(),
    ensures
        m.pos <= spec_step(m).pos <= m.line.len(),
{
    if m.pos < m.line.len() {
        crate::text::lemma_spec_find_bounds(m.line, m.pos, ',');
    }
}

/// Law: a consumed line stays consumed: once the cursor is at the end,
/// every request yields nothing and changes nothing.
pub proof fn lemma_exhausted_line_yields_nothing(m: ParserModel)
    requires
        m.pos >= m.line.len(),
    ensures
        spec_step(m).output is None,
        spec_step(m).pos == m.pos,
        spec_step(m).stage == m.stage,
{
}

} // verus!
