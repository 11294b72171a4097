//! The per-character micro-grammar of one `key:value` mapping pair: the
//! value's prefix decides the role (axis, button, hat), a trailing `~`
//! inverts an axis, and a leading `+`/`-` on an axis key picks the output
//! half-range.

use vstd::prelude::*;

use crate::tables::{axis_of, button_of, lookup_axis, lookup_button};
use crate::text::{find_char_from, parse_u16_str, spec_find, spec_parse_u16};
use crate::token::{token_result_matches, AxisRange, Error, ErrorKind, Token, TokenModel};

verus! {

/// An axis value with its trailing `~` stripped, and whether one was
/// there.
pub open spec fn strip_tilde(mid: Seq<char>) -> (Seq<char>, bool) {
    if mid.len() > 0 && mid.last() == '~' {
        (mid.drop_last(), true)
    } else {
        (mid, false)
    }
}

/// An axis key with its leading sign stripped, and the output range that
/// sign forces.
pub open spec fn strip_sign(key: Seq<char>) -> (Seq<char>, AxisRange) {
    if key.len() > 0 && key[0] == '+' {
        (key.subrange(1, key.len() as int), AxisRange::UpperHalf)
    } else if key.len() > 0 && key[0] == '-' {
        (key.subrange(1, key.len() as int), AxisRange::LowerHalf)
    } else {
        (key, AxisRange::Full)
    }
}

/// Decodes an axis pair once the role prefix is consumed: `mid0` is the
/// value after its `+a`/`-a`/`a` prefix, `input` the range that prefix
/// chose.
pub open spec fn spec_decode_axis(key: Seq<char>, mid0: Seq<char>, input: AxisRange, at: int) -> Result<
    TokenModel,
    Error,
> {
    let (mid, inverted) = strip_tilde(mid0);
    match spec_parse_u16(mid) {
        None => Err(Error { position: at as usize, kind: ErrorKind::InvalidValue }),
        Some(n) => {
            let (stripped, output) = strip_sign(key);
            match axis_of(stripped) {
                None => Err(Error { position: at as usize, kind: ErrorKind::UnknownAxis }),
                Some(a) => Ok(
                    TokenModel::AxisMapping { from: n, to: a, input, output, inverted },
                ),
            }
        },
    }
}

/// Decodes a hat pair: `h<idx>.<dir>`, the key resolved against the
/// button table. Every failure is reported at the field's start, as all
/// diagnostics are.
pub open spec fn spec_decode_hat(key: Seq<char>, value: Seq<char>, at: int) -> Result<
    TokenModel,
    Error,
> {
    let d = spec_find(value, 0, '.');
    if d == value.len() {
        Err(Error { position: at as usize, kind: ErrorKind::InvalidValue })
    } else {
        match spec_parse_u16(value.subrange(1, d)) {
            None => Err(Error { position: at as usize, kind: ErrorKind::InvalidValue }),
            Some(hat) => match spec_parse_u16(value.subrange(d + 1, value.len() as int)) {
                None => Err(Error { position: at as usize, kind: ErrorKind::InvalidValue }),
                Some(dir) => match button_of(key) {
                    None => Err(Error { position: at as usize, kind: ErrorKind::UnknownButton }),
                    Some(b) => Ok(TokenModel::HatMapping { hat, direction: dir, to: b }),
                },
            },
        }
    }
}

/// Decodes one non-`platform` pair: the value's first characters pick the
/// role, anything else is `InvalidValue`.
pub open spec fn spec_decode_pair(key: Seq<char>, value: Seq<char>, at: int) -> Result<
    TokenModel,
    Error,
> {
    if value.len() >= 2 && value[0] == '+' && value[1] == 'a' {
        spec_decode_axis(key, value.subrange(2, value.len() as int), AxisRange::UpperHalf, at)
    } else if value.len() >= 2 && value[0] == '-' && value[1] == 'a' {
        spec_decode_axis(key, value.subrange(2, value.len() as int), AxisRange::LowerHalf, at)
    } else if value.len() >= 1 && value[0] == 'a' {
        spec_decode_axis(key, value.subrange(1, value.len() as int), AxisRange::Full, at)
    } else if value.len() >= 1 && value[0] == 'b' {
        match spec_parse_u16(value.subrange(1, value.len() as int)) {
            None => Err(Error { position: at as usize, kind: ErrorKind::InvalidValue }),
            Some(n) => match button_of(key) {
                None => Err(Error { position: at as usize, kind: ErrorKind::UnknownButton }),
                Some(b) => Ok(TokenModel::ButtonMapping { from: n, to: b }),
            },
        }
    } else if value.len() >= 1 && value[0] == 'h' {
        spec_decode_hat(key, value, at)
    } else {
        Err(Error { position: at as usize, kind: ErrorKind::InvalidValue })
    }
}

/// Executable decoder for one non-`platform` pair: agrees with
/// `spec_decode_pair` on every input.
pub fn decode_pair<'a>(key: &str, value: &str, at: usize) -> (r: Result<Token<'a>, Error>)
    ensures
        token_result_matches(r, spec_decode_pair(key@, value@, at as int)),
{
    let nv = value.unicode_len();
    if nv >= 2 && value.get_char(0) == '+' && value.get_char(1) == 'a' {
        decode_axis(key, value.substring_char(2, nv), AxisRange::UpperHalf, at)
    } else if nv >= 2 && value.get_char(0) == '-' && value.get_char(1) == 'a' {
        decode_axis(key, value.substring_char(2, nv), AxisRange::LowerHalf, at)
    } else if nv >= 1 && value.get_char(0) == 'a' {
        decode_axis(key, value.substring_char(1, nv), AxisRange::Full, at)
    } else if nv >= 1 && value.get_char(0) == 'b' {
        match parse_u16_str(value.substring_char(1, nv)) {
            None => Err(Error::new(ErrorKind::InvalidValue, at)),
            Some(n) => match lookup_button(key) {
                None => Err(Error::new(ErrorKind::UnknownButton, at)),
                Some(b) => Ok(Token::ButtonMapping { from: n, to: b }),
            },
        }
    } else if nv >= 1 && value.get_char(0) == 'h' {
        decode_hat(key, value, at)
    } else {
        Err(Error::new(ErrorKind::InvalidValue, at))
    }
}

/// Executable axis decoding, after the role prefix was consumed.
fn decode_axis<'a>(key: &str, mid0: &str, input: AxisRange, at: usize) -> (r: Result<
    Token<'a>,
    Error,
>)
    ensures
        token_result_matches(r, spec_decode_axis(key@, mid0@, input, at as int)),
{
    let nm = mid0.unicode_len();
    let (mid, inverted) = if nm > 0 && mid0.get_char(nm - 1) == '~' {
        (mid0.substring_char(0, nm - 1), true)
    } else {
        (mid0, false)
    };
    proof {
        if nm > 0 && mid0@.last() == '~' {
            assert(mid@ =~= strip_tilde(mid0@).0);
        }
    }
    match parse_u16_str(mid) {
        None => Err(Error::new(ErrorKind::InvalidValue, at)),
        Some(n) => {
            let nk = key.unicode_len();
            let (stripped, output) = if nk > 0 && key.get_char(0) == '+' {
                (key.substring_char(1, nk), AxisRange::UpperHalf)
            } else if nk > 0 && key.get_char(0) == '-' {
                (key.substring_char(1, nk), AxisRange::LowerHalf)
            } else {
                (key, AxisRange::Full)
            };
            match lookup_axis(stripped) {
                None => Err(Error::new(ErrorKind::UnknownAxis, at)),
                Some(a) => Ok(Token::AxisMapping { from: n, to: a, input, output, inverted }),
            }
        },
    }
}

/// Executable hat decoding.
fn decode_hat<'a>(key: &str, value: &str, at: usize) -> (r: Result<Token<'a>, Error>)
    requires
        value@.len() >= 1,
        value@[0] == 'h',
    ensures
        token_result_matches(r, spec_decode_hat(key@, value@, at as int)),
{
    let nv = value.unicode_len();
    let d = find_char_from(value, 0, '.');
    proof {
        crate::text::lemma_spec_find_bounds(value@, 0, '.');
    }
    if d == nv {
        return Err(Error::new(ErrorKind::InvalidValue, at));
    }
    assert(d >= 1) by {
        assert(value@[d as int] == '.');
    }
    match parse_u16_str(value.substring_char(1, d)) {
        None => Err(Error::new(ErrorKind::InvalidValue, at)),
        Some(hat) => match parse_u16_str(value.substring_char(d + 1, nv)) {
            None => Err(Error::new(ErrorKind::InvalidValue, at)),
            Some(dir) => match lookup_button(key) {
                None => Err(Error::new(ErrorKind::UnknownButton, at)),
                Some(b) => Ok(Token::HatMapping { hat, direction: dir, to: b }),
            },
        },
    }
}

} // verus!
