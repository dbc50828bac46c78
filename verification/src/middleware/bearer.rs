//! Reading the bearer token out of an `Authorization` header.
//!
//! The value of the header is taken as the bytes that came over the wire. It
//! names the scheme, in any mix of upper and lower case, then has a space, and
//! the rest is the token, without the blanks that it starts with. A value that
//! is not text throughout carries no token.

use crate::model::auth_error::AuthError;
use vstd::prelude::*;
use vstd::slice::slice_subrange;

verus! {

/// Whether `byte` may stand in a header value that reads as text: a tab, or a
/// character of ASCII that can be seen, the space included.
pub open spec fn is_text_byte(byte: u8) -> bool {
    byte == 9 || (32 <= byte && byte <= 126)
}

/// Whether `value` is text throughout.
pub open spec fn is_text(value: Seq<u8>) -> bool {
    forall|k: int| 0 <= k < value.len() ==> is_text_byte(#[trigger] value[k])
}

/// `byte` in lower case, where it is a letter of ASCII in upper case.
pub open spec fn lowered(byte: u8) -> u8 {
    if 65 <= byte && byte <= 90 {
        (byte + 32) as u8
    } else {
        byte
    }
}

/// Whether `value` begins with the word `bearer`, in any mix of cases, and a
/// space.
pub open spec fn names_bearer(value: Seq<u8>) -> bool {
    &&& value.len() > 6
    &&& lowered(value[0]) == 98
    &&& lowered(value[1]) == 101
    &&& lowered(value[2]) == 97
    &&& lowered(value[3]) == 114
    &&& lowered(value[4]) == 101
    &&& lowered(value[5]) == 114
    &&& value[6] == 32
}

/// Whether `byte` is a space or a tab.
pub open spec fn is_blank(byte: u8) -> bool {
    byte == 32 || byte == 9
}

/// `text` without the blanks that it starts with.
pub open spec fn skip_blanks(text: Seq<u8>) -> Seq<u8>
    decreases text.len(),
{
    if text.len() > 0 && is_blank(text[0]) {
        skip_blanks(text.drop_first())
    } else {
        text
    }
}

/// The bearer token that a request carries, where `authorization` is the
/// value of its `Authorization` header, if it has one.
pub open spec fn bearer_token_spec(authorization: Option<Seq<u8>>) -> Option<Seq<u8>> {
    match authorization {
        Some(value) => if names_bearer(value) && is_text(value) {
            Some(skip_blanks(value.skip(7)))
        } else {
            None
        },
        None => None,
    }
}

/// The view of an optional slice of bytes.
pub open spec fn bytes_view(bytes: Option<&[u8]>) -> Option<Seq<u8>> {
    match bytes {
        Some(slice) => Some(slice@),
        None => None,
    }
}

fn lower(byte: u8) -> (low: u8)
    ensures
        low == lowered(byte),
{
    if 65 <= byte && byte <= 90 {
        byte + 32
    } else {
        byte
    }
}

fn has_bearer_scheme(value: &[u8]) -> (named: bool)
    ensures
        named == names_bearer(value@),
{
    value.len() > 6 && lower(value[0]) == 98 && lower(value[1]) == 101 && lower(value[2]) == 97
        && lower(value[3]) == 114 && lower(value[4]) == 101 && lower(value[5]) == 114 && value[6]
        == 32
}

fn reads_as_text(value: &[u8]) -> (text: bool)
    ensures
        text == is_text(value@),
{
    let mut at: usize = 0;
    while at < value.len()
        invariant
            at <= value@.len(),
            forall|k: int| 0 <= k < at ==> is_text_byte(#[trigger] value@[k]),
        decreases value@.len() - at,
    {
        let byte: u8 = value[at];
        if !(byte == 9 || (32 <= byte && byte <= 126)) {
            return false;
        }
        at += 1;
    }
    true
}

/// The bearer token of a request, or `MissingCredentials` where the request
/// has no `Authorization` header or the header does not carry one.
pub fn bearer_token<'a>(authorization: Option<&'a [u8]>) -> (res: Result<&'a [u8], AuthError>)
    ensures
        match bearer_token_spec(bytes_view(authorization)) {
            Some(token) => res matches Ok(found) && found@ == token,
            None => res == Err::<&[u8], AuthError>(AuthError::MissingCredentials),
        },
{
    let value: &[u8] = match authorization {
        Some(value) => value,
        None => {
            return Err(AuthError::MissingCredentials);
        },
    };
    if !has_bearer_scheme(value) || !reads_as_text(value) {
        return Err(AuthError::MissingCredentials);
    }
    let mut at: usize = 7;
    assert(value@.skip(7).len() > 0 ==> value@.skip(7)[0] == value@[7]);
    while at < value.len() && (value[at] == 32 || value[at] == 9)
        invariant
            7 <= at <= value@.len(),
            skip_blanks(value@.skip(7)) == skip_blanks(value@.skip(at as int)),
        decreases value@.len() - at,
    {
        assert(value@.skip(at as int)[0] == value@[at as int]);
        assert(value@.skip(at as int).drop_first() == value@.skip(at + 1));
        at += 1;
    }
    assert(skip_blanks(value@.skip(at as int)) == value@.skip(at as int)) by {
        if at < value@.len() {
            assert(value@.skip(at as int)[0] == value@[at as int]);
        }
    }
    assert(value@.skip(at as int) == value@.subrange(at as int, value@.len() as int));
    Ok(slice_subrange(value, at, value.len()))
}

/// A token that starts with neither a space nor a tab is read back as it is
/// from the header that is made of the word `Bearer`, a space and the token.
pub proof fn lemma_token_read_back(token: Seq<u8>)
    requires
        is_text(token),
        token.len() > 0 ==> !is_blank(token[0]),
    ensures
        bearer_token_spec(Some(seq![66u8, 101u8, 97u8, 114u8, 101u8, 114u8, 32u8] + token))
            == Some(token),
{
    let value = seq![66u8, 101u8, 97u8, 114u8, 101u8, 114u8, 32u8] + token;
    assert(value.skip(7) == token);
    assert(names_bearer(value));
    assert forall|k: int| 0 <= k < value.len() implies is_text_byte(#[trigger] value[k]) by {
        if k >= 7 {
            assert(value[k] == token[k - 7]);
        }
    }
}

} // verus!
