//! The attribute extractor: the invocation payload must be a single named
//! option `origin` bound to a string literal, whose raw value is the origin
//! symbol name. Also the origin-name guard: a usable origin is non-empty
//! and carries no embedded terminator byte, so it can never be silently
//! truncated on its way to the loader's resolution primitive.

use vstd::prelude::*;
use crate::model::{origin_ok, GenError};
use crate::text::str_eq;

verus! {

/// The value bound to the payload's option: a string literal, or something
/// the extractor rejects.
#[derive(Clone, Debug, PartialEq, Eq)]
pub enum AttrValue {
    Str(String),
    NotString,
}

/// The invocation payload, reduced to what the extractor inspects: a single
/// `name = value` option, or anything else.
#[derive(Clone, Debug, PartialEq, Eq)]
pub enum AttrPayload {
    NameValue { name: String, value: AttrValue },
    Malformed,
}

#[verifier::ext_equal]
pub enum AttrValueV {
    Str(Seq<char>),
    NotString,
}

#[verifier::ext_equal]
pub enum AttrPayloadV {
    NameValue { name: Seq<char>, value: AttrValueV },
    Malformed,
}

impl View for AttrValue {
    type V = AttrValueV;

    open spec fn view(&self) -> AttrValueV {
        match self {
            AttrValue::Str(s) => AttrValueV::Str(s@),
            AttrValue::NotString => AttrValueV::NotString,
        }
    }
}

impl View for AttrPayload {
    type V = AttrPayloadV;

    open spec fn view(&self) -> AttrPayloadV {
        match self {
            AttrPayload::NameValue { name, value } => AttrPayloadV::NameValue {
                name: name@,
                value: value@,
            },
            AttrPayload::Malformed => AttrPayloadV::Malformed,
        }
    }
}

/// What extraction yields: the origin symbol name when the payload is a
/// single `origin` option bound to a string literal, and `AttributeError`
/// otherwise.
pub open spec fn extract_spec(p: AttrPayloadV) -> Result<Seq<char>, GenError> {
    match p {
        AttrPayloadV::NameValue { name, value } => {
            if name == "origin"@ {
                match value {
                    AttrValueV::Str(s) => Result::Ok(s),
                    AttrValueV::NotString => Result::Err(GenError::AttributeError),
                }
            } else {
                Result::Err(GenError::AttributeError)
            }
        }
        AttrPayloadV::Malformed => Result::Err(GenError::AttributeError),
    }
}

/// Pulls the origin symbol name out of the invocation payload.
pub fn extract_origin(p: &AttrPayload) -> (r: Result<String, GenError>)
    ensures
        r matches Ok(s) ==> extract_spec(p@) == Result::<Seq<char>, GenError>::Ok(s@),
        r matches Err(e) ==> extract_spec(p@) == Result::<Seq<char>, GenError>::Err(e),
{
    match p {
        AttrPayload::NameValue { name, value } => {
            if str_eq(name.as_str(), "origin") {
                match value {
                    AttrValue::Str(s) => Result::Ok(s.clone()),
                    AttrValue::NotString => Result::Err(GenError::AttributeError),
                }
            } else {
                Result::Err(GenError::AttributeError)
            }
        }
        AttrPayload::Malformed => Result::Err(GenError::AttributeError),
    }
}

/// Decides whether `origin` is a usable symbol name: non-empty and free of
/// embedded terminator bytes.
pub fn check_origin(origin: &str) -> (b: bool)
    ensures
        b == origin_ok(origin@),
{
    let n = origin.unicode_len();
    if n == 0 {
        return false;
    }
    let mut i: usize = 0;
    while i < n
        invariant
            n == origin@.len(),
            i <= n,
            forall|k: int| 0 <= k < i ==> origin@[k] != '\0',
        decreases n - i,
    {
        let c = origin.get_char(i);
        if c == '\0' {
            proof {
                assert(origin@[i as int] == '\0');
            }
            return false;
        }
        i = i + 1;
    }
    true
}

} // verus!
