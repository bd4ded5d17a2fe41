//! The JSON values that a secret backend hands over, their coercion to text,
//! and the decoding of a secret document into environment entries.
use vstd::prelude::*;

use crate::error::EnvLoadError;
use crate::names::{as_valid_env_name, is_valid_env_name};
use crate::pairs::pairs_view;

verus! {

/// A JSON value as the library reads it. A number is held as its canonical
/// decimal text (integers without a fractional part, other numbers with the
/// digits needed to read them back).
#[derive(Debug)]
pub enum JsonValue {
    Null,
    Bool(bool),
    Number(String),
    String(String),
    Array(Vec<JsonValue>),
    Object(Vec<(String, JsonValue)>),
}

/// The text of a scalar value; arrays and objects have none.
pub open spec fn scalar_text(v: JsonValue) -> Option<Seq<char>> {
    match v {
        JsonValue::Null => Some("null"@),
        JsonValue::Bool(b) => Some(
            if b {
                "true"@
            } else {
                "false"@
            },
        ),
        JsonValue::Number(t) => Some(t@),
        JsonValue::String(s) => Some(s@),
        JsonValue::Array(_) => None,
        JsonValue::Object(_) => None,
    }
}

/// A member of a secret document that decodes: a valid name and a scalar value.
pub open spec fn member_decodes(m: (String, JsonValue)) -> bool {
    is_valid_env_name(m.0@) && scalar_text(m.1) is Some
}

/// Whether every member of a secret document decodes.
pub open spec fn document_decodes(members: Seq<(String, JsonValue)>) -> bool {
    forall|i: int| 0 <= i < members.len() ==> #[trigger] member_decodes(members[i])
}

/// The entries of a decodable secret document, in the document's order.
pub open spec fn document_entries(members: Seq<(String, JsonValue)>) -> Seq<(Seq<char>, Seq<char>)> {
    members.map_values(|m: (String, JsonValue)| (m.0@, scalar_text(m.1)->Some_0))
}

/// The text of a scalar value, or `None` for an array or an object.
fn scalar_of(v: &JsonValue) -> (r: Option<String>)
    ensures
        match scalar_text(*v) {
            Some(t) => r matches Some(s) && s@ == t,
            None => r is None,
        },
{
    match v {
        JsonValue::Null => Some(String::from_str("null")),
        JsonValue::Bool(b) => {
            if *b {
                Some(String::from_str("true"))
            } else {
                Some(String::from_str("false"))
            }
        },
        JsonValue::Number(t) => Some(t.clone()),
        JsonValue::String(s) => Some(s.clone()),
        JsonValue::Array(_) => None,
        JsonValue::Object(_) => None,
    }
}

/// Renders a scalar value as text: a string as it is, a boolean as `true` or
/// `false`, a number as its decimal text, null as `null`. Arrays and objects
/// are refused; nothing is flattened.
pub fn value_as_string(v: JsonValue) -> (r: Result<String, EnvLoadError>)
    ensures
        match scalar_text(v) {
            Some(t) => r matches Ok(s) && s@ == t,
            None => r == Err::<String, EnvLoadError>(EnvLoadError::InvalidSecretFormat),
        },
{
    match scalar_of(&v) {
        Some(s) => Ok(s),
        None => Err(EnvLoadError::InvalidSecretFormat),
    }
}

/// Decodes a secret document, a JSON object of names to scalar values, into
/// environment entries in the document's order. All or nothing: one invalid
/// name or one non-scalar value fails the whole document, as does a document
/// that is not an object.
pub fn decode_env_from_json(value: JsonValue) -> (r: Result<Vec<(String, String)>, EnvLoadError>)
    ensures
        value is Object && document_decodes(value->Object_0@) ==> (r matches Ok(v) && pairs_view(
            v@,
        ) == document_entries(value->Object_0@)),
        !(value is Object && document_decodes(value->Object_0@)) ==> r == Err::<
            Vec<(String, String)>,
            EnvLoadError,
        >(EnvLoadError::InvalidSecretFormat),
{
    let members = match value {
        JsonValue::Object(members) => members,
        _ => {
            return Err(EnvLoadError::InvalidSecretFormat);
        },
    };
    let mut out: Vec<(String, String)> = Vec::new();
    let mut i: usize = 0;
    while i < members.len()
        invariant
            value is Object,
            members@ == value->Object_0@,
            i <= members@.len(),
            out@.len() == i,
            forall|j: int| 0 <= j < i ==> #[trigger] member_decodes(members@[j]),
            pairs_view(out@) == document_entries(members@.subrange(0, i as int)),
        decreases members@.len() - i,
    {
        let name = match as_valid_env_name(members[i].0.clone()) {
            Ok(n) => n,
            Err(e) => {
                assert(!member_decodes(members@[i as int]));
                assert(!document_decodes(value->Object_0@));
                return Err(e);
            },
        };
        let text = match scalar_of(&members[i].1) {
            Some(t) => t,
            None => {
                assert(!member_decodes(members@[i as int]));
                assert(!document_decodes(value->Object_0@));
                return Err(EnvLoadError::InvalidSecretFormat);
            },
        };
        let ghost before = out@;
        out.push((name, text));
        proof {
            let done = members@.subrange(0, i + 1);
            assert(done =~= members@.subrange(0, i as int).push(members@[i as int]));
            assert forall|k: int| 0 <= k < i + 1 implies #[trigger] pairs_view(out@)[k]
                == document_entries(done)[k] by {
                if k < i {
                    assert(pairs_view(before)[k] == document_entries(
                        members@.subrange(0, i as int),
                    )[k]);
                }
            }
            assert(pairs_view(out@) =~= document_entries(done));
        }
        i = i + 1;
    }
    assert(members@.subrange(0, i as int) =~= members@);
    Ok(out)
}

} // verus!
