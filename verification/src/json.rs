//! The boundary to `serde_json`: its opaque values, and quoting one string as
//! a JSON string literal.

use vstd::prelude::*;

verus! {

/// `serde_json::Error`, carried through as an opaque value.
#[verifier::external_type_specification]
#[verifier::external_body]
pub struct ExJsonError(serde_json::Error);

/// `serde_json::Value`, carried through as an opaque value: the parts of an
/// object that nothing here looks into.
#[verifier::external_type_specification]
#[verifier::external_body]
pub struct ExJsonValue(serde_json::Value);

/// What `serde_json` makes of the string `s`: the JSON string literal that
/// it writes, quotes and escapes included, or nothing where it returns an
/// error instead.
pub uninterp spec fn json_string_literal(s: Seq<char>) -> Option<Seq<char>>;

/// The text of a result of `serde_json`, if it is one.
pub open spec fn text_of(r: Result<String, serde_json::Error>) -> Option<Seq<char>> {
    match r {
        Ok(text) => Some(text@),
        Err(_) => None,
    }
}

/// Calls `serde_json::to_string` on a string slice. The call writes into a
/// buffer of its own and looks at nothing but the string, so what comes
/// back, text or error, is what `json_string_literal` names for that
/// string. Nothing is claimed about which strings give a text.
#[verifier::external_body]
pub(crate) fn quote(s: &str) -> (r: Result<String, serde_json::Error>)
    ensures
        text_of(r) == json_string_literal(s@),
{
    serde_json::to_string(s)
}

} // verus!
