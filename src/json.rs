use vstd::prelude::*;

verus! {

#[verifier::external_type_specification]
#[verifier::external_body]
pub struct ExJsonError(serde_json::Error);

/// serde_json's text for a string value: a JSON string literal.
pub uninterp spec fn json_quoted(s: Seq<char>) -> Seq<char>;

/// What reading `body` as JSON and then looking for a string under `key` gives:
/// `None` where `body` is not JSON text, `Some(None)` where the document holds no
/// string under `key` at its top level, and `Some(Some(s))` where it holds `s`.
pub uninterp spec fn json_string_member(body: Seq<u8>, key: Seq<char>) -> Option<Option<Seq<char>>>;

/// A string that JSON writes as it is: no double quote, no backslash and no
/// control character below U+0020.
pub open spec fn escape_free(s: Seq<char>) -> bool {
    forall|i: int| 0 <= i < s.len() ==> s[i] != '"' && s[i] != '\\' && (s[i] as u32) >= 0x20
}

/// The member found in a parsed body, with the strings as their views.
pub open spec fn found_view(found: Result<Option<String>, serde_json::Error>) -> Option<Option<Seq<char>>> {
    match found {
        Err(_) => None,
        Ok(None) => Some(None),
        Ok(Some(s)) => Some(Some(s@)),
    }
}

/// Relies on serde_json's `Display` for `Value::String`: the text is a JSON string
/// literal that opens and closes with a double quote, and in which a character
/// other than `"`, `\` and the controls below U+0020 stands as it is.
#[verifier::external_body]
pub(crate) fn quote_json(s: &str) -> (r: String)
    ensures
        r@ == json_quoted(s@),
        r@.len() >= 2,
        r@.first() == '"',
        r@.last() == '"',
        escape_free(s@) ==> r@ == seq!['"'] + s@ + seq!['"'],
{
    serde_json::Value::String(s.to_owned()).to_string()
}

/// Relies on serde_json::from_slice to read `body` as a `Value`, then on
/// `Value::get` and `Value::as_str` to find the string held under `key`.
#[verifier::external_body]
pub(crate) fn string_member(body: &[u8], key: &str) -> (r: Result<Option<String>, serde_json::Error>)
    ensures
        found_view(r) == json_string_member(body@, key@),
{
    match serde_json::from_slice::<serde_json::Value>(body) {
        Ok(v) => Ok(v.get(key).and_then(serde_json::Value::as_str).map(str::to_owned)),
        Err(e) => Err(e),
    }
}

} // verus!
