use crate::error::GithubError;
use crate::json::{found_view, json_string_member, string_member};
use vstd::prelude::*;

verus! {

/// The status code that a successful creation answers with.
pub const CREATED: u16 = 201;

/// What a call came to, with the error kinds told apart and any opaque error
/// source left out.
pub enum Outcome {
    Created(Seq<char>),
    RequestRefused,
    TransportFailed,
    MalformedBody,
    UnexpectedStatus(u16),
    MissingField(Seq<char>),
}

/// The outcome that a result stands for.
pub open spec fn outcome_of(r: Result<String, GithubError>) -> Outcome {
    match r {
        Ok(url) => Outcome::Created(url@),
        Err(GithubError::HttpError { .. }) => Outcome::RequestRefused,
        Err(GithubError::HttpClientError { .. }) => Outcome::TransportFailed,
        Err(GithubError::ParserError { .. }) => Outcome::MalformedBody,
        Err(GithubError::UnexpectedResponseCodeError { code }) => Outcome::UnexpectedStatus(code),
        Err(GithubError::MissingValueError { field }) => Outcome::MissingField(field@),
    }
}

/// The outcome owed for what looking up `html_url` in a 201 response's body gave.
pub open spec fn lookup_outcome(found: Option<Option<Seq<char>>>) -> Outcome {
    match found {
        None => Outcome::MalformedBody,
        Some(None) => Outcome::MissingField("html_url"@),
        Some(Some(url)) => Outcome::Created(url),
    }
}

/// The outcome owed for a response with status `status` and body `body`.
pub open spec fn response_outcome(status: u16, body: Seq<u8>) -> Outcome {
    if status != 201 {
        Outcome::UnexpectedStatus(status)
    } else {
        lookup_outcome(json_string_member(body, "html_url"@))
    }
}

/// The result of a 201 response, from what looking up `html_url` in its body
/// gave: the URL, or the parse error, or the missing field.
pub fn url_from_member(found: Result<Option<String>, serde_json::Error>) -> (r: Result<String, GithubError>)
    ensures
        outcome_of(r) == lookup_outcome(found_view(found)),
        found is Err ==> (r matches Err(GithubError::ParserError { source }) && source == found->Err_0),
{
    match found {
        Ok(Some(url)) => Ok(url),
        Ok(None) => Err(GithubError::MissingValueError { field: "html_url" }),
        Err(source) => Err(GithubError::ParserError { source }),
    }
}

/// The result of the creation call, from the response's status code and body:
/// the repository's web URL, or why there is none. The body is read only after
/// a 201.
pub fn create_repo_response(status: u16, body: &[u8]) -> (r: Result<String, GithubError>)
    ensures
        outcome_of(r) == response_outcome(status, body@),
{
    if status != CREATED {
        return Err(GithubError::UnexpectedResponseCodeError { code: status });
    }
    let found = string_member(body, "html_url");
    url_from_member(found)
}

} // verus!
