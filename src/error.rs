use vstd::prelude::*;

verus! {

/// Why creating a repository failed.
#[derive(Debug)]
pub enum GithubError {
    /// The request could not be built (an address or header the HTTP stack refuses).
    HttpError { message: String },
    /// The HTTP transport failed: name lookup, connection, TLS.
    HttpClientError { message: String },
    /// The response body is not JSON text.
    ParserError { source: serde_json::Error },
    /// The server answered with a status other than 201 Created.
    UnexpectedResponseCodeError { code: u16 },
    /// The JSON body holds no string under the named field.
    MissingValueError { field: &'static str },
}

} // verus!
