use crate::client::{request_of, ClientConfig, GithubClient};
use crate::error::GithubError;
use crate::response::{outcome_of, response_outcome};
use vstd::prelude::*;

verus! {

/// Construction is idempotent: two clients built from the same token and base
/// URL send the same request for the same repository name, and, given the same
/// response, both calls come to the same outcome. No hidden state takes part.
pub proof fn lemma_construction_idempotent(
    token: Seq<char>,
    base_url: Seq<char>,
    name: Seq<char>,
    first: GithubClient,
    second: GithubClient,
    status: u16,
    body: Seq<u8>,
    first_result: Result<String, GithubError>,
    second_result: Result<String, GithubError>,
)
    requires
        first@ == (ClientConfig { token, base_url }),
        second@ == (ClientConfig { token, base_url }),
        outcome_of(first_result) == response_outcome(status, body),
        outcome_of(second_result) == response_outcome(status, body),
    ensures
        request_of(first@, name) == request_of(second@, name),
        outcome_of(first_result) == outcome_of(second_result),
{
}

} // verus!
