use crate::json::{escape_free, json_quoted, quote_json};
use vstd::prelude::*;

verus! {

/// The address that repositories are created at, below the API's base URL.
pub open spec fn repos_url_of(base_url: Seq<char>) -> Seq<char> {
    base_url + "/user/repos"@
}

/// The `Authorization` header's value for a token.
pub open spec fn authorization_of(token: Seq<char>) -> Seq<char> {
    "token "@ + token
}

/// The JSON object `{"name": name, "private": true}`, written compactly.
pub open spec fn request_body_of(name: Seq<char>) -> Seq<char> {
    "{\"name\":"@ + json_quoted(name) + ",\"private\":true}"@
}

/// The request that creates the repository `name` for a client configured as `config`.
pub open spec fn request_of(config: ClientConfig, name: Seq<char>) -> RequestView {
    RequestView {
        url: repos_url_of(config.base_url),
        authorization: authorization_of(config.token),
        content_type: "application/json"@,
        body: request_body_of(name),
    }
}

/// A request's parts, as sequences of characters.
pub struct RequestView {
    pub url: Seq<char>,
    pub authorization: Seq<char>,
    pub content_type: Seq<char>,
    pub body: Seq<char>,
}

/// An HTTP POST to send: its address, the values of its `Authorization` and
/// `Content-Type` headers, and its body.
pub struct RepoRequest {
    pub url: String,
    pub authorization: String,
    pub content_type: String,
    pub body: String,
}

impl View for RepoRequest {
    type V = RequestView;

    open spec fn view(&self) -> RequestView {
        RequestView {
            url: self.url@,
            authorization: self.authorization@,
            content_type: self.content_type@,
            body: self.body@,
        }
    }
}

/// What a client holds: the token it authenticates with and the API's base URL.
pub struct ClientConfig {
    pub token: Seq<char>,
    pub base_url: Seq<char>,
}

/// A client for the repository-creation call, configured once and never changed.
pub struct GithubClient {
    base_url: String,
    token: String,
}

impl View for GithubClient {
    type V = ClientConfig;

    closed spec fn view(&self) -> ClientConfig {
        ClientConfig { token: self.token@, base_url: self.base_url@ }
    }
}

impl GithubClient {
    /// Stores both strings as they are: no validation and no network traffic.
    pub fn new(token: &str, base_url: &str) -> (r: GithubClient)
        ensures
            r@ == (ClientConfig { token: token@, base_url: base_url@ }),
    {
        GithubClient { base_url: base_url.to_owned(), token: token.to_owned() }
    }

    /// The POST that creates a private repository called `name`. A name that
    /// needs no escaping in JSON stands in the body as it is.
    pub fn create_repo_request(&self, name: &str) -> (r: RepoRequest)
        ensures
            r@ == request_of(self@, name@),
            escape_free(name@) ==> r@.body == "{\"name\":\""@ + name@ + "\",\"private\":true}"@,
    {
        let url = self.base_url.clone().concat("/user/repos");
        let authorization = String::from_str("token ").concat(self.token.as_str());
        let quoted = quote_json(name);
        let body = String::from_str("{\"name\":").concat(quoted.as_str()).concat(",\"private\":true}");
        proof {
            reveal_strlit("{\"name\":");
            reveal_strlit("{\"name\":\"");
            reveal_strlit(",\"private\":true}");
            reveal_strlit("\",\"private\":true}");
            if escape_free(name@) {
                assert(body@ =~= "{\"name\":\""@ + name@ + "\",\"private\":true}"@);
            }
        }
        RepoRequest {
            url,
            authorization,
            content_type: String::from_str("application/json"),
            body,
        }
    }
}

} // verus!
