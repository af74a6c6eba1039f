//! A minimal client for one call of a source-hosting provider's HTTP API:
//! creating a private repository. The library builds the request (address,
//! headers, JSON body) and interprets the response (status code, JSON body,
//! the `html_url` field); sending it over the network is left to the caller.

pub mod client;
pub mod error;
pub mod json;
pub mod response;
pub mod laws;

pub use client::{GithubClient, RepoRequest};
pub use error::GithubError;
pub use response::create_repo_response;
