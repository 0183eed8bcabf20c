//! The adapter's public surface: its identifiers, its language-id mapping,
//! and the typed result of a version lookup.

use vstd::prelude::*;

use crate::installer::{AdapterError, VersionToken};

verus! {

/// The adapter that provisions and configures the JSON language server on
/// behalf of the host. The host's runtime and language registry stay on the
/// host's side; the adapter itself carries no state.
pub struct JsonLspAdapter {}

impl JsonLspAdapter {
    pub fn new() -> (r: JsonLspAdapter) {
        JsonLspAdapter {}
    }

    /// The server's name identifier.
    pub fn name(&self) -> (r: String)
        ensures
            r@ == "json-language-server"@,
    {
        "json-language-server".to_owned()
    }

    /// The server's short display name.
    pub fn short_name(&self) -> (r: &'static str)
        ensures
            r@ == "json"@,
    {
        "json"
    }

    /// The mapping from the host's language display names to the language
    /// identifiers the server expects: one entry, the JSON display name to
    /// the comment-tolerant protocol identifier.
    pub fn language_ids(&self) -> (r: Vec<(String, String)>)
        ensures
            r@.len() == 1,
            r@[0].0@ == "JSON"@,
            r@[0].1@ == "jsonc"@,
    {
        let mut ids: Vec<(String, String)> = Vec::new();
        ids.push(("JSON".to_owned(), "jsonc".to_owned()));
        ids
    }

    /// The typed result of a latest-version lookup: the registry's answer
    /// becomes a version token, and a lookup that produced nothing becomes
    /// `UpstreamUnavailable`. No retry is made here — retrying is the
    /// caller's policy.
    pub fn resolve_latest_version(&self, response: Option<String>) -> (r: Result<
        VersionToken,
        AdapterError,
    >)
        ensures
            r is Ok <==> response is Some,
            match (r, response) {
                (Ok(v), Some(s)) => v.text@ == s@,
                (Err(e), None) => e == AdapterError::UpstreamUnavailable,
                _ => false,
            },
    {
        match response {
            Some(text) => Ok(VersionToken { text }),
            None => Err(AdapterError::UpstreamUnavailable),
        }
    }
}

} // verus!
