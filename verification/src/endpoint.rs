//! The handle on the consensus-data provider.
//!
//! A client is created from the provider's endpoint and refuses a malformed
//! one before any I/O is attempted. The network calls themselves — one
//! snapshot per slot, one block per slot — are the transport's business and
//! stay outside the library; the client here carries the validated endpoint
//! that those calls are addressed to.

use vstd::prelude::*;
use crate::errors::ConfigError;

verus! {

/// Whether an absolute URL can be parsed from the string.
pub uninterp spec fn url_well_formed(s: Seq<char>) -> bool;

/// Relies on url::Url::parse: it returns `Ok` exactly when it can parse an
/// absolute URL from the input, and that is a function of the characters
/// alone.
#[verifier::external_body]
fn endpoint_parses(s: &str) -> (r: bool)
    ensures
        r == url_well_formed(s@),
{
    url::Url::parse(s).is_ok()
}

/// The client for the consensus-data provider, holding its validated
/// endpoint.
#[derive(Debug)]
pub struct BeaconClient {
    pub rpc_url: String,
}

impl BeaconClient {
    /// The client's invariant: its endpoint is a well-formed URL.
    pub open spec fn wf(self) -> bool {
        url_well_formed(self.rpc_url@)
    }

    /// Validates the endpoint and creates the client, failing fast — before
    /// any I/O — when the endpoint is not a well-formed URL.
    pub fn new(rpc_url: String) -> (r: Result<BeaconClient, ConfigError>)
        ensures
            r is Ok <==> url_well_formed(rpc_url@),
            r matches Ok(c) ==> c.rpc_url@ == rpc_url@ && c.wf(),
            r is Err ==> r == Err::<BeaconClient, ConfigError>(ConfigError::MalformedEndpoint),
    {
        if endpoint_parses(rpc_url.as_str()) {
            Ok(BeaconClient { rpc_url })
        } else {
            Err(ConfigError::MalformedEndpoint)
        }
    }
}

} // verus!
