//! Configuration surface of the backend, as plain values. Loading these from
//! files or secret stores is an external collaborator's job; here they are
//! only carried and selected on.

use vstd::prelude::*;

verus! {

/// Endpoints of the RPC-backed backend: the API node spoken to over
/// JSON-RPC, and the submission endpoint blobs are fetched from.
#[derive(Clone, Debug, PartialEq)]
pub struct BitcoinConfig {
    pub api_node_url: String,
    pub poda_url: String,
}

/// Credentials for the API node's basic authentication.
#[derive(Clone, Debug)]
pub struct BitcoinSecrets {
    pub rpc_user: String,
    pub rpc_password: String,
}

/// Which data-availability backend variant is configured.
#[derive(Clone, Debug, PartialEq)]
pub enum DAClientConfig {
    Bitcoin(BitcoinConfig),
    NoDA,
}

impl From<BitcoinConfig> for DAClientConfig {
    fn from(config: BitcoinConfig) -> (r: Self) {
        Self::Bitcoin(config)
    }
}

impl vstd::std_specs::convert::FromSpecImpl<BitcoinConfig> for DAClientConfig {
    open spec fn obeys_from_spec() -> bool {
        true
    }

    open spec fn from_spec(config: BitcoinConfig) -> Self {
        Self::Bitcoin(config)
    }
}

} // verus!
