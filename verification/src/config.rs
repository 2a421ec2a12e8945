//! The resolved node configuration the core accepts; gathering it from the
//! command line and the environment happens outside the library.

use vstd::prelude::*;

use crate::types::ChainID;

verus! {

/// How routes for transfers are found.
#[derive(Clone, Copy, PartialEq, Eq, Structural, Debug)]
pub enum RoutingMode {
    PFS,
    Private,
}

/// The fully resolved configuration a node starts with.
#[derive(Clone, PartialEq, Eq, Debug)]
pub struct Config {
    pub chain_id: ChainID,
    pub datadir: String,
    pub keystore_path: String,
    pub eth_http_rpc_endpoint: String,
    pub eth_socket_rpc_endpoint: String,
}

impl Config {
    pub fn new(
        chain_id: ChainID,
        datadir: String,
        keystore_path: String,
        eth_http_rpc_endpoint: String,
        eth_socket_rpc_endpoint: String,
    ) -> (r: Config)
        ensures
            r.chain_id == chain_id,
            r.datadir@ == datadir@,
            r.keystore_path@ == keystore_path@,
            r.eth_http_rpc_endpoint@ == eth_http_rpc_endpoint@,
            r.eth_socket_rpc_endpoint@ == eth_socket_rpc_endpoint@,
    {
        Config { chain_id, datadir, keystore_path, eth_http_rpc_endpoint, eth_socket_rpc_endpoint }
    }
}

} // verus!
