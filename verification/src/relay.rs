//! The JSON-RPC relay configuration.
//!
//! The relay is an external metered gateway; the library only selects which
//! gateway the host should talk to.  All actual balance queries, fee quotes
//! and broadcasts are remote actions the host performs.

use vstd::prelude::*;

verus! {

/// The Sepolia relay service: the gateway canister the host sends metered
/// JSON-RPC calls through.
pub struct EthSepoliaService {
    pub gateway: String,
}

/// The text identity of the Sepolia relay gateway.
pub open spec fn sepolia_gateway_text() -> Seq<char> {
    "7hfb6-caaaa-aaaar-qadga-cai"@
}

/// The relay service configuration for the Sepolia network.
pub fn get_rpc_service_sepolia() -> (r: EthSepoliaService)
    ensures
        r.gateway@ == sepolia_gateway_text(),
{
    EthSepoliaService { gateway: "7hfb6-caaaa-aaaar-qadga-cai".to_owned() }
}

} // verus!
