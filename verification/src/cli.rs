//! Role and network selectors chosen once at process startup.

use vstd::prelude::*;

verus! {

/// The role this process plays in the commit-reveal protocol.
#[derive(Copy, Clone, Debug, PartialEq, Eq, Structural)]
pub enum Modes {
    Miner,
    Validator,
    Aggregator,
}

/// Which chain the process talks to; selects the RPC endpoint.
#[derive(Copy, Clone, Debug, PartialEq, Eq, Structural)]
pub enum Networks {
    Testnet,
    Mainnet,
}

impl Networks {
    /// The RPC endpoint a process configured with this network talks to.
    pub fn rpc_url(&self) -> (r: &'static str)
        ensures
            self is Testnet ==> r@ == crate::constants::NEAR_RPC_TESTNET@,
            self is Mainnet ==> r@ == crate::constants::NEAR_RPC_MAINNET@,
    {
        match self {
            Networks::Testnet => crate::constants::NEAR_RPC_TESTNET,
            Networks::Mainnet => crate::constants::NEAR_RPC_MAINNET,
        }
    }
}

} // verus!
