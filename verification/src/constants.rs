//! Process-wide configuration constants.

use vstd::prelude::*;

verus! {

pub const NEAR_RPC_TESTNET: &'static str = "https://rpc.testnet.pagoda.co";

pub const NEAR_RPC_MAINNET: &'static str = "https://rpc.mainnet.pagoda.co";

/// The account whose event log is watched for governance requests, and the
/// receiver of every transaction and query this client builds.
pub const ACCOUNT_TO_LISTEN: &'static str = "earthmind2.testnet";

/// The contract method whose invocations produce the watched events.
pub const FUNCTION_TO_LISTEN: &'static str = "request_governance_decision";

pub const EARTHMIND_PROTOCOL_CONTRACT_TESTNET: &'static str = "earthmindprotocol.testnet";

pub const EARTHMIND_PROTOCOL_CONTRACT_MAINNET: &'static str = "earthmindprotocol.near";

/// How many times a wait phase polls the contract's stage before giving up.
pub const MAX_ATTEMPTS: u32 = 30;

/// Seconds slept between two stage polls of the same wait phase.
pub const POLL_INTERVAL_SECS: u64 = 10;

} // verus!
