//! The validator's answer payload.

use vstd::prelude::*;

verus! {

/// The accounts a validator submits as its answer: a fixed-composition
/// list (the scoring that would rank miners is pluggable and out of
/// scope).
pub open spec fn spec_validator_answer() -> Seq<Seq<char>> {
    seq![
        "hasserualcala.testnet"@,
        "miner2.near"@,
        "miner3.near"@,
        "miner4.near"@,
        "miner5.near"@,
        "miner6.near"@,
        "miner7.near"@,
        "miner8.near"@,
        "miner9.near"@,
        "miner10.near"@,
    ]
}

/// Executable form of [`spec_validator_answer`]: the same ten accounts,
/// in the same order.
pub fn generate_validator_answer() -> (r: Vec<String>)
    ensures
        r.deep_view() == spec_validator_answer(),
{
    let mut value: Vec<String> = Vec::new();
    value.push("hasserualcala.testnet".to_owned());
    value.push("miner2.near".to_owned());
    value.push("miner3.near".to_owned());
    value.push("miner4.near".to_owned());
    value.push("miner5.near".to_owned());
    value.push("miner6.near".to_owned());
    value.push("miner7.near".to_owned());
    value.push("miner8.near".to_owned());
    value.push("miner9.near".to_owned());
    value.push("miner10.near".to_owned());
    proof {
        assert(value.deep_view() =~= spec_validator_answer());
    }
    value
}

} // verus!
