//! Transaction and query construction.
//!
//! The factory assembles an unsigned action payload — target contract,
//! method, arguments, sequence number, reference hash — and stamps it with
//! the signing identity. Construction is pure; the signature bytes and the
//! wire encoding are produced by the dispatch boundary from the key
//! material carried here. Building a transaction consumes exactly one
//! sequence number inside one critical section with the shared
//! [`NonceSequencer`].

use vstd::prelude::*;

use crate::args::ArgObject;
use crate::nonce::{allocate_step, NonceSequencer};

verus! {

/// Why a signing identity could not be formed.
#[derive(Copy, Clone, Debug, PartialEq, Eq, Structural)]
pub enum IdentityError {
    MissingAccount,
    MissingKey,
}

/// The account and key material that authorizes this process's
/// transactions; immutable for the process lifetime.
pub struct SigningIdentity {
    pub account_id: String,
    pub secret_key: String,
}

impl SigningIdentity {
    /// Both pieces of identity material are present.
    pub open spec fn wf(&self) -> bool {
        self.account_id@.len() > 0 && self.secret_key@.len() > 0
    }

    /// Forms the identity; fails exactly on empty identity material.
    /// (Key text that does not decode is rejected by the boundary that
    /// parses it at startup — fatal there, never retried.)
    pub fn new(account_id: String, secret_key: String) -> (r: Result<
        SigningIdentity,
        IdentityError,
    >)
        ensures
            r is Ok <==> account_id@.len() > 0 && secret_key@.len() > 0,
            account_id@.len() == 0 ==> r == Err::<SigningIdentity, IdentityError>(
                IdentityError::MissingAccount,
            ),
            account_id@.len() > 0 && secret_key@.len() == 0 ==> r == Err::<
                SigningIdentity,
                IdentityError,
            >(IdentityError::MissingKey),
            r matches Ok(id) ==> id.account_id@ == account_id@ && id.secret_key@
                == secret_key@,
    {
        if account_id.as_str().is_empty() {
            Err(IdentityError::MissingAccount)
        } else if secret_key.as_str().is_empty() {
            Err(IdentityError::MissingKey)
        } else {
            Ok(SigningIdentity { account_id, secret_key })
        }
    }
}

/// An assembled, not yet authorized action payload.
pub struct UnsignedAction {
    pub contract: String,
    pub method: String,
    pub args: ArgObject,
    pub sequence: u64,
    pub reference_hash: Vec<u8>,
}

/// A constructed, authorized, submittable unit of chain mutation. Built
/// exactly once per commit or reveal action; its sequence number is
/// consumed and never reused.
pub struct SignedTransaction {
    /// The account that authorizes the action.
    pub signer: String,
    pub action: UnsignedAction,
}

/// A read-only call: no chain mutation, not subject to nonce sequencing.
pub struct QueryRequest {
    pub contract: String,
    pub method: String,
    pub args: ArgObject,
    /// The account the query is sent as, where the method wants one.
    pub sender: Option<String>,
}

/// Assembles a read-only call.
pub fn build_query(contract: &str, method: &str, args: ArgObject, sender: Option<String>) -> (r:
    QueryRequest)
    ensures
        r.contract@ == contract@,
        r.method@ == method@,
        r.args == args,
        r.sender == sender,
{
    QueryRequest { contract: contract.to_owned(), method: method.to_owned(), args, sender }
}

/// Assembles unsigned actions and stamps them with one signing identity.
pub struct TransactionFactory {
    pub identity: SigningIdentity,
}

impl TransactionFactory {
    pub fn new(identity: SigningIdentity) -> (r: TransactionFactory)
        ensures
            r.identity == identity,
    {
        TransactionFactory { identity }
    }

    /// Pure assembly of an unsigned action payload; no network contact.
    pub fn build(
        &self,
        contract: &str,
        method: &str,
        args: ArgObject,
        sequence: u64,
        reference_hash: Vec<u8>,
    ) -> (r: UnsignedAction)
        ensures
            r.contract@ == contract@,
            r.method@ == method@,
            r.args == args,
            r.sequence == sequence,
            r.reference_hash == reference_hash,
    {
        UnsignedAction {
            contract: contract.to_owned(),
            method: method.to_owned(),
            args,
            sequence,
            reference_hash,
        }
    }

    /// Authorizes an assembled action as this factory's identity.
    pub fn sign(&self, action: UnsignedAction) -> (r: SignedTransaction)
        ensures
            r.signer@ == self.identity.account_id@,
            r.action == action,
    {
        SignedTransaction { signer: self.identity.account_id.clone(), action }
    }
}

/// The allocate-build-sign critical section: under exclusive access to
/// the shared sequencer, consume exactly one sequence number and produce
/// exactly one signed transaction carrying it. Callers hold the
/// sequencer's lock across this whole call, so no concurrent workflow can
/// observe or take the number in between.
pub fn prepare_transaction(
    factory: &TransactionFactory,
    sequencer: &mut NonceSequencer,
    contract: &str,
    method: &str,
    args: ArgObject,
) -> (r: SignedTransaction)
    requires
        old(sequencer).initialized,
        old(sequencer).sequence < u64::MAX,
    ensures
        allocate_step(*old(sequencer), *final(sequencer), r.action.sequence),
        r.action.sequence == old(sequencer).sequence + 1,
        r.action.reference_hash@ == old(sequencer).reference_hash@,
        final(sequencer).reference_hash@ == old(sequencer).reference_hash@,
        final(sequencer).last_refreshed == old(sequencer).last_refreshed,
        r.signer@ == factory.identity.account_id@,
        r.action.contract@ == contract@,
        r.action.method@ == method@,
        r.action.args == args,
{
    let allocation = sequencer.allocate();
    let action = factory.build(contract, method, args, allocation.0, allocation.1);
    factory.sign(action)
}

} // verus!
