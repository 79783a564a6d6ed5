//! Execution outcomes of dispatched transactions, and log extraction.
//!
//! The dispatcher waits for finality and hands back a terminal outcome.
//! Log extraction is a pure derived view of that outcome: the
//! transaction's own log lines first, then each downstream receipt's
//! lines in receipt order. An outcome shape extraction does not recognize
//! yields an empty log list rather than an error.

use vstd::prelude::*;

verus! {

/// Ordered log lines of one downstream receipt.
pub struct ReceiptOutcome {
    pub logs: Vec<String>,
}

/// The terminal result of a dispatched transaction, as this client reads
/// it.
pub enum ExecutionOutcome {
    /// The finalized shape extraction understands: the success flag, the
    /// transaction's own logs, and the downstream receipts in order.
    Finalized { success: bool, transaction_logs: Vec<String>, receipts: Vec<ReceiptOutcome> },
    /// A finalized response in a shape extraction does not handle.
    UnrecognizedShape,
    /// A response with no final outcome attached.
    Absent,
}

/// The log lines of each receipt, in receipt order.
pub open spec fn receipts_view(rs: Seq<ReceiptOutcome>) -> Seq<Seq<Seq<char>>> {
    Seq::new(rs.len(), |i: int| rs[i].logs.deep_view())
}

/// Receipt log groups flattened in order: the first receipt's lines
/// first, each group kept in its own order.
pub open spec fn flat_logs(rs: Seq<Seq<Seq<char>>>) -> Seq<Seq<char>>
    decreases rs.len(),
{
    if rs.len() == 0 {
        Seq::empty()
    } else {
        flat_logs(rs.drop_last()) + rs.last()
    }
}

/// Everything log extraction yields for an outcome: own logs, then every
/// receipt's logs in receipt order; nothing for a shape it does not
/// recognize.
pub open spec fn spec_extracted_logs(o: ExecutionOutcome) -> Seq<Seq<char>> {
    match o {
        ExecutionOutcome::Finalized { transaction_logs, receipts, .. } => {
            transaction_logs.deep_view() + flat_logs(receipts_view(receipts@))
        },
        _ => Seq::empty(),
    }
}

/// True when the chain finalized the transaction but reports that it
/// failed on-chain.
pub open spec fn spec_onchain_failure(o: ExecutionOutcome) -> bool {
    match o {
        ExecutionOutcome::Finalized { success, .. } => !success,
        _ => false,
    }
}

/// Appends copies of every line of `src` to `dst`, in order.
fn append_logs(dst: &mut Vec<String>, src: &Vec<String>)
    ensures
        final(dst).deep_view() == old(dst).deep_view() + src.deep_view(),
{
    let mut i: usize = 0;
    while i < src.len()
        invariant
            i <= src@.len(),
            dst.deep_view() =~= old(dst).deep_view() + src.deep_view().subrange(0, i as int),
        decreases src@.len() - i,
    {
        let ghost oldv = dst@;
        let ghost olddeep = dst.deep_view();
        let line: String = src[i].clone();
        dst.push(line);
        proof {
            assert(dst@ == oldv.push(src@[i as int]));
            assert forall|t: int| 0 <= t < dst@.len() implies dst.deep_view()[t] == olddeep.push(
                src@[i as int]@,
            )[t] by {
                if t < oldv.len() {
                    assert(dst@[t] == oldv[t]);
                } else {
                    assert(dst@[t] == src@[i as int]);
                }
            }
            assert(dst.deep_view() =~= olddeep.push(src@[i as int]@));
            assert(src.deep_view()[i as int] == src@[i as int]@);
            assert(dst.deep_view() =~= old(dst).deep_view() + src.deep_view().subrange(
                0,
                i + 1,
            ));
        }
        i = i + 1;
    }
    proof {
        assert(src.deep_view().subrange(0, src@.len() as int) =~= src.deep_view());
    }
}

/// Extracts the ordered log lines of an execution outcome: the
/// transaction's own lines, then each receipt's lines in receipt order.
pub fn extract_logs(outcome: &ExecutionOutcome) -> (r: Vec<String>)
    ensures
        r.deep_view() == spec_extracted_logs(*outcome),
{
    let mut logs: Vec<String> = Vec::new();
    match outcome {
        ExecutionOutcome::Finalized { transaction_logs, receipts, .. } => {
            proof {
                assert(logs.deep_view() =~= Seq::<Seq<char>>::empty());
            }
            append_logs(&mut logs, transaction_logs);
            proof {
                assert(Seq::<Seq<char>>::empty() + transaction_logs.deep_view()
                    =~= transaction_logs.deep_view());
            }
            let ghost rv = receipts_view(receipts@);
            let mut k: usize = 0;
            while k < receipts.len()
                invariant
                    k <= receipts@.len(),
                    rv == receipts_view(receipts@),
                    logs.deep_view() =~= transaction_logs.deep_view() + flat_logs(
                        rv.subrange(0, k as int),
                    ),
                decreases receipts@.len() - k,
            {
                let rec = &receipts[k];
                append_logs(&mut logs, &rec.logs);
                proof {
                    assert(rv.subrange(0, k as int + 1).drop_last() =~= rv.subrange(0, k as int));
                    assert(rv.subrange(0, k as int + 1).last() == rv[k as int]);
                    assert(rv[k as int] == receipts@[k as int].logs.deep_view());
                    assert(logs.deep_view() =~= transaction_logs.deep_view() + flat_logs(
                        rv.subrange(0, k as int + 1),
                    ));
                }
                k = k + 1;
            }
            proof {
                assert(rv.subrange(0, receipts@.len() as int) =~= rv);
                assert(logs.deep_view() =~= spec_extracted_logs(*outcome));
            }
        },
        _ => {
            proof {
                assert(logs.deep_view() =~= Seq::<Seq<char>>::empty());
            }
        },
    }
    logs
}

/// Why dispatching a transaction failed.
#[derive(Copy, Clone, Debug, PartialEq, Eq, Structural)]
pub enum DispatchError {
    /// Transport or timeout failure before a terminal outcome was
    /// observed; raised by the dispatch boundary, never by this function.
    Submission,
    /// The chain accepted and finalized the transaction, but it failed
    /// on-chain.
    Execution,
}

/// The dispatcher's reading of a terminal outcome: an on-chain failure is
/// an `Execution` error, distinct from a transport failure; everything
/// else yields the extracted logs.
pub fn finalize_outcome(outcome: &ExecutionOutcome) -> (r: Result<Vec<String>, DispatchError>)
    ensures
        r is Err <==> spec_onchain_failure(*outcome),
        r is Err ==> r == Err::<Vec<String>, DispatchError>(DispatchError::Execution),
        r matches Ok(l) ==> l.deep_view() == spec_extracted_logs(*outcome),
{
    let failed = match outcome {
        ExecutionOutcome::Finalized { success, .. } => !*success,
        _ => false,
    };
    if failed {
        Err(DispatchError::Execution)
    } else {
        Ok(extract_logs(outcome))
    }
}

} // verus!
