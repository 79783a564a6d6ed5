use earthmind_client::outcome::{
    extract_logs, finalize_outcome, DispatchError, ExecutionOutcome, ReceiptOutcome,
};

fn lines(items: &[&str]) -> Vec<String> {
    items.iter().map(|s| s.to_string()).collect()
}

#[test]
fn log_extraction_preserves_order_across_receipts() {
    let outcome = ExecutionOutcome::Finalized {
        success: true,
        transaction_logs: lines(&["a", "b"]),
        receipts: vec![
            ReceiptOutcome { logs: lines(&["c"]) },
            ReceiptOutcome { logs: lines(&["d", "e"]) },
        ],
    };
    assert_eq!(extract_logs(&outcome), lines(&["a", "b", "c", "d", "e"]));
}

#[test]
fn log_extraction_of_empty_parts() {
    let outcome = ExecutionOutcome::Finalized {
        success: true,
        transaction_logs: vec![],
        receipts: vec![ReceiptOutcome { logs: vec![] }, ReceiptOutcome { logs: lines(&["x"]) }],
    };
    assert_eq!(extract_logs(&outcome), lines(&["x"]));
}

#[test]
fn unrecognized_shapes_yield_no_logs_rather_than_failing() {
    assert_eq!(extract_logs(&ExecutionOutcome::UnrecognizedShape), Vec::<String>::new());
    assert_eq!(extract_logs(&ExecutionOutcome::Absent), Vec::<String>::new());
}

#[test]
fn onchain_failure_is_an_execution_error() {
    let failed = ExecutionOutcome::Finalized {
        success: false,
        transaction_logs: lines(&["boom"]),
        receipts: vec![],
    };
    assert_eq!(finalize_outcome(&failed), Err(DispatchError::Execution));
}

#[test]
fn successful_outcome_yields_its_logs() {
    let ok = ExecutionOutcome::Finalized {
        success: true,
        transaction_logs: lines(&["did it"]),
        receipts: vec![],
    };
    assert_eq!(finalize_outcome(&ok), Ok(lines(&["did it"])));
    assert_eq!(finalize_outcome(&ExecutionOutcome::Absent), Ok(vec![]));
}
