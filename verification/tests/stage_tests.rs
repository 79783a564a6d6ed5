use earthmind_client::stage::{interpret_stage, parse_stage, stage_is_later, strip_quotes, Stage};

#[test]
fn quoted_and_bare_stage_normalize_equal() {
    let wrapped = strip_quotes("\"Ended\"");
    let bare = strip_quotes("Ended");
    assert_eq!(wrapped, bare);
    assert_eq!(wrapped, "Ended");
}

#[test]
fn normalization_is_idempotent_on_concrete_results() {
    let once = strip_quotes("\"\"CommitMiners\"\"");
    let twice = strip_quotes(&once);
    assert_eq!(once, twice);
    assert_eq!(once, "CommitMiners");
}

#[test]
fn normalization_of_degenerate_strings() {
    assert_eq!(strip_quotes(""), "");
    assert_eq!(strip_quotes("\"\"\""), "");
    assert_eq!(strip_quotes("\"a\"b\""), "a\"b");
}

#[test]
fn every_known_stage_parses() {
    assert_eq!(interpret_stage("\"NonStarted\""), Some(Stage::NonStarted));
    assert_eq!(interpret_stage("\"CommitMiners\""), Some(Stage::CommitMiners));
    assert_eq!(interpret_stage("RevealMiners"), Some(Stage::RevealMiners));
    assert_eq!(interpret_stage("\"CommitValidators\""), Some(Stage::CommitValidators));
    assert_eq!(interpret_stage("RevealValidators"), Some(Stage::RevealValidators));
    assert_eq!(interpret_stage("\"Ended\""), Some(Stage::Ended));
}

#[test]
fn unrecognized_stage_is_distinct_not_defaulted() {
    assert_eq!(interpret_stage("\"Commit\""), None);
    assert_eq!(interpret_stage("commitminers"), None);
    assert_eq!(interpret_stage(""), None);
    assert_eq!(parse_stage(&"Ended ".to_string()), None);
}

#[test]
fn stage_order_is_chronological() {
    assert!(stage_is_later(Stage::RevealMiners, Stage::CommitMiners));
    assert!(stage_is_later(Stage::Ended, Stage::RevealValidators));
    assert!(!stage_is_later(Stage::CommitMiners, Stage::CommitMiners));
    assert!(!stage_is_later(Stage::NonStarted, Stage::CommitMiners));
}
