use earthmind_client::nonce::{NonceSequencer, NONCE_STALE_AFTER_SECS};

#[test]
fn allocations_are_distinct_increasing_and_gapfree() {
    let mut sequencer = NonceSequencer::new();
    sequencer.refresh(5, vec![7u8; 32], 100);
    let a = sequencer.allocate();
    let b = sequencer.allocate();
    let c = sequencer.allocate();
    assert_eq!(a.0, 6);
    assert_eq!(b.0, 7);
    assert_eq!(c.0, 8);
    assert!(a.0 < b.0 && b.0 < c.0);
    assert_eq!(a.1, vec![7u8; 32]);
    assert_eq!(c.1, vec![7u8; 32]);
}

#[test]
fn refresh_never_moves_the_counter_backwards() {
    let mut sequencer = NonceSequencer::new();
    sequencer.refresh(10, vec![1u8], 0);
    let first = sequencer.allocate();
    assert_eq!(first.0, 11);
    sequencer.refresh(3, vec![2u8], 5);
    let second = sequencer.allocate();
    assert_eq!(second.0, 12);
    assert_eq!(second.1, vec![2u8]);
}

#[test]
fn a_lagging_chain_view_cannot_reissue_a_number() {
    let mut sequencer = NonceSequencer::new();
    sequencer.refresh(100, vec![], 0);
    let issued = sequencer.allocate().0;
    sequencer.refresh(issued - 5, vec![], 1);
    assert_eq!(sequencer.allocate().0, issued + 1);
}

#[test]
fn refresh_is_needed_before_first_use_when_stale_and_when_exhausted() {
    let mut sequencer = NonceSequencer::new();
    assert!(sequencer.needs_refresh(0));
    sequencer.refresh(1, vec![], 100);
    assert!(!sequencer.needs_refresh(100));
    assert!(!sequencer.needs_refresh(100 + NONCE_STALE_AFTER_SECS));
    assert!(sequencer.needs_refresh(101 + NONCE_STALE_AFTER_SECS));
    sequencer.refresh(u64::MAX, vec![], 100);
    assert!(sequencer.needs_refresh(100));
}
