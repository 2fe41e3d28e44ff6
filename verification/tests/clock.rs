use grokipedia::clock::{now_secs, timestamp_from_elapsed};

#[test]
fn clock_reads_after_2020() {
    let t = now_secs();
    assert!(t > 1_577_836_800);
}

#[test]
fn clock_does_not_go_backwards_between_reads() {
    let a = now_secs();
    let b = now_secs();
    assert!(b >= a);
}

#[test]
fn timestamps_from_elapsed_time() {
    assert_eq!(timestamp_from_elapsed(None), 0);
    assert_eq!(timestamp_from_elapsed(Some(0)), 0);
    assert_eq!(timestamp_from_elapsed(Some(1_700_000_000)), 1_700_000_000);
    assert_eq!(timestamp_from_elapsed(Some(i64::MAX as u64)), i64::MAX);
    assert_eq!(timestamp_from_elapsed(Some(u64::MAX)), -1);
    assert_eq!(timestamp_from_elapsed(Some(1u64 << 63)), i64::MIN);
}
