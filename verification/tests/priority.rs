use punktfunk_webos::priority::{boost_hot_threads, Tally, VendorScan};

const MS: u64 = 1_000_000;

#[test]
fn hot_thread_outcomes_are_counted() {
    assert_eq!(boost_hot_threads(&vec![true, false, true]), Tally { boosted: 2, failed: 1 });
    assert_eq!(boost_hot_threads(&Vec::new()), Tally { boosted: 0, failed: 0 });
}

#[test]
fn candidates_are_unseen_thread_ids() {
    let mut scan = VendorScan::new(0);
    assert_eq!(scan.candidate("1234"), Some(1234));
    assert_eq!(scan.candidate("self"), None);
    assert_eq!(scan.candidate(""), None);
    assert!(scan.claim(1234, "video-src:src\n"));
    assert_eq!(scan.candidate("1234"), None);
}

#[test]
fn only_vendor_threads_are_claimed_and_only_once() {
    let mut scan = VendorScan::new(0);
    assert!(!scan.claim(1, "main\n"));
    assert!(!scan.claim(1, "src\n"));
    assert!(scan.claim(1, "lxvideodec1:src\n"));
    assert!(!scan.claim(1, "lxvideodec1:src\n"));
    assert!(scan.claim(2, "  x:src  "));
    assert_eq!((scan.found, scan.seen.len()), (2, 2));
}

#[test]
fn the_scan_ends_after_a_quiet_period() {
    let mut scan = VendorScan::new(0);
    assert!(!scan.end_pass(4_999 * MS));
    assert!(scan.claim(7, "a:src"));
    assert!(!scan.end_pass(1_000 * MS));
    assert_eq!((scan.found, scan.last_found_ns), (0, 1_000 * MS));
    assert!(!scan.end_pass(1_499 * MS));
    assert!(scan.end_pass(1_500 * MS));
}

#[test]
fn the_scan_ends_when_its_time_is_over() {
    let mut scan = VendorScan::new(100 * MS);
    assert!(!scan.end_pass(5_099 * MS));
    assert!(scan.end_pass(5_100 * MS));
    // Even while threads are still being found.
    let mut scan = VendorScan::new(0);
    scan.claim(1, "a:src");
    assert!(scan.end_pass(5_000 * MS));
}

#[test]
fn the_summary_counts_what_was_boosted() {
    let mut scan = VendorScan::new(0);
    for tid in 1..=3 {
        assert!(scan.claim(tid, "a:src"));
    }
    scan.refused();
    assert_eq!(scan.summary(), Tally { boosted: 2, failed: 1 });
}

#[test]
fn a_pass_misses_no_vendor_thread_and_a_second_boosts_none() {
    let listing = [(1, "main"), (2, "a:src"), (3, "b:src"), (2, "a:src"), (4, "src"), (5, "c:src")];
    let mut scan = VendorScan::new(0);
    let boosted: Vec<i32> = listing.into_iter().filter(|(tid, comm)| scan.claim(*tid, comm)).map(|(tid, _)| tid).collect();
    assert_eq!(boosted, [2, 3, 5]);
    assert_eq!(scan.seen.len(), 3);
    assert!(!listing.into_iter().rev().any(|(tid, comm)| scan.claim(tid, comm)));
}
