use readdir_bench::tally::Tally;
use readdir_bench::timeline::{SortedTally, TimeIndex};

#[test]
fn tally_stops_exactly_at_target() {
    let mut t = Tally::new(3);
    assert!(!t.is_done());
    assert!(!t.observe());
    assert!(!t.observe());
    assert!(t.observe());
    assert_eq!(t.count(), 3);
    assert!(t.observe());
    assert_eq!(t.count(), 3);
    assert_eq!(t.outcome(), Some(3));
}

#[test]
fn tally_reports_nothing_before_target() {
    let mut t = Tally::new(5);
    t.observe();
    assert_eq!(t.outcome(), None);
    assert_eq!(t.target(), 5);
}

#[test]
fn tally_with_zero_target_is_done_at_once() {
    let t = Tally::new(0);
    assert!(t.is_done());
    assert_eq!(t.outcome(), Some(0));
}

#[test]
fn outcome_never_below_target() {
    for target in 0..20u64 {
        let mut t = Tally::new(target);
        let mut returned = None;
        for _ in 0..30 {
            if t.observe() {
                returned = t.outcome();
                break;
            }
        }
        let n = returned.unwrap();
        assert!(n >= target);
    }
}

#[test]
fn enough_files_already_met_in_first_pass() {
    // target 5, seven entries already listed: the first pass suffices
    let mut t = Tally::new(5);
    let listing = 7;
    let mut passes = 0;
    loop {
        passes += 1;
        for _ in 0..listing {
            if t.observe() {
                break;
            }
        }
        if t.is_done() {
            break;
        }
    }
    assert_eq!(passes, 1);
    assert_eq!(t.outcome(), Some(5));
}

#[test]
fn empty_first_pass_lists_again() {
    // target 5, the first listing is empty, later ones see the producer's files
    let mut t = Tally::new(5);
    let listings = [0, 2, 4];
    let mut passes = 0;
    for &n in listings.iter() {
        passes += 1;
        for _ in 0..n {
            if t.observe() {
                break;
            }
        }
        if t.is_done() {
            break;
        }
        if passes == 1 {
            assert!(!t.is_done());
        }
    }
    assert_eq!(passes, 3);
    assert!(t.is_done());
}

#[test]
fn unnamed_events_are_not_counted() {
    let mut t = Tally::new(2);
    assert!(!t.observe_event(false));
    assert!(!t.observe_event(true));
    assert_eq!(t.count(), 1);
    assert!(!t.observe_event(false));
    assert!(t.observe_event(true));
    assert_eq!(t.count(), 2);
}

#[test]
fn batch_counts_named_events_up_to_target() {
    let mut t = Tally::new(4);
    assert!(!t.observe_batch(&vec![]));
    assert_eq!(t.count(), 0);
    assert!(!t.observe_batch(&vec![true, false, true]));
    assert_eq!(t.count(), 2);
    // three named events arrive in one read, one more than needed
    assert!(t.observe_batch(&vec![true, true, false, true]));
    assert_eq!(t.count(), 4);
    assert_eq!(t.outcome(), Some(4));
}

#[test]
fn batch_of_unnamed_events_counts_nothing() {
    let mut t = Tally::new(1);
    assert!(!t.observe_batch(&vec![false, false, false]));
    assert_eq!(t.count(), 0);
}

#[test]
fn time_index_groups_ties_in_order() {
    let mut ix = TimeIndex::new();
    assert!(ix.is_empty());
    ix.insert(30, "c".to_string());
    ix.insert(10, "a".to_string());
    ix.insert(30, "d".to_string());
    ix.insert(20, "b".to_string());
    ix.insert(30, "c".to_string());
    assert_eq!(ix.len(), 3);
    assert_eq!(ix.stamps(), vec![10, 20, 30]);
    let at30: Vec<String> = vec!["c".to_string(), "d".to_string(), "c".to_string()];
    assert_eq!(ix.paths(30), Some(&at30));
    assert_eq!(ix.paths(10), Some(&vec!["a".to_string()]));
    assert_eq!(ix.paths(15), None);
}

#[test]
fn time_index_stamps_strictly_ascend() {
    let mut ix = TimeIndex::new();
    let stamps: [u128; 8] = [5, 3, 9, 3, 1, u128::MAX, 0, 9];
    for (i, s) in stamps.iter().enumerate() {
        ix.insert(*s, format!("file{}.txt", i + 1));
    }
    let out = ix.stamps();
    assert_eq!(out, vec![0, 1, 3, 5, 9, u128::MAX]);
    for w in out.windows(2) {
        assert!(w[0] < w[1]);
    }
    assert_eq!(ix.paths(3).unwrap().len(), 2);
    assert_eq!(ix.paths(9).unwrap().len(), 2);
}

#[test]
fn sorted_strategy_skips_entries_without_time() {
    let mut st = SortedTally::new(2);
    assert!(!st.observe("dir/file1.txt".to_string(), None));
    assert_eq!(st.tally().count(), 0);
    assert!(st.index().is_empty());
    assert!(!st.observe("dir/file2.txt".to_string(), Some(7)));
    assert!(st.observe("dir/file3.txt".to_string(), Some(7)));
    assert_eq!(st.tally().outcome(), Some(2));
    let at7: Vec<String> = vec!["dir/file2.txt".to_string(), "dir/file3.txt".to_string()];
    assert_eq!(st.index().paths(7), Some(&at7));
    // once done, further entries change nothing
    assert!(st.observe("dir/file4.txt".to_string(), Some(8)));
    assert_eq!(st.index().len(), 1);
    assert_eq!(st.tally().count(), 2);
}
