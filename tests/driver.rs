use readdir_bench::producer::{file_name, Action, Producer, Signal, FILE_CONTENT};
use readdir_bench::report::{report, report_line, Strategy};
use readdir_bench::startup::{check_fresh, directory_argument, UsageError};

#[test]
fn file_names_count_from_one() {
    assert_eq!(file_name(1), "file1.txt");
    assert_eq!(file_name(10), "file10.txt");
    assert_eq!(file_name(0), "file0.txt");
    assert_eq!(file_name(u64::MAX), format!("file{}.txt", u64::MAX));
    assert_eq!(FILE_CONTENT, "Hello, world!");
}

#[test]
fn producer_creates_until_signalled() {
    let mut p = Producer::new();
    assert_eq!(p.created(), 0);
    assert_eq!(p.step(Signal::Absent), Action::Create(1));
    assert_eq!(p.step(Signal::Absent), Action::Create(2));
    assert_eq!(p.created(), 2);
    assert!(!p.is_stopped());
    assert_eq!(p.step(Signal::Sent), Action::Stop);
    assert!(p.is_stopped());
    assert_eq!(p.created(), 2);
}

#[test]
fn producer_stops_when_sender_is_gone() {
    let mut p = Producer::new();
    assert_eq!(p.step(Signal::Disconnected), Action::Stop);
    assert_eq!(p.created(), 0);
    assert!(p.is_stopped());
}

#[test]
fn producer_count_never_falls() {
    let mut p = Producer::new();
    let mut last = p.created();
    let signals = [Signal::Absent, Signal::Absent, Signal::Absent, Signal::Sent];
    for s in signals.iter() {
        let before = p.created();
        let action = p.step(*s);
        assert!(p.created() >= last);
        if *s == Signal::Absent {
            assert_eq!(p.created(), before + 1);
            assert_eq!(action, Action::Create(before + 1));
        }
        last = p.created();
    }
    assert_eq!(last, 3);
}

#[test]
fn producer_creates_nothing_after_signal_seen() {
    let mut p = Producer::new();
    let mut created = Vec::new();
    let mut sent = false;
    for i in 0..10 {
        if i == 4 {
            sent = true;
        }
        let signal = if sent { Signal::Sent } else { Signal::Absent };
        match p.step(signal) {
            Action::Create(id) => created.push(id),
            Action::Stop => break,
        }
    }
    assert_eq!(created, vec![1, 2, 3, 4]);
    assert!(p.is_stopped());
    assert!(p.has_numbers_left());
}

#[test]
fn report_line_format() {
    assert_eq!(report_line(Strategy::ReadDir, 2, 45), "read_dir duration: 2.045s");
    assert_eq!(report_line(Strategy::WatchAsync, 0, 7), "inotify async duration: 0.007s");
    assert_eq!(report_line(Strategy::ReadDirSorted, 13, 999), "read_dir_sorted duration: 13.999s");
    assert_eq!(report_line(Strategy::Watch, 100, 0), "inotify duration: 100.000s");
}

#[test]
fn report_has_five_lines_in_run_order() {
    let a = report(&vec![(1, 5), (2, 50), (3, 500), (4, 0), (5, 999)]);
    assert_eq!(
        a,
        vec![
            "read_dir duration: 1.005s",
            "read_dir_sorted duration: 2.050s",
            "readdir tokio duration: 3.500s",
            "inotify duration: 4.000s",
            "inotify async duration: 5.999s",
        ]
    );
    let b = report(&vec![(0, 1), (0, 2), (0, 3), (0, 4), (0, 5)]);
    assert_eq!(b.len(), a.len());
    for (x, y) in a.iter().zip(b.iter()) {
        let px = x.split(':').next().unwrap();
        let py = y.split(':').next().unwrap();
        assert_eq!(px, py);
        assert!(x.ends_with('s') && y.ends_with('s'));
    }
    let names: Vec<&str> = Strategy::all().iter().map(|s| s.name()).collect();
    assert_eq!(names, vec!["read_dir", "read_dir_sorted", "readdir tokio", "inotify", "inotify async"]);
}

#[test]
fn one_argument_required() {
    assert_eq!(directory_argument(vec![]), Err(UsageError::ArgumentCount));
    assert_eq!(
        directory_argument(vec!["a".to_string(), "b".to_string()]),
        Err(UsageError::ArgumentCount)
    );
    assert_eq!(directory_argument(vec!["/tmp/bench".to_string()]), Ok("/tmp/bench".to_string()));
}

#[test]
fn existing_directory_is_refused() {
    assert_eq!(check_fresh(true), Err(UsageError::PathExists));
    assert_eq!(check_fresh(false), Ok(()));
}
