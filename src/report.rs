//! The lines the benchmark prints, one per strategy.
use vstd::prelude::*;
use crate::decimal::{decimal, digit_char, lemma_decimal_digits, push_decimal};

verus! {

/// The five strategies, in the order they run.
#[derive(Clone, Copy, Debug, PartialEq, Eq, Structural)]
pub enum Strategy {
    /// Repeated listing of the directory.
    ReadDir,
    /// Repeated listing, filing each entry by its modification time.
    ReadDirSorted,
    /// Repeated listing on a single-threaded event loop.
    ReadDirAsync,
    /// Blocking reads of change notifications.
    Watch,
    /// Change notifications read on a single-threaded event loop.
    WatchAsync,
}

/// The name a strategy is reported under.
pub open spec fn strategy_name(s: Strategy) -> Seq<char> {
    match s {
        Strategy::ReadDir => "read_dir"@,
        Strategy::ReadDirSorted => "read_dir_sorted"@,
        Strategy::ReadDirAsync => "readdir tokio"@,
        Strategy::Watch => "inotify"@,
        Strategy::WatchAsync => "inotify async"@,
    }
}

/// The strategies in the order they run and are reported.
pub open spec fn run_order() -> Seq<Strategy> {
    seq![
        Strategy::ReadDir,
        Strategy::ReadDirSorted,
        Strategy::ReadDirAsync,
        Strategy::Watch,
        Strategy::WatchAsync,
    ]
}

/// Milliseconds below a thousand as exactly three digits.
pub open spec fn three_digits(millis: nat) -> Seq<char> {
    seq![digit_char(millis / 100), digit_char((millis / 10) % 10), digit_char(millis % 10)]
}

/// The line for a strategy named `name` that took `secs` seconds and
/// `millis` milliseconds: `<name> duration: <secs>.<millis>s`.
pub open spec fn line_of(name: Seq<char>, secs: nat, millis: nat) -> Seq<char> {
    name + " duration: "@ + decimal(secs) + "."@ + three_digits(millis) + "s"@
}

/// The report for five durations, given as seconds and milliseconds, in
/// the order the strategies run.
pub open spec fn report_of(durations: Seq<(u64, u64)>) -> Seq<Seq<char>> {
    Seq::new(
        5,
        |i: int|
            line_of(
                strategy_name(run_order()[i]),
                durations[i].0 as nat,
                durations[i].1 as nat,
            ),
    )
}

/// Whether every duration has its milliseconds below a thousand.
pub open spec fn valid_durations(durations: Seq<(u64, u64)>) -> bool {
    &&& durations.len() == 5
    &&& forall|i: int| 0 <= i < 5 ==> #[trigger] durations[i].1 < 1000
}

pub open spec fn is_digit(c: char) -> bool {
    '0' <= c <= '9'
}

/// Whether `line` reads `<name> duration: <digits>.<three digits>s`.
pub open spec fn in_format(line: Seq<char>, name: Seq<char>) -> bool {
    let head = name + " duration: "@;
    let n = line.len();
    &&& n >= head.len() + 6
    &&& line.subrange(0, head.len() as int) == head
    &&& forall|i: int| head.len() <= i < n - 5 ==> is_digit(#[trigger] line[i])
    &&& line[n - 5] == '.'
    &&& forall|i: int| n - 5 < i < n - 1 ==> is_digit(#[trigger] line[i])
    &&& line[n - 1] == 's'
}

proof fn lemma_line_in_format(name: Seq<char>, secs: nat, millis: nat)
    ensures
        in_format(line_of(name, secs, millis), name),
{
    lemma_decimal_digits(secs);
    reveal_strlit(" duration: ");
    reveal_strlit(".");
    reveal_strlit("s");
    let head = name + " duration: "@;
    let line = line_of(name, secs, millis);
    let d = decimal(secs);
    assert(line == head + d + "."@ + three_digits(millis) + "s"@);
    assert(line.len() == head.len() + d.len() + 5);
    assert(line.subrange(0, head.len() as int) =~= head);
    assert forall|i: int| head.len() <= i < line.len() - 5 implies is_digit(#[trigger] line[i]) by {
        assert(line[i] == d[i - head.len()]);
    }
}

/// Every run prints the same report shape, whatever the durations: five
/// lines, the i-th naming the i-th strategy to run, each reading
/// `<name> duration: <seconds>.<three digits>s`.
pub proof fn lemma_report_same_format(a: Seq<(u64, u64)>, b: Seq<(u64, u64)>)
    requires
        valid_durations(a),
        valid_durations(b),
    ensures
        report_of(a).len() == 5,
        report_of(b).len() == 5,
        forall|i: int|
            0 <= i < 5 ==> in_format(#[trigger] report_of(a)[i], strategy_name(run_order()[i]))
                && in_format(report_of(b)[i], strategy_name(run_order()[i])),
{
    assert forall|i: int|
        0 <= i < 5 implies in_format(#[trigger] report_of(a)[i], strategy_name(run_order()[i]))
        && in_format(report_of(b)[i], strategy_name(run_order()[i])) by {
        lemma_line_in_format(strategy_name(run_order()[i]), a[i].0 as nat, a[i].1 as nat);
        lemma_line_in_format(strategy_name(run_order()[i]), b[i].0 as nat, b[i].1 as nat);
    }
}

impl Strategy {
    /// The name the strategy is reported under.
    pub fn name(&self) -> (r: &'static str)
        ensures
            r@ == strategy_name(*self),
    {
        proof {
            reveal_strlit("read_dir");
            reveal_strlit("read_dir_sorted");
            reveal_strlit("readdir tokio");
            reveal_strlit("inotify");
            reveal_strlit("inotify async");
        }
        match self {
            Strategy::ReadDir => "read_dir",
            Strategy::ReadDirSorted => "read_dir_sorted",
            Strategy::ReadDirAsync => "readdir tokio",
            Strategy::Watch => "inotify",
            Strategy::WatchAsync => "inotify async",
        }
    }

    /// All strategies, in the order they run.
    pub fn all() -> (r: Vec<Strategy>)
        ensures
            r@ == run_order(),
    {
        let r = vec![
            Strategy::ReadDir,
            Strategy::ReadDirSorted,
            Strategy::ReadDirAsync,
            Strategy::Watch,
            Strategy::WatchAsync,
        ];
        assert(r@ =~= run_order());
        r
    }
}

/// The line reporting that strategy `s` took `secs` seconds and `millis`
/// milliseconds.
pub fn report_line(s: Strategy, secs: u64, millis: u64) -> (r: String)
    requires
        millis < 1000,
    ensures
        r@ == line_of(strategy_name(s), secs as nat, millis as nat),
{
    proof {
        reveal_strlit(" duration: ");
        reveal_strlit(".");
        reveal_strlit("s");
    }
    let mut line = String::from_str(s.name());
    line.append(" duration: ");
    push_decimal(&mut line, secs);
    line.append(".");
    push_decimal(&mut line, millis / 100);
    push_decimal(&mut line, (millis / 10) % 10);
    push_decimal(&mut line, millis % 10);
    line.append("s");
    assert(line@ =~= line_of(strategy_name(s), secs as nat, millis as nat));
    line
}

/// The five lines of the report, for the durations of the strategies in
/// the order they ran.
pub fn report(durations: &Vec<(u64, u64)>) -> (r: Vec<String>)
    requires
        valid_durations(durations@),
    ensures
        r@.len() == 5,
        forall|i: int| 0 <= i < 5 ==> #[trigger] r@[i]@ == report_of(durations@)[i],
{
    let order = Strategy::all();
    let mut r: Vec<String> = Vec::new();
    let mut i: usize = 0;
    while i < 5
        invariant
            i <= 5,
            order@ == run_order(),
            valid_durations(durations@),
            r@.len() == i,
            forall|j: int| 0 <= j < i ==> #[trigger] r@[j]@ == report_of(durations@)[j],
        decreases 5 - i,
    {
        let (secs, millis) = durations[i];
        r.push(report_line(order[i], secs, millis));
        i = i + 1;
    }
    r
}

} // verus!
