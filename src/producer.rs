//! The producer of files.
//!
//! The producer creates `file1.txt`, `file2.txt`, ... one per step, each
//! holding the same text, and checks the stop signal before each creation.
//! `Producer` decides each step; the caller performs the creation it asks for.
use vstd::prelude::*;
use crate::decimal::{decimal, push_decimal};

verus! {

/// What one check of the stop signal saw.
#[derive(Clone, Copy, Debug, PartialEq, Eq, Structural)]
pub enum Signal {
    /// Nothing was sent yet.
    Absent,
    /// The stop message arrived.
    Sent,
    /// The sending side is gone, which counts as a stop.
    Disconnected,
}

/// What the producer does after a check.
#[derive(Clone, Copy, Debug, PartialEq, Eq, Structural)]
pub enum Action {
    /// Create the file with this number.
    Create(u64),
    /// Leave the loop.
    Stop,
}

/// The text written into every file.
pub const FILE_CONTENT: &'static str = "Hello, world!";

/// The name of the file with number `id`: `file<id>.txt`.
pub open spec fn file_name_of(id: nat) -> Seq<char> {
    seq!['f', 'i', 'l', 'e'] + decimal(id) + seq!['.', 't', 'x', 't']
}

/// The name of the file with number `id`.
pub fn file_name(id: u64) -> (r: String)
    ensures
        r@ == file_name_of(id as nat),
{
    proof {
        reveal_strlit("file");
        reveal_strlit(".txt");
    }
    let mut s = String::from_str("file");
    push_decimal(&mut s, id);
    s.append(".txt");
    assert(s@ =~= file_name_of(id as nat));
    s
}

/// The producer as a value: the number of the next file, and whether it
/// has stopped.
pub struct ProducerView {
    pub next: nat,
    pub stopped: bool,
}

/// The producer before its first step.
pub open spec fn start() -> ProducerView {
    ProducerView { next: 1, stopped: false }
}

/// The number of files the producer has asked for.
pub open spec fn created(p: ProducerView) -> nat {
    (p.next - 1) as nat
}

/// The producer after one step on `signal`; once stopped it stays so.
pub open spec fn after(p: ProducerView, signal: Signal) -> ProducerView {
    if p.stopped {
        p
    } else if signal is Absent {
        ProducerView { next: p.next + 1, stopped: false }
    } else {
        ProducerView { next: p.next, stopped: true }
    }
}

/// The producer after a step on each of `signals` in turn, from the start.
pub open spec fn run(signals: Seq<Signal>) -> ProducerView
    decreases signals.len(),
{
    if signals.len() == 0 {
        start()
    } else {
        after(run(signals.drop_last()), signals.last())
    }
}

proof fn lemma_run_step(signals: Seq<Signal>, n: int)
    requires
        0 <= n < signals.len(),
    ensures
        run(signals.take(n + 1)) == after(run(signals.take(n)), signals[n]),
{
    assert(signals.take(n + 1).drop_last() =~= signals.take(n));
}

proof fn lemma_run_numbered(signals: Seq<Signal>, i: int)
    requires
        0 <= i <= signals.len(),
    ensures
        run(signals.take(i)).next >= 1,
    decreases i,
{
    if i == 0 {
        assert(signals.take(0) =~= Seq::<Signal>::empty());
    } else {
        lemma_run_numbered(signals, i - 1);
        lemma_run_step(signals, i - 1);
    }
}

/// The count of created files never falls as the producer runs, and every
/// step before the producer stops creates one more file: across the first
/// `i` and the first `j` steps, for `i <= j`, the count grows, and a step that
/// sees no signal while the producer runs raises it by exactly one.
pub proof fn lemma_created_grows(signals: Seq<Signal>, i: int, j: int)
    requires
        0 <= i <= j <= signals.len(),
    ensures
        created(run(signals.take(i))) <= created(run(signals.take(j))),
        i < signals.len() && !run(signals.take(i)).stopped && (signals[i] is Absent) ==> created(
            run(signals.take(i + 1)),
        ) == created(run(signals.take(i))) + 1,
    decreases j - i,
{
    lemma_run_numbered(signals, i);
    if i < signals.len() {
        lemma_run_step(signals, i);
    }
    if i < j {
        lemma_created_grows(signals, i + 1, j);
    }
}

/// The producer stops at the first check after the stop signal is sent, and
/// creates no file after that check: where the signal is absent from the
/// first `sent` checks and present in every later one, the producer has
/// created one file per step up to `sent`, and from step `sent + 1` on it
/// has stopped with exactly `sent` files.
pub proof fn lemma_stops_after_signal(signals: Seq<Signal>, sent: int, n: int)
    requires
        0 <= sent,
        0 <= n <= signals.len(),
        forall|i: int| 0 <= i < sent && i < signals.len() ==> (signals[i] is Absent),
        forall|i: int| sent <= i < signals.len() ==> !(signals[i] is Absent),
    ensures
        n <= sent ==> run(signals.take(n)) == (ProducerView { next: (n + 1) as nat, stopped: false }),
        n > sent ==> run(signals.take(n)) == (ProducerView {
            next: (sent + 1) as nat,
            stopped: true,
        }),
    decreases n,
{
    if n == 0 {
        assert(signals.take(0) =~= Seq::<Signal>::empty());
    } else {
        lemma_stops_after_signal(signals, sent, n - 1);
        lemma_run_step(signals, n - 1);
    }
}

/// The decisions of the producer loop.
pub struct Producer {
    next: u64,
    stopped: bool,
}

impl View for Producer {
    type V = ProducerView;

    closed spec fn view(&self) -> ProducerView {
        ProducerView { next: self.next as nat, stopped: self.stopped }
    }
}

impl Producer {
    /// A producer whose first file is number 1.
    pub fn new() -> (r: Self)
        ensures
            r@ == start(),
    {
        Producer { next: 1, stopped: false }
    }

    /// The number of files asked for so far.
    pub fn created(&self) -> (r: u64)
        requires
            self@.next >= 1,
        ensures
            r == created(self@),
    {
        self.next - 1
    }

    pub fn is_stopped(&self) -> (r: bool)
        ensures
            r == self@.stopped,
    {
        self.stopped
    }

    /// Whether another file number is left to hand out.
    pub fn has_numbers_left(&self) -> (r: bool)
        ensures
            r == (self@.next < u64::MAX),
    {
        self.next < u64::MAX
    }

    /// One step of the loop on what the check of the stop signal saw: with
    /// no signal, the next file is to be created; with a stop message or a
    /// gone sender, the loop ends.
    pub fn step(&mut self, signal: Signal) -> (action: Action)
        requires
            !old(self)@.stopped,
            1 <= old(self)@.next < u64::MAX,
        ensures
            final(self)@ == after(old(self)@, signal),
            action == (if signal is Absent {
                Action::Create(old(self)@.next as u64)
            } else {
                Action::Stop
            }),
            created(final(self)@) >= created(old(self)@),
            signal is Absent ==> created(final(self)@) == created(old(self)@) + 1,
    {
        match signal {
            Signal::Absent => {
                let id = self.next;
                self.next = self.next + 1;
                Action::Create(id)
            },
            _ => {
                self.stopped = true;
                Action::Stop
            },
        }
    }
}

} // verus!
