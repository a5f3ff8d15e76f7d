//! Counting observations until a target is met.
//!
//! Every strategy of the benchmark, whether it lists the directory or reads
//! change notifications, counts what it observes and stops once the count
//! reaches the target. `Tally` holds that count.
use vstd::prelude::*;

verus! {

/// The number of events in `events` that name an entry.
pub open spec fn named_count(events: Seq<bool>) -> nat
    decreases events.len(),
{
    if events.len() == 0 {
        0
    } else {
        named_count(events.drop_last()) + if events.last() {
            1nat
        } else {
            0nat
        }
    }
}

/// A counter of observations that stops at a target.
pub struct Tally {
    target: u64,
    count: u64,
}

impl Tally {
    /// The number of observations the strategy has to make.
    pub closed spec fn spec_target(&self) -> nat {
        self.target as nat
    }

    /// The number of observations counted so far.
    pub closed spec fn spec_count(&self) -> nat {
        self.count as nat
    }

    /// The count never passes the target.
    pub closed spec fn wf(&self) -> bool {
        self.count <= self.target
    }

    /// Whether the target has been reached.
    pub open spec fn done(&self) -> bool {
        self.spec_count() >= self.spec_target()
    }

    /// A tally that has seen nothing yet.
    pub fn new(target: u64) -> (r: Self)
        ensures
            r.wf(),
            r.spec_target() == target,
            r.spec_count() == 0,
    {
        Tally { target, count: 0 }
    }

    pub fn target(&self) -> (r: u64)
        ensures
            r == self.spec_target(),
    {
        self.target
    }

    pub fn count(&self) -> (r: u64)
        ensures
            r == self.spec_count(),
    {
        self.count
    }

    /// Whether the strategy may stop observing.
    pub fn is_done(&self) -> (r: bool)
        ensures
            r == self.done(),
    {
        self.count >= self.target
    }

    /// Counts one observation, unless the target is already met; returns
    /// whether the target is met afterwards.
    pub fn observe(&mut self) -> (done: bool)
        requires
            old(self).wf(),
        ensures
            final(self).wf(),
            final(self).spec_target() == old(self).spec_target(),
            final(self).spec_count() == if old(self).done() {
                old(self).spec_count()
            } else {
                old(self).spec_count() + 1
            },
            done == final(self).done(),
    {
        if self.count < self.target {
            self.count = self.count + 1;
        }
        self.count >= self.target
    }

    /// Counts a change notification if it names an entry of the directory;
    /// one without a name is not counted. Returns whether the target is met.
    pub fn observe_event(&mut self, named: bool) -> (done: bool)
        requires
            old(self).wf(),
        ensures
            final(self).wf(),
            final(self).spec_target() == old(self).spec_target(),
            final(self).spec_count() == if named && !old(self).done() {
                old(self).spec_count() + 1
            } else {
                old(self).spec_count()
            },
            done == final(self).done(),
    {
        if named {
            self.observe()
        } else {
            self.is_done()
        }
    }

    /// Counts the events of one read, in order, each that names an entry,
    /// until the target is met; the rest of the read is left uncounted.
    /// Returns whether the target is met.
    pub fn observe_batch(&mut self, named: &Vec<bool>) -> (done: bool)
        requires
            old(self).wf(),
        ensures
            final(self).wf(),
            final(self).spec_target() == old(self).spec_target(),
            final(self).spec_count() == if old(self).spec_count() + named_count(named@)
                <= old(self).spec_target() {
                old(self).spec_count() + named_count(named@)
            } else {
                old(self).spec_target()
            },
            done == final(self).done(),
    {
        let mut i: usize = 0;
        while i < named.len()
            invariant
                self.wf(),
                i <= named@.len(),
                self.spec_target() == old(self).spec_target(),
                self.spec_count() == if old(self).spec_count() + named_count(named@.take(i as int))
                    <= old(self).spec_target() {
                    old(self).spec_count() + named_count(named@.take(i as int))
                } else {
                    old(self).spec_target()
                },
            decreases named@.len() - i,
        {
            assert(named@.take(i as int + 1).drop_last() =~= named@.take(i as int));
            self.observe_event(named[i]);
            i = i + 1;
        }
        assert(named@.take(named@.len() as int) =~= named@);
        self.is_done()
    }

    /// The count that the strategy returns: present once the target is met,
    /// and then never below it.
    pub fn outcome(&self) -> (r: Option<u64>)
        requires
            self.wf(),
        ensures
            r == (if self.done() { Some(self.spec_count() as u64) } else { None::<u64> }),
            r matches Some(n) ==> n >= self.spec_target(),
    {
        if self.count >= self.target {
            Some(self.count)
        } else {
            None
        }
    }
}

} // verus!
