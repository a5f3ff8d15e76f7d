//! Observations kept in the order of their modification time.
//!
//! The sorted listing strategy files every entry it observes under the
//! entry's modification time, in nanoseconds since the Unix epoch. Entries
//! that share a time are kept together, each as often as it was observed.
use std::collections::BTreeMap;
use vstd::prelude::*;
use crate::tally::Tally;
use vstd::std_specs::cmp::OrdSpec;
use vstd::std_specs::iter::IteratorSpec;

verus! {

broadcast use vstd::std_specs::btree::group_btree_axioms, vstd::laws_cmp::group_laws_cmp;

/// The paths filed under `stamp`, empty when there are none.
pub open spec fn paths_at(m: Map<u128, Seq<String>>, stamp: u128) -> Seq<String> {
    if m.contains_key(stamp) {
        m[stamp]
    } else {
        Seq::empty()
    }
}

/// `m` with one more observation of `path` at `stamp`, after the others
/// that share that time.
pub open spec fn with_entry(m: Map<u128, Seq<String>>, stamp: u128, path: String) -> Map<
    u128,
    Seq<String>,
> {
    m.insert(stamp, paths_at(m, stamp).push(path))
}

/// The paths logged under `stamp`, in the order of the log.
pub open spec fn stamped(log: Seq<(u128, String)>, stamp: u128) -> Seq<String>
    decreases log.len(),
{
    if log.len() == 0 {
        Seq::empty()
    } else {
        let earlier = stamped(log.drop_last(), stamp);
        if log.last().0 == stamp {
            earlier.push(log.last().1)
        } else {
            earlier
        }
    }
}

/// The index that filing the log's entries in turn builds from an empty one.
pub open spec fn index_of(log: Seq<(u128, String)>) -> Map<u128, Seq<String>>
    decreases log.len(),
{
    if log.len() == 0 {
        Map::empty()
    } else {
        with_entry(index_of(log.drop_last()), log.last().0, log.last().1)
    }
}

/// Entries that share a modification time are all kept: after any sequence
/// of insertions into an empty index, the paths under each time are exactly
/// those inserted with it, as often and in the order they were inserted, and
/// a time has a group exactly when something was inserted with it.
pub proof fn lemma_ties_kept(log: Seq<(u128, String)>)
    ensures
        forall|stamp: u128| #[trigger] paths_at(index_of(log), stamp) == stamped(log, stamp),
        forall|stamp: u128|
            #[trigger] index_of(log).contains_key(stamp) <==> stamped(log, stamp).len() > 0,
    decreases log.len(),
{
    if log.len() > 0 {
        let earlier = log.drop_last();
        lemma_ties_kept(earlier);
        assert forall|stamp: u128|
            #![trigger paths_at(index_of(log), stamp)]
            #![trigger index_of(log).contains_key(stamp)]
            paths_at(index_of(log), stamp) == stamped(log, stamp) && (index_of(log).contains_key(
                stamp,
            ) <==> stamped(log, stamp).len() > 0) by {
            assert(paths_at(index_of(earlier), stamp) == stamped(earlier, stamp));
            assert(index_of(earlier).contains_key(stamp) <==> stamped(earlier, stamp).len() > 0);
        }
    } else {
        assert(index_of(log) == Map::<u128, Seq<String>>::empty());
    }
}

/// Whether the times strictly ascend.
pub open spec fn ascending(s: Seq<u128>) -> bool {
    forall|i: int, j: int| 0 <= i < j < s.len() ==> s[i] < s[j]
}

/// Observed paths grouped by modification time, the groups ordered by time.
pub struct TimeIndex {
    groups: BTreeMap<u128, Vec<String>>,
}

impl View for TimeIndex {
    type V = Map<u128, Seq<String>>;

    closed spec fn view(&self) -> Map<u128, Seq<String>> {
        self.groups@.map_values(|g: Vec<String>| g@)
    }
}

impl TimeIndex {
    /// An index with no observations.
    pub fn new() -> (r: Self)
        ensures
            r@ == Map::<u128, Seq<String>>::empty(),
    {
        let r = TimeIndex { groups: BTreeMap::new() };
        assert(r@ =~= Map::<u128, Seq<String>>::empty());
        r
    }

    /// Files `path` under `stamp`, after the paths already filed there.
    pub fn insert(&mut self, stamp: u128, path: String)
        ensures
            final(self)@ == with_entry(old(self)@, stamp, path),
    {
        let ghost before = self@;
        let mut group = match self.groups.remove(&stamp) {
            Some(g) => g,
            None => Vec::new(),
        };
        assert(group@ == paths_at(before, stamp));
        group.push(path);
        self.groups.insert(stamp, group);
        assert(self@ =~= with_entry(before, stamp, path));
    }

    /// The paths filed under `stamp`, in the order they were observed.
    pub fn paths(&self, stamp: u128) -> (r: Option<&Vec<String>>)
        ensures
            match r {
                Some(g) => self@.contains_key(stamp) && g@ == self@[stamp],
                None => !self@.contains_key(stamp),
            },
    {
        self.groups.get(&stamp)
    }

    /// The number of distinct times observed.
    pub fn len(&self) -> (r: usize)
        ensures
            r == self@.dom().len(),
    {
        assert(self@.dom() =~= self.groups@.dom());
        self.groups.len()
    }

    /// Whether nothing is filed.
    pub fn is_empty(&self) -> (r: bool)
        ensures
            r == (self@.dom().len() == 0),
    {
        self.len() == 0
    }

    /// Every time under which something is filed, in ascending order.
    pub fn stamps(&self) -> (r: Vec<u128>)
        ensures
            ascending(r@),
            r@.to_set() == self@.dom(),
            r@.len() == self@.dom().len(),
    {
        let mut r: Vec<u128> = Vec::new();
        let keys = self.groups.keys();
        let ghost refs = keys.remaining();
        let ghost all = refs.unref();
        proof {
            assert(vstd::std_specs::btree::increasing_seq(refs));
            assert(vstd::laws_cmp::obeys_cmp::<&u128>());
            vstd::std_specs::btree::axiom_increasing_seq_meaning::<&u128>(refs);
            assert forall|i: int, j: int| 0 <= i < j < all.len() implies all[i] < all[j] by {
                assert(<&u128 as OrdSpec>::cmp_spec(&refs[i], &refs[j]) is Less);
            }
        }
        for k in it: keys
            invariant
                it.seq().unref() == all,
                r@.len() == it.index(),
                forall|i: int| 0 <= i < it.index() ==> r@[i] == all[i],
        {
            r.push(*k);
        }
        assert(r@ =~= all);
        assert(self@.dom() =~= self.groups@.dom());
        proof {
            all.unique_seq_to_set();
        }
        r
    }
}

/// The state of the sorted listing strategy: the count of observations and
/// the index that files them by modification time.
pub struct SortedTally {
    tally: Tally,
    index: TimeIndex,
}

impl SortedTally {
    pub closed spec fn spec_tally(&self) -> Tally {
        self.tally
    }

    pub closed spec fn spec_index(&self) -> Map<u128, Seq<String>> {
        self.index@
    }

    pub open spec fn wf(&self) -> bool {
        self.spec_tally().wf()
    }

    /// A strategy that has seen nothing yet.
    pub fn new(target: u64) -> (r: Self)
        ensures
            r.wf(),
            r.spec_tally().spec_target() == target,
            r.spec_tally().spec_count() == 0,
            r.spec_index() == Map::<u128, Seq<String>>::empty(),
    {
        SortedTally { tally: Tally::new(target), index: TimeIndex::new() }
    }

    pub fn tally(&self) -> (r: &Tally)
        ensures
            *r == self.spec_tally(),
    {
        &self.tally
    }

    pub fn index(&self) -> (r: &TimeIndex)
        ensures
            r@ == self.spec_index(),
    {
        &self.index
    }

    /// Takes one listed entry with its modification time, `None` where the
    /// time could not be read. An entry without a time is skipped and not
    /// counted; one with a time is filed and counted, until the target is
    /// met. Returns whether the target is met.
    pub fn observe(&mut self, path: String, stamp: Option<u128>) -> (done: bool)
        requires
            old(self).wf(),
        ensures
            final(self).wf(),
            final(self).spec_tally().spec_target() == old(self).spec_tally().spec_target(),
            match stamp {
                Some(t) if !old(self).spec_tally().done() => {
                    &&& final(self).spec_tally().spec_count() == old(self).spec_tally().spec_count() + 1
                    &&& final(self).spec_index() == with_entry(old(self).spec_index(), t, path)
                },
                _ => {
                    &&& final(self).spec_tally().spec_count() == old(self).spec_tally().spec_count()
                    &&& final(self).spec_index() == old(self).spec_index()
                },
            },
            done == final(self).spec_tally().done(),
    {
        match stamp {
            Some(t) => {
                if !self.tally.is_done() {
                    self.index.insert(t, path);
                    self.tally.observe()
                } else {
                    true
                }
            },
            None => self.tally.is_done(),
        }
    }
}

} // verus!
