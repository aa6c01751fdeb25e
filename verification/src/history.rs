//! Command history: a fixed-capacity ring of the most recently committed
//! lines; the least recently added entry is evicted when the ring is full.
use vstd::prelude::*;
use crate::line::{all_printable, LINE_MAX};

verus! {

/// Capacity of the history ring.
pub const HISTORY_MAX: usize = 32;

/// What one commit does to the stored lines: append, evicting the oldest
/// entry when the ring is already full.
pub open spec fn push_spec(s: Seq<Seq<char>>, l: Seq<char>) -> Seq<Seq<char>> {
    if s.len() < HISTORY_MAX {
        s.push(l)
    } else {
        s.skip(1).push(l)
    }
}

/// The stored lines after committing every line of `ls` in order.
pub open spec fn push_all(s: Seq<Seq<char>>, ls: Seq<Seq<char>>) -> Seq<Seq<char>>
    decreases ls.len(),
{
    if ls.len() == 0 {
        s
    } else {
        push_all(push_spec(s, ls[0]), ls.skip(1))
    }
}

/// No two of the sequences are equal.
pub open spec fn pairwise_distinct(ls: Seq<Seq<char>>) -> bool {
    forall|i: int, j: int| 0 <= i < j < ls.len() ==> ls[i] != ls[j]
}

/// The history ring.
pub struct History {
    pub entries: Vec<Vec<char>>,
}

impl History {
    /// The stored lines, oldest first.
    pub open spec fn view(self) -> Seq<Seq<char>> {
        self.entries@.map_values(|v: Vec<char>| v@)
    }

    /// The ring never outgrows its capacity and never stores a line that
    /// the editor could not have committed: non-empty, bounded, printable.
    pub open spec fn wf(self) -> bool {
        &&& self@.len() <= HISTORY_MAX
        &&& forall|i: int|
            0 <= i < self@.len() ==> 1 <= (#[trigger] self@[i]).len() <= LINE_MAX
                && all_printable(self@[i])
    }

    /// An empty history.
    pub fn new() -> (r: History)
        ensures
            r.wf(),
            r@ == Seq::<Seq<char>>::empty(),
    {
        let r = History { entries: Vec::new() };
        assert(r@ =~= Seq::<Seq<char>>::empty());
        r
    }

    /// Number of stored lines.
    pub fn len(&self) -> (r: usize)
        ensures
            r == self@.len(),
    {
        self.entries.len()
    }

    /// A copy of the stored line at `i`, oldest first.
    pub fn entry(&self, i: usize) -> (r: Vec<char>)
        requires
            i < self@.len(),
        ensures
            r@ == self@[i as int],
    {
        self.entries[i].clone()
    }

    /// Commits a line: appends it, evicting the oldest entry if the ring
    /// is full.
    pub fn push(&mut self, line: &Vec<char>)
        requires
            old(self).wf(),
            1 <= line@.len() <= LINE_MAX,
            all_printable(line@),
        ensures
            final(self).wf(),
            final(self)@ == push_spec(old(self)@, line@),
    {
        let ghost orig = self@;
        if self.entries.len() == HISTORY_MAX {
            self.entries.remove(0);
            proof {
                assert(self@ =~= orig.skip(1));
            }
        }
        let ghost mid = self@;
        self.entries.push(line.clone());
        proof {
            assert(self@ =~= mid.push(line@));
        }
    }
}

/// However many lines are committed, the ring keeps at most its capacity.
pub proof fn lemma_history_bounded(s: Seq<Seq<char>>, ls: Seq<Seq<char>>)
    requires
        s.len() <= HISTORY_MAX,
    ensures
        push_all(s, ls).len() <= HISTORY_MAX,
    decreases ls.len(),
{
    if ls.len() > 0 {
        lemma_history_bounded(push_spec(s, ls[0]), ls.skip(1));
    }
}

/// After committing the lines of `ls` in order, the ring holds exactly the
/// most recent lines of `s + ls`, in commit order: the newest
/// `HISTORY_MAX` of them, or all of them if there are fewer.
pub proof fn lemma_push_all_keeps_suffix(s: Seq<Seq<char>>, ls: Seq<Seq<char>>)
    requires
        s.len() <= HISTORY_MAX,
    ensures
        push_all(s, ls) =~= (s + ls).skip(
            if s.len() + ls.len() <= HISTORY_MAX {
                0
            } else {
                s.len() + ls.len() - HISTORY_MAX
            },
        ),
    decreases ls.len(),
{
    if ls.len() == 0 {
        assert(push_all(s, ls) =~= s + ls);
    } else {
        let s2 = push_spec(s, ls[0]);
        lemma_push_all_keeps_suffix(s2, ls.skip(1));
        if s.len() < HISTORY_MAX {
            assert(s2 + ls.skip(1) =~= s + ls);
        } else {
            assert(s2 + ls.skip(1) =~= (s + ls).skip(1));
        }
    }
}

/// Committing one more line than the ring can hold evicts exactly the
/// oldest of those lines: the ring then holds the most recent
/// `HISTORY_MAX` lines in order, and, when the lines are pairwise
/// distinct, the first one is gone.
pub proof fn lemma_history_eviction(s: Seq<Seq<char>>, ls: Seq<Seq<char>>)
    requires
        s.len() <= HISTORY_MAX,
        ls.len() == HISTORY_MAX + 1,
    ensures
        push_all(s, ls) =~= ls.skip(1),
        pairwise_distinct(ls) ==> !push_all(s, ls).contains(ls[0]),
{
    lemma_push_all_keeps_suffix(s, ls);
    assert(push_all(s, ls) =~= (s + ls).skip(s.len() as int + 1));
    assert((s + ls).skip(s.len() as int + 1) =~= ls.skip(1));
    if pairwise_distinct(ls) {
        assert forall|k: int| 0 <= k < ls.skip(1).len() implies ls.skip(1)[k] != ls[0] by {
            assert(ls.skip(1)[k] == ls[k + 1]);
        }
        assert(!ls.skip(1).contains(ls[0]));
    }
}

} // verus!
