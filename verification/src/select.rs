//! The multi-way wait: branches complete onto a queue, and the first one
//! there wins. Branches that are ready at the same moment are queued in
//! the order of their ids, so the smallest id among them wins.

use vstd::prelude::*;

verus! {

/// The wait as plain values.
pub struct SelectState {
    /// The number of branches; their ids are `0..branches`.
    pub branches: usize,
    /// The ids of the branches that completed, in the order of arrival.
    pub order: Seq<usize>,
}

impl SelectState {
    /// Every queued id names a branch, and none is queued twice.
    pub open spec fn wf(self) -> bool {
        &&& self.order.no_duplicates()
        &&& forall|i: int| 0 <= i < self.order.len() ==> (#[trigger] self.order[i]) < self.branches
    }

    /// The winner: the branch that completed first.
    pub open spec fn winner(self) -> Option<usize> {
        if self.order.len() > 0 {
            Some(self.order[0])
        } else {
            None
        }
    }

    /// Whether a completion of `id` is taken: it names a branch that has
    /// not completed before.
    pub open spec fn accepts(self, id: usize) -> bool {
        id < self.branches && !self.order.contains(id)
    }

    /// The wait after branch `id` completed.
    pub open spec fn after_complete(self, id: usize) -> SelectState {
        if self.accepts(id) {
            SelectState { order: self.order.push(id), ..self }
        } else {
            self
        }
    }

    /// The wait after the branches `0..upto` were looked at in the order
    /// of their ids and those marked in `ready` completed.
    pub open spec fn after_ready(self, ready: Seq<bool>, upto: nat) -> SelectState
        decreases upto,
    {
        if upto == 0 {
            self
        } else {
            let before = self.after_ready(ready, (upto - 1) as nat);
            if ready[upto - 1] {
                before.after_complete((upto - 1) as usize)
            } else {
                before
            }
        }
    }
}

/// The ids in `0..n` other than `winner`, in ascending order.
pub open spec fn others(winner: usize, n: nat) -> Seq<usize>
    decreases n,
{
    if n == 0 {
        Seq::empty()
    } else if n - 1 == winner {
        others(winner, (n - 1) as nat)
    } else {
        others(winner, (n - 1) as nat).push((n - 1) as usize)
    }
}

/// One multi-way wait.
pub struct Select {
    branches: usize,
    order: Vec<usize>,
}

impl View for Select {
    type V = SelectState;

    closed spec fn view(&self) -> SelectState {
        SelectState { branches: self.branches, order: self.order@ }
    }
}

impl Select {
    /// A wait on `branches` branches, none of which has completed.
    pub fn new(branches: usize) -> (sel: Select)
        ensures
            sel@.wf(),
            sel@ == (SelectState { branches, order: Seq::empty() }),
    {
        Select { branches, order: Vec::new() }
    }

    /// Branch `id` completed. The answer says whether that was news.
    pub fn complete(&mut self, id: usize) -> (taken: bool)
        requires
            old(self)@.wf(),
        ensures
            final(self)@.wf(),
            taken == old(self)@.accepts(id),
            final(self)@ == old(self)@.after_complete(id),
    {
        if id >= self.branches {
            return false;
        }
        let mut i: usize = 0;
        while i < self.order.len()
            invariant
                i <= self.order@.len(),
                self@ == old(self)@,
                self@.wf(),
                id < self.branches,
                forall|j: int| 0 <= j < i ==> self.order@[j] != id,
            decreases self.order@.len() - i,
        {
            if self.order[i] == id {
                return false;
            }
            i += 1;
        }
        let ghost before = self@;
        self.order.push(id);
        proof {
            assert(!before.order.contains(id));
            assert forall|a: int, b: int|
                0 <= a < self@.order.len() && 0 <= b < self@.order.len() && a != b implies self@.order[a]
                != self@.order[b] by {
                if a < before.order.len() && b < before.order.len() {
                    assert(before.order[a] != before.order[b]);
                } else if a < before.order.len() {
                    assert(before.order.contains(before.order[a]));
                } else {
                    assert(before.order.contains(before.order[b]));
                }
            }
        }
        true
    }

    /// The branches marked in `ready` completed at the same moment: they
    /// are queued in the order of their ids.
    pub fn complete_ready(&mut self, ready: &Vec<bool>)
        requires
            old(self)@.wf(),
        ensures
            final(self)@.wf(),
            final(self)@ == old(self)@.after_ready(ready@, ready@.len()),
    {
        let mut i: usize = 0;
        while i < ready.len()
            invariant
                i <= ready@.len(),
                self@.wf(),
                self@ == old(self)@.after_ready(ready@, i as nat),
            decreases ready@.len() - i,
        {
            if ready[i] {
                let _ = self.complete(i);
            }
            i += 1;
        }
    }

    /// The winner, once a branch has completed.
    pub fn winner(&self) -> (winner: Option<usize>)
        ensures
            winner == self@.winner(),
    {
        if self.order.len() > 0 {
            Some(self.order[0])
        } else {
            None
        }
    }

    /// The branches to cancel once there is a winner: all the others, in
    /// the order of their ids. Without a winner there is nothing to
    /// cancel.
    pub fn losers(&self) -> (losers: Vec<usize>)
        ensures
            losers@ == match self@.winner() {
                Some(w) => others(w, self@.branches as nat),
                None => Seq::empty(),
            },
    {
        let mut losers: Vec<usize> = Vec::new();
        match self.winner() {
            Some(w) => {
                let mut i: usize = 0;
                while i < self.branches
                    invariant
                        i <= self.branches,
                        losers@ == others(w, i as nat),
                    decreases self.branches - i,
                {
                    if i != w {
                        losers.push(i);
                    }
                    i += 1;
                }
            },
            None => {},
        }
        losers
    }
}

/// The first branch to complete wins for good: no later completion
/// changes the winner.
pub proof fn lemma_first_come_wins(s: SelectState, id: usize)
    requires
        s.winner() is Some,
    ensures
        s.after_complete(id).winner() == s.winner(),
{
}

/// Looking at branches in the order of their ids keeps the wait
/// well-formed and never changes a winner that is there already.
pub proof fn lemma_ready_keeps_winner(s: SelectState, ready: Seq<bool>, upto: nat)
    requires
        s.wf(),
    ensures
        s.after_ready(ready, upto).wf(),
        s.after_ready(ready, upto).branches == s.branches,
        s.winner() is Some ==> s.after_ready(ready, upto).winner() == s.winner(),
        s.after_ready(ready, upto).order.len() >= s.order.len(),
    decreases upto,
{
    if upto > 0 {
        lemma_ready_keeps_winner(s, ready, (upto - 1) as nat);
        let before = s.after_ready(ready, (upto - 1) as nat);
        let id = (upto - 1) as usize;
        if ready[upto - 1] && before.accepts(id) {
            let after = before.after_complete(id);
            assert forall|i: int, j: int|
                0 <= i < after.order.len() && 0 <= j < after.order.len() && i != j implies after.order[i]
                != after.order[j] by {
                if i < before.order.len() && j < before.order.len() {
                } else if i < before.order.len() {
                    assert(before.order.contains(before.order[i]));
                } else {
                    assert(before.order.contains(before.order[j]));
                }
            }
        }
    }
}

/// Among branches that are ready at the same moment the smallest id
/// wins: when nothing had completed before, the winner is a ready branch
/// and no ready branch has a smaller id; there is no winner exactly when
/// no branch is ready.
pub proof fn lemma_ties_go_to_smallest_id(s: SelectState, ready: Seq<bool>, upto: nat)
    requires
        s.wf(),
        s.order.len() == 0,
        upto <= ready.len(),
        upto <= s.branches,
    ensures
        match s.after_ready(ready, upto).winner() {
            Some(w) => w < upto && ready[w as int] && forall|i: int| 0 <= i < w ==> !ready[i],
            None => forall|i: int| 0 <= i < upto ==> !ready[i],
        },
    decreases upto,
{
    if upto > 0 {
        let before = s.after_ready(ready, (upto - 1) as nat);
        lemma_ties_go_to_smallest_id(s, ready, (upto - 1) as nat);
        lemma_ready_keeps_winner(s, ready, (upto - 1) as nat);
        let id = (upto - 1) as usize;
        if ready[upto - 1] {
            if before.winner() is None {
                assert(before.order.len() == 0);
                assert(before.accepts(id));
                assert(before.after_complete(id).order[0] == id);
            }
        }
    }
}

} // verus!
