//! Sliding-window game outcome metrics.
//!
//! Tracks win/loss/draw counts over a configurable window of recent games.
use std::collections::VecDeque;

use vstd::prelude::*;

verus! {

broadcast use vstd::std_specs::vecdeque::group_vec_dequeue_axioms;

/// Possible outcomes of a single game.
#[derive(Debug, Clone, Copy, PartialEq, Eq, Structural)]
pub enum GameOutcome {
    /// Agent won the game.
    Win,
    /// Agent lost the game.
    Loss,
    /// Game ended in a draw.
    Draw,
}

/// Number of occurrences of `target` in `w`.
pub open spec fn occurrences(w: Seq<GameOutcome>, target: GameOutcome) -> nat
    decreases w.len(),
{
    if w.len() == 0 {
        0
    } else {
        occurrences(w.drop_last(), target) + if w.last() == target { 1nat } else { 0nat }
    }
}

/// The window after recording `o` in a window of capacity `size`: the
/// oldest entry is dropped when the window is full; nothing is kept when
/// the capacity is zero.
pub open spec fn record_window(w: Seq<GameOutcome>, size: nat, o: GameOutcome) -> Seq<GameOutcome> {
    if size == 0 {
        w
    } else if w.len() == size {
        w.drop_first().push(o)
    } else {
        w.push(o)
    }
}

/// Recording keeps the most recent outcomes: with a positive capacity and
/// a window within it, the new window ends with the recorded outcome, holds
/// as many outcomes as fit (one more, up to the capacity), and is the tail
/// of the old window followed by the new outcome.
pub proof fn lemma_record_keeps_latest(w: Seq<GameOutcome>, size: nat, o: GameOutcome)
    requires
        size > 0,
        w.len() <= size,
    ensures
        record_window(w, size, o).last() == o,
        record_window(w, size, o).len() == if w.len() < size { w.len() + 1 } else { size },
        record_window(w, size, o) == w.push(o).skip(w.len() + 1 - record_window(w, size, o).len()),
{
    let r = record_window(w, size, o);
    assert(r =~= w.push(o).skip(w.len() + 1 - r.len()));
}

/// Occurrences never exceed the length.
pub proof fn lemma_occurrences_bound(w: Seq<GameOutcome>, target: GameOutcome)
    ensures
        occurrences(w, target) <= w.len(),
    decreases w.len(),
{
    if w.len() > 0 {
        lemma_occurrences_bound(w.drop_last(), target);
    }
}

/// Wins, losses and draws partition the window: their counts sum to its length.
pub proof fn lemma_outcomes_partition(w: Seq<GameOutcome>)
    ensures
        occurrences(w, GameOutcome::Win) + occurrences(w, GameOutcome::Loss) + occurrences(
            w,
            GameOutcome::Draw,
        ) == w.len(),
    decreases w.len(),
{
    if w.len() > 0 {
        lemma_outcomes_partition(w.drop_last());
    }
}

/// Occurrences in a concatenation add up.
proof fn lemma_occurrences_push(w: Seq<GameOutcome>, o: GameOutcome, target: GameOutcome)
    ensures
        occurrences(w.push(o), target) == occurrences(w, target) + if o == target {
            1nat
        } else {
            0nat
        },
{
    assert(w.push(o).drop_last() =~= w);
}

/// Sliding-window metrics tracker for game outcomes.
///
/// Maintains a fixed-size window of the most recent outcomes and counts
/// wins, losses and draws in that window.
pub struct Metrics {
    /// Maximum window size.
    window_size: usize,
    /// Recent outcomes stored in insertion order.
    outcomes: VecDeque<GameOutcome>,
}

impl Metrics {
    /// The outcomes in the window, oldest first.
    pub closed spec fn window(self) -> Seq<GameOutcome> {
        self.outcomes@
    }

    /// The capacity of the window.
    pub closed spec fn capacity(self) -> nat {
        self.window_size as nat
    }

    /// The window never holds more outcomes than its capacity.
    pub closed spec fn wf(self) -> bool {
        self.outcomes@.len() <= self.window_size
    }

    /// A valid window holds at most its capacity.
    pub proof fn lemma_wf(self)
        requires
            self.wf(),
        ensures
            self.window().len() <= self.capacity(),
    {
    }

    /// Creates a new metrics tracker with the given sliding window size.
    pub fn new(window_size: usize) -> (m: Self)
        ensures
            m.wf(),
            m.window() == Seq::<GameOutcome>::empty(),
            m.capacity() == window_size,
    {
        Self { window_size, outcomes: VecDeque::new() }
    }

    /// Records a game outcome, dropping the oldest if the window is full.
    pub fn record(&mut self, outcome: GameOutcome)
        requires
            old(self).wf(),
        ensures
            final(self).wf(),
            final(self).capacity() == old(self).capacity(),
            final(self).window() == record_window(old(self).window(), old(self).capacity(), outcome),
    {
        if self.window_size == 0 {
            return;
        }
        if self.outcomes.len() == self.window_size {
            let _ = self.outcomes.pop_front();
        }
        self.outcomes.push_back(outcome);
        proof {
            assert(self.outcomes@ =~= record_window(old(self).window(), old(self).capacity(), outcome));
        }
    }

    /// Returns the number of recorded outcomes in the window.
    pub fn count(&self) -> (n: usize)
        ensures
            n == self.window().len(),
    {
        self.outcomes.len()
    }

    /// Returns the configured window size.
    pub fn window_size(&self) -> (n: usize)
        ensures
            n == self.capacity(),
    {
        self.window_size
    }

    /// Clears all recorded outcomes, resetting win/loss/draw counts to zero.
    pub fn reset(&mut self)
        ensures
            final(self).wf(),
            final(self).capacity() == old(self).capacity(),
            final(self).window() == Seq::<GameOutcome>::empty(),
    {
        self.outcomes.clear();
    }

    /// Counts the outcomes in the window that equal `target`.
    pub fn count_of(&self, target: GameOutcome) -> (n: usize)
        ensures
            n == occurrences(self.window(), target),
    {
        let mut n: usize = 0;
        let mut i: usize = 0;
        while i < self.outcomes.len()
            invariant
                i <= self.outcomes@.len(),
                n == occurrences(self.outcomes@.take(i as int), target),
            decreases self.outcomes@.len() - i,
        {
            proof {
                let w = self.outcomes@;
                assert(w.take(i as int + 1) =~= w.take(i as int).push(w[i as int]));
                lemma_occurrences_push(w.take(i as int), w[i as int], target);
                lemma_occurrences_bound(w.take(i as int), target);
            }
            if self.outcomes[i] == target {
                n = n + 1;
            }
            i = i + 1;
        }
        proof {
            assert(self.outcomes@.take(i as int) =~= self.outcomes@);
        }
        n
    }
}

} // verus!
