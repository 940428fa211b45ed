//! Curriculum learning against a minimax opponent.
//!
//! A [`Curriculum`] holds the game, the opponent at the current depth, the
//! sliding window of recent outcomes and the episode counter. The opponent
//! starts at depth 1 and moves one level deeper, up to 9, when the window
//! is full and the agent's non-loss rate has passed the threshold (a
//! comparison of rates that the caller makes and hands in as a `bool`).
//! Each advance starts a fresh window.
use vstd::prelude::*;

use crate::env::minimax::MinimaxPlayer;
use crate::env::tictactoe::{initial_state, step_error, GameState, Player, TicTacToe};
use crate::training::episode::{
    open_game, outcome_for, outcome_of, play_agent_move, reply, side_for_episode,
    alternating_side,
};
use crate::utils::metrics::{record_window, GameOutcome, Metrics};

verus! {

/// The deepest opponent the curriculum reaches.
pub const MAX_DEPTH: usize = 9;

/// Whether the curriculum advances: the window of `window_len` outcomes is
/// full (`capacity`), the non-loss rate passed the threshold (`exceeds`),
/// and the opponent is not yet at depth 9.
pub open spec fn advances(window_len: nat, capacity: nat, exceeds: bool, depth: nat) -> bool {
    window_len >= capacity && exceeds && depth < 9
}

/// Curriculum state: game, opponent, outcome window and counters.
pub struct Curriculum {
    env: TicTacToe,
    minimax: MinimaxPlayer,
    metrics: Metrics,
    current_depth: usize,
    episode_count: usize,
    agent_side: Player,
}

impl Curriculum {
    /// The game in play.
    pub closed spec fn game(self) -> GameState {
        self.env@
    }

    /// The opponent's transposition table.
    pub closed spec fn table(self) -> Map<u32, i8> {
        self.minimax.table()
    }

    /// The opponent's depth.
    pub closed spec fn depth(self) -> nat {
        self.current_depth as nat
    }

    /// Episodes completed.
    pub closed spec fn episodes(self) -> nat {
        self.episode_count as nat
    }

    /// The outcomes in the window, oldest first.
    pub closed spec fn window(self) -> Seq<GameOutcome> {
        self.metrics.window()
    }

    /// The window's capacity.
    pub closed spec fn capacity(self) -> nat {
        self.metrics.capacity()
    }

    /// The side the agent plays in the current episode.
    pub closed spec fn side(self) -> Player {
        self.agent_side
    }

    /// Validity: the opponent's depth is the curriculum depth, in `[1, 9]`,
    /// and the window holds at most its capacity.
    pub closed spec fn wf(self) -> bool {
        &&& self.minimax.wf()
        &&& self.minimax.search_depth() == self.current_depth
        &&& 1 <= self.current_depth <= 9
        &&& self.metrics.wf()
    }

    /// A valid curriculum has a depth in `[1, 9]` and a window within its
    /// capacity.
    pub proof fn lemma_wf(self)
        requires
            self.wf(),
        ensures
            1 <= self.depth() <= 9,
            self.window().len() <= self.capacity(),
    {
        self.metrics.lemma_wf();
    }

    /// A fresh curriculum: empty board, depth 1, empty window of
    /// `window_size`, no episode played.
    pub fn new(window_size: usize) -> (c: Self)
        ensures
            c.wf(),
            c.game() == initial_state(),
            c.depth() == 1,
            c.episodes() == 0,
            c.window() == Seq::<GameOutcome>::empty(),
            c.capacity() == window_size,
            c.table() == Map::<u32, i8>::empty(),
            c.side() == Player::One,
    {
        Self {
            env: TicTacToe::new(),
            minimax: MinimaxPlayer::new(1),
            metrics: Metrics::new(window_size),
            current_depth: 1,
            episode_count: 0,
            agent_side: Player::One,
        }
    }

    /// The side the agent plays in the next episode when sides alternate.
    pub fn alternating_side(&self) -> (p: Player)
        ensures
            p == alternating_side(self.episodes()),
    {
        side_for_episode(self.episode_count)
    }

    /// Starts an episode with the agent playing `side`: the board is
    /// cleared and the opponent opens when the agent plays Player Two.
    pub fn begin_episode(&mut self, side: Player)
        requires
            old(self).wf(),
        ensures
            final(self).wf(),
            final(self).side() == side,
            (final(self).game(), final(self).table()) == reply(
                initial_state(),
                old(self).table(),
                old(self).depth(),
                side,
            ),
            final(self).depth() == old(self).depth(),
            final(self).episodes() == old(self).episodes(),
            final(self).window() == old(self).window(),
            final(self).capacity() == old(self).capacity(),
    {
        self.agent_side = side;
        open_game(&mut self.env, &mut self.minimax, side);
    }

    /// Plays the agent's move and the opponent's answer.
    ///
    /// A refused move is reported with the board's error and changes nothing.
    pub fn agent_move(&mut self, action: usize) -> (r: Result<(), String>)
        requires
            old(self).wf(),
        ensures
            final(self).wf(),
            (r is Ok) == old(self).game().can_play(action as int),
            r is Ok ==> (final(self).game(), final(self).table()) == reply(
                old(self).game().after(action as int),
                old(self).table(),
                old(self).depth(),
                old(self).side(),
            ),
            r matches Err(e) ==> *final(self) == *old(self) && e@ == step_error(
                old(self).game(),
                action as int,
            ),
            final(self).side() == old(self).side(),
            final(self).depth() == old(self).depth(),
            final(self).episodes() == old(self).episodes(),
            final(self).window() == old(self).window(),
            final(self).capacity() == old(self).capacity(),
    {
        play_agent_move(&mut self.env, &mut self.minimax, action, self.agent_side)
    }

    /// Records the outcome of the game for the agent in the window and
    /// returns it.
    pub fn record_outcome(&mut self) -> (o: GameOutcome)
        requires
            old(self).wf(),
        ensures
            final(self).wf(),
            o == outcome_of(old(self).game().result, old(self).side()),
            final(self).window() == record_window(old(self).window(), old(self).capacity(), o),
            final(self).game() == old(self).game(),
            final(self).table() == old(self).table(),
            final(self).side() == old(self).side(),
            final(self).depth() == old(self).depth(),
            final(self).episodes() == old(self).episodes(),
            final(self).capacity() == old(self).capacity(),
    {
        let o = outcome_for(self.env.result(), self.agent_side);
        self.metrics.record(o);
        o
    }

    /// Advances the opponent one level, with a fresh opponent and an empty
    /// window, when [`advances`] holds. Returns whether it advanced.
    pub fn try_advance(&mut self, exceeds: bool) -> (advanced: bool)
        requires
            old(self).wf(),
        ensures
            final(self).wf(),
            advanced == advances(
                old(self).window().len(),
                old(self).capacity(),
                exceeds,
                old(self).depth(),
            ),
            advanced ==> final(self).depth() == old(self).depth() + 1 && final(self).window()
                == Seq::<GameOutcome>::empty() && final(self).table() == Map::<u32, i8>::empty(),
            !advanced ==> final(self).depth() == old(self).depth() && final(self).window()
                == old(self).window() && final(self).table() == old(self).table(),
            final(self).episodes() == old(self).episodes(),
            final(self).game() == old(self).game(),
            final(self).side() == old(self).side(),
            final(self).capacity() == old(self).capacity(),
    {
        let advanced = self.metrics.count() >= self.metrics.window_size() && exceeds
            && self.current_depth < MAX_DEPTH;
        if advanced {
            self.current_depth = self.current_depth + 1;
            self.minimax = MinimaxPlayer::new(self.current_depth);
            self.metrics.reset();
        }
        advanced
    }

    /// Counts one more completed episode.
    pub fn count_episode(&mut self)
        requires
            old(self).wf(),
            old(self).episodes() < usize::MAX,
        ensures
            final(self).wf(),
            final(self).episodes() == old(self).episodes() + 1,
            final(self).depth() == old(self).depth(),
            final(self).window() == old(self).window(),
            final(self).table() == old(self).table(),
            final(self).game() == old(self).game(),
            final(self).side() == old(self).side(),
            final(self).capacity() == old(self).capacity(),
    {
        self.episode_count = self.episode_count + 1;
    }

    /// Returns the current curriculum depth.
    pub fn current_depth(&self) -> (d: usize)
        ensures
            d == self.depth(),
    {
        self.current_depth
    }

    /// Returns the number of episodes completed.
    pub fn episode_count(&self) -> (n: usize)
        ensures
            n == self.episodes(),
    {
        self.episode_count
    }

    /// Returns the side the agent plays in the current episode.
    pub fn agent_side(&self) -> (p: Player)
        ensures
            p == self.side(),
    {
        self.agent_side
    }

    /// Returns the outcome window.
    pub fn metrics(&self) -> (m: &Metrics)
        ensures
            m.window() == self.window(),
            m.capacity() == self.capacity(),
    {
        &self.metrics
    }

    /// Returns the game in play.
    pub fn env(&self) -> (e: &TicTacToe)
        ensures
            e@ == self.game(),
    {
        &self.env
    }
}

} // verus!
