//! One game between the agent and the minimax opponent.
//!
//! The agent's moves come from outside (the agent's network); everything
//! else that happens in a game is decided here: which side the agent plays,
//! when the opponent replies and with which move, and how the final board
//! counts for the agent.
use vstd::prelude::*;

use crate::env::minimax::{choose_spec, MinimaxPlayer};
use crate::env::tictactoe::{
    initial_state, other_player, step_error, GameResult, GameState, Player, TicTacToe,
};
use crate::utils::metrics::GameOutcome;

verus! {

/// The agent's side in episode `n` when sides alternate: Player One on
/// even episodes, Player Two on odd ones.
pub open spec fn alternating_side(n: nat) -> Player {
    if n % 2 == 0 {
        Player::One
    } else {
        Player::Two
    }
}

/// The game and the opponent's table after the opponent has answered in
/// `s`: it moves (by [`choose_spec`]) only when the game goes on and it is
/// not the agent's turn.
pub open spec fn reply(s: GameState, tt: Map<u32, i8>, depth: nat, side: Player) -> (GameState, Map<u32, i8>) {
    if !s.is_terminal() && s.current != side {
        let (a, t) = choose_spec(tt, s, depth);
        (s.after(a as int), t)
    } else {
        (s, tt)
    }
}

/// The outcome of a finished board for the agent playing `side`. A game
/// still in progress counts as a draw.
pub open spec fn outcome_of(result: GameResult, side: Player) -> GameOutcome {
    match result {
        GameResult::Win(p) => if p == side { GameOutcome::Win } else { GameOutcome::Loss },
        GameResult::Draw => GameOutcome::Draw,
        GameResult::InProgress => GameOutcome::Draw,
    }
}

/// With alternating sides the agent opens the first episode and the side
/// changes from each episode to the next.
pub proof fn lemma_sides_alternate(n: nat)
    ensures
        alternating_side(0) == Player::One,
        alternating_side(n + 1) == other_player(alternating_side(n)),
{
}

/// The outcome counted for the agent agrees with its reward sign: a win
/// where the reward is 1, a loss where it is -1, and a draw where it is 0.
pub proof fn lemma_outcome_matches_reward(s: GameState, side: Player)
    ensures
        (outcome_of(s.result, side) == GameOutcome::Win) <==> s.reward_sign(side) == 1,
        (outcome_of(s.result, side) == GameOutcome::Loss) <==> s.reward_sign(side) == -1,
        (outcome_of(s.result, side) == GameOutcome::Draw) <==> s.reward_sign(side) == 0,
{
}

/// The agent's side in episode `episode` when sides alternate.
pub fn side_for_episode(episode: usize) -> (p: Player)
    ensures
        p == alternating_side(episode as nat),
{
    if episode % 2 == 0 {
        Player::One
    } else {
        Player::Two
    }
}

/// The outcome of the game for the agent playing `side`.
pub fn outcome_for(result: GameResult, side: Player) -> (o: GameOutcome)
    ensures
        o == outcome_of(result, side),
{
    match result {
        GameResult::Win(p) => if p == side { GameOutcome::Win } else { GameOutcome::Loss },
        GameResult::Draw => GameOutcome::Draw,
        GameResult::InProgress => GameOutcome::Draw,
    }
}

/// Lets the opponent answer: it moves once when the game goes on and it is
/// not `side`'s turn, and does nothing otherwise.
pub fn opponent_reply(env: &mut TicTacToe, opponent: &mut MinimaxPlayer, side: Player)
    requires
        old(opponent).wf(),
    ensures
        final(opponent).wf(),
        final(opponent).search_depth() == old(opponent).search_depth(),
        (final(env)@, final(opponent).table()) == reply(
            old(env)@,
            old(opponent).table(),
            old(opponent).search_depth(),
            side,
        ),
{
    if !env.is_terminal() && env.current_player() != side {
        let a = opponent.choose_action(env);
        let r = env.step(a);
        proof {
            assert(r is Ok);
        }
    }
}

/// Starts a new game: the board is cleared and, when the agent plays
/// Player Two, the opponent makes the first move.
pub fn open_game(env: &mut TicTacToe, opponent: &mut MinimaxPlayer, side: Player)
    requires
        old(opponent).wf(),
    ensures
        final(opponent).wf(),
        final(opponent).search_depth() == old(opponent).search_depth(),
        (final(env)@, final(opponent).table()) == reply(
            initial_state(),
            old(opponent).table(),
            old(opponent).search_depth(),
            side,
        ),
{
    env.reset();
    opponent_reply(env, opponent, side);
}

/// Plays the agent's move `action` and then the opponent's answer.
///
/// A move that the board refuses is reported with the board's own error
/// and leaves the game and the opponent unchanged.
pub fn play_agent_move(env: &mut TicTacToe, opponent: &mut MinimaxPlayer, action: usize, side: Player) -> (r:
    Result<(), String>)
    requires
        old(opponent).wf(),
    ensures
        final(opponent).wf(),
        final(opponent).search_depth() == old(opponent).search_depth(),
        (r is Ok) == old(env)@.can_play(action as int),
        r is Ok ==> (final(env)@, final(opponent).table()) == reply(
            old(env)@.after(action as int),
            old(opponent).table(),
            old(opponent).search_depth(),
            side,
        ),
        r matches Err(e) ==> *final(env) == *old(env) && *final(opponent) == *old(opponent)
            && e@ == step_error(old(env)@, action as int),
{
    match env.step(action) {
        Ok(_) => {
            opponent_reply(env, opponent, side);
            Ok(())
        },
        Err(e) => Err(e),
    }
}

/// Numbers of games won, drawn and lost by the agent.
pub struct OutcomeTally {
    /// Games won.
    pub wins: usize,
    /// Games drawn.
    pub draws: usize,
    /// Games lost.
    pub losses: usize,
}

impl OutcomeTally {
    /// No game counted.
    pub fn new() -> (t: Self)
        ensures
            t.wins == 0 && t.draws == 0 && t.losses == 0,
    {
        OutcomeTally { wins: 0, draws: 0, losses: 0 }
    }

    /// Counts a finished game for the agent playing `side`; a game still in
    /// progress counts nowhere.
    pub fn record(&mut self, result: GameResult, side: Player)
        requires
            old(self).wins < usize::MAX,
            old(self).draws < usize::MAX,
            old(self).losses < usize::MAX,
        ensures
            final(self).wins == old(self).wins + if result == GameResult::Win(side) { 1int } else { 0int },
            final(self).losses == old(self).losses + if (result matches GameResult::Win(p) && p != side) {
                1int
            } else {
                0int
            },
            final(self).draws == old(self).draws + if result == GameResult::Draw { 1int } else { 0int },
    {
        match result {
            GameResult::Win(p) => {
                if p == side {
                    self.wins = self.wins + 1;
                } else {
                    self.losses = self.losses + 1;
                }
            },
            GameResult::Draw => {
                self.draws = self.draws + 1;
            },
            GameResult::InProgress => {},
        }
    }
}

} // verus!
