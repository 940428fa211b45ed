//! Decisions of the continuous training loop.
//!
//! The loop plays episodes against the curriculum's opponent until it is
//! stopped or reaches its episode limit. The agent's steps are made by the
//! caller; this module decides which side the agent plays, when the
//! curriculum advances, when the replay buffer's training memories are
//! sealed (once, at the first advance that succeeds in sealing them) and
//! when replay learning runs (every `replay_interval` episodes once sealed).
use vstd::prelude::*;

use crate::env::tictactoe::{initial_state, step_error, Player};
use crate::training::curriculum::{advances, Curriculum};
use crate::training::episode::{alternating_side, outcome_of, reply, side_for_episode};
use crate::utils::metrics::{record_window, GameOutcome};

verus! {

/// Whether `n` is a multiple of `d` (only `0` is a multiple of `0`).
pub open spec fn multiple_of(n: nat, d: nat) -> bool {
    if d == 0 {
        n == 0
    } else {
        n % d == 0
    }
}

/// `n` is a multiple of `d` exactly when it is `k * d` for some count `k`.
pub proof fn lemma_multiple_of(n: nat, d: nat)
    ensures
        multiple_of(n, d) <==> exists|k: nat| n == #[trigger] (k * d),
{
    if d == 0 {
        if n == 0 {
            assert(n == 0nat * d);
        }
    } else {
        vstd::arithmetic::div_mod::lemma_fundamental_div_mod(n as int, d as int);
        if n % d == 0 {
            let k = n / d;
            assert(n == k * d) by (nonlinear_arith)
                requires
                    n == d * k + n % d,
                    n % d == 0,
            ;
        }
        if exists|k: nat| n == #[trigger] (k * d) {
            let k = choose|k: nat| n == #[trigger] (k * d);
            vstd::arithmetic::div_mod::lemma_mod_multiples_basic(k as int, d as int);
        }
    }
}

/// Whether `n` is a multiple of `d` (only `0` is a multiple of `0`).
pub fn is_multiple_of(n: usize, d: usize) -> (b: bool)
    ensures
        b == multiple_of(n as nat, d as nat),
        b == exists|k: nat| n as nat == #[trigger] (k * d as nat),
{
    proof {
        lemma_multiple_of(n as nat, d as nat);
    }
    if d == 0 {
        n == 0
    } else {
        n % d == 0
    }
}

/// The side the agent plays: a coin flip (`true` for Player One) when
/// sides are random, else alternating by episode.
pub open spec fn side_from(random_side: bool, coin: bool, episode: nat) -> Player {
    if random_side {
        if coin {
            Player::One
        } else {
            Player::Two
        }
    } else {
        alternating_side(episode)
    }
}

/// When the replay buffer's training memories are sealed and how often
/// replay learning runs.
pub struct ReplaySchedule {
    enabled: bool,
    interval: usize,
    batch_size: usize,
    sealed: bool,
    seal_attempts: usize,
    invocations: usize,
    last_replay: usize,
}

/// Two multiples of `d > 0`, the second larger, are at least `d` apart.
proof fn lemma_multiples_apart(a: nat, b: nat, d: nat)
    requires
        d > 0,
        a % d == 0,
        b % d == 0,
        a < b,
    ensures
        a + d <= b,
{
    vstd::arithmetic::div_mod::lemma_fundamental_div_mod(a as int, d as int);
    vstd::arithmetic::div_mod::lemma_fundamental_div_mod(b as int, d as int);
    let qa = a / d;
    let qb = b / d;
    assert(qa < qb) by (nonlinear_arith)
        requires
            a == d * qa,
            b == d * qb,
            a < b,
            d > 0,
    ;
    assert(d * qa + d <= d * qb) by (nonlinear_arith)
        requires
            qa + 1 <= qb,
            d > 0,
    ;
}

/// `n * d <= m` with `d > 0` bounds `n` by `m / d`.
proof fn lemma_count_bound(n: nat, d: nat, m: nat)
    requires
        d > 0,
        n * d <= m,
    ensures
        n <= m / d,
{
    vstd::arithmetic::div_mod::lemma_fundamental_div_mod(m as int, d as int);
    let q = m / d;
    let r = m % d;
    assert(n <= q) by (nonlinear_arith)
        requires
            n * d <= m,
            m == d * q + r,
            0 <= r < d,
            d > 0,
    ;
}

impl ReplaySchedule {
    /// Replay is configured (the training compartment has a capacity).
    pub closed spec fn enabled(self) -> bool {
        self.enabled
    }

    /// Episodes between replay learning calls.
    pub closed spec fn interval(self) -> nat {
        self.interval as nat
    }

    /// Transitions per replay learning call.
    pub closed spec fn batch(self) -> nat {
        self.batch_size as nat
    }

    /// The training memories have been sealed.
    pub closed spec fn sealed(self) -> bool {
        self.sealed
    }

    /// Seal attempts made, successful or not.
    pub closed spec fn attempts(self) -> nat {
        self.seal_attempts as nat
    }

    /// Successful replay learning calls.
    pub closed spec fn invocations(self) -> nat {
        self.invocations as nat
    }

    /// Episode count at the last successful replay learning call (0 before
    /// any).
    pub closed spec fn last_replay(self) -> nat {
        self.last_replay as nat
    }

    /// Validity: memories are sealed only when replay is on and after an
    /// attempt; successful replays happened at distinct multiples of the
    /// interval, the last at `last_replay`.
    pub closed spec fn wf(self) -> bool {
        &&& self.sealed ==> self.enabled && self.seal_attempts >= 1
        &&& self.interval == 0 ==> self.invocations == 0 && self.last_replay == 0
        &&& self.interval > 0 ==> self.last_replay % self.interval == 0
        &&& self.invocations * self.interval <= self.last_replay
    }

    /// A sealed schedule has replay on and at least one attempt behind it,
    /// and the successful replays fit in the episodes up to the last one.
    pub proof fn lemma_wf(self)
        requires
            self.wf(),
        ensures
            self.sealed() ==> self.enabled() && self.attempts() >= 1,
            self.invocations() * self.interval() <= self.last_replay(),
    {
    }

    /// A schedule for a training compartment of `training_capacity`
    /// transitions: replay is on when the capacity is positive; nothing is
    /// sealed, attempted or replayed yet.
    pub fn new(training_capacity: usize, interval: usize, batch_size: usize) -> (r: Self)
        ensures
            r.wf(),
            r.enabled() == (training_capacity > 0),
            r.interval() == interval,
            r.batch() == batch_size,
            !r.sealed(),
            r.attempts() == 0,
            r.invocations() == 0,
            r.last_replay() == 0,
    {
        Self {
            enabled: training_capacity > 0,
            interval,
            batch_size,
            sealed: false,
            seal_attempts: 0,
            invocations: 0,
            last_replay: 0,
        }
    }

    /// Called at a curriculum advance: returns whether a seal must be
    /// attempted now (replay on and not yet sealed), and counts the attempt.
    /// Once sealed, later advances attempt nothing and change nothing.
    pub fn on_advance(&mut self) -> (attempt: bool)
        requires
            old(self).wf(),
            old(self).attempts() < usize::MAX,
        ensures
            final(self).wf(),
            attempt == (old(self).enabled() && !old(self).sealed()),
            attempt ==> final(self).attempts() == old(self).attempts() + 1,
            !attempt ==> final(self).attempts() == old(self).attempts(),
            final(self).sealed() == old(self).sealed(),
            final(self).enabled() == old(self).enabled(),
            final(self).interval() == old(self).interval(),
            final(self).batch() == old(self).batch(),
            final(self).invocations() == old(self).invocations(),
            final(self).last_replay() == old(self).last_replay(),
    {
        if self.sealed || !self.enabled {
            return false;
        }
        self.seal_attempts = self.seal_attempts + 1;
        true
    }

    /// Records the result of a seal attempt: success seals the memories, a
    /// failure leaves them unsealed so that the next advance retries.
    pub fn seal_result(&mut self, ok: bool)
        requires
            old(self).wf(),
            old(self).enabled(),
            old(self).attempts() >= 1,
        ensures
            final(self).wf(),
            final(self).sealed() == (old(self).sealed() || ok),
            final(self).attempts() == old(self).attempts(),
            final(self).enabled() == old(self).enabled(),
            final(self).interval() == old(self).interval(),
            final(self).batch() == old(self).batch(),
            final(self).invocations() == old(self).invocations(),
            final(self).last_replay() == old(self).last_replay(),
    {
        if ok {
            self.sealed = true;
        }
    }

    /// Whether replay learning runs after episode `episode`: the memories
    /// are sealed, the interval is positive and divides the episode count,
    /// and no replay has succeeded at this count yet.
    pub fn replay_due(&self, episode: usize) -> (due: bool)
        ensures
            due == (self.sealed() && self.interval() > 0 && multiple_of(
                episode as nat,
                self.interval(),
            ) && episode > self.last_replay()),
    {
        self.sealed && self.interval > 0 && episode % self.interval == 0 && episode > self.last_replay
    }

    /// Records the result of the replay learning call made after episode
    /// `episode`: only a success counts.
    pub fn replay_result(&mut self, episode: usize, ok: bool)
        requires
            old(self).wf(),
            old(self).sealed(),
            old(self).interval() > 0,
            multiple_of(episode as nat, old(self).interval()),
            episode > old(self).last_replay(),
            old(self).invocations() < usize::MAX,
        ensures
            final(self).wf(),
            final(self).invocations() == old(self).invocations() + if ok { 1nat } else { 0nat },
            final(self).last_replay() == if ok { episode as nat } else { old(self).last_replay() },
            final(self).sealed() == old(self).sealed(),
            final(self).attempts() == old(self).attempts(),
            final(self).enabled() == old(self).enabled(),
            final(self).interval() == old(self).interval(),
            final(self).batch() == old(self).batch(),
    {
        if ok {
            proof {
                lemma_multiples_apart(
                    self.last_replay as nat,
                    episode as nat,
                    self.interval as nat,
                );
                assert((self.invocations + 1) * self.interval == self.invocations * self.interval
                    + self.interval) by (nonlinear_arith);
            }
            self.invocations = self.invocations + 1;
            self.last_replay = episode;
        }
    }

    /// Returns whether replay is configured.
    pub fn replay_enabled(&self) -> (b: bool)
        ensures
            b == self.enabled(),
    {
        self.enabled
    }

    /// Returns whether the training memories have been sealed.
    pub fn training_memories_sealed(&self) -> (b: bool)
        ensures
            b == self.sealed(),
    {
        self.sealed
    }

    /// Returns the number of seal attempts.
    pub fn seal_attempts(&self) -> (n: usize)
        ensures
            n == self.attempts(),
    {
        self.seal_attempts
    }

    /// Returns the number of successful replay learning calls.
    pub fn replay_invocations(&self) -> (n: usize)
        ensures
            n == self.invocations(),
    {
        self.invocations
    }

    /// Returns the number of transitions per replay learning call.
    pub fn batch_size(&self) -> (n: usize)
        ensures
            n == self.batch(),
    {
        self.batch_size
    }
}

/// State of the continuous training loop, apart from the agent.
pub struct ContinuousState {
    curriculum: Curriculum,
    replay: ReplaySchedule,
    max_episodes: usize,
    step_count: usize,
    log_interval: usize,
    random_side: bool,
}

impl ContinuousState {
    /// The curriculum.
    pub closed spec fn curriculum(self) -> Curriculum {
        self.curriculum
    }

    /// The replay schedule.
    pub closed spec fn replay(self) -> ReplaySchedule {
        self.replay
    }

    /// The episode limit.
    pub closed spec fn max_episodes(self) -> nat {
        self.max_episodes as nat
    }

    /// Agent steps taken so far.
    pub closed spec fn steps(self) -> nat {
        self.step_count as nat
    }

    /// Episodes between progress lines (0: none).
    pub closed spec fn log_interval(self) -> nat {
        self.log_interval as nat
    }

    /// Whether the agent's side is drawn at random.
    pub closed spec fn random_side(self) -> bool {
        self.random_side
    }

    /// Validity of the curriculum and the replay schedule; the last
    /// successful replay happened at an episode count already reached.
    pub closed spec fn wf(self) -> bool {
        &&& self.curriculum.wf()
        &&& self.replay.wf()
        &&& self.replay.last_replay() <= self.curriculum.episodes()
    }

    /// A valid state has a valid curriculum and replay schedule.
    pub proof fn lemma_wf(self)
        requires
            self.wf(),
        ensures
            self.curriculum().wf(),
            self.replay().wf(),
    {
    }

    /// Replay learning succeeds at most once per `replay_interval`
    /// episodes: after `e` episodes there were at most `e / replay_interval`
    /// successful replays, and none without a positive interval.
    pub proof fn lemma_replay_bound(self)
        requires
            self.wf(),
        ensures
            self.replay().interval() > 0 ==> self.replay().invocations() <= self.curriculum().episodes()
                / self.replay().interval(),
            self.replay().interval() == 0 ==> self.replay().invocations() == 0,
    {
        let r = self.replay;
        if r.interval() > 0 {
            lemma_count_bound(r.invocations(), r.interval(), self.curriculum.episodes());
        }
    }

    /// A fresh loop state: a new curriculum with a window of
    /// `window_size`, a replay schedule for a training compartment of
    /// `replay_training_capacity`, and no step taken.
    pub fn new(
        window_size: usize,
        max_episodes: usize,
        log_interval: usize,
        random_side: bool,
        replay_training_capacity: usize,
        replay_interval: usize,
        replay_batch_size: usize,
    ) -> (s: Self)
        ensures
            s.wf(),
            s.curriculum().game() == initial_state(),
            s.curriculum().depth() == 1,
            s.curriculum().episodes() == 0,
            s.curriculum().window() == Seq::<GameOutcome>::empty(),
            s.curriculum().capacity() == window_size,
            s.curriculum().table() == Map::<u32, i8>::empty(),
            s.replay().enabled() == (replay_training_capacity > 0),
            s.replay().interval() == replay_interval,
            s.replay().batch() == replay_batch_size,
            !s.replay().sealed(),
            s.replay().attempts() == 0,
            s.replay().invocations() == 0,
            s.max_episodes() == max_episodes,
            s.steps() == 0,
            s.log_interval() == log_interval,
            s.random_side() == random_side,
    {
        Self {
            curriculum: Curriculum::new(window_size),
            replay: ReplaySchedule::new(replay_training_capacity, replay_interval, replay_batch_size),
            max_episodes,
            step_count: 0,
            log_interval,
            random_side,
        }
    }

    /// Whether the loop stops: a stop was requested or the episode limit
    /// is reached.
    pub fn should_stop(&self, stop_requested: bool) -> (b: bool)
        ensures
            b == (stop_requested || self.curriculum().episodes() >= self.max_episodes()),
    {
        stop_requested || self.curriculum.episode_count() >= self.max_episodes
    }

    /// Starts an episode. The agent plays Player One when `coin` is true
    /// and sides are random, else the alternating side; the opponent opens
    /// when the agent plays Player Two.
    pub fn start_episode(&mut self, coin: bool) -> (side: Player)
        requires
            old(self).wf(),
        ensures
            final(self).wf(),
            side == side_from(old(self).random_side(), coin, old(self).curriculum().episodes()),
            final(self).curriculum().side() == side,
            (final(self).curriculum().game(), final(self).curriculum().table()) == reply(
                initial_state(),
                old(self).curriculum().table(),
                old(self).curriculum().depth(),
                side,
            ),
            final(self).curriculum().depth() == old(self).curriculum().depth(),
            final(self).curriculum().episodes() == old(self).curriculum().episodes(),
            final(self).curriculum().window() == old(self).curriculum().window(),
            final(self).curriculum().capacity() == old(self).curriculum().capacity(),
            final(self).replay() == old(self).replay(),
            final(self).steps() == old(self).steps(),
            final(self).max_episodes() == old(self).max_episodes(),
            final(self).log_interval() == old(self).log_interval(),
            final(self).random_side() == old(self).random_side(),
    {
        let side = if self.random_side {
            if coin {
                Player::One
            } else {
                Player::Two
            }
        } else {
            side_for_episode(self.curriculum.episode_count())
        };
        self.curriculum.begin_episode(side);
        side
    }

    /// Plays the agent's move and the opponent's answer; a refused move
    /// changes nothing.
    pub fn agent_move(&mut self, action: usize) -> (r: Result<(), String>)
        requires
            old(self).wf(),
        ensures
            final(self).wf(),
            (r is Ok) == old(self).curriculum().game().can_play(action as int),
            r is Ok ==> (final(self).curriculum().game(), final(self).curriculum().table())
                == reply(
                old(self).curriculum().game().after(action as int),
                old(self).curriculum().table(),
                old(self).curriculum().depth(),
                old(self).curriculum().side(),
            ),
            r matches Err(e) ==> final(self).curriculum() == old(self).curriculum() && e@
                == step_error(old(self).curriculum().game(), action as int),
            final(self).curriculum().side() == old(self).curriculum().side(),
            final(self).curriculum().depth() == old(self).curriculum().depth(),
            final(self).curriculum().episodes() == old(self).curriculum().episodes(),
            final(self).curriculum().window() == old(self).curriculum().window(),
            final(self).curriculum().capacity() == old(self).curriculum().capacity(),
            final(self).replay() == old(self).replay(),
            final(self).steps() == old(self).steps(),
            final(self).max_episodes() == old(self).max_episodes(),
            final(self).log_interval() == old(self).log_interval(),
            final(self).random_side() == old(self).random_side(),
    {
        self.curriculum.agent_move(action)
    }

    /// Counts one agent step.
    pub fn count_step(&mut self)
        requires
            old(self).wf(),
            old(self).steps() < usize::MAX,
        ensures
            final(self).wf(),
            final(self).steps() == old(self).steps() + 1,
            final(self).curriculum() == old(self).curriculum(),
            final(self).replay() == old(self).replay(),
            final(self).max_episodes() == old(self).max_episodes(),
            final(self).log_interval() == old(self).log_interval(),
            final(self).random_side() == old(self).random_side(),
    {
        self.step_count = self.step_count + 1;
    }

    /// Records the game's outcome for the agent in the window.
    pub fn record_outcome(&mut self) -> (o: GameOutcome)
        requires
            old(self).wf(),
        ensures
            final(self).wf(),
            o == outcome_of(old(self).curriculum().game().result, old(self).curriculum().side()),
            final(self).curriculum().window() == record_window(
                old(self).curriculum().window(),
                old(self).curriculum().capacity(),
                o,
            ),
            final(self).curriculum().game() == old(self).curriculum().game(),
            final(self).curriculum().table() == old(self).curriculum().table(),
            final(self).curriculum().side() == old(self).curriculum().side(),
            final(self).curriculum().depth() == old(self).curriculum().depth(),
            final(self).curriculum().episodes() == old(self).curriculum().episodes(),
            final(self).curriculum().capacity() == old(self).curriculum().capacity(),
            final(self).replay() == old(self).replay(),
            final(self).steps() == old(self).steps(),
            final(self).max_episodes() == old(self).max_episodes(),
            final(self).log_interval() == old(self).log_interval(),
            final(self).random_side() == old(self).random_side(),
    {
        self.curriculum.record_outcome()
    }

    /// Advances the curriculum when [`advances`] holds; returns whether it
    /// advanced.
    pub fn try_advance(&mut self, exceeds: bool) -> (advanced: bool)
        requires
            old(self).wf(),
        ensures
            final(self).wf(),
            advanced == advances(
                old(self).curriculum().window().len(),
                old(self).curriculum().capacity(),
                exceeds,
                old(self).curriculum().depth(),
            ),
            advanced ==> final(self).curriculum().depth() == old(self).curriculum().depth() + 1
                && final(self).curriculum().window() == Seq::<GameOutcome>::empty()
                && final(self).curriculum().table() == Map::<u32, i8>::empty(),
            !advanced ==> final(self).curriculum().depth() == old(self).curriculum().depth()
                && final(self).curriculum().window() == old(self).curriculum().window()
                && final(self).curriculum().table() == old(self).curriculum().table(),
            final(self).curriculum().episodes() == old(self).curriculum().episodes(),
            final(self).curriculum().game() == old(self).curriculum().game(),
            final(self).curriculum().side() == old(self).curriculum().side(),
            final(self).curriculum().capacity() == old(self).curriculum().capacity(),
            final(self).replay() == old(self).replay(),
            final(self).steps() == old(self).steps(),
            final(self).max_episodes() == old(self).max_episodes(),
            final(self).log_interval() == old(self).log_interval(),
            final(self).random_side() == old(self).random_side(),
    {
        self.curriculum.try_advance(exceeds)
    }

    /// At a curriculum advance: whether to attempt sealing the replay
    /// buffer's training memories now (counting the attempt).
    pub fn seal_due(&mut self) -> (attempt: bool)
        requires
            old(self).wf(),
            old(self).replay().attempts() < usize::MAX,
        ensures
            final(self).wf(),
            attempt == (old(self).replay().enabled() && !old(self).replay().sealed()),
            attempt ==> final(self).replay().attempts() == old(self).replay().attempts() + 1,
            !attempt ==> final(self).replay() == old(self).replay(),
            final(self).replay().sealed() == old(self).replay().sealed(),
            final(self).replay().invocations() == old(self).replay().invocations(),
            final(self).replay().enabled() == old(self).replay().enabled(),
            final(self).replay().interval() == old(self).replay().interval(),
            final(self).replay().batch() == old(self).replay().batch(),
            final(self).curriculum() == old(self).curriculum(),
            final(self).steps() == old(self).steps(),
            final(self).max_episodes() == old(self).max_episodes(),
            final(self).log_interval() == old(self).log_interval(),
            final(self).random_side() == old(self).random_side(),
    {
        let ghost before = self.replay;
        let attempt = self.replay.on_advance();
        proof {
            if !attempt {
                assert(self.replay.sealed == before.sealed);
            }
        }
        attempt
    }

    /// Records the result of a seal attempt.
    pub fn seal_result(&mut self, ok: bool)
        requires
            old(self).wf(),
            old(self).replay().enabled(),
            old(self).replay().attempts() >= 1,
        ensures
            final(self).wf(),
            final(self).replay().sealed() == (old(self).replay().sealed() || ok),
            final(self).replay().attempts() == old(self).replay().attempts(),
            final(self).replay().invocations() == old(self).replay().invocations(),
            final(self).replay().enabled() == old(self).replay().enabled(),
            final(self).replay().interval() == old(self).replay().interval(),
            final(self).replay().batch() == old(self).replay().batch(),
            final(self).curriculum() == old(self).curriculum(),
            final(self).steps() == old(self).steps(),
            final(self).max_episodes() == old(self).max_episodes(),
            final(self).log_interval() == old(self).log_interval(),
            final(self).random_side() == old(self).random_side(),
    {
        self.replay.seal_result(ok);
    }

    /// Counts one more completed episode.
    pub fn count_episode(&mut self)
        requires
            old(self).wf(),
            old(self).curriculum().episodes() < usize::MAX,
        ensures
            final(self).wf(),
            final(self).curriculum().episodes() == old(self).curriculum().episodes() + 1,
            final(self).curriculum().depth() == old(self).curriculum().depth(),
            final(self).curriculum().window() == old(self).curriculum().window(),
            final(self).curriculum().table() == old(self).curriculum().table(),
            final(self).curriculum().game() == old(self).curriculum().game(),
            final(self).curriculum().side() == old(self).curriculum().side(),
            final(self).curriculum().capacity() == old(self).curriculum().capacity(),
            final(self).replay() == old(self).replay(),
            final(self).steps() == old(self).steps(),
            final(self).max_episodes() == old(self).max_episodes(),
            final(self).log_interval() == old(self).log_interval(),
            final(self).random_side() == old(self).random_side(),
    {
        self.curriculum.count_episode();
    }

    /// Whether replay learning runs now (see [`ReplaySchedule::replay_due`]
    /// at the current episode count); returns the batch size when it does.
    pub fn replay_due(&self) -> (batch: Option<usize>)
        ensures
            (batch is Some) == (self.replay().sealed() && self.replay().interval() > 0
                && multiple_of(self.curriculum().episodes(), self.replay().interval())
                && self.curriculum().episodes() > self.replay().last_replay()),
            batch matches Some(b) ==> b == self.replay().batch(),
    {
        if self.replay.replay_due(self.curriculum.episode_count()) {
            Some(self.replay.batch_size())
        } else {
            None
        }
    }

    /// Records the result of the replay learning call that
    /// [`replay_due`](Self::replay_due) asked for at the current episode
    /// count.
    pub fn replay_result(&mut self, ok: bool)
        requires
            old(self).wf(),
            old(self).replay().sealed(),
            old(self).replay().interval() > 0,
            multiple_of(old(self).curriculum().episodes(), old(self).replay().interval()),
            old(self).curriculum().episodes() > old(self).replay().last_replay(),
            old(self).replay().invocations() < usize::MAX,
        ensures
            final(self).wf(),
            final(self).replay().invocations() == old(self).replay().invocations() + if ok {
                1nat
            } else {
                0nat
            },
            final(self).replay().sealed() == old(self).replay().sealed(),
            final(self).replay().attempts() == old(self).replay().attempts(),
            final(self).replay().enabled() == old(self).replay().enabled(),
            final(self).replay().interval() == old(self).replay().interval(),
            final(self).replay().batch() == old(self).replay().batch(),
            final(self).curriculum() == old(self).curriculum(),
            final(self).steps() == old(self).steps(),
            final(self).max_episodes() == old(self).max_episodes(),
            final(self).log_interval() == old(self).log_interval(),
            final(self).random_side() == old(self).random_side(),
    {
        self.replay.replay_result(self.curriculum.episode_count(), ok);
    }

    /// Whether a progress line is due: the log interval is positive and
    /// divides the episode count.
    pub fn log_due(&self) -> (b: bool)
        ensures
            b == (self.log_interval() > 0 && multiple_of(
                self.curriculum().episodes(),
                self.log_interval(),
            )),
    {
        self.log_interval > 0 && is_multiple_of(self.curriculum.episode_count(), self.log_interval)
    }

    /// Returns the number of episodes completed.
    pub fn episode_count(&self) -> (n: usize)
        ensures
            n == self.curriculum().episodes(),
    {
        self.curriculum.episode_count()
    }

    /// Returns the number of agent steps taken.
    pub fn step_count(&self) -> (n: usize)
        ensures
            n == self.steps(),
    {
        self.step_count
    }

    /// Returns the curriculum depth.
    pub fn current_depth(&self) -> (d: usize)
        ensures
            d == self.curriculum().depth(),
    {
        self.curriculum.current_depth()
    }

    /// Returns whether the agent's side is drawn at random.
    pub fn random_side_enabled(&self) -> (b: bool)
        ensures
            b == self.random_side(),
    {
        self.random_side
    }

    /// Returns the episode limit.
    pub fn max_episodes_limit(&self) -> (n: usize)
        ensures
            n == self.max_episodes(),
    {
        self.max_episodes
    }

    /// Returns the curriculum.
    pub fn curriculum_ref(&self) -> (c: &Curriculum)
        ensures
            *c == self.curriculum(),
    {
        &self.curriculum
    }

    /// Returns the replay schedule.
    pub fn replay_ref(&self) -> (r: &ReplaySchedule)
        ensures
            *r == self.replay(),
    {
        &self.replay
    }
}

} // verus!
