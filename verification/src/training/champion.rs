//! Champion search bookkeeping: a number of independent training sessions,
//! each with its own random seed, of which the best confirmed candidate
//! becomes the champion.
//!
//! The scoring is floating point and made by the caller; this module
//! decides how many sessions run and with which seeds, when a candidate is
//! scored, at which depth, which candidates go to the confirmation round,
//! and remembers the champion's depth, session and seed.
use rand::rngs::ThreadRng;

use vstd::prelude::*;

use crate::training::continuous::multiple_of;
use crate::utils::config::ChampionSection;
use crate::utils::random::{random_u64, system_rng};
use crate::utils::text::{decimal, push_decimal};

verus! {

/// The file name of a session's peak snapshot: `tmp_{stem}_peak_{iteration}.json`.
pub open spec fn snapshot_name(stem: Seq<char>, iteration: nat) -> Seq<char> {
    "tmp_"@ + stem + "_peak_"@ + decimal(iteration) + ".json"@
}

/// The file name of session `iteration`'s peak snapshot for an output file
/// whose stem is `stem`.
pub fn snapshot_file_name(stem: &str, iteration: usize) -> (r: String)
    ensures
        r@ == snapshot_name(stem@, iteration as nat),
{
    proof {
        reveal_strlit("tmp_");
        reveal_strlit("_peak_");
        reveal_strlit(".json");
    }
    let mut r = String::new();
    r.append("tmp_");
    r.append(stem);
    r.append("_peak_");
    push_decimal(&mut r, iteration as u64);
    r.append(".json");
    r
}

/// State of a champion search.
pub struct ChampionSearch {
    n_iterations: usize,
    assessment_depth: usize,
    assessment_interval: usize,
    min_depth_filter: usize,
    started: usize,
    champion_depth: usize,
    champion_iteration: usize,
    champion_seed: u64,
    rng: ThreadRng,
}

impl ChampionSearch {
    /// Sessions to run.
    pub closed spec fn n_iterations(self) -> nat {
        self.n_iterations as nat
    }

    /// Deepest opponent used for scoring.
    pub closed spec fn assessment_depth(self) -> nat {
        self.assessment_depth as nat
    }

    /// Episodes between scoring rounds in a session.
    pub closed spec fn interval(self) -> nat {
        self.assessment_interval as nat
    }

    /// Smallest peak depth that goes to confirmation.
    pub closed spec fn min_depth_filter(self) -> nat {
        self.min_depth_filter as nat
    }

    /// Sessions started so far.
    pub closed spec fn started(self) -> nat {
        self.started as nat
    }

    /// The champion's depth, session and seed (all 0 before any champion).
    pub closed spec fn champion(self) -> (usize, usize, u64) {
        (self.champion_depth, self.champion_iteration, self.champion_seed)
    }

    /// A search with the settings of `cfg`: no session started, no champion.
    pub fn new(cfg: &ChampionSection) -> (s: Self)
        ensures
            s.n_iterations() == cfg.n_iterations,
            s.assessment_depth() == cfg.assessment_depth,
            s.interval() == cfg.assessment_interval,
            s.min_depth_filter() == cfg.min_depth_filter,
            s.started() == 0,
            s.champion() == (0usize, 0usize, 0u64),
    {
        Self {
            n_iterations: cfg.n_iterations,
            assessment_depth: cfg.assessment_depth,
            assessment_interval: cfg.assessment_interval,
            min_depth_filter: cfg.min_depth_filter,
            started: 0,
            champion_depth: 0,
            champion_iteration: 0,
            champion_seed: 0,
            rng: system_rng(),
        }
    }

    /// Starts the next session unless a stop was requested or all sessions
    /// ran: returns its number (from 1) and a fresh random seed.
    pub fn next_iteration(&mut self, stop_requested: bool) -> (r: Option<(usize, u64)>)
        ensures
            (r is Some) == (!stop_requested && old(self).started() < old(self).n_iterations()),
            r matches Some((it, _)) ==> it == old(self).started() + 1 && final(self).started()
                == it,
            r is None ==> final(self).started() == old(self).started(),
            final(self).n_iterations() == old(self).n_iterations(),
            final(self).assessment_depth() == old(self).assessment_depth(),
            final(self).interval() == old(self).interval(),
            final(self).min_depth_filter() == old(self).min_depth_filter(),
            final(self).champion() == old(self).champion(),
    {
        if stop_requested || self.started >= self.n_iterations {
            return None;
        }
        self.started = self.started + 1;
        let seed = random_u64(&mut self.rng);
        Some((self.started, seed))
    }

    /// Whether the candidate is scored after `episode` episodes of its
    /// session: the scoring interval divides the episode count.
    pub fn assessment_due(&self, episode: usize) -> (b: bool)
        ensures
            b == multiple_of(episode as nat, self.interval()),
    {
        if self.assessment_interval == 0 {
            episode == 0
        } else {
            episode % self.assessment_interval == 0
        }
    }

    /// The depth at which a candidate at curriculum depth `current_depth`
    /// is scored: its depth, capped at the assessment depth.
    pub fn scoring_depth(&self, current_depth: usize) -> (d: usize)
        ensures
            d as nat == if current_depth <= self.assessment_depth() {
                current_depth as nat
            } else {
                self.assessment_depth()
            },
    {
        if current_depth <= self.assessment_depth {
            current_depth
        } else {
            self.assessment_depth
        }
    }

    /// Whether a session's peak goes to the confirmation round: a snapshot
    /// was saved and its depth passes the depth filter.
    pub fn should_confirm(&self, has_snapshot: bool, peak_depth: usize) -> (b: bool)
        ensures
            b == (has_snapshot && peak_depth >= self.min_depth_filter()),
    {
        has_snapshot && peak_depth >= self.min_depth_filter
    }

    /// Makes the confirmed candidate of session `iteration` the champion.
    pub fn crown(&mut self, depth: usize, iteration: usize, seed: u64)
        ensures
            final(self).champion() == (depth, iteration, seed),
            final(self).started() == old(self).started(),
            final(self).n_iterations() == old(self).n_iterations(),
            final(self).assessment_depth() == old(self).assessment_depth(),
            final(self).interval() == old(self).interval(),
            final(self).min_depth_filter() == old(self).min_depth_filter(),
    {
        self.champion_depth = depth;
        self.champion_iteration = iteration;
        self.champion_seed = seed;
    }

    /// Returns the champion's depth (0 before any champion).
    pub fn champion_depth(&self) -> (d: usize)
        ensures
            d == self.champion().0,
    {
        self.champion_depth
    }

    /// Returns the champion's session number (0 before any champion).
    pub fn champion_iteration(&self) -> (i: usize)
        ensures
            i == self.champion().1,
    {
        self.champion_iteration
    }

    /// Returns the champion's seed (0 before any champion).
    pub fn champion_seed(&self) -> (s: u64)
        ensures
            s == self.champion().2,
    {
        self.champion_seed
    }
}

} // verus!
