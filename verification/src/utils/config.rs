//! Application configuration: the integer and text sections, their
//! defaults, and the validation rules over them.
//!
//! The full configuration also carries real-valued hyperparameters; those,
//! and the TOML parsing, are handled by the application around this library.
//! The rules here check topology consistency (the critic input size must
//! match the actor input plus latent size), hysteresis windows, replay
//! buffer sizing, champion search and stress test settings.
use vstd::prelude::*;

use crate::utils::text::{
    ascii_lowercase, decimal, is_ascii_text, lowercase, push_decimal, text_eq, to_lowercase,
};

verus! {

/// Configuration validation error.
pub struct ConfigError {
    /// Human-readable description of the validation failure.
    pub message: String,
}

impl ConfigError {
    /// The error's display text: `config validation error: <message>`.
    pub fn describe(&self) -> (s: String)
        ensures
            s@ == "config validation error: "@ + self.message@,
    {
        let mut s = String::new();
        s.append("config validation error: ");
        s.append(self.message.as_str());
        s
    }
}

/// Builds an error from a message.
fn error(message: String) -> (e: ConfigError)
    ensures
        e.message@ == message@,
{
    ConfigError { message }
}

// ─── Activations ────────────────────────────────────────────────────────────

/// Activation functions that layers may use.
#[derive(Debug, Clone, Copy, PartialEq, Eq, Structural)]
pub enum ActivationKind {
    /// Hyperbolic tangent.
    Tanh,
    /// Rectified linear unit.
    Relu,
    /// Logistic sigmoid.
    Sigmoid,
    /// Exponential linear unit.
    Elu,
    /// Softsign, `x / (1 + |x|)`.
    Softsign,
    /// Identity.
    Linear,
}

/// The activation a lowercase name denotes, if any.
pub open spec fn activation_named(name: Seq<char>) -> Option<ActivationKind> {
    if name == "tanh"@ {
        Some(ActivationKind::Tanh)
    } else if name == "relu"@ {
        Some(ActivationKind::Relu)
    } else if name == "sigmoid"@ {
        Some(ActivationKind::Sigmoid)
    } else if name == "elu"@ {
        Some(ActivationKind::Elu)
    } else if name == "softsign"@ {
        Some(ActivationKind::Softsign)
    } else if name == "linear"@ {
        Some(ActivationKind::Linear)
    } else {
        None
    }
}

/// The lowercase name of each activation, as written in configurations.
pub open spec fn activation_name(k: ActivationKind) -> Seq<char> {
    match k {
        ActivationKind::Tanh => "tanh"@,
        ActivationKind::Relu => "relu"@,
        ActivationKind::Sigmoid => "sigmoid"@,
        ActivationKind::Elu => "elu"@,
        ActivationKind::Softsign => "softsign"@,
        ActivationKind::Linear => "linear"@,
    }
}

/// Each activation is selected by its own name and by no other: the name
/// of an activation selects that activation, and a name that selects an
/// activation is that activation's name (so distinct names select distinct
/// activations).
pub proof fn lemma_activation_names(k: ActivationKind, name: Seq<char>)
    ensures
        activation_named(activation_name(k)) == Some(k),
        activation_named(name) == Some(k) ==> name == activation_name(k),
{
    reveal_strlit("tanh");
    reveal_strlit("relu");
    reveal_strlit("sigmoid");
    reveal_strlit("elu");
    reveal_strlit("softsign");
    reveal_strlit("linear");
    let (t, r, g, e, f, l) = ("tanh"@, "relu"@, "sigmoid"@, "elu"@, "softsign"@, "linear"@);
    assert(t[0] != r[0] && t[0] != g[0] && t[0] != e[0] && t[0] != f[0] && t[0] != l[0]);
    assert(r[0] != g[0] && r[0] != e[0] && r[0] != f[0] && r[0] != l[0]);
    assert(g[0] != e[0] && g[0] != l[0] && g.len() != f.len());
    assert(e[0] != f[0] && e[0] != l[0]);
    assert(f[0] != l[0]);
}

/// The message for an unknown (lowercased) activation name.
pub open spec fn unknown_activation_message(name: Seq<char>) -> Seq<char> {
    "unknown activation '"@ + name
        + "'; expected tanh, relu, sigmoid, elu, softsign, or linear"@
}

/// The outcome of parsing activation name `s` (case-insensitive).
pub open spec fn activation_parse(s: Seq<char>) -> Result<ActivationKind, Seq<char>> {
    match activation_named(lowercase(s)) {
        Some(k) => Ok(k),
        None => Err(unknown_activation_message(lowercase(s))),
    }
}

/// Selects the activation of an already lowercased name.
///
/// # Errors
///
/// Returns a [`ConfigError`] naming `name` if it is not a known activation.
pub fn activation_from_lowercase(name: &str) -> (r: Result<ActivationKind, ConfigError>)
    ensures
        r matches Ok(k) ==> activation_named(name@) == Some(k),
        r matches Ok(k) ==> name@ == activation_name(k),
        r matches Err(e) ==> activation_named(name@) is None && e.message@
            == unknown_activation_message(name@),
{
    proof {
        if let Some(k) = activation_named(name@) {
            lemma_activation_names(k, name@);
        }
    }
    if text_eq(name, "tanh") {
        Ok(ActivationKind::Tanh)
    } else if text_eq(name, "relu") {
        Ok(ActivationKind::Relu)
    } else if text_eq(name, "sigmoid") {
        Ok(ActivationKind::Sigmoid)
    } else if text_eq(name, "elu") {
        Ok(ActivationKind::Elu)
    } else if text_eq(name, "softsign") {
        Ok(ActivationKind::Softsign)
    } else if text_eq(name, "linear") {
        Ok(ActivationKind::Linear)
    } else {
        let mut m = String::new();
        m.append("unknown activation '");
        m.append(name);
        m.append("'; expected tanh, relu, sigmoid, elu, softsign, or linear");
        Err(error(m))
    }
}

/// Parses an activation name string (case-insensitive).
///
/// # Errors
///
/// Returns a [`ConfigError`] if the string does not match a known activation
/// (tanh, relu, sigmoid, elu, softsign, linear).
pub fn parse_activation(s: &str) -> (r: Result<ActivationKind, ConfigError>)
    ensures
        r matches Ok(k) ==> activation_parse(s@) == Ok::<ActivationKind, Seq<char>>(k),
        r matches Err(e) ==> activation_parse(s@) == Err::<ActivationKind, Seq<char>>(
            e.message@,
        ),
        is_ascii_text(s@) ==> (r is Ok) == (activation_named(ascii_lowercase(s@)) is Some),
        is_ascii_text(s@) ==> (r matches Ok(k) ==> activation_named(ascii_lowercase(s@)) == Some(k)),
        is_ascii_text(s@) ==> (r matches Ok(k) ==> ascii_lowercase(s@) == activation_name(k)),
{
    let lower = to_lowercase(s);
    activation_from_lowercase(lower.as_str())
}

/// Definition of a single hidden layer.
#[derive(Debug, Clone)]
pub struct HiddenLayerDef {
    /// Number of neurons.
    pub size: usize,
    /// Activation function name (case-insensitive).
    pub activation: String,
}

/// A hidden layer with its activation resolved.
#[derive(Debug, Clone, Copy, PartialEq, Eq, Structural)]
pub struct LayerSpec {
    /// Number of neurons.
    pub size: usize,
    /// Activation function.
    pub activation: ActivationKind,
}

/// Index of the first layer whose activation does not parse, from `i` on.
pub open spec fn first_bad_layer(defs: Seq<HiddenLayerDef>, i: int) -> int
    decreases defs.len() - i,
{
    if i < 0 || i >= defs.len() {
        defs.len() as int
    } else if activation_parse(defs[i].activation@) is Err {
        i
    } else {
        first_bad_layer(defs, i + 1)
    }
}

/// Converts hidden layer definitions into layers with resolved activations.
///
/// # Errors
///
/// Returns the [`ConfigError`] of the first layer whose activation string
/// is invalid.
pub fn convert_hidden(defs: &[HiddenLayerDef]) -> (r: Result<Vec<LayerSpec>, ConfigError>)
    ensures
        r matches Ok(v) ==> {
            &&& first_bad_layer(defs@, 0) == defs@.len()
            &&& v@.len() == defs@.len()
            &&& forall|i: int|
                0 <= i < defs@.len() ==> #[trigger] v@[i].size == defs@[i].size
                    && activation_parse(defs@[i].activation@) == Ok::<ActivationKind, Seq<char>>(
                    v@[i].activation,
                )
        },
        r matches Err(e) ==> {
            let k = first_bad_layer(defs@, 0);
            &&& 0 <= k < defs@.len()
            &&& activation_parse(defs@[k].activation@) == Err::<ActivationKind, Seq<char>>(
                e.message@,
            )
        },
{
    let mut out: Vec<LayerSpec> = Vec::new();
    let mut i: usize = 0;
    while i < defs.len()
        invariant
            i <= defs@.len(),
            out@.len() == i,
            first_bad_layer(defs@, 0) == first_bad_layer(defs@, i as int),
            forall|j: int|
                0 <= j < i ==> (#[trigger] out@[j]).size == defs@[j].size && activation_parse(
                    defs@[j].activation@,
                ) == Ok::<ActivationKind, Seq<char>>(out@[j].activation),
        decreases defs@.len() - i,
    {
        match parse_activation(defs[i].activation.as_str()) {
            Ok(k) => {
                let ghost before = out@;
                out.push(LayerSpec { size: defs[i].size, activation: k });
                assert(forall|j: int| 0 <= j < i ==> out@[j] == before[j]);
            },
            Err(e) => {
                return Err(e);
            },
        }
        i = i + 1;
    }
    Ok(out)
}

// ─── Sections ───────────────────────────────────────────────────────────────

/// Training loop configuration.
#[derive(Debug, Clone)]
pub struct TrainingSection {
    /// Number of episodes to train.
    pub episodes: usize,
    /// Checkpoint interval (episodes).
    pub checkpoint_interval: usize,
    /// How often to print progress stats (every N episodes).
    pub log_interval: usize,
    /// Random seed.
    pub seed: u64,
    /// Episodes between replay rounds while the replay buffer is active
    /// (`agent.replay_training_capacity > 0`); ignored otherwise. Lower
    /// values replay more often; higher values let the recent-memory
    /// compartment drift further between rounds.
    pub replay_interval: usize,
}

/// Continuous learning configuration.
#[derive(Debug, Clone)]
pub struct ContinuousSection {
    /// Maximum episodes for continuous mode.
    pub max_episodes: usize,
    /// Use random side assignment instead of alternating.
    pub random_side: bool,
}

/// Champion search configuration.
///
/// Controls how many training sessions are run, how the best model is
/// scored, and where the winning checkpoint is written.
#[derive(Debug, Clone)]
pub struct ChampionSection {
    /// Number of independent training sessions to run.
    pub n_iterations: usize,
    /// Minimax depth used to evaluate candidates, capped at the agent's
    /// current curriculum depth. Lower values speed up evaluation but give
    /// every candidate that reached beyond it the same depth bonus.
    pub assessment_depth: usize,
    /// Number of games per intra-session scoring round.
    pub assessment_games_running: usize,
    /// Number of games for the final confirmation scoring at session end.
    pub assessment_games_final: usize,
    /// Episodes between running-scoring rounds during a session.
    pub assessment_interval: usize,
    /// File path where the champion model is saved. Must be non-empty.
    pub output_path: String,
    /// Skip final scoring if the session's depth is below this value;
    /// 0 = no filter.
    pub min_depth_filter: usize,
}

/// Stress test configuration.
///
/// Controls the champion model path, opponent depth range, episode budget,
/// assessment schedule, and output paths for the drift log and saved agent.
#[derive(Debug, Clone)]
pub struct StressTestSection {
    /// Path to the champion model to load.
    pub champion_path: String,
    /// Minimum opponent depth (inclusive). Must be in [1, 9].
    pub opponent_depth_min: usize,
    /// Maximum opponent depth (inclusive). Must be in [1, 9].
    pub opponent_depth_max: usize,
    /// Maximum episodes to run. 0 = unlimited (until interrupted).
    pub max_episodes: usize,
    /// Episodes between scoring rounds.
    pub assessment_interval: usize,
    /// Games per scoring round. Must be > 0.
    pub assessment_games: usize,
    /// Path for the CSV drift log output. Must be non-empty.
    pub log_path: String,
    /// Path for saving the agent after the stress test. Must be non-empty.
    pub output_agent_path: String,
}

/// Logger configuration.
#[derive(Debug, Clone)]
pub struct LoggerSection {
    /// Minimum log level: "debug", "info", "training", "warning", "error".
    pub level: String,
    /// Path to log file (optional).
    pub file: Option<String>,
    /// Path to CSV metrics file (optional).
    pub csv_file: Option<String>,
    /// Maximum number of log file backups for rotation.
    pub max_backups: usize,
    /// Maximum log file size in bytes before rotation.
    pub max_size: u64,
}

// ─── Default values ─────────────────────────────────────────────────────────

/// Default number of champion search sessions: 50.
pub fn default_champion_n_iterations() -> (r: usize)
    ensures
        r == 50,
{
    50
}

/// Default champion assessment depth: 9.
pub fn default_champion_assessment_depth() -> (r: usize)
    ensures
        r == 9,
{
    9
}

/// Default games per running scoring round: 50.
pub fn default_champion_games_running() -> (r: usize)
    ensures
        r == 50,
{
    50
}

/// Default games for the final confirmation scoring: 500.
pub fn default_champion_games_final() -> (r: usize)
    ensures
        r == 500,
{
    500
}

/// Default episodes between running scoring rounds: 1000.
pub fn default_champion_assessment_interval() -> (r: usize)
    ensures
        r == 1000,
{
    1000
}

/// Default champion output path: `champion.json`.
pub fn default_champion_output_path() -> (r: String)
    ensures
        r@ == "champion.json"@,
{
    "champion.json".to_owned()
}

/// Default actor input size: 9.
pub fn default_input_size() -> (r: usize)
    ensures
        r == 9,
{
    9
}

/// Default actor output size: 9.
pub fn default_output_size() -> (r: usize)
    ensures
        r == 9,
{
    9
}

/// Default critic input size: 27 (9 inputs + 18 latent).
pub fn default_critic_input_size() -> (r: usize)
    ensures
        r == 27,
{
    27
}

/// Adaptive surprise recalibration is on by default.
pub fn default_adaptive_surprise() -> (r: bool)
    ensures
        r,
{
    true
}

/// Default adaptive surprise buffer size: 400.
pub fn default_surprise_buffer_size() -> (r: usize)
    ensures
        r == 400,
{
    400
}

/// Default minimum inference steps: 1.
pub fn default_min_steps() -> (r: usize)
    ensures
        r == 1,
{
    1
}

/// Default maximum inference steps: 20.
pub fn default_max_steps() -> (r: usize)
    ensures
        r == 20,
{
    20
}

/// The default `true` for flags that are on unless configured off.
pub fn default_true() -> (r: bool)
    ensures
        r,
{
    true
}

/// Default training episodes: 10000.
pub fn default_episodes() -> (r: usize)
    ensures
        r == 10000,
{
    10000
}

/// Default checkpoint interval: 1000.
pub fn default_checkpoint_interval() -> (r: usize)
    ensures
        r == 1000,
{
    1000
}

/// Default progress log interval: 500.
pub fn default_log_interval() -> (r: usize)
    ensures
        r == 500,
{
    500
}

/// Default random seed: 42.
pub fn default_seed() -> (r: u64)
    ensures
        r == 42,
{
    42
}

/// Default episodes between replay rounds: 100.
pub fn default_replay_interval() -> (r: usize)
    ensures
        r == 100,
{
    100
}

/// Default curriculum window size: 100.
pub fn default_window_size() -> (r: usize)
    ensures
        r == 100,
{
    100
}

/// Default continuous-mode episode budget: 50000.
pub fn default_max_episodes() -> (r: usize)
    ensures
        r == 50000,
{
    50000
}

/// Default log level name: `info`.
pub fn default_log_level() -> (r: String)
    ensures
        r@ == "info"@,
{
    "info".to_owned()
}

/// Default number of rotated log backups: 3.
pub fn default_max_backups() -> (r: usize)
    ensures
        r == 3,
{
    3
}

/// Default log rotation size: 10 MiB.
pub fn default_max_size() -> (r: u64)
    ensures
        r == 10_485_760,
{
    10_485_760
}

/// Default actor output activation name: `tanh`.
pub fn default_activation_tanh() -> (r: String)
    ensures
        r@ == "tanh"@,
{
    "tanh".to_owned()
}

/// Default critic output activation name: `linear`.
pub fn default_activation_linear() -> (r: String)
    ensures
        r@ == "linear"@,
{
    "linear".to_owned()
}

/// Default fast EWMA window for hysteresis: 20.
pub fn default_fast_window() -> (r: usize)
    ensures
        r == 20,
{
    20
}

/// Default slow EWMA window for hysteresis: 100.
pub fn default_slow_window() -> (r: usize)
    ensures
        r == 100,
{
    100
}

/// Default frozen steps before the actor may wake the critic: 1000.
pub fn default_actor_wakes_critic_threshold() -> (r: u64)
    ensures
        r == 1000,
{
    1000
}

/// Default frozen steps before the critic may wake the actor: 1000.
pub fn default_critic_wakes_actor_threshold() -> (r: u64)
    ensures
        r == 1000,
{
    1000
}

/// Only rewarded transitions are replayed by default.
pub fn default_replay_positive_only() -> (r: bool)
    ensures
        r,
{
    true
}

/// Default replay batch size: 64.
pub fn default_replay_batch_size() -> (r: usize)
    ensures
        r == 64,
{
    64
}

/// Default stress test champion path: `champion.json`.
pub fn default_stress_champion_path() -> (r: String)
    ensures
        r@ == "champion.json"@,
{
    "champion.json".to_owned()
}

/// Default minimum stress opponent depth: 1.
pub fn default_stress_opponent_depth_min() -> (r: usize)
    ensures
        r == 1,
{
    1
}

/// Default maximum stress opponent depth: 9.
pub fn default_stress_opponent_depth_max() -> (r: usize)
    ensures
        r == 9,
{
    9
}

/// Default stress test episode budget: 100000.
pub fn default_stress_max_episodes() -> (r: usize)
    ensures
        r == 100_000,
{
    100_000
}

/// Default episodes between stress scoring rounds: 1000.
pub fn default_stress_assessment_interval() -> (r: usize)
    ensures
        r == 1000,
{
    1000
}

/// Default games per stress scoring round: 200.
pub fn default_stress_assessment_games() -> (r: usize)
    ensures
        r == 200,
{
    200
}

/// Default stress drift log path: `stress_test.csv`.
pub fn default_stress_log_path() -> (r: String)
    ensures
        r@ == "stress_test.csv"@,
{
    "stress_test.csv".to_owned()
}

/// Default path of the agent saved after a stress test.
pub fn default_stress_output_agent_path() -> (r: String)
    ensures
        r@ == "champion_post_stress.json"@,
{
    "champion_post_stress.json".to_owned()
}

/// Default actor hidden layers: one layer of 18 `tanh` units.
pub fn default_actor_hidden() -> (r: Vec<HiddenLayerDef>)
    ensures
        r@.len() == 1,
        r@[0].size == 18,
        r@[0].activation@ == "tanh"@,
{
    let mut v: Vec<HiddenLayerDef> = Vec::new();
    v.push(HiddenLayerDef { size: 18, activation: "tanh".to_owned() });
    v
}

/// Default critic hidden layers: one layer of 36 `tanh` units.
pub fn default_critic_hidden() -> (r: Vec<HiddenLayerDef>)
    ensures
        r@.len() == 1,
        r@[0].size == 36,
        r@[0].activation@ == "tanh"@,
{
    let mut v: Vec<HiddenLayerDef> = Vec::new();
    v.push(HiddenLayerDef { size: 36, activation: "tanh".to_owned() });
    v
}

impl Default for TrainingSection {
    fn default() -> (r: Self)
        ensures
            r.episodes == 10000,
            r.checkpoint_interval == 1000,
            r.log_interval == 500,
            r.seed == 42,
            r.replay_interval == 100,
    {
        Self {
            episodes: default_episodes(),
            checkpoint_interval: default_checkpoint_interval(),
            log_interval: default_log_interval(),
            seed: default_seed(),
            replay_interval: default_replay_interval(),
        }
    }
}

impl TrainingSection {
    /// Applies command-line overrides: only `Some` values replace the
    /// configured episode count and seed.
    pub fn apply_cli_overrides(&mut self, episodes: Option<usize>, seed: Option<u64>)
        ensures
            final(self).episodes == match episodes {
                Some(e) => e,
                None => old(self).episodes,
            },
            final(self).seed == match seed {
                Some(v) => v,
                None => old(self).seed,
            },
            final(self).checkpoint_interval == old(self).checkpoint_interval,
            final(self).log_interval == old(self).log_interval,
            final(self).replay_interval == old(self).replay_interval,
    {
        if let Some(ep) = episodes {
            self.episodes = ep;
        }
        if let Some(v) = seed {
            self.seed = v;
        }
    }
}

impl Default for ContinuousSection {
    fn default() -> (r: Self)
        ensures
            r.max_episodes == 50000,
            !r.random_side,
    {
        Self { max_episodes: default_max_episodes(), random_side: false }
    }
}

impl Default for ChampionSection {
    fn default() -> (r: Self)
        ensures
            r.n_iterations == 50,
            r.assessment_depth == 9,
            r.assessment_games_running == 50,
            r.assessment_games_final == 500,
            r.assessment_interval == 1000,
            r.output_path@ == "champion.json"@,
            r.min_depth_filter == 0,
    {
        Self {
            n_iterations: default_champion_n_iterations(),
            assessment_depth: default_champion_assessment_depth(),
            assessment_games_running: default_champion_games_running(),
            assessment_games_final: default_champion_games_final(),
            assessment_interval: default_champion_assessment_interval(),
            output_path: default_champion_output_path(),
            min_depth_filter: 0,
        }
    }
}

impl Default for StressTestSection {
    fn default() -> (r: Self)
        ensures
            r.champion_path@ == "champion.json"@,
            r.opponent_depth_min == 1,
            r.opponent_depth_max == 9,
            r.max_episodes == 100_000,
            r.assessment_interval == 1000,
            r.assessment_games == 200,
            r.log_path@ == "stress_test.csv"@,
            r.output_agent_path@ == "champion_post_stress.json"@,
    {
        Self {
            champion_path: default_stress_champion_path(),
            opponent_depth_min: default_stress_opponent_depth_min(),
            opponent_depth_max: default_stress_opponent_depth_max(),
            max_episodes: default_stress_max_episodes(),
            assessment_interval: default_stress_assessment_interval(),
            assessment_games: default_stress_assessment_games(),
            log_path: default_stress_log_path(),
            output_agent_path: default_stress_output_agent_path(),
        }
    }
}

impl Default for LoggerSection {
    fn default() -> (r: Self)
        ensures
            r.level@ == "info"@,
            r.file is None,
            r.csv_file is None,
            r.max_backups == 3,
            r.max_size == 10_485_760,
    {
        Self {
            level: default_log_level(),
            file: None,
            csv_file: None,
            max_backups: default_max_backups(),
            max_size: default_max_size(),
        }
    }
}

// ─── Validation ─────────────────────────────────────────────────────────────

/// Decimal text of a count.
pub open spec fn dec(n: nat) -> Seq<char> {
    decimal(n)
}

/// The first violated champion search rule, with its message.
pub open spec fn champion_violation(c: ChampionSection) -> Option<Seq<char>> {
    if c.n_iterations == 0 {
        Some("champion.n_iterations must be > 0"@)
    } else if c.assessment_depth < 1 || c.assessment_depth > 9 {
        Some("champion.assessment_depth ("@ + dec(c.assessment_depth as nat) + ") must be in [1, 9]"@)
    } else if c.assessment_games_running == 0 {
        Some("champion.assessment_games_running must be > 0"@)
    } else if c.assessment_games_final == 0 {
        Some("champion.assessment_games_final must be > 0"@)
    } else if c.assessment_interval == 0 {
        Some("champion.assessment_interval must be > 0"@)
    } else if c.output_path@.len() == 0 {
        Some("champion.output_path must be non-empty"@)
    } else {
        None
    }
}

/// The first violated stress test rule, with its message.
pub open spec fn stress_violation(s: StressTestSection) -> Option<Seq<char>> {
    if s.opponent_depth_min < 1 || s.opponent_depth_min > 9 {
        Some("stress_test.opponent_depth_min ("@ + dec(s.opponent_depth_min as nat) + ") must be in [1, 9]"@)
    } else if s.opponent_depth_max < 1 || s.opponent_depth_max > 9 {
        Some("stress_test.opponent_depth_max ("@ + dec(s.opponent_depth_max as nat) + ") must be in [1, 9]"@)
    } else if s.opponent_depth_min > s.opponent_depth_max {
        Some("stress_test.opponent_depth_min ("@ + dec(s.opponent_depth_min as nat)
            + ") > opponent_depth_max ("@ + dec(s.opponent_depth_max as nat) + ")"@)
    } else if s.assessment_interval == 0 {
        Some("stress_test.assessment_interval must be > 0"@)
    } else if s.assessment_games == 0 {
        Some("stress_test.assessment_games must be > 0"@)
    } else if s.champion_path@.len() == 0 {
        Some("stress_test.champion_path must be non-empty"@)
    } else if s.log_path@.len() == 0 {
        Some("stress_test.log_path must be non-empty"@)
    } else if s.output_agent_path@.len() == 0 {
        Some("stress_test.output_agent_path must be non-empty"@)
    } else if s.champion_path@ == s.output_agent_path@ {
        Some(
            "stress_test.output_agent_path must differ from champion_path (the stress test must not overwrite its input champion)"@,
        )
    } else {
        None
    }
}

/// Sum of the hidden layer sizes.
pub open spec fn latent_sum(defs: Seq<HiddenLayerDef>) -> nat
    decreases defs.len(),
{
    if defs.len() == 0 {
        0
    } else {
        latent_sum(defs.drop_last()) + defs.last().size as nat
    }
}

/// The message for a critic input size that does not match the actor.
pub open spec fn topology_message(actual: nat, input: nat, latent: nat) -> Seq<char> {
    "critic.input_size ("@ + dec(actual) + ") != actor.input_size ("@ + dec(input)
        + ") + sum(hidden sizes) ("@ + dec(latent) + ") = "@ + dec(input + latent)
}

/// The first violated replay buffer rule, with its message.
pub open spec fn replay_violation(
    training_capacity: nat,
    recent_capacity: nat,
    batch_size: nat,
    replay_interval: nat,
) -> Option<Seq<char>> {
    if training_capacity == 0 && recent_capacity > 0 {
        Some("replay_recent_capacity > 0 requires replay_training_capacity > 0"@)
    } else if (training_capacity > 0 || recent_capacity > 0) && batch_size == 0 {
        Some("replay_batch_size must be > 0 when replay buffer is enabled"@)
    } else if training_capacity > 0 && replay_interval == 0 {
        Some("training.replay_interval must be > 0 when agent.replay_training_capacity > 0"@)
    } else if training_capacity > 0 && batch_size > training_capacity {
        Some("replay_batch_size ("@ + dec(batch_size) + ") must be <= replay_training_capacity ("@
            + dec(training_capacity) + ") — cannot sample more than buffer holds"@)
    } else {
        None
    }
}

/// The message for hysteresis windows of `role` ("actor" or "critic") in
/// the wrong order.
pub open spec fn window_message(role: Seq<char>, fast: nat, slow: nat) -> Seq<char> {
    role + "_fast_window ("@ + dec(fast) + ") must be < "@ + role + "_slow_window ("@ + dec(slow)
        + ")"@
}

/// The champion search settings pass exactly when every rule holds: at
/// least one iteration, a scoring depth in `[1, 9]`, positive game counts
/// and interval, and an output path.
pub proof fn lemma_champion_rules(c: ChampionSection)
    ensures
        (champion_violation(c) is None) <==> (c.n_iterations > 0 && 1 <= c.assessment_depth <= 9
            && c.assessment_games_running > 0 && c.assessment_games_final > 0
            && c.assessment_interval > 0 && c.output_path@.len() > 0),
{
}

/// The stress test settings pass exactly when every rule holds: opponent
/// depths with `1 <= min <= max <= 9`, a positive interval and game count,
/// three non-empty paths, and an output path other than the champion's.
pub proof fn lemma_stress_rules(s: StressTestSection)
    ensures
        (stress_violation(s) is None) <==> (1 <= s.opponent_depth_min <= s.opponent_depth_max <= 9
            && s.assessment_interval > 0 && s.assessment_games > 0 && s.champion_path@.len() > 0
            && s.log_path@.len() > 0 && s.output_agent_path@.len() > 0 && s.champion_path@
            != s.output_agent_path@),
{
}

/// The replay settings pass exactly when every rule holds: a recent
/// compartment only beside a training one, a positive batch whenever the
/// buffer is enabled, and, with a training compartment, a positive replay
/// interval and a batch no larger than its capacity.
pub proof fn lemma_replay_rules(
    training_capacity: nat,
    recent_capacity: nat,
    batch_size: nat,
    replay_interval: nat,
)
    ensures
        (replay_violation(training_capacity, recent_capacity, batch_size, replay_interval) is None)
            <==> ((recent_capacity > 0 ==> training_capacity > 0) && ((training_capacity > 0
            || recent_capacity > 0) ==> batch_size > 0) && (training_capacity > 0 ==> replay_interval
            > 0 && batch_size <= training_capacity)),
{
}

/// Result of a rule check: `Ok` exactly when there is no violation, else
/// the violation's message.
pub open spec fn matches_violation(r: Result<(), ConfigError>, v: Option<Seq<char>>) -> bool {
    match r {
        Ok(()) => v is None,
        Err(e) => v == Some(e.message@),
    }
}

impl ChampionSection {
    /// Validates champion search configuration fields.
    ///
    /// # Errors
    ///
    /// Returns a [`ConfigError`] for the first of:
    /// - `n_iterations == 0`
    /// - `assessment_depth` outside `[1, 9]`
    /// - `assessment_games_running == 0`
    /// - `assessment_games_final == 0`
    /// - `assessment_interval == 0`
    /// - `output_path` is empty
    pub fn validate(&self) -> (r: Result<(), ConfigError>)
        ensures
            matches_violation(r, champion_violation(*self)),
            (r is Ok) <==> (self.n_iterations > 0 && 1 <= self.assessment_depth <= 9
                && self.assessment_games_running > 0 && self.assessment_games_final > 0
                && self.assessment_interval > 0 && self.output_path@.len() > 0),
    {
        proof {
            lemma_champion_rules(*self);
        }
        if self.n_iterations == 0 {
            return Err(error("champion.n_iterations must be > 0".to_owned()));
        }
        if self.assessment_depth < 1 || self.assessment_depth > 9 {
            let mut m = String::new();
            m.append("champion.assessment_depth (");
            push_decimal(&mut m, self.assessment_depth as u64);
            m.append(") must be in [1, 9]");
            return Err(error(m));
        }
        if self.assessment_games_running == 0 {
            return Err(error("champion.assessment_games_running must be > 0".to_owned()));
        }
        if self.assessment_games_final == 0 {
            return Err(error("champion.assessment_games_final must be > 0".to_owned()));
        }
        if self.assessment_interval == 0 {
            return Err(error("champion.assessment_interval must be > 0".to_owned()));
        }
        if self.output_path.as_str().is_empty() {
            return Err(error("champion.output_path must be non-empty".to_owned()));
        }
        Ok(())
    }
}

impl StressTestSection {
    /// Validates stress test configuration fields.
    ///
    /// # Errors
    ///
    /// Returns a [`ConfigError`] for the first of:
    /// - `opponent_depth_min` or `opponent_depth_max` outside `[1, 9]`
    /// - `opponent_depth_min > opponent_depth_max`
    /// - `assessment_interval == 0` or `assessment_games == 0`
    /// - `champion_path`, `log_path`, or `output_agent_path` is empty
    /// - `output_agent_path == champion_path` (would clobber the input champion)
    pub fn validate(&self) -> (r: Result<(), ConfigError>)
        ensures
            matches_violation(r, stress_violation(*self)),
            (r is Ok) <==> (1 <= self.opponent_depth_min <= self.opponent_depth_max <= 9
                && self.assessment_interval > 0 && self.assessment_games > 0
                && self.champion_path@.len() > 0 && self.log_path@.len() > 0
                && self.output_agent_path@.len() > 0 && self.champion_path@
                != self.output_agent_path@),
    {
        proof {
            lemma_stress_rules(*self);
        }
        if self.opponent_depth_min < 1 || self.opponent_depth_min > 9 {
            let mut m = String::new();
            m.append("stress_test.opponent_depth_min (");
            push_decimal(&mut m, self.opponent_depth_min as u64);
            m.append(") must be in [1, 9]");
            return Err(error(m));
        }
        if self.opponent_depth_max < 1 || self.opponent_depth_max > 9 {
            let mut m = String::new();
            m.append("stress_test.opponent_depth_max (");
            push_decimal(&mut m, self.opponent_depth_max as u64);
            m.append(") must be in [1, 9]");
            return Err(error(m));
        }
        if self.opponent_depth_min > self.opponent_depth_max {
            let mut m = String::new();
            m.append("stress_test.opponent_depth_min (");
            push_decimal(&mut m, self.opponent_depth_min as u64);
            m.append(") > opponent_depth_max (");
            push_decimal(&mut m, self.opponent_depth_max as u64);
            m.append(")");
            return Err(error(m));
        }
        if self.assessment_interval == 0 {
            return Err(error("stress_test.assessment_interval must be > 0".to_owned()));
        }
        if self.assessment_games == 0 {
            return Err(error("stress_test.assessment_games must be > 0".to_owned()));
        }
        if self.champion_path.as_str().is_empty() {
            return Err(error("stress_test.champion_path must be non-empty".to_owned()));
        }
        if self.log_path.as_str().is_empty() {
            return Err(error("stress_test.log_path must be non-empty".to_owned()));
        }
        if self.output_agent_path.as_str().is_empty() {
            return Err(error("stress_test.output_agent_path must be non-empty".to_owned()));
        }
        if self.champion_path == self.output_agent_path {
            return Err(
                error(
                    "stress_test.output_agent_path must differ from champion_path (the stress test must not overwrite its input champion)".to_owned(),
                ),
            );
        }
        Ok(())
    }
}

/// Validates topology consistency: the critic input size must equal the
/// actor input size plus the sum of the actor's hidden layer sizes.
///
/// # Errors
///
/// Returns a [`ConfigError`] describing the mismatch.
pub fn validate_topology(
    actor_input_size: usize,
    hidden_layers: &[HiddenLayerDef],
    critic_input_size: usize,
) -> (r: Result<(), ConfigError>)
    requires
        actor_input_size + latent_sum(hidden_layers@) <= usize::MAX,
    ensures
        matches_violation(
            r,
            if critic_input_size == actor_input_size + latent_sum(hidden_layers@) {
                None
            } else {
                Some(
                    topology_message(
                        critic_input_size as nat,
                        actor_input_size as nat,
                        latent_sum(hidden_layers@),
                    ),
                )
            },
        ),
{
    let mut sum: usize = 0;
    let mut i: usize = 0;
    while i < hidden_layers.len()
        invariant
            i <= hidden_layers@.len(),
            sum == latent_sum(hidden_layers@.take(i as int)),
            actor_input_size + latent_sum(hidden_layers@) <= usize::MAX,
        decreases hidden_layers@.len() - i,
    {
        proof {
            let d = hidden_layers@;
            assert(d.take(i as int + 1).drop_last() =~= d.take(i as int));
            lemma_latent_sum_prefix(d, i as int + 1);
        }
        sum = sum + hidden_layers[i].size;
        i = i + 1;
    }
    proof {
        assert(hidden_layers@.take(i as int) =~= hidden_layers@);
    }
    let expected = actor_input_size + sum;
    if critic_input_size != expected {
        let mut m = String::new();
        m.append("critic.input_size (");
        push_decimal(&mut m, critic_input_size as u64);
        m.append(") != actor.input_size (");
        push_decimal(&mut m, actor_input_size as u64);
        m.append(") + sum(hidden sizes) (");
        push_decimal(&mut m, sum as u64);
        m.append(") = ");
        push_decimal(&mut m, expected as u64);
        return Err(error(m));
    }
    Ok(())
}

/// A prefix's latent sum is at most the whole sum.
proof fn lemma_latent_sum_prefix(d: Seq<HiddenLayerDef>, n: int)
    requires
        0 <= n <= d.len(),
    ensures
        latent_sum(d.take(n)) <= latent_sum(d),
    decreases d.len() - n,
{
    if n < d.len() {
        lemma_latent_sum_prefix(d, n + 1);
        assert(d.take(n + 1).drop_last() =~= d.take(n));
    } else {
        assert(d.take(n) =~= d);
    }
}

/// Checks that hysteresis windows of `role` are ordered (`fast < slow`).
///
/// # Errors
///
/// Returns a [`ConfigError`] naming both windows when `fast >= slow`.
pub fn check_hysteresis_windows(role: &str, fast: usize, slow: usize) -> (r: Result<(), ConfigError>)
    ensures
        matches_violation(
            r,
            if fast < slow {
                None
            } else {
                Some(window_message(role@, fast as nat, slow as nat))
            },
        ),
{
    if fast >= slow {
        let mut m = String::new();
        m.append(role);
        m.append("_fast_window (");
        push_decimal(&mut m, fast as u64);
        m.append(") must be < ");
        m.append(role);
        m.append("_slow_window (");
        push_decimal(&mut m, slow as u64);
        m.append(")");
        return Err(error(m));
    }
    Ok(())
}

/// Checks the hysteresis windows of `role` when its hysteresis is
/// `enabled`; a disabled hysteresis has no window rule.
///
/// # Errors
///
/// Returns the [`ConfigError`] of [`check_hysteresis_windows`] when enabled
/// and `fast >= slow`.
pub fn check_hysteresis(role: &str, enabled: bool, fast: usize, slow: usize) -> (r: Result<(), ConfigError>)
    ensures
        matches_violation(
            r,
            if enabled && fast >= slow {
                Some(window_message(role@, fast as nat, slow as nat))
            } else {
                None
            },
        ),
{
    if enabled {
        check_hysteresis_windows(role, fast, slow)
    } else {
        Ok(())
    }
}

/// Checks the replay buffer sizing rules, in order: a recent compartment
/// needs a training compartment; an enabled buffer needs a positive batch
/// size; an active training compartment needs a positive replay interval
/// and a batch no larger than its capacity.
///
/// # Errors
///
/// Returns a [`ConfigError`] for the first violated rule.
pub fn check_replay(
    training_capacity: usize,
    recent_capacity: usize,
    batch_size: usize,
    replay_interval: usize,
) -> (r: Result<(), ConfigError>)
    ensures
        matches_violation(
            r,
            replay_violation(
                training_capacity as nat,
                recent_capacity as nat,
                batch_size as nat,
                replay_interval as nat,
            ),
        ),
        (r is Ok) <==> ((recent_capacity > 0 ==> training_capacity > 0) && ((training_capacity > 0
            || recent_capacity > 0) ==> batch_size > 0) && (training_capacity > 0 ==> replay_interval
            > 0 && batch_size <= training_capacity)),
{
    proof {
        lemma_replay_rules(
            training_capacity as nat,
            recent_capacity as nat,
            batch_size as nat,
            replay_interval as nat,
        );
    }
    if training_capacity == 0 && recent_capacity > 0 {
        return Err(error("replay_recent_capacity > 0 requires replay_training_capacity > 0".to_owned()));
    }
    if (training_capacity > 0 || recent_capacity > 0) && batch_size == 0 {
        return Err(error("replay_batch_size must be > 0 when replay buffer is enabled".to_owned()));
    }
    if training_capacity > 0 && replay_interval == 0 {
        return Err(
            error(
                "training.replay_interval must be > 0 when agent.replay_training_capacity > 0".to_owned(),
            ),
        );
    }
    if training_capacity > 0 && batch_size > training_capacity {
        let mut m = String::new();
        m.append("replay_batch_size (");
        push_decimal(&mut m, batch_size as u64);
        m.append(") must be <= replay_training_capacity (");
        push_decimal(&mut m, training_capacity as u64);
        m.append(") — cannot sample more than buffer holds");
        return Err(error(m));
    }
    Ok(())
}

} // verus!
