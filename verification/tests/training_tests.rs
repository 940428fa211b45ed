use pc_tictactoe::env::minimax::MinimaxPlayer;
use pc_tictactoe::env::tictactoe::{GameResult, Player, TicTacToe};
use pc_tictactoe::training::champion::{snapshot_file_name, ChampionSearch};
use pc_tictactoe::training::continuous::{is_multiple_of, ContinuousState, ReplaySchedule};
use pc_tictactoe::training::curriculum::Curriculum;
use pc_tictactoe::training::episode::{
    open_game, outcome_for, play_agent_move, side_for_episode, OutcomeTally,
};
use pc_tictactoe::training::experiment::SweepParam;
use pc_tictactoe::utils::config::ChampionSection;
use pc_tictactoe::utils::metrics::GameOutcome;

/// Plays the lowest legal move for the agent until the game ends.
fn play_first_moves(c: &mut Curriculum) {
    while !c.env().is_terminal() {
        let a = c.env().valid_actions()[0];
        c.agent_move(a).unwrap();
    }
}

#[test]
fn test_side_alternates_by_episode() {
    assert_eq!(side_for_episode(0), Player::One);
    assert_eq!(side_for_episode(1), Player::Two);
    assert_eq!(side_for_episode(2), Player::One);
    assert_eq!(side_for_episode(7), Player::Two);
}

#[test]
fn test_outcome_for_agent_side() {
    assert_eq!(outcome_for(GameResult::Win(Player::One), Player::One), GameOutcome::Win);
    assert_eq!(outcome_for(GameResult::Win(Player::One), Player::Two), GameOutcome::Loss);
    assert_eq!(outcome_for(GameResult::Draw, Player::Two), GameOutcome::Draw);
    assert_eq!(outcome_for(GameResult::InProgress, Player::One), GameOutcome::Draw);
}

#[test]
fn test_opponent_opens_when_agent_is_second() {
    let mut env = TicTacToe::new();
    let mut opp = MinimaxPlayer::new(9);
    open_game(&mut env, &mut opp, Player::Two);
    assert_eq!(env.valid_actions().len(), 8);
    assert_eq!(env.current_player(), Player::Two);
    let (x, o) = env.bitboards();
    assert_eq!(x.count_ones(), 1);
    assert_eq!(o, 0);

    open_game(&mut env, &mut opp, Player::One);
    assert_eq!(env.valid_actions().len(), 9);
}

#[test]
fn test_agent_move_gets_a_reply_and_refusals_change_nothing() {
    let mut env = TicTacToe::new();
    let mut opp = MinimaxPlayer::new(9);
    open_game(&mut env, &mut opp, Player::One);
    play_agent_move(&mut env, &mut opp, 0, Player::One).unwrap();
    assert_eq!(env.valid_actions().len(), 7);
    assert_eq!(env.current_player(), Player::One);
    let before = env.bitboards();
    let err = play_agent_move(&mut env, &mut opp, 0, Player::One).unwrap_err();
    assert_eq!(err, "Cell 0 is already occupied");
    assert_eq!(env.bitboards(), before);
    let err = play_agent_move(&mut env, &mut opp, 9, Player::One).unwrap_err();
    assert_eq!(err, "Action 9 out of range [0, 9)");
}

#[test]
fn test_outcome_tally_counts_each_result() {
    let mut t = OutcomeTally::new();
    t.record(GameResult::Win(Player::One), Player::One);
    t.record(GameResult::Win(Player::Two), Player::One);
    t.record(GameResult::Draw, Player::One);
    t.record(GameResult::Draw, Player::Two);
    t.record(GameResult::InProgress, Player::Two);
    assert_eq!((t.wins, t.draws, t.losses), (1, 2, 1));
}

#[test]
fn test_curriculum_starts_at_depth_one() {
    let c = Curriculum::new(10);
    assert_eq!(c.current_depth(), 1);
    assert_eq!(c.episode_count(), 0);
    assert_eq!(c.metrics().count(), 0);
    assert_eq!(c.metrics().window_size(), 10);
}

#[test]
fn test_curriculum_advances_only_with_full_window() {
    let mut c = Curriculum::new(2);
    c.begin_episode(Player::One);
    play_first_moves(&mut c);
    c.record_outcome();
    // Window not yet full: no advance even when the threshold is passed.
    assert!(!c.try_advance(true));
    c.count_episode();
    c.begin_episode(c.alternating_side());
    assert_eq!(c.agent_side(), Player::Two);
    play_first_moves(&mut c);
    c.record_outcome();
    assert!(!c.try_advance(false));
    assert!(c.try_advance(true));
    assert_eq!(c.current_depth(), 2);
    assert_eq!(c.metrics().count(), 0);
    c.count_episode();
    assert_eq!(c.episode_count(), 2);
}

#[test]
fn test_curriculum_never_passes_depth_nine() {
    let mut c = Curriculum::new(0);
    for _ in 0..20 {
        c.try_advance(true);
        c.count_episode();
    }
    assert_eq!(c.current_depth(), 9);
    assert_eq!(c.episode_count(), 20);
}

#[test]
fn test_record_outcome_from_agent_side() {
    let mut c = Curriculum::new(5);
    c.begin_episode(Player::One);
    play_first_moves(&mut c);
    let o = c.record_outcome();
    let expected = outcome_for(c.env().result(), Player::One);
    assert_eq!(o, expected);
    assert_eq!(c.metrics().count_of(o), 1);
}

#[test]
fn test_is_multiple_of() {
    assert!(is_multiple_of(0, 0));
    assert!(!is_multiple_of(5, 0));
    assert!(is_multiple_of(10, 5));
    assert!(!is_multiple_of(11, 5));
}

#[test]
fn test_replay_disabled_never_seals() {
    let mut r = ReplaySchedule::new(0, 100, 64);
    assert!(!r.replay_enabled());
    assert!(!r.on_advance());
    assert_eq!(r.seal_attempts(), 0);
    assert!(!r.replay_due(100));
}

#[test]
fn test_seal_attempted_once_after_success() {
    let mut r = ReplaySchedule::new(256, 10, 32);
    assert!(r.replay_enabled());
    assert!(!r.replay_due(10));
    assert!(r.on_advance());
    r.seal_result(true);
    assert!(r.training_memories_sealed());
    assert!(!r.on_advance());
    assert!(!r.on_advance());
    assert_eq!(r.seal_attempts(), 1);
    assert!(r.replay_due(10));
    assert!(!r.replay_due(15));
    r.replay_result(10, true);
    assert!(!r.replay_due(10));
    assert!(r.replay_due(20));
    r.replay_result(20, false);
    assert_eq!(r.replay_invocations(), 1);
}

#[test]
fn test_failed_seal_retried_at_next_advance() {
    let mut r = ReplaySchedule::new(256, 10, 32);
    assert!(r.on_advance());
    r.seal_result(false);
    assert!(!r.training_memories_sealed());
    assert!(r.on_advance());
    r.seal_result(true);
    assert_eq!(r.seal_attempts(), 2);
    assert!(r.training_memories_sealed());
}

#[test]
fn test_continuous_state_initial_values() {
    let off = ContinuousState::new(100, 200, 0, false, 0, 100, 64);
    assert_eq!(off.replay_ref().replay_invocations(), 0);
    assert!(!off.replay_ref().training_memories_sealed());
    assert_eq!(off.replay_ref().seal_attempts(), 0);
    assert!(!off.replay_ref().replay_enabled());
    let on = ContinuousState::new(20, 100, 0, false, 256, 50, 64);
    assert!(on.replay_ref().replay_enabled());
    assert_eq!(on.step_count(), 0);
    assert_eq!(on.current_depth(), 1);
}

#[test]
fn test_continuous_state_stops_at_max_episodes() {
    let mut s = ContinuousState::new(1, 3, 0, false, 0, 100, 64);
    assert!(!s.should_stop(false));
    assert!(s.should_stop(true));
    for _ in 0..3 {
        s.start_episode(false);
        s.count_episode();
    }
    assert!(s.should_stop(false));
    assert_eq!(s.episode_count(), 3);
}

#[test]
fn test_continuous_state_sides() {
    let mut alternating = ContinuousState::new(1, 10, 0, false, 0, 100, 64);
    assert_eq!(alternating.start_episode(false), Player::One);
    alternating.count_episode();
    assert_eq!(alternating.start_episode(true), Player::Two);
    let mut random = ContinuousState::new(1, 10, 0, true, 0, 100, 64);
    assert_eq!(random.start_episode(true), Player::One);
    assert_eq!(random.start_episode(false), Player::Two);
}

#[test]
fn test_continuous_state_replay_and_log_schedule() {
    let mut s = ContinuousState::new(1, 100, 5, false, 256, 2, 16);
    s.start_episode(false);
    s.record_outcome();
    assert!(s.try_advance(true));
    assert!(s.seal_due());
    s.seal_result(true);
    s.count_episode();
    assert_eq!(s.replay_due(), None);
    s.start_episode(false);
    s.record_outcome();
    s.count_episode();
    assert_eq!(s.replay_due(), Some(16));
    s.replay_result(true);
    assert_eq!(s.replay_ref().replay_invocations(), 1);
    for _ in 0..3 {
        s.count_episode();
    }
    assert!(s.log_due());
    s.count_step();
    assert_eq!(s.step_count(), 1);
    // Later advances never seal again.
    s.record_outcome();
    if s.try_advance(true) {
        assert!(!s.seal_due());
    }
    assert_eq!(s.replay_ref().seal_attempts(), 1);
}

#[test]
fn test_snapshot_file_name() {
    assert_eq!(snapshot_file_name("champion", 3), "tmp_champion_peak_3.json");
    assert_eq!(snapshot_file_name("", 12), "tmp__peak_12.json");
}

#[test]
fn test_champion_search_schedule() {
    let mut cfg = ChampionSection::default();
    cfg.n_iterations = 2;
    cfg.assessment_interval = 25;
    cfg.assessment_depth = 5;
    cfg.min_depth_filter = 3;
    let mut s = ChampionSearch::new(&cfg);
    assert!(s.next_iteration(true).is_none());
    let (first, first_seed) = s.next_iteration(false).unwrap();
    assert_eq!(first, 1);
    let (second, seed) = s.next_iteration(false).unwrap();
    assert_eq!(second, 2);
    assert_ne!(first_seed, seed, "sessions draw fresh seeds");
    assert!(s.next_iteration(false).is_none());
    assert!(s.assessment_due(50));
    assert!(!s.assessment_due(51));
    assert_eq!(s.scoring_depth(7), 5);
    assert_eq!(s.scoring_depth(2), 2);
    assert!(s.should_confirm(true, 3));
    assert!(!s.should_confirm(true, 2));
    assert!(!s.should_confirm(false, 9));
    assert_eq!((s.champion_depth(), s.champion_iteration(), s.champion_seed()), (0, 0, 0));
    s.crown(6, second, seed);
    assert_eq!((s.champion_depth(), s.champion_iteration(), s.champion_seed()), (6, 2, seed));
}

#[test]
fn test_sweep_param_name_and_parsing() {
    assert_eq!(SweepParam::Lambda.name(), "lambda");
    assert_eq!(SweepParam::from_name("LAMBDA"), Ok(SweepParam::Lambda));
    assert_eq!(SweepParam::from_name("lambda"), Ok(SweepParam::Lambda));
    assert_eq!(
        SweepParam::from_name("Gamma"),
        Err("Unknown sweep parameter 'gamma'; expected 'lambda'".to_string())
    );
}

#[test]
fn test_replay_bound_on_concrete_run() {
    // Interval 3: over 10 episodes at most 10 / 3 = 3 successful replays.
    let mut s = ContinuousState::new(1, 100, 0, false, 64, 3, 8);
    s.start_episode(false);
    s.record_outcome();
    assert!(s.try_advance(true));
    assert!(s.seal_due());
    s.seal_result(true);
    let mut replays = 0;
    for _ in 0..10 {
        s.count_episode();
        if s.replay_due().is_some() {
            s.replay_result(true);
            replays += 1;
        }
    }
    assert_eq!(replays, 3);
    assert_eq!(s.replay_ref().replay_invocations(), 3);
    assert!(s.replay_ref().replay_invocations() <= s.episode_count() / 3);
}

/// A continuous loop state with the given replay capacity and interval,
/// window size and episode limit.
fn loop_state(replay_training_capacity: usize, replay_interval: usize, window_size: usize, max_episodes: usize) -> ContinuousState {
    ContinuousState::new(window_size, max_episodes, 0, false, replay_training_capacity, replay_interval, 64)
}

#[test]
fn test_should_stop_false_initially() {
    let state = loop_state(0, 100, 100, 100);
    assert!(!state.should_stop(false));
}

#[test]
fn test_should_stop_true_after_stop_flag() {
    let state = loop_state(0, 100, 100, 100);
    assert!(state.should_stop(true));
}

#[test]
fn test_trainer_construction_phase2_off_initial_state() {
    let state = loop_state(0, 100, 100, 200);
    let replay = state.replay_ref();
    assert_eq!(replay.replay_invocations(), 0);
    assert!(!replay.training_memories_sealed());
    assert_eq!(replay.seal_attempts(), 0);
    assert!(!replay.replay_enabled(), "replay_enabled should be false when capacity=0");
}

#[test]
fn test_trainer_construction_phase2_on_initial_state() {
    let state = loop_state(256, 50, 20, 100);
    let replay = state.replay_ref();
    assert_eq!(replay.replay_invocations(), 0);
    assert!(!replay.training_memories_sealed());
    assert_eq!(replay.seal_attempts(), 0);
    assert!(replay.replay_enabled(), "replay_enabled should be true when capacity>0");
}
