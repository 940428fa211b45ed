use std::collections::BTreeMap;

use pc_tictactoe::env::tictactoe::Player;
use pc_tictactoe::training::stress_test::{format_depth_histogram, StressSchedule, StressStatus};
use pc_tictactoe::utils::config::StressTestSection;

#[test]
fn test_format_depth_histogram_empty() {
    let h = BTreeMap::new();
    assert_eq!(format_depth_histogram(&h), "-");
}

#[test]
fn test_format_depth_histogram_sorted() {
    let mut h = BTreeMap::new();
    h.insert(7, 312_u64);
    h.insert(1, 245_u64);
    h.insert(3, 198_u64);
    h.insert(9, 245_u64);
    assert_eq!(format_depth_histogram(&h), "D1:245 D3:198 D7:312 D9:245");
}

#[test]
fn test_stress_status_display() {
    assert_eq!(StressStatus::Baseline.to_string(), "BASELINE");
    assert_eq!(StressStatus::Improved.to_string(), "IMPROVED");
    assert_eq!(StressStatus::Stable.to_string(), "STABLE");
    assert_eq!(StressStatus::Degraded.to_string(), "DEGRADED");
}

#[test]
fn test_format_depth_histogram_single_entry_and_zero_count() {
    let mut h = BTreeMap::new();
    h.insert(5, 0_u64);
    assert_eq!(format_depth_histogram(&h), "D5:0");
    h.insert(2, 1_000_000_u64);
    assert_eq!(format_depth_histogram(&h), "D2:1000000 D5:0");
}

fn schedule(min: usize, max: usize, interval: usize, max_episodes: usize) -> StressSchedule {
    let mut cfg = StressTestSection::default();
    cfg.opponent_depth_min = min;
    cfg.opponent_depth_max = max;
    cfg.assessment_interval = interval;
    cfg.max_episodes = max_episodes;
    StressSchedule::new(&cfg)
}

#[test]
fn test_stress_schedule_draws_depths_in_range_and_counts_them() {
    let mut s = schedule(3, 5, 10, 0);
    for episode in 0..60u64 {
        let (depth, side) = s.next_opponent();
        assert!((3..=5).contains(&depth));
        let expected = if episode % 2 == 0 { Player::One } else { Player::Two };
        assert_eq!(side, expected);
        s.finish_episode('P', 'P');
    }
    let total: u64 = s.depth_histogram().values().sum();
    assert_eq!(total, 60);
    assert_eq!(s.opponents_drawn(), 60);
    assert!(s.depth_histogram().keys().all(|d| (3..=5).contains(d)));
    assert_eq!(s.episode_count(), 60);
}

#[test]
fn test_stress_schedule_fixed_depth_snapshot() {
    let mut s = schedule(4, 4, 10, 0);
    assert_eq!(s.histogram_snapshot(), "-");
    for _ in 0..3 {
        let (depth, _) = s.next_opponent();
        assert_eq!(depth, 4);
        s.finish_episode('P', 'P');
    }
    assert_eq!(s.histogram_snapshot(), "D4:3");
}

#[test]
fn test_stress_schedule_checkpoints_every_interval() {
    let mut s = schedule(1, 1, 3, 0);
    let mut checkpoints = Vec::new();
    for _ in 0..9 {
        s.next_opponent();
        if s.finish_episode('P', 'P') {
            checkpoints.push(s.episode_count());
        }
    }
    assert_eq!(checkpoints, vec![3, 6, 9]);
    assert!(!s.needs_final_scoring());
    s.next_opponent();
    assert!(!s.finish_episode('P', 'P'));
    assert!(s.needs_final_scoring());
}

#[test]
fn test_stress_schedule_limit() {
    let mut unlimited = schedule(1, 2, 5, 0);
    for _ in 0..4 {
        unlimited.next_opponent();
        unlimited.finish_episode('P', 'P');
        assert!(!unlimited.limit_reached());
    }
    let mut limited = schedule(1, 2, 5, 2);
    limited.next_opponent();
    limited.finish_episode('P', 'P');
    assert!(!limited.limit_reached());
    limited.next_opponent();
    limited.finish_episode('P', 'P');
    assert!(limited.limit_reached());
}

#[test]
fn test_stress_schedule_counts_plasticity_transitions() {
    let mut s = schedule(1, 1, 100, 0);
    s.observe_initial('P', 'F');
    s.next_opponent();
    s.finish_episode('P', 'F');
    assert_eq!(s.hysteresis_transitions(), 0);
    s.next_opponent();
    s.finish_episode('F', 'P');
    assert_eq!(s.hysteresis_transitions(), 2);
    s.next_opponent();
    s.finish_episode('F', 'x');
    assert_eq!(s.hysteresis_transitions(), 2);
    s.next_opponent();
    s.finish_episode('P', 'F');
    assert_eq!(s.hysteresis_transitions(), 4);
}

#[test]
fn test_stress_schedule_tallies_statuses() {
    let mut s = schedule(1, 1, 100, 0);
    s.record_status(StressStatus::Baseline);
    s.record_status(StressStatus::Improved);
    s.record_status(StressStatus::Stable);
    s.record_status(StressStatus::Stable);
    s.record_status(StressStatus::Degraded);
    assert_eq!(s.improvements(), 1);
    assert_eq!(s.stable(), 2);
    assert_eq!(s.degradations(), 1);
}

#[test]
fn test_stress_schedule_draws_vary() {
    let mut s = schedule(1, 9, 1000, 0);
    for _ in 0..200 {
        s.next_opponent();
        s.finish_episode('P', 'P');
    }
    assert!(s.depth_histogram().len() >= 2, "depths should not all be the same");
}
