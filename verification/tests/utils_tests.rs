use pc_tictactoe::env::tictactoe::{GameResult, Player, TicTacToe};
use pc_tictactoe::ui::cli::{board_display, play_verdict};
use pc_tictactoe::utils::logger::{backup_file_name, format_log_line, rotation_plan, LogLevel};
use pc_tictactoe::utils::metrics::{GameOutcome, Metrics};
use pc_tictactoe::utils::text::{push_decimal, text_eq};

/// The share of `target` in the window, 0 for an empty window.
fn rate(m: &Metrics, target: GameOutcome) -> f64 {
    if m.count() == 0 {
        0.0
    } else {
        m.count_of(target) as f64 / m.count() as f64
    }
}

#[test]
fn test_empty_metrics_counts_zero() {
    let m = Metrics::new(100);
    assert_eq!(m.count(), 0);
    assert_eq!(m.count_of(GameOutcome::Win), 0);
    assert_eq!(rate(&m, GameOutcome::Loss), 0.0);
}

#[test]
fn test_win_rate_correct() {
    let mut m = Metrics::new(100);
    m.record(GameOutcome::Win);
    m.record(GameOutcome::Win);
    m.record(GameOutcome::Loss);
    m.record(GameOutcome::Draw);
    assert!((rate(&m, GameOutcome::Win) - 0.5).abs() < 1e-9);
}

#[test]
fn test_rates_sum_to_one() {
    let mut m = Metrics::new(100);
    m.record(GameOutcome::Win);
    m.record(GameOutcome::Loss);
    m.record(GameOutcome::Draw);
    m.record(GameOutcome::Win);
    m.record(GameOutcome::Win);
    let sum = rate(&m, GameOutcome::Win) + rate(&m, GameOutcome::Loss) + rate(&m, GameOutcome::Draw);
    assert!((sum - 1.0).abs() < 1e-9);
    assert_eq!(
        m.count_of(GameOutcome::Win) + m.count_of(GameOutcome::Loss) + m.count_of(GameOutcome::Draw),
        m.count()
    );
}

#[test]
fn test_sliding_window_drops_oldest() {
    let mut m = Metrics::new(3);
    m.record(GameOutcome::Loss);
    m.record(GameOutcome::Loss);
    m.record(GameOutcome::Loss);
    m.record(GameOutcome::Win);
    m.record(GameOutcome::Win);
    m.record(GameOutcome::Win);
    assert!((rate(&m, GameOutcome::Win) - 1.0).abs() < 1e-9);
    assert_eq!(rate(&m, GameOutcome::Loss), 0.0);
    assert_eq!(m.count(), 3);
}

#[test]
fn test_zero_window_size_still_safe() {
    let mut m = Metrics::new(0);
    m.record(GameOutcome::Win);
    assert_eq!(m.count(), 0);
    assert_eq!(rate(&m, GameOutcome::Win), 0.0);
}

#[test]
fn test_metrics_reset_keeps_window_size() {
    let mut m = Metrics::new(4);
    m.record(GameOutcome::Draw);
    m.reset();
    assert_eq!(m.count(), 0);
    assert_eq!(m.window_size(), 4);
}

#[test]
fn test_log_level_parsing_is_loose() {
    assert_eq!(LogLevel::from_str_loose("DEBUG"), LogLevel::Debug);
    assert_eq!(LogLevel::from_str_loose("Info"), LogLevel::Info);
    assert_eq!(LogLevel::from_str_loose("training"), LogLevel::Training);
    assert_eq!(LogLevel::from_str_loose("warn"), LogLevel::Warning);
    assert_eq!(LogLevel::from_str_loose("WARNING"), LogLevel::Warning);
    assert_eq!(LogLevel::from_str_loose("error"), LogLevel::Error);
    assert_eq!(LogLevel::from_str_loose("verbose"), LogLevel::Info);
}

#[test]
fn test_log_level_labels_and_filter() {
    assert_eq!(LogLevel::Training.label(), "TRAIN");
    assert_eq!(LogLevel::Warning.label(), "WARN");
    assert!(LogLevel::Error.passes(LogLevel::Info));
    assert!(!LogLevel::Debug.passes(LogLevel::Info));
    assert!(LogLevel::Info.passes(LogLevel::Info));
    assert!(LogLevel::Debug < LogLevel::Error);
}

#[test]
fn test_push_decimal_and_text_eq() {
    let mut s = String::from("n=");
    push_decimal(&mut s, 0);
    push_decimal(&mut s, 1209);
    assert_eq!(s, "n=01209");
    assert!(text_eq("abc", "abc"));
    assert!(!text_eq("abc", "abd"));
}

#[test]
fn test_board_display() {
    let mut env = TicTacToe::new();
    env.step(0).unwrap();
    env.step(4).unwrap();
    env.step(8).unwrap();
    let expected = " X | . | . \n-----------\n . | O | . \n-----------\n . | . | X \n\n";
    assert_eq!(board_display(&env), expected);
}

#[test]
fn test_play_verdict() {
    assert_eq!(play_verdict(GameResult::Win(Player::Two), Player::Two), "You win!");
    assert_eq!(play_verdict(GameResult::Win(Player::One), Player::Two), "Agent wins!");
    assert_eq!(play_verdict(GameResult::Draw, Player::One), "Draw!");
}

#[test]
fn test_log_line_layout() {
    assert_eq!(
        format_log_line("2026-01-02 03:04:05", LogLevel::Training, "episode done"),
        "[2026-01-02 03:04:05] [TRAIN] episode done"
    );
}

#[test]
fn test_rotation_plan_shifts_backups() {
    let plan = rotation_plan("run.log", 3);
    let expected: Vec<(String, String)> = vec![
        ("run.log.2".to_string(), "run.log.3".to_string()),
        ("run.log.1".to_string(), "run.log.2".to_string()),
        ("run.log".to_string(), "run.log.1".to_string()),
    ];
    assert_eq!(plan, expected);
    assert_eq!(backup_file_name("run.log", 4), "run.log.4");
    let none = rotation_plan("a.log", 0);
    assert_eq!(none, vec![("a.log".to_string(), "a.log.1".to_string())]);
}

#[test]
fn test_level_parsing_same_after_lowercasing() {
    for s in ["DEBUG", "Warn", "TRAIN", "", "verbose", "ErRoR"] {
        assert_eq!(LogLevel::from_str_loose(s), LogLevel::from_str_loose(&s.to_lowercase()));
    }
    assert_eq!(LogLevel::from_str_loose("TRAIN"), LogLevel::Info);
}
