use pc_tictactoe::env::tictactoe::{GameResult, Player, TicTacToe};

#[test]
fn test_new_game_has_9_valid_actions() {
    let game = TicTacToe::new();
    assert_eq!(game.valid_actions().len(), 9);
}

#[test]
fn test_after_one_move_has_8_valid_actions() {
    let mut game = TicTacToe::new();
    game.step(4).unwrap();
    assert_eq!(game.valid_actions().len(), 8);
    assert!(!game.valid_actions().contains(&4));
}

#[test]
fn test_step_on_occupied_returns_error() {
    let mut game = TicTacToe::new();
    game.step(0).unwrap();
    assert!(game.step(0).is_err());
}

#[test]
fn test_step_out_of_range_returns_error() {
    let mut game = TicTacToe::new();
    assert!(game.step(9).is_err());
    assert!(game.step(100).is_err());
}

#[test]
fn test_win_detection_all_8_patterns() {
    // Test all 8 win patterns for Player One
    let patterns: [(usize, usize, usize); 8] = [
        (0, 1, 2), // Row 0
        (3, 4, 5), // Row 1
        (6, 7, 8), // Row 2
        (0, 3, 6), // Col 0
        (1, 4, 7), // Col 1
        (2, 5, 8), // Col 2
        (0, 4, 8), // Diagonal
        (2, 4, 6), // Anti-diagonal
    ];

    for (i, &(a, b, c)) in patterns.iter().enumerate() {
        let mut game = TicTacToe::new();
        let filler: Vec<usize> = (0..9).filter(|&x| x != a && x != b && x != c).collect();

        game.step(a).unwrap(); // P1
        game.step(filler[0]).unwrap(); // P2
        game.step(b).unwrap(); // P1
        game.step(filler[1]).unwrap(); // P2
        let result = game.step(c).unwrap(); // P1
        assert_eq!(
            result,
            GameResult::Win(Player::One),
            "Pattern {} ({},{},{}) should be a win",
            i,
            a,
            b,
            c
        );
    }
}

#[test]
fn test_draw_detection() {
    // X O X
    // X O O
    // O X X
    let mut game = TicTacToe::new();
    let moves = [0, 1, 2, 4, 3, 5, 8, 6, 7];
    for (i, &m) in moves.iter().enumerate() {
        let result = game.step(m).unwrap();
        if i < 8 {
            assert_eq!(
                result,
                GameResult::InProgress,
                "Move {} should be in progress",
                i
            );
        } else {
            assert_eq!(result, GameResult::Draw);
        }
    }
}

#[test]
fn test_board_as_f64_player_one_perspective() {
    let mut game = TicTacToe::new();
    game.step(0).unwrap(); // P1 at 0
    game.step(1).unwrap(); // P2 at 1
    let board = game.board_as_i8(Player::One);
    assert_eq!(board[0], 1);
    assert_eq!(board[1], -1);
    for &cell in &board[2..] {
        assert_eq!(cell, 0);
    }
}

#[test]
fn test_board_as_f64_player_two_perspective_flipped() {
    let mut game = TicTacToe::new();
    game.step(0).unwrap(); // P1 at 0
    game.step(1).unwrap(); // P2 at 1
    let board = game.board_as_i8(Player::Two);
    assert_eq!(board[0], -1); // P1's piece is opponent
    assert_eq!(board[1], 1); // P2's piece is self
    for &cell in &board[2..] {
        assert_eq!(cell, 0);
    }
}

#[test]
fn test_player_alternates_after_each_step() {
    let mut game = TicTacToe::new();
    assert_eq!(game.current_player(), Player::One);
    game.step(0).unwrap();
    assert_eq!(game.current_player(), Player::Two);
    game.step(1).unwrap();
    assert_eq!(game.current_player(), Player::One);
}

#[test]
fn test_is_terminal_true_after_win() {
    let mut game = TicTacToe::new();
    game.step(0).unwrap(); // P1
    game.step(3).unwrap(); // P2
    game.step(1).unwrap(); // P1
    game.step(4).unwrap(); // P2
    game.step(2).unwrap(); // P1 wins row 0
    assert!(game.is_terminal());
}

#[test]
fn test_valid_actions_empty_when_terminal() {
    let mut game = TicTacToe::new();
    game.step(0).unwrap(); // P1
    game.step(3).unwrap(); // P2
    game.step(1).unwrap(); // P1
    game.step(4).unwrap(); // P2
    game.step(2).unwrap(); // P1 wins row 0
    assert!(game.valid_actions().is_empty());
}

#[test]
fn test_reset_clears_board_and_state() {
    let mut game = TicTacToe::new();
    game.step(0).unwrap();
    game.step(3).unwrap();
    game.step(1).unwrap();
    game.step(4).unwrap();
    game.step(2).unwrap(); // P1 wins
    assert!(game.is_terminal());

    game.reset();
    assert!(!game.is_terminal());
    assert_eq!(game.current_player(), Player::One);
    assert_eq!(game.valid_actions().len(), 9);
}

#[test]
fn test_win_reward_is_plus_one() {
    let mut game = TicTacToe::new();
    game.step(0).unwrap(); // P1
    game.step(3).unwrap(); // P2
    game.step(1).unwrap(); // P1
    game.step(4).unwrap(); // P2
    game.step(2).unwrap(); // P1 wins
    assert_eq!(game.reward_sign(Player::One), 1);
}

#[test]
fn test_loss_reward_is_minus_one() {
    let mut game = TicTacToe::new();
    game.step(0).unwrap(); // P1
    game.step(3).unwrap(); // P2
    game.step(1).unwrap(); // P1
    game.step(4).unwrap(); // P2
    game.step(2).unwrap(); // P1 wins
    assert_eq!(game.reward_sign(Player::Two), -1);
}

#[test]
fn test_bitboard_win_masks_cover_all_8_patterns() {
    let masks = TicTacToe::win_masks();
    assert_eq!(masks.len(), 8);
    assert_eq!(masks[0], 7); // Row 0
    assert_eq!(masks[1], 56); // Row 1
    assert_eq!(masks[2], 448); // Row 2
    assert_eq!(masks[3], 73); // Col 0
    assert_eq!(masks[4], 146); // Col 1
    assert_eq!(masks[5], 292); // Col 2
    assert_eq!(masks[6], 273); // Diagonal
    assert_eq!(masks[7], 84); // Anti-diagonal
}

#[test]
fn test_step_error_messages_name_the_cause() {
    let mut game = TicTacToe::new();
    assert_eq!(game.step(12).unwrap_err(), "Action 12 out of range [0, 9)");
    game.step(4).unwrap();
    assert_eq!(game.step(4).unwrap_err(), "Cell 4 is already occupied");
    // Player One takes 3 and 5 next to its 4 and completes row 1.
    for m in [0, 3, 1, 5] {
        game.step(m).unwrap();
    }
    assert_eq!(game.result(), GameResult::Win(Player::One));
    assert_eq!(game.step(8).unwrap_err(), "Game is already over");
}

#[test]
fn test_refused_move_leaves_game_unchanged() {
    let mut game = TicTacToe::new();
    game.step(0).unwrap();
    let before = game.bitboards();
    assert!(game.step(0).is_err());
    assert_eq!(game.bitboards(), before);
    assert_eq!(game.current_player(), Player::Two);
}

#[test]
fn test_bitboards_track_each_player() {
    let mut game = TicTacToe::new();
    game.step(0).unwrap();
    game.step(8).unwrap();
    assert_eq!(game.bitboards(), (1, 256));
    assert_eq!(game.result(), GameResult::InProgress);
    assert_eq!(TicTacToe::default().bitboards(), (0, 0));
}

#[test]
fn test_piece_counts_and_turn_stay_consistent() {
    let mut g = TicTacToe::new();
    for &a in &[4usize, 0, 8, 2, 1, 7, 3, 5, 6] {
        if g.is_terminal() {
            break;
        }
        let mover = g.current_player();
        g.step(a).unwrap();
        let (x, o) = g.bitboards();
        let (nx, no) = (x.count_ones(), o.count_ones());
        assert!(nx == no || nx == no + 1);
        assert_eq!(x & o, 0);
        match g.result() {
            GameResult::InProgress => assert_eq!(g.current_player() == Player::One, nx == no),
            GameResult::Win(p) => {
                assert_eq!(p, mover);
                let board = if p == Player::One { x } else { o };
                assert!(TicTacToe::win_masks().iter().any(|m| board & m == *m));
            }
            GameResult::Draw => assert_eq!(x | o, 0x1FF),
        }
    }
}
