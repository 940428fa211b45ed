use pc_tictactoe::env::minimax::MinimaxPlayer;
use pc_tictactoe::env::tictactoe::{GameResult, Player, TicTacToe};

/// Helper: play a sequence of moves on a fresh board.
fn play_moves(moves: &[usize]) -> TicTacToe {
    let mut game = TicTacToe::new();
    for &m in moves {
        game.step(m).unwrap();
    }
    game
}

fn play_out(p1: &mut MinimaxPlayer, p2: &mut MinimaxPlayer) -> TicTacToe {
    let mut game = TicTacToe::new();
    while !game.is_terminal() {
        let action = match game.current_player() {
            Player::One => p1.choose_action(&game),
            Player::Two => p2.choose_action(&game),
        };
        game.step(action).unwrap();
    }
    game
}

#[test]
fn test_minimax_takes_immediate_win() {
    // P1 has cells 0,1. Winning move is 2 (row 0). P2 has cells 3,4.
    let game = play_moves(&[0, 3, 1, 4]);
    let mut player = MinimaxPlayer::new(9);
    let action = player.choose_action(&game);
    assert_eq!(action, 2, "Minimax should take the winning move");
}

#[test]
fn test_minimax_blocks_opponent_win() {
    // Moves: P1=0, P2=4, P1=1 -> P2's turn, must block at 2.
    let game = play_moves(&[0, 4, 1]);
    let mut player = MinimaxPlayer::new(9);
    let action = player.choose_action(&game);
    assert_eq!(action, 2, "Minimax should block opponent's winning move");
}

#[test]
fn test_minimax_perfect_never_loses_as_first_player() {
    let mut p1 = MinimaxPlayer::new(9);
    let mut p2 = MinimaxPlayer::new(9);
    let game = play_out(&mut p1, &mut p2);
    assert_ne!(
        game.result(),
        GameResult::Win(Player::Two),
        "Perfect minimax as P1 should never lose"
    );
}

#[test]
fn test_minimax_perfect_never_loses_as_second_player() {
    let mut p1 = MinimaxPlayer::new(9);
    let mut p2 = MinimaxPlayer::new(9);
    let game = play_out(&mut p1, &mut p2);
    assert_ne!(
        game.result(),
        GameResult::Win(Player::One),
        "Perfect minimax as P2 should never lose"
    );
}

#[test]
fn test_minimax_vs_minimax_always_draws() {
    let mut p1 = MinimaxPlayer::new(9);
    let mut p2 = MinimaxPlayer::new(9);
    let game = play_out(&mut p1, &mut p2);
    assert_eq!(
        game.result(),
        GameResult::Draw,
        "Two perfect minimax players should always draw"
    );
}

#[test]
fn test_choose_action_always_returns_valid_cell() {
    let mut player = MinimaxPlayer::new(9);

    // Empty board
    let game = TicTacToe::new();
    let action = player.choose_action(&game);
    assert!(game.valid_actions().contains(&action));

    // After some moves
    let states = vec![
        vec![4],
        vec![0, 4],
        vec![0, 4, 8],
        vec![0, 1, 2, 3],
        vec![4, 0, 8, 2, 6],
    ];

    for moves in &states {
        let board = play_moves(moves);
        if !board.is_terminal() {
            let a = player.choose_action(&board);
            assert!(
                board.valid_actions().contains(&a),
                "Action {} not valid for state {:?}",
                a,
                moves
            );
        }
    }
}

#[test]
fn test_transposition_table_populated_after_call() {
    let mut player = MinimaxPlayer::new(9);
    assert_eq!(player.transposition_table_len(), 0);

    let game = TicTacToe::new();
    player.choose_action(&game);

    assert!(
        player.transposition_table_len() > 0,
        "Transposition table should be populated after search"
    );
}

#[test]
fn test_move_ordering_prefers_center() {
    let valid = vec![0, 1, 2, 3, 4, 5, 6, 7, 8];
    let ordered = MinimaxPlayer::order_moves(&valid);
    assert_eq!(ordered[0], 4, "Center should be evaluated first");
}

#[test]
fn test_depth_1_returns_valid_action() {
    let mut player = MinimaxPlayer::new(1);
    let game = TicTacToe::new();
    let action = player.choose_action(&game);
    assert!(
        game.valid_actions().contains(&action),
        "Depth-1 minimax should return a valid action"
    );
}

#[test]
fn test_move_ordering_is_center_corners_edges() {
    let valid = vec![1, 3, 4, 7, 8];
    assert_eq!(MinimaxPlayer::order_moves(&valid), vec![4, 8, 1, 3, 7]);
    assert_eq!(
        MinimaxPlayer::order_moves(&[0, 1, 2, 3, 4, 5, 6, 7, 8]),
        vec![4, 0, 2, 6, 8, 1, 3, 5, 7]
    );
    assert!(MinimaxPlayer::order_moves(&[]).is_empty());
}

#[test]
fn test_depth_1_takes_immediate_win_too() {
    // Even the weakest player takes a win in one move.
    let game = play_moves(&[0, 3, 1, 4]);
    let mut player = MinimaxPlayer::new(1);
    assert_eq!(player.choose_action(&game), 2);
}

#[test]
fn test_table_keeps_entries_across_calls() {
    let mut player = MinimaxPlayer::new(9);
    let game = TicTacToe::new();
    let first = player.choose_action(&game);
    let len_after_first = player.transposition_table_len();
    let second = player.choose_action(&game);
    assert_eq!(first, second);
    assert!(player.transposition_table_len() >= len_after_first);
}

/// Game value for `p` under perfect play by both sides: 1 win, 0 draw, -1 loss.
fn game_value(
    g: &TicTacToe,
    p: Player,
    memo: &mut std::collections::HashMap<(u16, u16, bool), i8>,
) -> i8 {
    match g.result() {
        GameResult::Win(w) => return if w == p { 1 } else { -1 },
        GameResult::Draw => return 0,
        GameResult::InProgress => {}
    }
    let (x, o) = g.bitboards();
    let key = (x, o, p == Player::One);
    if let Some(v) = memo.get(&key) {
        return *v;
    }
    let mover = g.current_player();
    let mut best: Option<i8> = None;
    for a in g.valid_actions() {
        let mut child = *g;
        child.step(a).unwrap();
        let v = game_value(&child, p, memo);
        best = Some(match best {
            None => v,
            Some(b) => if mover == p { b.max(v) } else { b.min(v) },
        });
    }
    let v = best.unwrap();
    memo.insert(key, v);
    v
}

/// Every position in progress that moves from the start can reach.
fn reachable_positions() -> Vec<TicTacToe> {
    let mut seen = std::collections::HashSet::new();
    let mut out = Vec::new();
    let mut stack = vec![TicTacToe::new()];
    while let Some(g) = stack.pop() {
        if g.is_terminal() || !seen.insert(g.bitboards()) {
            continue;
        }
        out.push(g);
        for a in g.valid_actions() {
            let mut child = g;
            child.step(a).unwrap();
            stack.push(child);
        }
    }
    out
}

/// Whether `a` keeps the best game value available to the side to move.
fn is_optimal(g: &TicTacToe, a: usize, memo: &mut std::collections::HashMap<(u16, u16, bool), i8>) -> bool {
    let p = g.current_player();
    let mut best = -2;
    let mut chosen = -2;
    for v in g.valid_actions() {
        let mut child = *g;
        child.step(v).unwrap();
        let val = game_value(&child, p, memo);
        best = best.max(val);
        if v == a {
            chosen = val;
        }
    }
    chosen == best
}

/// Plays out every game in which the depth-9 player (a fresh one for each
/// move) plays `side` and the opponent tries every legal move; returns the
/// number of games the depth-9 player loses.
fn losses_against_every_opponent(g: TicTacToe, side: Player) -> usize {
    match g.result() {
        GameResult::Win(w) => return if w == side { 0 } else { 1 },
        GameResult::Draw => return 0,
        GameResult::InProgress => {}
    }
    if g.current_player() == side {
        let mut player = MinimaxPlayer::new(9);
        let a = player.choose_action(&g);
        let mut child = g;
        child.step(a).unwrap();
        losses_against_every_opponent(child, side)
    } else {
        let mut total = 0;
        for a in g.valid_actions() {
            let mut child = g;
            child.step(a).unwrap();
            total += losses_against_every_opponent(child, side);
        }
        total
    }
}

#[test]
fn test_fresh_depth_9_player_never_loses_against_any_opponent() {
    assert_eq!(losses_against_every_opponent(TicTacToe::new(), Player::One), 0);
    assert_eq!(losses_against_every_opponent(TicTacToe::new(), Player::Two), 0);
}

#[test]
fn test_fresh_depth_9_player_misjudges_some_positions() {
    // Cached scores that a cut-off bounded are reused as exact values, so
    // even a fresh depth-9 player gives away the draw here: X on 1 and 8,
    // O on 3, O to move.
    let mut memo = std::collections::HashMap::new();
    let mut g = TicTacToe::new();
    g.step(1).unwrap();
    g.step(3).unwrap();
    g.step(8).unwrap();
    let mut player = MinimaxPlayer::new(9);
    let a = player.choose_action(&g);
    assert_eq!(a, 5);
    assert!(!is_optimal(&g, a, &mut memo));
    assert_eq!(game_value(&g, Player::Two, &mut memo), 0);

    // Over all 4520 reachable positions in progress, a fresh player errs on 7.
    let positions = reachable_positions();
    assert_eq!(positions.len(), 4520);
    let misjudged = positions
        .iter()
        .filter(|g| {
            let mut p = MinimaxPlayer::new(9);
            let a = p.choose_action(g);
            !is_optimal(g, a, &mut memo)
        })
        .count();
    assert_eq!(misjudged, 7);
}
