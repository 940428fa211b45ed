//! Command-line arguments of the subcommands, and the text that the
//! interactive game shows.
//!
//! Parsing the command line is the job of the program around this library;
//! these are the plain values it hands over.
use vstd::prelude::*;

use crate::env::tictactoe::{cell_mask, GameResult, GameState, Player, TicTacToe};

verus! {

/// Arguments for the play subcommand.
pub struct PlayArgs {
    /// Path to a saved model file.
    pub model: Option<String>,
    /// Play as first player (agent goes second).
    pub first: bool,
}

/// Arguments for the evaluate subcommand.
pub struct EvaluateArgs {
    /// Path to a saved model file.
    pub model: Option<String>,
    /// Number of evaluation games.
    pub games: usize,
    /// Minimax search depth for the opponent.
    pub depth: usize,
}

/// Arguments for the experiment subcommand.
pub struct ExperimentArgs {
    /// Number of repetitions (random seeds).
    pub n: usize,
    /// Path to TOML configuration file.
    pub config: String,
    /// Parameter to sweep: "lambda" (default).
    pub sweep: String,
}

/// Arguments for the seed-test subcommand.
pub struct SeedTestArgs {
    /// Number of runs (random seeds).
    pub n: usize,
    /// Path to TOML configuration file.
    pub config: String,
}

/// Arguments for the init subcommand.
pub struct InitArgs {
    /// Output path for the generated config file.
    pub output: String,
}

/// Arguments for the benchmark subcommand.
pub struct BenchmarkArgs {
    /// Path to a saved model file.
    pub model: Option<String>,
    /// Number of training episodes for the benchmark.
    pub episodes: usize,
}

/// The character shown for cell `i`: `X` for Player One, `O` for Player
/// Two, `.` for an empty cell.
pub open spec fn cell_char(s: GameState, i: int) -> char {
    let v = s.cell_sign(Player::One, i);
    if v > 0 {
        'X'
    } else if v < 0 {
        'O'
    } else {
        '.'
    }
}

/// One board row as shown: ` a | b | c ` and a line break.
pub open spec fn row_text(s: GameState, r: int) -> Seq<char> {
    seq![' ', cell_char(s, 3 * r), ' ', '|', ' ', cell_char(s, 3 * r + 1), ' ', '|', ' ', cell_char(s, 3 * r + 2), ' ', '\n']
}

/// The board as shown: three rows separated by dashed lines, then an empty
/// line.
pub open spec fn board_text(s: GameState) -> Seq<char> {
    row_text(s, 0) + "-----------\n"@ + row_text(s, 1) + "-----------\n"@ + row_text(s, 2) + "\n"@
}

/// The piece on cell `i` read from the bitboards: `X` where Player One
/// has a piece, `O` where Player Two has one, `.` where the cell is empty.
pub open spec fn piece_on(s: GameState, i: int) -> char {
    if s.x & cell_mask(i) != 0 {
        'X'
    } else if s.o & cell_mask(i) != 0 {
        'O'
    } else {
        '.'
    }
}

/// The shown board is laid out row by row: it is 61 characters long, and
/// the character at row `r`, column `c` (position `24 * r + 4 * c + 1`:
/// each row takes 12 characters and each dashed line 12 more) is the
/// piece on cell `3 * r + c`, so cells 0, 1, 2 form the top row.
pub proof fn lemma_board_layout(s: GameState, r: int, c: int)
    requires
        0 <= r < 3,
        0 <= c < 3,
    ensures
        board_text(s).len() == 61,
        board_text(s)[24 * r + 4 * c + 1] == piece_on(s, 3 * r + c),
{
    reveal_strlit("-----------\n");
    reveal_strlit("\n");
    let sep = "-----------\n"@;
    let (r0, r1, r2) = (row_text(s, 0), row_text(s, 1), row_text(s, 2));
    let t = board_text(s);
    assert(t == r0 + sep + r1 + sep + r2 + "\n"@);
    assert(t[24 * r + 4 * c + 1] == row_text(s, r)[4 * c + 1]);
    assert(row_text(s, r)[4 * c + 1] == cell_char(s, 3 * r + c));
}

/// The board of `env` as shown to the human player.
pub fn board_display(env: &TicTacToe) -> (r: String)
    ensures
        r@ == board_text(env@),
        r@.len() == 61,
        forall|row: int, col: int|
            0 <= row < 3 && 0 <= col < 3 ==> #[trigger] r@[24 * row + 4 * col + 1] == piece_on(
                env@,
                3 * row + col,
            ),
{
    let board = env.board_as_i8(Player::One);
    proof {
        reveal_strlit("-----------\n");
        reveal_strlit("\n");
        reveal_strlit(" X |");
        reveal_strlit(" O |");
        reveal_strlit(" . |");
        reveal_strlit(" X \n");
        reveal_strlit(" O \n");
        reveal_strlit(" . \n");
    }
    let mut out = String::new();
    let mut row: usize = 0;
    while row < 3
        invariant
            row <= 3,
            forall|i: int| 0 <= i < 9 ==> board@[i] == env@.cell_sign(Player::One, i),
            out@ == if row == 0 {
                seq![]
            } else if row == 1 {
                row_text(env@, 0) + "-----------\n"@
            } else if row == 2 {
                row_text(env@, 0) + "-----------\n"@ + row_text(env@, 1) + "-----------\n"@
            } else {
                row_text(env@, 0) + "-----------\n"@ + row_text(env@, 1) + "-----------\n"@
                    + row_text(env@, 2)
            },
        decreases 3 - row,
    {
        let ghost start = out@;
        let mut col: usize = 0;
        while col < 3
            invariant
                row < 3,
                col <= 3,
                forall|i: int| 0 <= i < 9 ==> board@[i] == env@.cell_sign(Player::One, i),
                out@ == start + row_text(env@, row as int).take(4 * col),
            decreases 3 - col,
        {
            let idx = row * 3 + col;
            let v = board[idx];
            let piece = if col < 2 {
                if v > 0 {
                    " X |"
                } else if v < 0 {
                    " O |"
                } else {
                    " . |"
                }
            } else {
                if v > 0 {
                    " X \n"
                } else if v < 0 {
                    " O \n"
                } else {
                    " . \n"
                }
            };
            out.append(piece);
            proof {
                reveal_strlit(" X |");
                reveal_strlit(" O |");
                reveal_strlit(" . |");
                reveal_strlit(" X \n");
                reveal_strlit(" O \n");
                reveal_strlit(" . \n");
                assert(idx == 3 * row + col);
                assert(v == env@.cell_sign(Player::One, 3 * row + col));
                let rt = row_text(env@, row as int);
                assert(rt.take(4 * col + 4) =~= rt.take(4 * col) + piece@);
            }
            col = col + 1;
        }
        proof {
            assert(row_text(env@, row as int).take(12) =~= row_text(env@, row as int));
        }
        proof {
            reveal_strlit("-----------\n");
        }
        if row < 2 {
            out.append("-----------\n");
        }
        row = row + 1;
    }
    out.append("\n");
    proof {
        lemma_board_layout(env@, 0, 0);
        assert forall|row: int, col: int|
            0 <= row < 3 && 0 <= col < 3 implies #[trigger] out@[24 * row + 4 * col + 1] == piece_on(
                env@,
                3 * row + col,
            ) by {
            lemma_board_layout(env@, row, col);
        }
    }
    out
}

/// The message shown when the interactive game ends.
pub open spec fn verdict(result: GameResult, human: Player) -> Seq<char> {
    match result {
        GameResult::Win(p) => if p == human { "You win!"@ } else { "Agent wins!"@ },
        _ => "Draw!"@,
    }
}

/// The message shown when the interactive game ends: who won, or a draw.
/// The game must be over.
pub fn play_verdict(result: GameResult, human: Player) -> (r: &'static str)
    requires
        result != GameResult::InProgress,
    ensures
        r@ == verdict(result, human),
{
    proof {
        reveal_strlit("You win!");
        reveal_strlit("Agent wins!");
        reveal_strlit("Draw!");
    }
    match result {
        GameResult::Win(p) => if p == human { "You win!" } else { "Agent wins!" },
        _ => "Draw!",
    }
}

} // verus!
