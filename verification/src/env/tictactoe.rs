//! Tic-Tac-Toe game environment using bitboard representation.
//!
//! Provides [`TicTacToe`] as the game state manager, [`Player`] for turn
//! tracking, and [`GameResult`] for outcome detection. Uses two `u16`
//! bitboards (one per player) with precomputed win masks for efficient
//! win detection.
//!
//! # Board Layout
//!
//! ```text
//! 0 | 1 | 2
//! ---------
//! 3 | 4 | 5
//! ---------
//! 6 | 7 | 8
//! ```
use vstd::prelude::*;

use crate::utils::text::{decimal, push_decimal};

verus! {

/// All eight winning line bitmasks for a 3x3 board:
/// rows (3), columns (3), and diagonals (2).
const WIN_MASKS: [u16; 8] = [
    0b_000_000_111,  // Row 0: cells 0,1,2
    0b_000_111_000,  // Row 1: cells 3,4,5
    0b_111_000_000,  // Row 2: cells 6,7,8
    0b_001_001_001,  // Col 0: cells 0,3,6
    0b_010_010_010,  // Col 1: cells 1,4,7
    0b_100_100_100,  // Col 2: cells 2,5,8
    0b_100_010_001,  // Diagonal: cells 0,4,8
    0b_001_010_100,  // Anti-diagonal: cells 2,4,6
];

/// Represents which player is active or has won.
#[derive(Debug, Clone, Copy, PartialEq, Eq, Structural)]
pub enum Player {
    /// First player (X).
    One,
    /// Second player (O).
    Two,
}

/// Outcome of the game at any point.
#[derive(Debug, Clone, Copy, PartialEq, Eq, Structural)]
pub enum GameResult {
    /// A player has won.
    Win(Player),
    /// All cells filled with no winner.
    Draw,
    /// Game is still ongoing.
    InProgress,
}

/// The opponent of `p`.
pub open spec fn other_player(p: Player) -> Player {
    match p {
        Player::One => Player::Two,
        Player::Two => Player::One,
    }
}

/// The bit of cell `i` in a bitboard.
pub open spec fn cell_mask(i: int) -> u16 {
    1u16 << (i as u16)
}

/// Whether `board` covers one of the eight winning lines.
pub open spec fn has_line(board: u16) -> bool {
    ||| board & 7 == 7
    ||| board & 56 == 56
    ||| board & 448 == 448
    ||| board & 73 == 73
    ||| board & 146 == 146
    ||| board & 292 == 292
    ||| board & 273 == 273
    ||| board & 84 == 84
}

/// Number of pieces among the cells `0..n` of a bitboard.
pub open spec fn pieces_below(b: u16, n: nat) -> nat
    decreases n,
{
    if n == 0 {
        0
    } else {
        pieces_below(b, (n - 1) as nat) + if b & cell_mask(n - 1) != 0 { 1nat } else { 0nat }
    }
}

/// Number of pieces on a bitboard's nine cells.
pub open spec fn pieces(b: u16) -> nat {
    pieces_below(b, 9)
}

/// The mathematical content of a [`TicTacToe`] value.
pub struct GameState {
    /// Cells of Player One, one bit per cell.
    pub x: u16,
    /// Cells of Player Two, one bit per cell.
    pub o: u16,
    /// Player whose turn it is (stays the winner after a winning move).
    pub current: Player,
    /// The recorded outcome.
    pub result: GameResult,
}

/// The state of a fresh game.
pub open spec fn initial_state() -> GameState {
    GameState { x: 0, o: 0, current: Player::One, result: GameResult::InProgress }
}

impl GameState {
    /// Cells taken by either player.
    pub open spec fn occupied(self) -> u16 {
        self.x | self.o
    }

    /// Cell `i` is on the board and empty.
    pub open spec fn is_free(self, i: int) -> bool {
        0 <= i < 9 && self.occupied() & cell_mask(i) == 0
    }

    /// The game has ended.
    pub open spec fn is_terminal(self) -> bool {
        !(self.result is InProgress)
    }

    /// Well-formedness: the two boards are disjoint 9-bit boards, and a game
    /// still in progress has at least one empty cell.
    pub open spec fn wf(self) -> bool {
        &&& self.x & self.o == 0
        &&& self.x <= 511
        &&& self.o <= 511
        &&& (self.result is InProgress ==> self.occupied() != 511)
    }

    /// The shape of every state reached by moves from the initial one:
    /// Player One has as many pieces as Player Two or one more; in a game
    /// still in progress it is Player One's turn exactly when the counts
    /// are equal; a won game was won by the side that moved last, whose
    /// board covers a winning line while the loser's covers none; in a game
    /// still in progress or drawn, neither board covers a winning line.
    pub open spec fn consistent(self) -> bool {
        &&& (pieces(self.x) == pieces(self.o) || pieces(self.x) == pieces(self.o) + 1)
        &&& (self.result is InProgress ==> (self.current == Player::One <==> pieces(self.x) == pieces(
            self.o,
        )))
        &&& (self.result matches GameResult::Win(p) ==> p == self.current && has_line(
            self.board_of(p),
        ) && !has_line(self.board_of(other_player(p))))
        &&& (!(self.result is Win) ==> !has_line(self.x) && !has_line(self.o))
    }

    /// A move at `a` is accepted.
    pub open spec fn can_play(self, a: int) -> bool {
        self.is_free(a) && !self.is_terminal()
    }

    /// The bitboard of player `p`.
    pub open spec fn board_of(self, p: Player) -> u16 {
        match p {
            Player::One => self.x,
            Player::Two => self.o,
        }
    }

    /// The state after the current player places a piece at `a`.
    pub open spec fn after(self, a: int) -> GameState {
        let m = cell_mask(a);
        let nx = if self.current == Player::One { self.x | m } else { self.x };
        let no = if self.current == Player::Two { self.o | m } else { self.o };
        let mine = if self.current == Player::One { nx } else { no };
        if has_line(mine) {
            GameState { x: nx, o: no, current: self.current, result: GameResult::Win(self.current) }
        } else if nx | no == 511 {
            GameState { x: nx, o: no, current: self.current, result: GameResult::Draw }
        } else {
            GameState {
                x: nx,
                o: no,
                current: other_player(self.current),
                result: GameResult::InProgress,
            }
        }
    }

    /// Empty cells among `0..n`, in increasing order.
    pub open spec fn free_cells_below(self, n: int) -> Seq<usize>
        decreases n,
    {
        if n <= 0 {
            seq![]
        } else {
            let prev = self.free_cells_below(n - 1);
            if self.is_free(n - 1) {
                prev.push((n - 1) as usize)
            } else {
                prev
            }
        }
    }

    /// The legal moves: the empty cells in increasing order, or none once
    /// the game has ended.
    pub open spec fn legal_moves(self) -> Seq<usize> {
        if self.is_terminal() {
            seq![]
        } else {
            self.free_cells_below(9)
        }
    }

    /// The board from `perspective`'s view: `1` for its own cells, `-1` for
    /// the opponent's, `0` for empty cells.
    pub open spec fn cell_sign(self, perspective: Player, i: int) -> i8 {
        let mine = self.board_of(perspective);
        let theirs = self.board_of(other_player(perspective));
        if mine & cell_mask(i) != 0 {
            1
        } else if theirs & cell_mask(i) != 0 {
            -1i8
        } else {
            0
        }
    }

    /// The reward sign of `player`: `1` for a win, `-1` for a loss, `0`
    /// otherwise.
    pub open spec fn reward_sign(self, player: Player) -> i8 {
        match self.result {
            GameResult::Win(w) => if w == player { 1i8 } else { -1i8 },
            _ => 0,
        }
    }
}

/// The text of the error that [`TicTacToe::step`] reports for a refused move.
pub open spec fn step_error(s: GameState, a: int) -> Seq<char> {
    if a >= 9 {
        "Action "@ + decimal(a as nat) + " out of range [0, 9)"@
    } else if !s.is_free(a) {
        "Cell "@ + decimal(a as nat) + " is already occupied"@
    } else {
        "Game is already over"@
    }
}

/// Facts about single-cell masks on a 9-bit board.
pub proof fn lemma_cell_mask(x: u16, o: u16, a: u16)
    requires
        a < 9,
        x & o == 0,
        x <= 511,
        o <= 511,
        (x | o) & (1u16 << a) == 0,
    ensures
        (x | (1u16 << a)) & o == 0,
        x & (o | (1u16 << a)) == 0,
        (x | (1u16 << a)) <= 511,
        (o | (1u16 << a)) <= 511,
        (x | (1u16 << a)) | o == (x | o) | (1u16 << a),
        x | (o | (1u16 << a)) == (x | o) | (1u16 << a),
{
    assert(
        (x | (1u16 << a)) & o == 0
        && x & (o | (1u16 << a)) == 0
        && (x | (1u16 << a)) <= 511
        && (o | (1u16 << a)) <= 511
        && (x | (1u16 << a)) | o == (x | o) | (1u16 << a)
        && x | (o | (1u16 << a)) == (x | o) | (1u16 << a)
    ) by (bit_vector)
        requires
            a < 9,
            x & o == 0,
            x <= 511,
            o <= 511,
            (x | o) & (1u16 << a) == 0,
    ;
}

/// The board seen by Player Two is the board seen by Player One with every
/// sign flipped.
pub proof fn lemma_perspective_flip(s: GameState, i: int)
    requires
        s.wf(),
        0 <= i < 9,
    ensures
        s.cell_sign(Player::Two, i) == -s.cell_sign(Player::One, i),
{
    let x = s.x;
    let o = s.o;
    let k = i as u16;
    let m = cell_mask(i);
    assert(m == 1u16 << k);
    assert(x & m != 0 ==> o & m == 0) by (bit_vector)
        requires
            x & o == 0,
            k < 9,
            m == 1u16 << k,
    ;
}

/// A decided game is a win for one player exactly when it is a loss for
/// the other: the two reward signs are opposite.
pub proof fn lemma_reward_antisymmetric(s: GameState, p: Player)
    ensures
        s.reward_sign(other_player(p)) == -s.reward_sign(p),
{
}

/// An empty board has no pieces.
proof fn lemma_no_pieces(n: nat)
    requires
        n <= 9,
    ensures
        pieces_below(0u16, n) == 0,
    decreases n,
{
    if n > 0 {
        lemma_no_pieces((n - 1) as nat);
        let k = (n - 1) as u16;
        assert(0u16 & (1u16 << k) == 0) by (bit_vector);
    }
}

/// Placing a piece on the empty cell `a` adds one piece, counted below `n`
/// when `a < n`.
proof fn lemma_add_piece(b: u16, a: u16, n: nat)
    requires
        a < 9,
        n <= 9,
        b & (1u16 << a) == 0,
    ensures
        pieces_below(b | (1u16 << a), n) == pieces_below(b, n) + if (a as nat) < n { 1nat } else { 0nat },
    decreases n,
{
    if n > 0 {
        lemma_add_piece(b, a, (n - 1) as nat);
        let k = (n - 1) as u16;
        let m = 1u16 << a;
        let mk = 1u16 << k;
        assert(cell_mask(n - 1) == mk);
        assert(k != a ==> (((b | m) & mk != 0) == (b & mk != 0))) by (bit_vector)
            requires
                k < 9,
                a < 9,
                m == 1u16 << a,
                mk == 1u16 << k,
        ;
        assert(k == a ==> (b | m) & mk != 0) by (bit_vector)
            requires
                k < 9,
                m == 1u16 << a,
                mk == 1u16 << k,
        ;
    }
}

/// The initial state has the shape of a reachable state.
pub proof fn lemma_initial_consistent()
    ensures
        initial_state().consistent(),
{
    lemma_no_pieces(9);
    assert(!has_line(0u16)) by (bit_vector);
}

/// A 9-bit board that is not full has an empty cell.
pub proof fn lemma_not_full_has_free(s: GameState)
    requires
        s.occupied() <= 511,
        s.occupied() != 511,
    ensures
        exists|i: int| 0 <= i < 9 && #[trigger] s.is_free(i),
{
    let occ = s.occupied();
    assert(occ & (1u16 << 0u16) == 0 || occ & (1u16 << 1u16) == 0 || occ & (1u16 << 2u16) == 0
        || occ & (1u16 << 3u16) == 0 || occ & (1u16 << 4u16) == 0 || occ & (1u16 << 5u16) == 0
        || occ & (1u16 << 6u16) == 0 || occ & (1u16 << 7u16) == 0 || occ & (1u16 << 8u16) == 0)
        by (bit_vector)
        requires
            occ <= 511,
            occ != 511,
    ;
    if s.is_free(0) {
    } else if s.is_free(1) {
    } else if s.is_free(2) {
    } else if s.is_free(3) {
    } else if s.is_free(4) {
    } else if s.is_free(5) {
    } else if s.is_free(6) {
    } else if s.is_free(7) {
    } else {
        assert(s.is_free(8));
    }
}

impl GameState {
    /// The legal-move sequence lists exactly the free cells, in increasing order.
    pub proof fn lemma_free_cells_below(self, n: int)
        requires
            0 <= n <= 9,
        ensures
            forall|k: int|
                0 <= k < self.free_cells_below(n).len() ==> {
                    let c = #[trigger] self.free_cells_below(n)[k];
                    &&& 0 <= c < n
                    &&& self.is_free(c as int)
                },
            forall|i: int|
                0 <= i < n && #[trigger] self.is_free(i) ==> self.free_cells_below(n).contains(
                    i as usize,
                ),
            forall|j: int, k: int|
                0 <= j < k < self.free_cells_below(n).len() ==> self.free_cells_below(n)[j]
                    < self.free_cells_below(n)[k],
        decreases n,
    {
        if n > 0 {
            self.lemma_free_cells_below(n - 1);
            let prev = self.free_cells_below(n - 1);
            if self.is_free(n - 1) {
                assert(self.free_cells_below(n) == prev.push((n - 1) as usize));
                assert forall|i: int|
                    0 <= i < n && #[trigger] self.is_free(i) implies self.free_cells_below(
                        n,
                    ).contains(i as usize) by {
                    if i < n - 1 {
                        let k = choose|k: int| 0 <= k < prev.len() && prev[k] == i as usize;
                        assert(self.free_cells_below(n)[k] == i as usize);
                    } else {
                        assert(self.free_cells_below(n)[prev.len() as int] == i as usize);
                    }
                }
            }
        }
    }

    /// A well-formed game in progress has at least one legal move.
    pub proof fn lemma_in_progress_has_move(self)
        requires
            self.wf(),
            !self.is_terminal(),
        ensures
            self.legal_moves().len() > 0,
    {
        let (x, o) = (self.x, self.o);
        assert(x | o <= 511) by (bit_vector)
            requires
                x <= 511,
                o <= 511,
        ;
        lemma_not_full_has_free(self);
        let i = choose|i: int| 0 <= i < 9 && #[trigger] self.is_free(i);
        self.lemma_free_cells_below(9);
        assert(self.free_cells_below(9).contains(i as usize));
    }

    /// Every accepted move keeps the state well-formed, fills exactly the
    /// chosen cell, and leaves every piece already on the board in place.
    pub proof fn lemma_after_wf(self, a: int)
        requires
            self.wf(),
            self.can_play(a),
        ensures
            self.after(a).wf(),
            self.after(a).occupied() == self.occupied() | cell_mask(a),
            !self.after(a).is_free(a),
            self.after(a).x & self.x == self.x,
            self.after(a).o & self.o == self.o,
    {
        lemma_cell_mask(self.x, self.o, a as u16);
        let (x, o, mk) = (self.x, self.o, cell_mask(a));
        assert((x | mk) & x == x && x & x == x && (o | mk) & o == o && o & o == o) by (bit_vector);
        let m = cell_mask(a);
        let n = self.after(a);
        let occ = self.occupied();
        let au = a as u16;
        assert((occ | m) & m != 0) by (bit_vector)
            requires
                m == 1u16 << au,
                au < 9,
        ;
    }

    /// Every accepted move from a state of reachable shape leads to a
    /// state of reachable shape.
    pub proof fn lemma_after_consistent(self, a: int)
        requires
            self.wf(),
            self.consistent(),
            self.can_play(a),
        ensures
            self.after(a).consistent(),
    {
        let au = a as u16;
        let (x, o) = (self.x, self.o);
        let m = cell_mask(a);
        assert(m == 1u16 << au);
        assert(x & m == 0 && o & m == 0) by (bit_vector)
            requires
                (x | o) & m == 0,
        ;
        lemma_add_piece(x, au, 9);
        lemma_add_piece(o, au, 9);
    }

    /// A move decides the game by the lines on the board, whether or not it
    /// fills the last cell: when the mover's board then covers a winning
    /// line the game is won by the mover; when it is recorded as drawn,
    /// the board is full and neither side covers a line; when it goes on,
    /// the board is not full, neither side covers a line and the turn
    /// passes to the opponent.
    pub proof fn lemma_line_decides(self, a: int)
        requires
            self.wf(),
            self.consistent(),
            self.can_play(a),
        ensures
            has_line(self.after(a).board_of(self.current)) ==> self.after(a).result
                == GameResult::Win(self.current),
            self.after(a).result == GameResult::Draw ==> !has_line(self.after(a).x) && !has_line(
                self.after(a).o,
            ) && self.after(a).occupied() == 511,
            self.after(a).result == GameResult::InProgress ==> !has_line(self.after(a).x)
                && !has_line(self.after(a).o) && self.after(a).occupied() != 511
                && self.after(a).current == other_player(self.current),
            self.after(a).board_of(other_player(self.current)) == self.board_of(
                other_player(self.current),
            ),
    {
        self.lemma_after_wf(a);
        self.lemma_after_consistent(a);
    }
}

/// Tic-Tac-Toe game state using bitboard representation.
///
/// Two `u16` bitboards track pieces for each player. Bits 0–8 map
/// to board cells. Win detection uses precomputed bitmasks.
#[derive(Debug, Clone, Copy)]
pub struct TicTacToe {
    /// Bitboard for Player One (X).
    board_x: u16,
    /// Bitboard for Player Two (O).
    board_o: u16,
    /// Player whose turn it is.
    current: Player,
    /// Cached game result.
    result: GameResult,
}

impl View for TicTacToe {
    type V = GameState;

    closed spec fn view(&self) -> GameState {
        GameState { x: self.board_x, o: self.board_o, current: self.current, result: self.result }
    }
}

impl Default for TicTacToe {
    fn default() -> (r: Self)
        ensures
            r@ == initial_state(),
    {
        Self::new()
    }
}

impl TicTacToe {
    /// Every game value is well-formed and has the shape of a state
    /// reached by moves from the initial one (see [`GameState::consistent`]).
    #[verifier::type_invariant]
    pub open spec fn inv(self) -> bool {
        self@.wf() && self@.consistent()
    }

    /// Creates a new game with an empty board. Player One moves first.
    pub fn new() -> (r: Self)
        ensures
            r@ == initial_state(),
    {
        assert(0u16 & 0u16 == 0 && 0u16 | 0u16 != 511) by (bit_vector);
        proof {
            lemma_initial_consistent();
        }
        Self { board_x: 0, board_o: 0, current: Player::One, result: GameResult::InProgress }
    }

    /// Resets the game to initial state.
    pub fn reset(&mut self)
        ensures
            final(self)@ == initial_state(),
    {
        *self = Self::new();
    }

    /// Returns the current player.
    pub fn current_player(&self) -> (p: Player)
        ensures
            p == self@.current,
    {
        self.current
    }

    /// Returns indices of empty cells (valid moves), in increasing order.
    ///
    /// Returns an empty vector if the game is terminal.
    pub fn valid_actions(&self) -> (v: Vec<usize>)
        ensures
            v@ == self@.legal_moves(),
    {
        if self.is_terminal() {
            return Vec::new();
        }
        let occupied = self.board_x | self.board_o;
        let empty = !occupied & 0x1FF;
        let mut v: Vec<usize> = Vec::new();
        let mut i: usize = 0;
        while i < 9
            invariant
                i <= 9,
                occupied == self@.occupied(),
                empty == !occupied & 0x1FF,
                v@ == self@.free_cells_below(i as int),
            decreases 9 - i,
        {
            let bit = 1u16 << (i as u16);
            assert((empty & bit != 0) == (occupied & bit == 0)) by (bit_vector)
                requires
                    i < 9,
                    bit == 1u16 << (i as u16),
                    empty == !occupied & 0x1FF,
            ;
            if empty & bit != 0 {
                v.push(i);
            }
            i = i + 1;
        }
        v
    }

    /// Places a piece at `action` for the current player.
    ///
    /// Returns the resulting [`GameResult`], or an error string if the
    /// action is invalid (out of range, cell already occupied, or game over).
    /// A refused move leaves the game unchanged.
    pub fn step(&mut self, action: usize) -> (r: Result<GameResult, String>)
        ensures
            (r is Ok) == old(self)@.can_play(action as int),
            r matches Ok(res) ==> final(self)@ == old(self)@.after(action as int) && res
                == final(self)@.result,
            r matches Ok(res) ==> (has_line(final(self)@.board_of(old(self)@.current)) <==> res
                == GameResult::Win(old(self)@.current)),
            r matches Ok(res) ==> (res == GameResult::Draw <==> (!has_line(
                final(self)@.board_of(old(self)@.current),
            ) && final(self)@.occupied() == 511)),
            r matches Err(e) ==> *final(self) == *old(self) && e@ == step_error(
                old(self)@,
                action as int,
            ),
    {
        proof {
            use_type_invariant(&*self);
        }
        if action >= 9 {
            let mut msg = String::new();
            msg.append("Action ");
            push_decimal(&mut msg, action as u64);
            msg.append(" out of range [0, 9)");
            return Err(msg);
        }
        let mask = 1u16 << (action as u16);
        if (self.board_x | self.board_o) & mask != 0 {
            let mut msg = String::new();
            msg.append("Cell ");
            push_decimal(&mut msg, action as u64);
            msg.append(" is already occupied");
            return Err(msg);
        }
        if self.is_terminal() {
            let mut msg = String::new();
            msg.append("Game is already over");
            return Err(msg);
        }
        proof {
            lemma_cell_mask(self.board_x, self.board_o, action as u16);
            self@.lemma_after_wf(action as int);
            self@.lemma_after_consistent(action as int);
        }
        let ghost next_state = self@.after(action as int);
        let bx = match self.current {
            Player::One => self.board_x | mask,
            Player::Two => self.board_x,
        };
        let bo = match self.current {
            Player::One => self.board_o,
            Player::Two => self.board_o | mask,
        };
        let board = match self.current {
            Player::One => bx,
            Player::Two => bo,
        };
        let current = self.current;
        // Check for win
        if Self::has_winning_line(board) {
            assert(next_state == GameState { x: bx, o: bo, current, result: GameResult::Win(current) });
            *self = Self { board_x: bx, board_o: bo, current, result: GameResult::Win(current) };
            return Ok(self.result);
        }
        // Check for draw (all 9 cells filled)
        if (bx | bo) == 0x1FF {
            assert(next_state == GameState { x: bx, o: bo, current, result: GameResult::Draw });
            *self = Self { board_x: bx, board_o: bo, current, result: GameResult::Draw };
            return Ok(self.result);
        }
        // Switch player
        let next = match current {
            Player::One => Player::Two,
            Player::Two => Player::One,
        };
        *self = Self { board_x: bx, board_o: bo, current: next, result: GameResult::InProgress };
        Ok(GameResult::InProgress)
    }

    /// Returns `true` if the game has ended (win or draw).
    pub fn is_terminal(&self) -> (b: bool)
        ensures
            b == self@.is_terminal(),
    {
        match self.result {
            GameResult::InProgress => false,
            _ => true,
        }
    }

    /// Returns the current game result.
    pub fn result(&self) -> (r: GameResult)
        ensures
            r == self@.result,
    {
        self.result
    }

    /// Encodes the board from `perspective` player's view, one value per cell:
    /// `1` for cells of the perspective player, `-1` for the opponent's
    /// cells, `0` for empty cells.
    pub fn board_as_i8(&self, perspective: Player) -> (out: [i8; 9])
        ensures
            forall|i: int| 0 <= i < 9 ==> out@[i] == self@.cell_sign(perspective, i),
    {
        let (mine, theirs) = match perspective {
            Player::One => (self.board_x, self.board_o),
            Player::Two => (self.board_o, self.board_x),
        };
        let mut out = [0i8; 9];
        let mut i: usize = 0;
        while i < 9
            invariant
                i <= 9,
                mine == self@.board_of(perspective),
                theirs == self@.board_of(other_player(perspective)),
                forall|j: int| 0 <= j < i ==> out@[j] == self@.cell_sign(perspective, j),
                forall|j: int| i <= j < 9 ==> out@[j] == 0,
            decreases 9 - i,
        {
            let bit = 1u16 << (i as u16);
            if mine & bit != 0 {
                out[i] = 1;
            } else if theirs & bit != 0 {
                out[i] = -1;
            }
            i = i + 1;
        }
        out
    }

    /// Returns the reward sign for the given player based on the current
    /// result: `1` if the player won, `-1` if the player lost, `0` for a
    /// draw or a game in progress.
    pub fn reward_sign(&self, player: Player) -> (r: i8)
        ensures
            r == self@.reward_sign(player),
    {
        match self.result {
            GameResult::Win(winner) => {
                if winner == player {
                    1
                } else {
                    -1
                }
            },
            _ => 0,
        }
    }

    /// Checks whether a bitboard contains any winning line.
    fn has_winning_line(board: u16) -> (b: bool)
        ensures
            b == has_line(board),
    {
        let mut k: usize = 0;
        while k < 8
            invariant
                k <= 8,
                WIN_MASKS@ == seq![7u16, 56, 448, 73, 146, 292, 273, 84],
                forall|j: int| 0 <= j < k ==> board & #[trigger] WIN_MASKS@[j] != WIN_MASKS@[j],
            decreases 8 - k,
        {
            let mask = WIN_MASKS[k];
            if board & mask == mask {
                return true;
            }
            k = k + 1;
        }
        assert(board & WIN_MASKS@[0] != WIN_MASKS@[0]);
        assert(board & WIN_MASKS@[1] != WIN_MASKS@[1]);
        assert(board & WIN_MASKS@[2] != WIN_MASKS@[2]);
        assert(board & WIN_MASKS@[3] != WIN_MASKS@[3]);
        assert(board & WIN_MASKS@[4] != WIN_MASKS@[4]);
        assert(board & WIN_MASKS@[5] != WIN_MASKS@[5]);
        assert(board & WIN_MASKS@[6] != WIN_MASKS@[6]);
        assert(board & WIN_MASKS@[7] != WIN_MASKS@[7]);
        false
    }

    /// Returns the raw bitboards `(board_x, board_o)`.
    pub fn bitboards(&self) -> (r: (u16, u16))
        ensures
            r == (self@.x, self@.o),
            self@.wf(),
            self@.consistent(),
    {
        proof {
            use_type_invariant(self);
        }
        (self.board_x, self.board_o)
    }

    /// Returns the win masks used for win detection.
    pub fn win_masks() -> (r: &'static [u16; 8])
        ensures
            r@ == seq![7u16, 56, 448, 73, 146, 292, 273, 84],
    {
        &WIN_MASKS
    }
}

} // verus!
