//! Minimax opponent with alpha-beta pruning for Tic-Tac-Toe.
//!
//! Provides [`MinimaxPlayer`] with configurable search depth (1–9),
//! move ordering, depth-aware scoring, and a transposition table
//! that persists across calls.
//!
//! The search is specified by [`search`] and [`choose_spec`]: a negamax
//! with alpha-beta cut-offs whose results are cached per position (board
//! and side to move) in the transposition table, exactly as the executable
//! code computes them.
use std::collections::HashMap;

use vstd::prelude::*;

use crate::env::tictactoe::{GameResult, GameState, Player, TicTacToe};

verus! {

broadcast use vstd::std_specs::hash::group_hash_axioms;

/// Move ordering priority: center > corners > edges.
const MOVE_ORDER: [usize; 9] = [4, 0, 2, 6, 8, 1, 3, 5, 7];

/// The move ordering as a sequence.
pub open spec fn move_order() -> Seq<usize> {
    seq![4usize, 0, 2, 6, 8, 1, 3, 5, 7]
}

/// The first `n` entries of the move ordering that occur in `valid`.
pub open spec fn ordered_prefix(valid: Seq<usize>, n: int) -> Seq<usize>
    decreases n,
{
    if n <= 0 {
        seq![]
    } else {
        let prev = ordered_prefix(valid, n - 1);
        let m = move_order()[n - 1];
        if valid.contains(m) {
            prev.push(m)
        } else {
            prev
        }
    }
}

/// The moves of `valid`, listed in move-ordering priority.
pub open spec fn ordered_moves(valid: Seq<usize>) -> Seq<usize> {
    ordered_prefix(valid, 9)
}

/// The moves the search explores from `s`, in the order it explores them.
pub open spec fn search_order(s: GameState) -> Seq<usize> {
    ordered_moves(s.legal_moves())
}

/// The transposition-table key of a position: bit 31 = side to move,
/// bits 16–24 = Player One's board, bits 0–8 = Player Two's board.
pub open spec fn board_key(s: GameState) -> u32 {
    let player_bit: u32 = if s.current == Player::One { 0 } else { 1u32 << 31u32 };
    player_bit | ((s.x as u32) << 16u32) | (s.o as u32)
}

/// Score of a terminal position in negamax convention, seen by the side to
/// move next; `dfr` is the distance from the search root, so that faster
/// wins rank higher.
pub open spec fn terminal_score(s: GameState, dfr: int) -> int {
    match s.result {
        GameResult::Draw => 0,
        GameResult::Win(w) => if w == s.current { dfr - 10 } else { 10 - dfr },
        GameResult::InProgress => 0,
    }
}

/// Alpha-beta negamax from `s` with `depth` plies left, window
/// `(alpha, beta)`, at distance `dfr` from the root, using and filling the
/// transposition table `tt`. Returns the score and the resulting table.
pub open spec fn search(
    tt: Map<u32, i8>,
    s: GameState,
    depth: nat,
    alpha: int,
    beta: int,
    dfr: int,
) -> (int, Map<u32, i8>)
    decreases depth, 1nat, 0nat,
{
    if s.is_terminal() {
        (terminal_score(s, dfr), tt)
    } else if depth == 0 {
        (0, tt)
    } else if tt.contains_key(board_key(s)) {
        (tt[board_key(s)] as int, tt)
    } else {
        let (best, tt2) = search_from(tt, s, search_order(s), 0, depth, alpha, beta, dfr, -120);
        (best, tt2.insert(board_key(s), best as i8))
    }
}

/// The move loop of [`search`]: explores `moves[i..]` with the running best
/// score `best` and lower bound `alpha`, stopping at a cut-off.
pub open spec fn search_from(
    tt: Map<u32, i8>,
    s: GameState,
    moves: Seq<usize>,
    i: int,
    depth: nat,
    alpha: int,
    beta: int,
    dfr: int,
    best: int,
) -> (int, Map<u32, i8>)
    decreases depth, 0nat, moves.len() - i,
{
    if i < 0 || i >= moves.len() || depth == 0 {
        (best, tt)
    } else {
        let (v, tt1) = search(
            tt,
            s.after(moves[i] as int),
            (depth - 1) as nat,
            -beta,
            -alpha,
            dfr + 1,
        );
        let score = -v;
        let best2 = if score > best { score } else { best };
        let alpha2 = if best2 > alpha { best2 } else { alpha };
        if alpha2 >= beta {
            (best2, tt1)
        } else {
            search_from(tt1, s, moves, i + 1, depth, alpha2, beta, dfr, best2)
        }
    }
}

/// The root loop of [`choose_spec`]: scores `moves[i..]` one after the
/// other, keeping the first move of the highest score.
pub open spec fn choose_from(
    tt: Map<u32, i8>,
    s: GameState,
    moves: Seq<usize>,
    i: int,
    depth: nat,
    best_action: usize,
    best_score: int,
) -> (usize, Map<u32, i8>)
    decreases moves.len() - i,
{
    if i < 0 || i >= moves.len() {
        (best_action, tt)
    } else {
        let (v, tt1) = search(tt, s.after(moves[i] as int), (depth - 1) as nat, -120, -best_score, 1);
        let score = -v;
        if score > best_score {
            choose_from(tt1, s, moves, i + 1, depth, moves[i], score)
        } else {
            choose_from(tt1, s, moves, i + 1, depth, best_action, best_score)
        }
    }
}

/// The action chosen at `s` by a player of search depth `depth` holding
/// table `tt`, with the table afterwards.
pub open spec fn choose_spec(tt: Map<u32, i8>, s: GameState, depth: nat) -> (usize, Map<u32, i8>) {
    let moves = search_order(s);
    choose_from(tt, s, moves, 0, depth, moves[0], -120)
}

/// Every cached score lies in `[-8, 8]`.
pub open spec fn table_bounded(tt: Map<u32, i8>) -> bool {
    forall|k: u32| #[trigger] tt.contains_key(k) ==> -8 <= tt[k] <= 8
}

/// `b` keeps every entry of `a` unchanged.
pub open spec fn table_extends(a: Map<u32, i8>, b: Map<u32, i8>) -> bool {
    forall|k: u32| #[trigger] a.contains_key(k) ==> b.contains_key(k) && b[k] == a[k]
}

/// Placing a piece at `a` wins the game for the side to move.
pub open spec fn wins_immediately(s: GameState, a: int) -> bool {
    s.can_play(a) && s.after(a).result == GameResult::Win(s.current)
}

/// The ordered prefix lists moves of `valid`, and every move of the ordering
/// that lies in `valid` appears in it.
proof fn lemma_ordered_prefix(valid: Seq<usize>, n: int)
    requires
        0 <= n <= 9,
    ensures
        forall|k: int|
            0 <= k < ordered_prefix(valid, n).len() ==> valid.contains(
                #[trigger] ordered_prefix(valid, n)[k],
            ),
        forall|j: int|
            0 <= j < n && valid.contains(#[trigger] move_order()[j]) ==> ordered_prefix(
                valid,
                n,
            ).contains(move_order()[j]),
    decreases n,
{
    if n > 0 {
        lemma_ordered_prefix(valid, n - 1);
        let prev = ordered_prefix(valid, n - 1);
        let m = move_order()[n - 1];
        if valid.contains(m) {
            assert(ordered_prefix(valid, n) == prev.push(m));
            assert forall|j: int|
                0 <= j < n && valid.contains(#[trigger] move_order()[j]) implies ordered_prefix(
                valid,
                n,
            ).contains(move_order()[j]) by {
                if j < n - 1 {
                    let k = choose|k: int| 0 <= k < prev.len() && prev[k] == move_order()[j];
                    assert(ordered_prefix(valid, n)[k] == move_order()[j]);
                } else {
                    assert(ordered_prefix(valid, n)[prev.len() as int] == m);
                }
            }
        }
    }
}

/// Every explored move is legal, and a game in progress explores at least one.
proof fn lemma_search_order(s: GameState)
    requires
        s.wf(),
        !s.is_terminal(),
    ensures
        search_order(s).len() > 0,
        forall|k: int| 0 <= k < search_order(s).len() ==> s.can_play(#[trigger] search_order(s)[k] as int),
        forall|a: int| #[trigger] s.can_play(a) ==> search_order(s).contains(a as usize),
{
    let valid = s.legal_moves();
    s.lemma_free_cells_below(9);
    lemma_ordered_prefix(valid, 9);
    assert(move_order()[0] == 4 && move_order()[1] == 0 && move_order()[2] == 2 && move_order()[3]
        == 6 && move_order()[4] == 8 && move_order()[5] == 1 && move_order()[6] == 3
        && move_order()[7] == 5 && move_order()[8] == 7);
    assert forall|a: int| #[trigger] s.can_play(a) implies search_order(s).contains(a as usize) by {
        assert(valid.contains(a as usize));
        if a == 4 {
            assert(valid.contains(move_order()[0]));
        } else if a == 0 {
            assert(valid.contains(move_order()[1]));
        } else if a == 2 {
            assert(valid.contains(move_order()[2]));
        } else if a == 6 {
            assert(valid.contains(move_order()[3]));
        } else if a == 8 {
            assert(valid.contains(move_order()[4]));
        } else if a == 1 {
            assert(valid.contains(move_order()[5]));
        } else if a == 3 {
            assert(valid.contains(move_order()[6]));
        } else if a == 5 {
            assert(valid.contains(move_order()[7]));
        } else {
            assert(valid.contains(move_order()[8]));
        }
    }
    assert forall|k: int| 0 <= k < search_order(s).len() implies s.can_play(
        #[trigger] search_order(s)[k] as int,
    ) by {
        assert(valid.contains(search_order(s)[k]));
        let j = choose|j: int| 0 <= j < valid.len() && valid[j] == search_order(s)[k];
        assert(s.is_free(valid[j] as int));
    }
    s.lemma_in_progress_has_move();
    let c = valid[0];
    assert(s.can_play(c as int));
}

/// Bounds and table facts of [`search`]: the table only grows and stays
/// bounded; scores lie in `[-9, 9]`, and in `[-8, 8]` away from the root's
/// children or at positions in progress.
proof fn lemma_search(tt: Map<u32, i8>, s: GameState, depth: nat, alpha: int, beta: int, dfr: int)
    requires
        s.wf(),
        table_bounded(tt),
        1 <= dfr,
        depth + dfr <= 9,
    ensures
        table_bounded(search(tt, s, depth, alpha, beta, dfr).1),
        table_extends(tt, search(tt, s, depth, alpha, beta, dfr).1),
        -9 <= search(tt, s, depth, alpha, beta, dfr).0 <= 9,
        (2 <= dfr || !s.is_terminal()) ==> -8 <= search(tt, s, depth, alpha, beta, dfr).0 <= 8,
    decreases depth, 1nat, 0nat,
{
    if s.is_terminal() {
    } else if depth == 0 {
    } else if tt.contains_key(board_key(s)) {
    } else {
        lemma_search_order(s);
        lemma_search_from(tt, s, search_order(s), 0, depth, alpha, beta, dfr, -120);
    }
}

/// Bounds and table facts of [`search_from`].
proof fn lemma_search_from(
    tt: Map<u32, i8>,
    s: GameState,
    moves: Seq<usize>,
    i: int,
    depth: nat,
    alpha: int,
    beta: int,
    dfr: int,
    best: int,
)
    requires
        s.wf(),
        !s.is_terminal(),
        table_bounded(tt),
        1 <= dfr,
        1 <= depth,
        depth + dfr <= 9,
        0 <= i,
        forall|k: int| 0 <= k < moves.len() ==> s.can_play(#[trigger] moves[k] as int),
        (i == 0 && best == -120) || -8 <= best <= 8,
    ensures
        table_bounded(search_from(tt, s, moves, i, depth, alpha, beta, dfr, best).1),
        table_extends(tt, search_from(tt, s, moves, i, depth, alpha, beta, dfr, best).1),
        (i < moves.len() || -8 <= best <= 8) ==> -8 <= search_from(
            tt,
            s,
            moves,
            i,
            depth,
            alpha,
            beta,
            dfr,
            best,
        ).0 <= 8,
    decreases depth, 0nat, moves.len() - i,
{
    if i >= moves.len() {
    } else {
        let child = s.after(moves[i] as int);
        s.lemma_after_wf(moves[i] as int);
        lemma_search(tt, child, (depth - 1) as nat, -beta, -alpha, dfr + 1);
        let (v, tt1) = search(tt, child, (depth - 1) as nat, -beta, -alpha, dfr + 1);
        let score = -v;
        let best2 = if score > best { score } else { best };
        let alpha2 = if best2 > alpha { best2 } else { alpha };
        if alpha2 < beta {
            lemma_search_from(tt1, s, moves, i + 1, depth, alpha2, beta, dfr, best2);
        }
    }
}

/// Alpha-beta minimax player with transposition table.
///
/// Depth controls search strength: 1 (weak) to 9 (perfect play).
/// The transposition table persists across calls to
/// [`choose_action`](MinimaxPlayer::choose_action), accelerating repeated
/// evaluations.
pub struct MinimaxPlayer {
    /// Maximum search depth.
    depth: usize,
    /// Cached board evaluations keyed by board hash.
    transposition_table: HashMap<u32, i8>,
}

impl MinimaxPlayer {
    /// The configured search depth.
    pub closed spec fn search_depth(self) -> nat {
        self.depth as nat
    }

    /// The contents of the transposition table.
    pub closed spec fn table(self) -> Map<u32, i8> {
        self.transposition_table@
    }

    /// Validity: the depth lies in `[1, 9]` and every cached score in `[-8, 8]`.
    pub closed spec fn wf(self) -> bool {
        &&& 1 <= self.depth <= 9
        &&& table_bounded(self.transposition_table@)
    }

    /// A valid player has a depth in `[1, 9]` and a finite, bounded table.
    pub proof fn lemma_wf(self)
        requires
            self.wf(),
        ensures
            1 <= self.search_depth() <= 9,
            table_bounded(self.table()),
            self.table().dom().finite(),
    {
    }

    /// Creates a new minimax player with the given search depth, from 1
    /// (weak) to 9 (perfect), and an empty transposition table.
    pub fn new(depth: usize) -> (r: Self)
        requires
            1 <= depth <= 9,
        ensures
            r.wf(),
            r.search_depth() == depth,
            r.table() == Map::<u32, i8>::empty(),
            r.table().len() == 0,
    {
        Self { depth, transposition_table: HashMap::new() }
    }

    /// Returns the number of entries in the transposition table.
    pub fn transposition_table_len(&self) -> (n: usize)
        ensures
            n == self.table().len(),
    {
        self.transposition_table.len()
    }

    /// Returns the best action for the current player on `board`.
    ///
    /// Evaluates all valid moves using alpha-beta search up to the
    /// configured depth, with move ordering and transposition caching.
    /// The result is a legal move; when the side to move can win at once,
    /// it is a winning move. Cached entries are never altered.
    pub fn choose_action(&mut self, board: &TicTacToe) -> (a: usize)
        requires
            old(self).wf(),
            !board@.is_terminal(),
        ensures
            final(self).wf(),
            final(self).search_depth() == old(self).search_depth(),
            (a, final(self).table()) == choose_spec(
                old(self).table(),
                board@,
                old(self).search_depth(),
            ),
            board@.can_play(a as int),
            table_extends(old(self).table(), final(self).table()),
            final(self).table().dom().finite(),
            final(self).table().len() >= old(self).table().len(),
            (exists|m: int| wins_immediately(board@, m)) ==> wins_immediately(board@, a as int),
    {
        proof {
            use_type_invariant(board);
            lemma_search_order(board@);
        }
        let ghost s = board@;
        let ghost tt0 = self.table();
        let valid = board.valid_actions();
        let ordered = Self::order_moves(valid.as_slice());
        let ghost moves = ordered@;
        let mut best_action = ordered[0];
        let mut best_score: i8 = -120;
        let mut i: usize = 0;
        while i < ordered.len()
            invariant
                s == board@,
                s.wf(),
                !s.is_terminal(),
                moves == ordered@,
                moves == search_order(s),
                self.wf(),
                self.search_depth() == old(self).search_depth(),
                tt0 == old(self).table(),
                table_extends(tt0, self.table()),
                i <= moves.len(),
                forall|k: int| 0 <= k < moves.len() ==> s.can_play(#[trigger] moves[k] as int),
                forall|a: int| #[trigger] s.can_play(a) ==> moves.contains(a as usize),
                s.can_play(best_action as int),
                best_score == -120 || -9 <= best_score <= 9,
                best_score == -120 <==> i == 0,
                best_score == 9 ==> wins_immediately(s, best_action as int),
                (i > 0 && wins_immediately(s, best_action as int)) ==> best_score == 9,
                best_score == 9 || (forall|k: int| 0 <= k < i ==> !wins_immediately(s, #[trigger] moves[k] as int)),
                choose_from(self.table(), s, moves, i as int, self.search_depth(), best_action, best_score as int)
                    == choose_from(tt0, s, moves, 0, self.search_depth(), moves[0], -120),
            decreases moves.len() - i,
        {
            let action = ordered[i];
            let mut clone = *board;
            let r = clone.step(action);
            proof {
                s.lemma_after_wf(action as int);
                self.lemma_wf();
                lemma_search(self.table(), s.after(action as int), (self.search_depth() - 1) as nat, -120, -best_score as int, 1);
            }
            let ghost tt_before = self.table();
            let v = self.alpha_beta(&clone, self.depth - 1, -120, -best_score, 1);
            let score = -v;
            proof {
                let child = s.after(action as int);
                if child.is_terminal() {
                    if wins_immediately(s, action as int) {
                        assert(score == 9);
                    } else {
                        assert(child.result == GameResult::Draw || child.result == GameResult::Win(s.current));
                        assert(score == 0);
                    }
                } else {
                    assert(!wins_immediately(s, action as int));
                }
            }
            if score > best_score {
                best_score = score;
                best_action = action;
            }
            i = i + 1;
        }
        proof {
            if exists|m: int| wins_immediately(s, m) {
                let m = choose|m: int| wins_immediately(s, m);
                assert(moves.contains(m as usize));
            }
            assert(tt0.dom().subset_of(self.table().dom()));
            vstd::set_lib::lemma_len_subset(tt0.dom(), self.table().dom());
        }
        best_action
    }

    /// Alpha-beta search returning a score from the perspective of the
    /// player whose turn it is on `board`.
    ///
    /// Positive scores favor the current player; negative scores favor
    /// the opponent. Depth-aware scoring ensures faster wins rank higher.
    fn alpha_beta(
        &mut self,
        board: &TicTacToe,
        depth: usize,
        alpha: i8,
        beta: i8,
        depth_from_root: usize,
    ) -> (score: i8)
        requires
            old(self).wf(),
            1 <= depth_from_root,
            depth + depth_from_root <= 9,
            -120 <= alpha <= 120,
            -120 <= beta <= 120,
        ensures
            final(self).wf(),
            final(self).search_depth() == old(self).search_depth(),
            (score as int, final(self).table()) == search(
                old(self).table(),
                board@,
                depth as nat,
                alpha as int,
                beta as int,
                depth_from_root as int,
            ),
            -9 <= score <= 9,
            board@.is_terminal() ==> score == if board@.result == GameResult::Draw {
                0
            } else {
                depth_from_root - 10
            },
            !board@.is_terminal() && depth == 0 ==> score == 0,
        decreases depth,
    {
        proof {
            use_type_invariant(board);
            lemma_search(
                self.table(),
                board@,
                depth as nat,
                alpha as int,
                beta as int,
                depth_from_root as int,
            );
        }
        let ghost s = board@;
        let ghost tt0 = self.table();
        let ghost alpha0 = alpha as int;
        // Terminal check
        if board.is_terminal() {
            return Self::terminal_score(board, depth_from_root);
        }
        if depth == 0 {
            return 0;  // heuristic: draw at depth limit
        }
        // Transposition table lookup
        let key = Self::board_key(board);
        match self.transposition_table.get(&key) {
            Some(cached) => {
                return *cached;
            },
            None => {},
        }
        proof {
            lemma_search_order(s);
        }
        let valid = board.valid_actions();
        let ordered = Self::order_moves(valid.as_slice());
        let ghost moves = ordered@;
        let mut best: i8 = -120;
        let mut alpha = alpha;
        let mut cut = false;
        let mut i: usize = 0;
        while i < ordered.len() && !cut
            invariant
                s == board@,
                s.wf(),
                !s.is_terminal(),
                1 <= depth,
                depth + depth_from_root <= 9,
                1 <= depth_from_root,
                -120 <= beta <= 120,
                moves == ordered@,
                moves == search_order(s),
                forall|k: int| 0 <= k < moves.len() ==> s.can_play(#[trigger] moves[k] as int),
                self.wf(),
                self.search_depth() == old(self).search_depth(),
                tt0 == old(self).table(),
                table_extends(tt0, self.table()),
                !tt0.contains_key(board_key(s)),
                i <= moves.len(),
                (i == 0 && best == -120) || -8 <= best <= 8,
                -120 <= alpha <= 120,
                cut ==> (best as int, self.table()) == search_from(tt0, s, moves, 0, depth as nat, alpha0, beta as int, depth_from_root as int, -120),
                !cut ==> search_from(self.table(), s, moves, i as int, depth as nat, alpha as int, beta as int, depth_from_root as int, best as int)
                    == search_from(tt0, s, moves, 0, depth as nat, alpha0, beta as int, depth_from_root as int, -120),
            decreases moves.len() - i + (if cut { 0int } else { 1int }),
        {
            let action = ordered[i];
            let mut clone = *board;
            let r = clone.step(action);
            proof {
                s.lemma_after_wf(action as int);
                lemma_search(self.table(), s.after(action as int), (depth - 1) as nat, -beta as int, -alpha as int, depth_from_root as int + 1);
            }
            let v = self.alpha_beta(&clone, depth - 1, -beta, -alpha, depth_from_root + 1);
            let score = -v;
            if score > best {
                best = score;
            }
            if best > alpha {
                alpha = best;
            }
            if alpha >= beta {
                cut = true;
            } else {
                i = i + 1;
            }
        }
        proof {
            lemma_search_from(tt0, s, moves, 0, depth as nat, alpha0, beta as int, depth_from_root as int, -120);
        }
        self.transposition_table.insert(key, best);
        best
    }

    /// Evaluates a terminal board in negamax convention.
    ///
    /// After a winning `step()`, `current_player()` remains the winner
    /// (the turn does not switch on terminal states). The caller negates
    /// the returned score, so the score is seen by the logical next-to-move
    /// player: a win by `current_player()` is negative, a draw is 0.
    fn terminal_score(board: &TicTacToe, depth_from_root: usize) -> (score: i8)
        requires
            depth_from_root <= 9,
        ensures
            score as int == terminal_score(board@, depth_from_root as int),
    {
        match board.result() {
            GameResult::Draw => 0,
            GameResult::Win(winner) => {
                let d = depth_from_root as i8;
                if winner == board.current_player() {
                    d - 10
                } else {
                    10 - d
                }
            },
            GameResult::InProgress => 0,
        }
    }

    /// Orders moves by priority: center > corners > edges.
    pub fn order_moves(valid: &[usize]) -> (ordered: Vec<usize>)
        ensures
            ordered@ == ordered_moves(valid@),
    {
        let mut ordered: Vec<usize> = Vec::with_capacity(valid.len());
        let mut j: usize = 0;
        while j < 9
            invariant
                j <= 9,
                MOVE_ORDER@ == move_order(),
                ordered@ == ordered_prefix(valid@, j as int),
            decreases 9 - j,
        {
            let m = MOVE_ORDER[j];
            if slice_contains(valid, m) {
                ordered.push(m);
            }
            j = j + 1;
        }
        ordered
    }

    /// Computes a unique hash key for the board state including current player.
    ///
    /// Layout: bit 31 = current player flag, bits 16–24 = board_x, bits 0–8 = board_o.
    fn board_key(board: &TicTacToe) -> (key: u32)
        ensures
            key == board_key(board@),
    {
        let (bx, bo) = board.bitboards();
        let player_bit: u32 = match board.current_player() {
            Player::One => 0,
            Player::Two => 1 << 31,
        };
        player_bit | ((bx as u32) << 16) | (bo as u32)
    }
}

/// Whether `m` occurs in `valid`.
fn slice_contains(valid: &[usize], m: usize) -> (b: bool)
    ensures
        b == valid@.contains(m),
{
    let mut k: usize = 0;
    while k < valid.len()
        invariant
            k <= valid@.len(),
            forall|j: int| 0 <= j < k ==> valid@[j] != m,
        decreases valid@.len() - k,
    {
        if valid[k] == m {
            return true;
        }
        k = k + 1;
    }
    false
}

} // verus!
