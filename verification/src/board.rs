//! Positions on a chess board, written in Forsyth-Edwards notation (FEN), and
//! the rules of the game, taken from the `chess` crate.

use chess::{Board, ChessMove, ALL_PIECES, ALL_SQUARES};
use std::str::FromStr;
use vstd::prelude::*;
use vstd::string::*;

verus! {

/// Whether a game in some position goes on or is over, and how.
#[derive(Clone, Copy, Debug, PartialEq, Eq, Structural)]
pub enum BoardStatus {
    Ongoing,
    Stalemate,
    Checkmate,
}

/// A move: the squares it leads from and to, counted from a1 along the ranks,
/// and the piece that a pawn turns into, counted from the pawn upwards.
#[derive(Clone, Copy, Debug, PartialEq, Eq, Structural)]
pub struct BoardMove {
    pub source: u8,
    pub dest: u8,
    pub promotion: Option<u8>,
}

/// How far a FEN has been read.
pub struct Scan {
    /// The fields that have been read whole: each is ended by a space.
    pub field: int,
    /// The square that the next piece is placed on, its rank and file counted from
    /// zero.
    pub rank: int,
    pub file: int,
    /// What stands on the squares, from a1 along the ranks; a space where nothing
    /// does.
    pub squares: Seq<char>,
    /// How the second field starts, which names the side to move.
    pub side: char,
    /// How the fourth field starts: the file and the rank of a square behind a pawn
    /// that can be taken in passing.
    pub passing: char,
    pub passing_rank: char,
}

/// Whether `c` stands for a white piece.
pub open spec fn is_white_piece(c: char) -> bool {
    c == 'P' || c == 'N' || c == 'B' || c == 'R' || c == 'Q' || c == 'K'
}

/// Whether `c` stands for a black piece.
pub open spec fn is_black_piece(c: char) -> bool {
    c == 'p' || c == 'n' || c == 'b' || c == 'r' || c == 'q' || c == 'k'
}

/// Reads one more character of a FEN. The first field places the pieces, from the
/// eighth rank down; behind the last file or rank it goes on at the first.
pub open spec fn scan_step(st: Scan, c: char) -> Scan {
    if c == ' ' {
        Scan { field: st.field + 1, ..st }
    } else if st.field == 0 {
        if c == '/' {
            Scan { rank: (st.rank + 7) % 8, file: 0, ..st }
        } else if '1' <= c && c <= '8' {
            Scan { file: (st.file + (c as int - '0' as int)) % 8, ..st }
        } else if is_white_piece(c) || is_black_piece(c) {
            Scan {
                squares: st.squares.update(st.rank * 8 + st.file, c),
                file: (st.file + 1) % 8,
                ..st
            }
        } else {
            st
        }
    } else if st.field == 1 && st.side == ' ' {
        Scan { side: c, ..st }
    } else if st.field == 3 && st.passing == ' ' {
        Scan { passing: c, ..st }
    } else if st.field == 3 && st.passing_rank == ' ' {
        Scan { passing_rank: c, ..st }
    } else {
        st
    }
}

/// Reads a FEN from its start.
pub open spec fn scan(fen: Seq<char>) -> Scan
    decreases fen.len(),
{
    if fen.len() == 0 {
        Scan {
            field: 0,
            rank: 7,
            file: 0,
            squares: Seq::new(64, |i: int| ' '),
            side: ' ',
            passing: ' ',
            passing_rank: ' ',
        }
    } else {
        scan_step(scan(fen.drop_last()), fen.last())
    }
}

/// How many squares of the first `n` hold `piece`.
pub open spec fn count(squares: Seq<char>, piece: char, n: int) -> int
    decreases n,
{
    if n <= 0 {
        0
    } else {
        count(squares, piece, n - 1) + (if squares[n - 1] == piece { 1int } else { 0 })
    }
}

/// Whether `c` stands for a piece of the given side.
pub open spec fn is_own(c: char, white: bool) -> bool {
    if white {
        is_white_piece(c)
    } else {
        is_black_piece(c)
    }
}

/// What stands on the square of a file and a rank, both counted from zero; `#` off
/// the board.
pub open spec fn on(squares: Seq<char>, file: int, rank: int) -> char {
    if 0 <= file < 8 && 0 <= rank < 8 {
        squares[rank * 8 + file]
    } else {
        '#'
    }
}

/// Whether a square is on the board and holds no piece of the given side.
pub open spec fn is_open(squares: Seq<char>, white: bool, file: int, rank: int) -> bool {
    on(squares, file, rank) != '#' && !is_own(on(squares, file, rank), white)
}

/// Whether one of the four squares beside a square along its rank and file is open.
pub open spec fn open_straight(squares: Seq<char>, white: bool, file: int, rank: int) -> bool {
    is_open(squares, white, file - 1, rank) || is_open(squares, white, file + 1, rank)
        || is_open(squares, white, file, rank - 1) || is_open(squares, white, file, rank + 1)
}

/// Whether one of the four squares beside a square along its diagonals is open.
pub open spec fn open_diagonal(squares: Seq<char>, white: bool, file: int, rank: int) -> bool {
    is_open(squares, white, file - 1, rank - 1) || is_open(squares, white, file - 1, rank + 1)
        || is_open(squares, white, file + 1, rank - 1) || is_open(
        squares,
        white,
        file + 1,
        rank + 1,
    )
}

/// Whether one of the eight squares that a knight reaches from a square is open.
pub open spec fn open_jump(squares: Seq<char>, white: bool, file: int, rank: int) -> bool {
    is_open(squares, white, file - 1, rank - 2) || is_open(squares, white, file - 1, rank + 2)
        || is_open(squares, white, file + 1, rank - 2) || is_open(
        squares,
        white,
        file + 1,
        rank + 2,
    ) || is_open(squares, white, file - 2, rank - 1) || is_open(
        squares,
        white,
        file - 2,
        rank + 1,
    ) || is_open(squares, white, file + 2, rank - 1) || is_open(
        squares,
        white,
        file + 2,
        rank + 1,
    )
}

/// Whether a pawn on a square has an empty square before it or something to take.
pub open spec fn open_to_pawn(squares: Seq<char>, white: bool, file: int, rank: int) -> bool {
    let ahead = if white { rank + 1 } else { rank - 1 };
    on(squares, file, ahead) == ' ' || is_own(on(squares, file - 1, ahead), !white) || is_own(
        on(squares, file + 1, ahead),
        !white,
    )
}

/// Whether the piece of the given side on the square `i` is not hemmed in: there is
/// a square that it could step to, checks and pins aside.
pub open spec fn can_step(squares: Seq<char>, white: bool, i: int) -> bool {
    let c = squares[i];
    let file = i % 8;
    let rank = i / 8;
    if c == 'P' || c == 'p' {
        open_to_pawn(squares, white, file, rank)
    } else if c == 'N' || c == 'n' {
        open_jump(squares, white, file, rank)
    } else if c == 'B' || c == 'b' {
        open_diagonal(squares, white, file, rank)
    } else if c == 'R' || c == 'r' {
        open_straight(squares, white, file, rank)
    } else {
        open_straight(squares, white, file, rank) || open_diagonal(squares, white, file, rank)
    }
}

/// How many pieces of a side on the first `n` squares are not hemmed in.
pub open spec fn movers(squares: Seq<char>, white: bool, n: int) -> int
    decreases n,
{
    if n <= 0 {
        0
    } else {
        movers(squares, white, n - 1) + (if is_own(squares[n - 1], white) && can_step(
            squares,
            white,
            n - 1,
        ) {
            1int
        } else {
            0
        })
    }
}

/// How many pawns of the side to move stand beside a pawn that they may take in
/// passing.
pub open spec fn takers(st: Scan, white: bool) -> int {
    if 'a' <= st.passing && st.passing <= 'h' && '1' <= st.passing_rank && st.passing_rank
        <= '8' {
        let file = st.passing as int - 'a' as int;
        let rank: int = if white { 4 } else { 3 };
        let pawn = if white { 'P' } else { 'p' };
        (if on(st.squares, file - 1, rank) == pawn { 1int } else { 0 }) + (if on(
            st.squares,
            file + 1,
            rank,
        ) == pawn {
            1int
        } else {
            0
        })
    } else {
        0
    }
}

/// Whether a FEN places one king of either side, and the side to move has no more
/// to move than the rules can be asked about: eighteen pieces, a pawn counted once
/// more where it may take in passing. No game that starts from the usual position
/// comes near that. A more crowded position is not asked about, though checks and
/// pins may leave it fewer moves.
pub open spec fn playable(fen: Seq<char>) -> bool {
    let st = scan(fen);
    let white = st.side == 'w' || st.side == 'W';
    count(st.squares, 'K', 64) == 1 && count(st.squares, 'k', 64) == 1 && movers(
        st.squares,
        white,
        64,
    ) + takers(st, white) <= 18
}

/// Tells whether `c` stands for a white piece.
fn white_piece(c: char) -> (r: bool)
    ensures
        r == is_white_piece(c),
{
    c == 'P' || c == 'N' || c == 'B' || c == 'R' || c == 'Q' || c == 'K'
}

/// Tells whether `c` stands for a black piece.
fn black_piece(c: char) -> (r: bool)
    ensures
        r == is_black_piece(c),
{
    c == 'p' || c == 'n' || c == 'b' || c == 'r' || c == 'q' || c == 'k'
}

/// Tells whether `c` stands for a piece of the given side.
fn own_piece(c: char, white: bool) -> (r: bool)
    ensures
        r == is_own(c, white),
{
    if white {
        white_piece(c)
    } else {
        black_piece(c)
    }
}

/// Reads what stands on a square.
fn piece_on(squares: &Vec<char>, file: i8, rank: i8) -> (r: char)
    requires
        squares@.len() == 64,
    ensures
        r == on(squares@, file as int, rank as int),
{
    if 0 <= file && file < 8 && 0 <= rank && rank < 8 {
        squares[rank as usize * 8 + file as usize]
    } else {
        '#'
    }
}

/// Tells whether a square is open to a side.
fn square_open(squares: &Vec<char>, white: bool, file: i8, rank: i8) -> (r: bool)
    requires
        squares@.len() == 64,
    ensures
        r == is_open(squares@, white, file as int, rank as int),
{
    let c: char = piece_on(squares, file, rank);
    c != '#' && !own_piece(c, white)
}

/// Tells whether a piece is not hemmed in.
fn piece_can_step(squares: &Vec<char>, white: bool, i: usize) -> (r: bool)
    requires
        squares@.len() == 64,
        i < 64,
    ensures
        r == can_step(squares@, white, i as int),
{
    let c: char = squares[i];
    let f: i8 = (i % 8) as i8;
    let k: i8 = (i / 8) as i8;
    if c == 'P' || c == 'p' {
        let ahead: i8 = if white { k + 1 } else { k - 1 };
        piece_on(squares, f, ahead) == ' ' || own_piece(piece_on(squares, f - 1, ahead), !white)
            || own_piece(piece_on(squares, f + 1, ahead), !white)
    } else if c == 'N' || c == 'n' {
        square_open(squares, white, f - 1, k - 2) || square_open(squares, white, f - 1, k + 2)
            || square_open(squares, white, f + 1, k - 2) || square_open(
            squares,
            white,
            f + 1,
            k + 2,
        ) || square_open(squares, white, f - 2, k - 1) || square_open(squares, white, f - 2, k + 1)
            || square_open(squares, white, f + 2, k - 1) || square_open(
            squares,
            white,
            f + 2,
            k + 1,
        )
    } else {
        let straight: bool = square_open(squares, white, f - 1, k) || square_open(
            squares,
            white,
            f + 1,
            k,
        ) || square_open(squares, white, f, k - 1) || square_open(squares, white, f, k + 1);
        let diagonal: bool = square_open(squares, white, f - 1, k - 1) || square_open(
            squares,
            white,
            f - 1,
            k + 1,
        ) || square_open(squares, white, f + 1, k - 1) || square_open(
            squares,
            white,
            f + 1,
            k + 1,
        );
        if c == 'B' || c == 'b' {
            diagonal
        } else if c == 'R' || c == 'r' {
            straight
        } else {
            straight || diagonal
        }
    }
}

/// Tells whether a FEN is playable.
pub fn is_playable(fen: &str) -> (r: bool)
    ensures
        r == playable(fen@),
{
    let mut squares: Vec<char> = Vec::new();
    while squares.len() < 64
        invariant
            squares@.len() <= 64,
            squares@ =~= Seq::new(squares@.len(), |i: int| ' '),
        decreases 64 - squares@.len(),
    {
        squares.push(' ');
    }
    let n: usize = fen.unicode_len();
    let mut i: usize = 0;
    let mut field: usize = 0;
    let mut rank: usize = 7;
    let mut file: usize = 0;
    let mut side: char = ' ';
    let mut passing: char = ' ';
    let mut passing_rank: char = ' ';
    proof {
        assert(fen@.take(0) =~= Seq::<char>::empty());
    }
    while i < n
        invariant
            i <= n,
            n == fen@.len(),
            field <= i,
            rank < 8,
            file < 8,
            squares@.len() == 64,
            scan(fen@.take(i as int)) == (Scan {
                field: field as int,
                rank: rank as int,
                file: file as int,
                squares: squares@,
                side,
                passing,
                passing_rank,
            }),
        decreases n - i,
    {
        let c: char = fen.get_char(i);
        proof {
            assert(fen@.take(i + 1).drop_last() =~= fen@.take(i as int));
        }
        if c == ' ' {
            field = field + 1;
        } else if field == 0 {
            if c == '/' {
                rank = (rank + 7) % 8;
                file = 0;
            } else if '1' <= c && c <= '8' {
                let step: u8 = c as u8 - '0' as u8;
                file = (file + step as usize) % 8;
            } else if white_piece(c) || black_piece(c) {
                squares.set(rank * 8 + file, c);
                file = (file + 1) % 8;
            }
        } else if field == 1 && side == ' ' {
            side = c;
        } else if field == 3 && passing == ' ' {
            passing = c;
        } else if field == 3 && passing_rank == ' ' {
            passing_rank = c;
        }
        i = i + 1;
    }
    proof {
        assert(fen@.take(n as int) =~= fen@);
    }
    let white: bool = side == 'w' || side == 'W';
    let mut at: usize = 0;
    let mut white_kings: u8 = 0;
    let mut black_kings: u8 = 0;
    let mut moving: u8 = 0;
    while at < 64
        invariant
            at <= 64,
            squares@.len() == 64,
            white_kings == count(squares@, 'K', at as int),
            black_kings == count(squares@, 'k', at as int),
            moving == movers(squares@, white, at as int),
            white_kings <= at && black_kings <= at && moving <= at,
        decreases 64 - at,
    {
        let c: char = squares[at];
        if c == 'K' {
            white_kings = white_kings + 1;
        }
        if c == 'k' {
            black_kings = black_kings + 1;
        }
        if own_piece(c, white) && piece_can_step(&squares, white, at) {
            moving = moving + 1;
        }
        at = at + 1;
    }
    let mut taking: u8 = 0;
    if 'a' <= passing && passing <= 'h' && '1' <= passing_rank && passing_rank <= '8' {
        let beside: i8 = (passing as u8 - 'a' as u8) as i8;
        let along: i8 = if white { 4 } else { 3 };
        let pawn: char = if white { 'P' } else { 'p' };
        if piece_on(&squares, beside - 1, along) == pawn {
            taking = taking + 1;
        }
        if piece_on(&squares, beside + 1, along) == pawn {
            taking = taking + 1;
        }
    }
    white_kings == 1 && black_kings == 1 && moving + taking <= 18
}

/// The position that a game starts from.
pub open spec fn initial_fen() -> Seq<char> {
    "rnbqkbnr/pppppppp/8/8/8/8/PPPPPPPP/RNBQKBNR w KQkq - 0 1"@
}

/// Reads on from the character at `i`.
spec fn scan_from(st: Scan, fen: Seq<char>, i: int) -> Scan
    decreases fen.len() - i,
{
    if i < 0 || fen.len() <= i {
        st
    } else {
        scan_from(scan_step(st, fen[i]), fen, i + 1)
    }
}

/// Reading on from where a FEN has been read to reads it to its end.
proof fn lemma_scan_from(fen: Seq<char>, i: int)
    requires
        0 <= i <= fen.len(),
    ensures
        scan_from(scan(fen.take(i)), fen, i) == scan(fen),
    decreases fen.len() - i,
{
    if i < fen.len() {
        lemma_scan_from(fen, i + 1);
        assert(fen.take(i + 1).drop_last() =~= fen.take(i));
    } else {
        assert(fen.take(i) =~= fen);
    }
}

/// Reads on over eight pieces, which fill a rank from its start.
#[verifier::rlimit(50)]
proof fn lemma_full_rank(st: Scan, fen: Seq<char>, i: int) -> (after: Scan)
    requires
        0 <= i && i + 8 <= fen.len(),
        st.field == 0,
        0 <= st.rank < 8,
        st.file == 0,
        st.squares.len() == 64,
        forall|k: int|
            i <= k < i + 8 ==> is_white_piece(#[trigger] fen[k]) || is_black_piece(fen[k]),
    ensures
        scan_from(st, fen, i) == scan_from(after, fen, i + 8),
        after == (Scan { squares: after.squares, ..st }),
        after.squares.len() == 64,
        forall|j: int|
            0 <= j < 64 ==> #[trigger] after.squares[j] == (if st.rank * 8 <= j < st.rank * 8 + 8 {
                fen[i + j - st.rank * 8]
            } else {
                st.squares[j]
            }),
{
    reveal_with_fuel(scan_from, 9);
    let s1 = scan_step(st, fen[i]);
    let s2 = scan_step(s1, fen[i + 1]);
    let s3 = scan_step(s2, fen[i + 2]);
    let s4 = scan_step(s3, fen[i + 3]);
    let s5 = scan_step(s4, fen[i + 4]);
    let s6 = scan_step(s5, fen[i + 5]);
    let s7 = scan_step(s6, fen[i + 6]);
    scan_step(s7, fen[i + 7])
}

/// Games start from a playable position.
#[verifier::rlimit(50)]
pub proof fn lemma_initial_playable()
    ensures
        playable(initial_fen()),
{
    reveal_strlit("rnbqkbnr/pppppppp/8/8/8/8/PPPPPPPP/RNBQKBNR w KQkq - 0 1");
    let fen = initial_fen();
    lemma_scan_from(fen, 0);
    assert(fen.take(0) =~= Seq::empty());
    let start = scan(fen.take(0));
    let a = lemma_full_rank(start, fen, 0);
    let b = scan_step(a, fen[8]);
    let c = lemma_full_rank(b, fen, 9);
    let d = Scan { rank: 1, ..c };
    assert(scan_from(c, fen, 17) == scan_from(d, fen, 26)) by {
        reveal_with_fuel(scan_from, 10);
    }
    let e = lemma_full_rank(d, fen, 26);
    let f = scan_step(e, fen[34]);
    let g = lemma_full_rank(f, fen, 35);
    let last = scan_from(g, fen, 43);
    assert(last.squares == g.squares && last.side == 'w' && last.passing == '-') by {
        reveal_with_fuel(scan_from, 14);
    }
    assert(scan(fen) == last);
    assert forall|j: int| 0 <= j < 64 implies #[trigger] last.squares[j] == (if j < 8 {
        fen[35 + j]
    } else if j < 16 {
        'P'
    } else if j < 48 {
        ' '
    } else if j < 56 {
        'p'
    } else {
        fen[j - 56]
    }) by {
    }
    assert(count(last.squares, 'K', 64) == 1 && count(last.squares, 'k', 64) == 1) by {
        lemma_count_none(last.squares, 'K', 5, 64);
        lemma_count_none(last.squares, 'K', 0, 4);
        lemma_count_none(last.squares, 'k', 61, 64);
        lemma_count_none(last.squares, 'k', 0, 60);
    }
    lemma_movers_few(last.squares, true, 0, 16);
    lemma_movers_none(last.squares, true, 16, 64);
}

/// Counting on over squares that do not hold a piece adds nothing.
proof fn lemma_count_none(squares: Seq<char>, piece: char, from: int, to: int)
    requires
        0 <= from <= to <= squares.len(),
        forall|k: int| from <= k < to ==> #[trigger] squares[k] != piece,
    ensures
        count(squares, piece, to) == count(squares, piece, from),
    decreases to - from,
{
    if from < to {
        lemma_count_none(squares, piece, from, to - 1);
    }
}

/// On any squares no more pieces can move than there are squares.
proof fn lemma_movers_few(squares: Seq<char>, white: bool, from: int, to: int)
    requires
        0 <= from <= to,
    ensures
        movers(squares, white, to) <= movers(squares, white, from) + (to - from),
    decreases to - from,
{
    if from < to {
        lemma_movers_few(squares, white, from, to - 1);
    }
}

/// On squares without pieces of a side none of them can move.
proof fn lemma_movers_none(squares: Seq<char>, white: bool, from: int, to: int)
    requires
        0 <= from <= to <= squares.len(),
        forall|k: int| from <= k < to ==> !is_own(#[trigger] squares[k], white),
    ensures
        movers(squares, white, to) == movers(squares, white, from),
    decreases to - from,
{
    if from < to {
        lemma_movers_none(squares, white, from, to - 1);
    }
}

/// Calls `chess::Board::default` and writes the board as a FEN. The contract
/// gives the position that it documents.
#[verifier::external_body]
pub(crate) fn initial_board() -> (r: String)
    ensures
        r@ == initial_fen(),
{
    Board::default().to_string()
}

/// Whether `chess::Board::from_str` accepts a FEN as a legal position.
pub uninterp spec fn legal_position(fen: Seq<char>) -> bool;

/// Calls `chess::Board::from_str`. The contract claims that whether it succeeds
/// depends on the FEN alone. Without a king of the side to move the function
/// reads past its tables, so only playable positions are asked about.
#[verifier::external_body]
pub(crate) fn is_legal_position(fen: &str) -> (r: bool)
    requires
        playable(fen@),
    ensures
        r == legal_position(fen@),
{
    Board::from_str(fen).is_ok()
}

/// The legal move that `chess::ChessMove::from_san` reads out of a text in
/// standard algebraic notation (SAN), in a position; `None` where the text
/// denotes no such move.
pub uninterp spec fn san_move(fen: Seq<char>, san: Seq<char>) -> Option<BoardMove>;

/// Calls `chess::ChessMove::from_san` on the board that a FEN denotes. The
/// contract claims that the outcome depends on the FEN and the text alone. The
/// function lists the moves piece by piece, in eighteen entries that it does not
/// count: one for each piece that has a move, and one for each pawn that can take
/// in passing. Hence the playable position.
#[verifier::external_body]
pub(crate) fn move_from_san(fen: &str, san: &str) -> (r: Option<BoardMove>)
    requires
        playable(fen@),
        legal_position(fen@),
    ensures
        r == san_move(fen@, san@),
{
    let board = Board::from_str(fen).ok()?;
    let m = ChessMove::from_san(&board, san).ok()?;
    Some(BoardMove {
        source: m.get_source().to_int(),
        dest: m.get_dest().to_int(),
        promotion: m.get_promotion().map(|p| p.to_index() as u8),
    })
}

/// The position, as a FEN, that `chess::Board::make_move_new` leads to.
pub uninterp spec fn position_after(fen: Seq<char>, m: BoardMove) -> Seq<char>;

/// Calls `chess::Board::make_move_new` on the board that a FEN denotes and
/// writes the new board as a FEN. The contract claims that the outcome depends
/// on the FEN and the move alone. The function takes moves that are legal in
/// the position, such as those read from SAN. Nothing is said of the new
/// position: from some that cannot arise in a game, a pawn taken in passing leads
/// to one without a king.
#[verifier::external_body]
pub(crate) fn make_move(fen: &str, m: BoardMove) -> (r: String)
    requires
        playable(fen@),
        legal_position(fen@),
        exists|san: Seq<char>| #[trigger] san_move(fen@, san) == Some(m),
    ensures
        r@ == position_after(fen@, m),
{
    let board = Board::from_str(fen).expect("a legal position");
    let source = ALL_SQUARES[m.source as usize];
    let dest = ALL_SQUARES[m.dest as usize];
    let promotion = m.promotion.map(|p| ALL_PIECES[p as usize]);
    board.make_move_new(ChessMove::new(source, dest, promotion)).to_string()
}

/// What `chess::Board::status` says of a position.
pub uninterp spec fn position_status(fen: Seq<char>) -> BoardStatus;

/// Calls `chess::Board::status` on the board that a FEN denotes. The contract
/// claims that the outcome depends on the FEN alone. The function lists the
/// moves piece by piece, in eighteen entries that it does not count: one for each
/// piece that has a move, and one for each pawn that can take in passing. Hence the
/// playable position.
#[verifier::external_body]
pub(crate) fn board_status(fen: &str) -> (r: BoardStatus)
    requires
        playable(fen@),
        legal_position(fen@),
    ensures
        r == position_status(fen@),
{
    match Board::from_str(fen).expect("a legal position").status() {
        chess::BoardStatus::Ongoing => BoardStatus::Ongoing,
        chess::BoardStatus::Stalemate => BoardStatus::Stalemate,
        chess::BoardStatus::Checkmate => BoardStatus::Checkmate,
    }
}

/// The position after the move that `san` denotes, where `fen` is a legal
/// position and `san` a legal move in it.
pub open spec fn played_position(fen: Seq<char>, san: Seq<char>) -> Option<Seq<char>> {
    if playable(fen) && legal_position(fen) && san_move(fen, san) is Some {
        Some(position_after(fen, san_move(fen, san)->0))
    } else {
        None
    }
}

/// Plays a move.
pub fn play(fen: &str, san: &str) -> (r: Option<String>)
    ensures
        match r {
            Some(after) => played_position(fen@, san@) == Some(after@),
            None => played_position(fen@, san@) is None,
        },
{
    if is_playable(fen) && is_legal_position(fen) {
        match move_from_san(fen, san) {
            Some(m) => Some(make_move(fen, m)),
            None => None,
        }
    } else {
        None
    }
}

/// The status of `fen`, where it is a legal position.
pub open spec fn status_of(fen: Seq<char>) -> Option<BoardStatus> {
    if playable(fen) && legal_position(fen) {
        Some(position_status(fen))
    } else {
        None
    }
}

/// Tells whether the game in a position is over.
pub fn judge(fen: &str) -> (r: Option<BoardStatus>)
    ensures
        r == status_of(fen@),
{
    if is_playable(fen) && is_legal_position(fen) {
        Some(board_status(fen))
    } else {
        None
    }
}

} // verus!
