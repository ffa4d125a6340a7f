//! What holds of the reading of positions.

use vstd::prelude::*;
use crate::board::{
    can_step, count, is_black_piece, is_open, is_own, is_white_piece, movers, on, playable, scan,
    scan_step, takers, Scan,
};

verus! {

/// The letters of the pieces of a side.
pub open spec fn letters(white: bool) -> Set<char> {
    if white {
        set!['P', 'N', 'B', 'R', 'Q', 'K']
    } else {
        set!['p', 'n', 'b', 'r', 'q', 'k']
    }
}

/// Whether `squares` are those of a board, from a1 along the ranks: each is empty, which
/// a space stands for, or holds a piece.
pub open spec fn is_board(squares: Seq<char>) -> bool {
    squares.len() == 64 && forall|i: int|
        0 <= i < 64 ==> #[trigger] squares[i] == ' ' || letters(true).contains(squares[i])
            || letters(false).contains(squares[i])
}

/// The placement of the pieces as the first field of a FEN tells it: rank by rank from the
/// eighth down, with a stroke between two of them, and a 1 for each empty square.
pub open spec fn placement_text(squares: Seq<char>) -> Seq<char> {
    Seq::new(
        71,
        |k: int|
            if k % 9 == 8 {
                '/'
            } else if squares[(7 - k / 9) * 8 + k % 9] == ' ' {
                '1'
            } else {
                squares[(7 - k / 9) * 8 + k % 9]
            },
    )
}

/// How many of the first `n` squares hold a piece of a side.
pub open spec fn pieces(squares: Seq<char>, white: bool, n: int) -> int
    decreases n,
{
    if n <= 0 {
        0
    } else {
        pieces(squares, white, n - 1) + (if letters(white).contains(squares[n - 1]) {
            1int
        } else {
            0
        })
    }
}

/// Whether `piece` stands on exactly one square.
pub open spec fn stands_once(squares: Seq<char>, piece: char) -> bool {
    exists|i: int|
        0 <= i < squares.len() && #[trigger] squares[i] == piece && (forall|j: int|
            0 <= j < squares.len() && j != i ==> #[trigger] squares[j] != piece)
}

/// Reads on over `text`.
pub open spec fn read_on(st: Scan, text: Seq<char>) -> Scan
    decreases text.len(),
{
    if text.len() == 0 {
        st
    } else {
        scan_step(read_on(st, text.drop_last()), text.last())
    }
}

/// A text is read by reading its first part and reading on over the second.
proof fn lemma_read_on(a: Seq<char>, b: Seq<char>)
    ensures
        scan(a + b) == read_on(scan(a), b),
    decreases b.len(),
{
    if b.len() == 0 {
        assert(a + b =~= a);
    } else {
        lemma_read_on(a, b.drop_last());
        assert((a + b).drop_last() =~= a + b.drop_last());
    }
}

/// The letters of a side are those of its pieces.
proof fn lemma_letters(c: char)
    ensures
        letters(true).contains(c) <==> is_white_piece(c),
        letters(false).contains(c) <==> is_black_piece(c),
{
}

/// Whether the first `r` ranks from the eighth down, and `m` squares of the next one,
/// have been read.
spec fn read_to(st: Scan, squares: Seq<char>, r: int, m: int) -> bool {
    &&& st.field == 0
    &&& st.rank == 7 - r
    &&& st.file == m % 8
    &&& st.squares.len() == 64
    &&& forall|j: int|
        0 <= j < 64 ==> #[trigger] st.squares[j] == (if j >= (7 - r) * 8 + 8 || ((7 - r) * 8 <= j
            && j < (7 - r) * 8 + m) {
            squares[j]
        } else {
            ' '
        })
}

/// Reads one more square of a rank.
proof fn lemma_square_read(st: Scan, squares: Seq<char>, r: int, m: int)
    requires
        is_board(squares),
        0 <= r < 8,
        0 <= m < 8,
        read_to(st, squares, r, m),
    ensures
        ({
            let c = squares[(7 - r) * 8 + m];
            read_to(
                scan_step(
                    st,
                    if c == ' ' {
                        '1'
                    } else {
                        c
                    },
                ),
                squares,
                r,
                m + 1,
            )
        }),
{
    let at = (7 - r) * 8 + m;
    let c = squares[at];
    lemma_letters(c);
    assert(st.squares[at] == ' ');
    assert(st.file == m);
}

/// How a placement has been read up to a square.
proof fn lemma_placement_read(squares: Seq<char>, r: int, m: int)
    requires
        is_board(squares),
        0 <= r < 8,
        0 <= m <= 8,
    ensures
        read_to(scan(placement_text(squares).take(9 * r + m)), squares, r, m),
    decreases r, m,
{
    let text = placement_text(squares);
    let i = 9 * r + m;
    if i == 0 {
        assert(text.take(0) =~= Seq::empty());
    } else {
        assert(text.take(i).drop_last() =~= text.take(i - 1));
        assert(text.take(i).last() == text[i - 1]);
        if m > 0 {
            lemma_placement_read(squares, r, m - 1);
            assert((i - 1) / 9 == r && (i - 1) % 9 == m - 1);
            lemma_square_read(scan(text.take(i - 1)), squares, r, m - 1);
        } else {
            lemma_placement_read(squares, r - 1, 8);
            assert((i - 1) % 9 == 8);
        }
    }
}

/// A position that is written out is read back: every piece stands where it stood, and
/// nothing else does, whatever the other fields hold.
pub proof fn law_positions_are_read_back(squares: Seq<char>, rest: Seq<char>)
    requires
        is_board(squares),
    ensures
        scan(placement_text(squares) + seq![' '] + rest).squares == squares,
{
    let text = placement_text(squares);
    lemma_placement_read(squares, 7, 8);
    assert(text.take(71) =~= text);
    assert(scan(text).squares =~= squares);
    lemma_read_on(text, seq![' ']);
    assert(seq![' '].drop_last() =~= Seq::empty());
    reveal_with_fuel(read_on, 2);
    lemma_read_on(text + seq![' '], rest);
    lemma_placement_stays(scan(text + seq![' ']), rest);
}

/// Behind the first field no piece is placed.
proof fn lemma_placement_stays(st: Scan, text: Seq<char>)
    requires
        st.field >= 1,
    ensures
        read_on(st, text).field >= 1,
        read_on(st, text).squares == st.squares,
    decreases text.len(),
{
    if text.len() > 0 {
        lemma_placement_stays(st, text.drop_last());
    }
}

/// No side has more pieces to move than pieces.
proof fn lemma_movers_are_pieces(squares: Seq<char>, white: bool, n: int)
    ensures
        movers(squares, white, n) <= pieces(squares, white, n),
    decreases n,
{
    if n > 0 {
        lemma_movers_are_pieces(squares, white, n - 1);
        lemma_letters(squares[n - 1]);
    }
}

/// A piece that stands once is counted once.
proof fn lemma_count_once(squares: Seq<char>, piece: char, at: int, n: int)
    requires
        0 <= at < squares.len(),
        squares[at] == piece,
        forall|j: int| 0 <= j < squares.len() && j != at ==> #[trigger] squares[j] != piece,
        0 <= n <= squares.len(),
    ensures
        count(squares, piece, n) == (if at < n {
            1int
        } else {
            0
        }),
    decreases n,
{
    if n > 0 {
        lemma_count_once(squares, piece, at, n - 1);
    }
}

/// What is counted once stands once.
proof fn lemma_counted_once(squares: Seq<char>, piece: char, n: int)
    requires
        0 <= n <= squares.len(),
    ensures
        count(squares, piece, n) >= 0,
        forall|j: int|
            0 <= j < n && #[trigger] squares[j] == piece ==> count(squares, piece, n) >= 1,
        count(squares, piece, n) >= 1 ==> exists|i: int|
            0 <= i < n && #[trigger] squares[i] == piece,
        forall|i: int, j: int|
            0 <= i < j < n && #[trigger] squares[i] == piece && #[trigger] squares[j] == piece
                ==> count(squares, piece, n) >= 2,
    decreases n,
{
    if n > 0 {
        lemma_counted_once(squares, piece, n - 1);
    }
}

/// What stands once is what is counted once.
proof fn lemma_stands_once_counted(squares: Seq<char>, piece: char)
    requires
        squares.len() == 64,
    ensures
        count(squares, piece, 64) == 1 <==> stands_once(squares, piece),
{
    lemma_counted_once(squares, piece, 64);
    if stands_once(squares, piece) {
        let i = choose|i: int|
            0 <= i < squares.len() && #[trigger] squares[i] == piece && (forall|j: int|
                0 <= j < squares.len() && j != i ==> #[trigger] squares[j] != piece);
        lemma_count_once(squares, piece, i, 64);
    }
    if count(squares, piece, 64) == 1 {
        let i = choose|i: int| 0 <= i < 64 && #[trigger] squares[i] == piece;
        assert forall|j: int| 0 <= j < squares.len() && j != i implies #[trigger] squares[j]
            != piece by {
            if squares[j] == piece && i < j {
                assert(squares[i] == piece);
            }
        }
    }
}

/// Every position with one king of either side, and no more pieces of a side than a game
/// starts with, can be played, whatever stands where, whoever is to move and whatever the
/// other fields hold. One without a king, or with two of a side, cannot.
pub proof fn law_usual_positions_are_playable(squares: Seq<char>, rest: Seq<char>)
    requires
        is_board(squares),
    ensures
        ({
            let fen = placement_text(squares) + seq![' '] + rest;
            let kings = stands_once(squares, 'K') && stands_once(squares, 'k');
            &&& kings && pieces(squares, true, 64) <= 16 && pieces(squares, false, 64) <= 16
                ==> playable(fen)
            &&& !kings ==> !playable(fen)
        }),
{
    let fen = placement_text(squares) + seq![' '] + rest;
    law_positions_are_read_back(squares, rest);
    lemma_movers_are_pieces(squares, true, 64);
    lemma_movers_are_pieces(squares, false, 64);
    lemma_stands_once_counted(squares, 'K');
    lemma_stands_once_counted(squares, 'k');
    assert(takers(scan(fen), true) <= 2 && takers(scan(fen), false) <= 2);
}

/// The side to move, once it was read, stays.
proof fn lemma_side_stays(st: Scan, text: Seq<char>)
    requires
        st.side != ' ',
    ensures
        read_on(st, text).side == st.side,
    decreases text.len(),
{
    if text.len() > 0 {
        lemma_side_stays(st, text.drop_last());
    }
}

/// Only the side to move is counted: with one king of either side, and no more pieces of
/// the side that the second field names than a game starts with, a position can be played
/// however many pieces the other side has.
pub proof fn law_only_the_side_to_move_is_counted(
    squares: Seq<char>,
    side: char,
    rest: Seq<char>,
    white: bool,
)
    requires
        is_board(squares),
        stands_once(squares, 'K') && stands_once(squares, 'k'),
        white ==> side == 'w' || side == 'W',
        !white ==> side == 'b' || side == 'B',
        pieces(squares, white, 64) <= 16,
    ensures
        playable(placement_text(squares) + seq![' '] + (seq![side] + rest)),
{
    let text = placement_text(squares);
    let fen = text + seq![' '] + (seq![side] + rest);
    law_positions_are_read_back(squares, seq![side] + rest);
    assert(!text.contains(' ')) by {
        if text.contains(' ') {
            let k = choose|k: int| 0 <= k < text.len() && text[k] == ' ';
            assert(text[k] == ' ');
        }
    }
    lemma_first_field(text);
    lemma_read_on(text, seq![' ']);
    assert(seq![' '].drop_last() =~= Seq::empty());
    reveal_with_fuel(read_on, 2);
    let head = text + seq![' '];
    lemma_read_on(head, seq![side]);
    assert(seq![side].drop_last() =~= Seq::empty());
    lemma_read_on(head + seq![side], rest);
    assert(head + (seq![side] + rest) =~= head + seq![side] + rest);
    lemma_side_stays(scan(head + seq![side]), rest);
    assert(scan(fen).side == side);
    lemma_movers_are_pieces(squares, white, 64);
    lemma_stands_once_counted(squares, 'K');
    lemma_stands_once_counted(squares, 'k');
    assert(takers(scan(fen), true) <= 2 && takers(scan(fen), false) <= 2);
}

/// As many ones as `n`.
pub open spec fn ones(n: int) -> Seq<char> {
    Seq::new(n as nat, |i: int| '1')
}

/// Reading ones moves along the rank.
proof fn lemma_ones_read(st: Scan, n: int)
    requires
        st.field == 0,
        n >= 1,
    ensures
        read_on(st, ones(n)) == (Scan { file: (st.file + n) % 8, ..st }),
    decreases n,
{
    assert(ones(n).drop_last() =~= ones(n - 1));
    if n > 1 {
        lemma_ones_read(st, n - 1);
    }
}

/// Without a space the first field goes on.
proof fn lemma_first_field(text: Seq<char>)
    requires
        !text.contains(' '),
    ensures
        scan(text).field == 0,
        scan(text).side == ' ',
    decreases text.len(),
{
    if text.len() > 0 {
        let init = text.drop_last();
        assert(!init.contains(' ')) by {
            if init.contains(' ') {
                let i = choose|i: int| 0 <= i < init.len() && init[i] == ' ';
                assert(text[i] == ' ');
            }
        }
        assert(text[text.len() - 1] != ' ');
        lemma_first_field(init);
    }
}

/// A digit in a placement stands for as many empty squares: whatever stands before and
/// behind it, the position reads the same with as many ones in its place.
pub proof fn law_a_digit_stands_for_empty_squares(
    before: Seq<char>,
    digit: char,
    n: int,
    behind: Seq<char>,
)
    requires
        !before.contains(' '),
        1 <= n <= 8,
        digit as int == '0' as int + n,
    ensures
        scan(before + seq![digit] + behind) == scan(before + ones(n) + behind),
        playable(before + seq![digit] + behind) == playable(before + ones(n) + behind),
{
    lemma_first_field(before);
    lemma_read_on(before, seq![digit]);
    lemma_read_on(before, ones(n));
    assert(seq![digit].drop_last() =~= Seq::empty());
    reveal_with_fuel(read_on, 2);
    lemma_ones_read(scan(before), n);
    assert(scan(before + seq![digit]) == scan(before + ones(n)));
    lemma_read_on(before + seq![digit], behind);
    lemma_read_on(before + ones(n), behind);
}

/// Whether a piece goes from one square to another in one step: a rook along its rank or
/// file, a bishop along a diagonal, a queen or king along any of them, each to the next
/// square; a knight by its jump. Pawns go their own ways.
pub open spec fn steps(piece: char, from: int, to: int) -> bool {
    let df = to % 8 - from % 8;
    let dr = to / 8 - from / 8;
    let straight = (df == 0 && (dr == 1 || dr == -1)) || (dr == 0 && (df == 1 || df == -1));
    let diagonal = (df == 1 || df == -1) && (dr == 1 || dr == -1);
    let jump = ((df == 1 || df == -1) && (dr == 2 || dr == -2)) || ((df == 2 || df == -2) && (dr
        == 1 || dr == -1));
    ||| (piece == 'R' || piece == 'r') && straight
    ||| (piece == 'B' || piece == 'b') && diagonal
    ||| (piece == 'Q' || piece == 'q' || piece == 'K' || piece == 'k') && (straight || diagonal)
    ||| (piece == 'N' || piece == 'n') && jump
}

/// Whether a pawn of a side goes from one square to another: to the next rank, straight
/// onto an empty square, or aslant onto a piece of the other side.
pub open spec fn pawn_steps(squares: Seq<char>, white: bool, from: int, to: int) -> bool {
    let df = to % 8 - from % 8;
    let ahead = if white {
        to / 8 - from / 8 == 1
    } else {
        from / 8 - to / 8 == 1
    };
    ahead && ((df == 0 && squares[to] == ' ') || ((df == 1 || df == -1) && letters(!white).contains(
        squares[to],
    )))
}

/// Whether a piece can go from one square of the board to another.
pub open spec fn goes(squares: Seq<char>, white: bool, from: int, to: int) -> bool {
    0 <= to < 64 && if squares[from] == 'P' || squares[from] == 'p' {
        pawn_steps(squares, white, from, to)
    } else {
        steps(squares[from], from, to) && !letters(white).contains(squares[to])
    }
}

/// A square that stands before a piece, by how far along the files and the ranks it is.
proof fn lemma_goes(squares: Seq<char>, white: bool, from: int, df: int, dr: int)
    requires
        is_board(squares),
        0 <= from < 64,
    ensures
        0 <= from % 8 + df < 8 && 0 <= from / 8 + dr < 8 ==> ({
            let to = (from / 8 + dr) * 8 + (from % 8 + df);
            &&& 0 <= to < 64
            &&& to % 8 - from % 8 == df
            &&& to / 8 - from / 8 == dr
            &&& on(squares, from % 8 + df, from / 8 + dr) == squares[to]
            &&& is_open(squares, white, from % 8 + df, from / 8 + dr)
                == !letters(white).contains(squares[to])
        }),
        !(0 <= from % 8 + df < 8 && 0 <= from / 8 + dr < 8) ==> on(
            squares,
            from % 8 + df,
            from / 8 + dr,
        ) == '#' && !is_open(squares, white, from % 8 + df, from / 8 + dr),
{
    if 0 <= from % 8 + df < 8 && 0 <= from / 8 + dr < 8 {
        lemma_letters(squares[(from / 8 + dr) * 8 + (from % 8 + df)]);
    }
}

/// A piece is hemmed in exactly where there is no square that it can go to.
pub proof fn law_a_piece_is_hemmed_in_without_a_way(squares: Seq<char>, white: bool, from: int)
    requires
        is_board(squares),
        0 <= from < 64,
        letters(white).contains(squares[from]),
    ensures
        can_step(squares, white, from) <==> exists|to: int| #[trigger]
            goes(squares, white, from, to),
{
    let c = squares[from];
    let file = from % 8;
    let rank = from / 8;
    lemma_letters(c);
    assert forall|df: int, dr: int|
        #![trigger is_open(squares, white, file + df, rank + dr)]
        is_open(squares, white, file + df, rank + dr) ==> ({
            let to = (rank + dr) * 8 + (file + df);
            &&& 0 <= to < 64
            &&& to % 8 - file == df
            &&& to / 8 - rank == dr
            &&& !letters(white).contains(squares[to])
        }) by {
        lemma_goes(squares, white, from, df, dr);
    }
    if can_step(squares, white, from) {
        lemma_steps_go(squares, white, from);
    }
    if exists|to: int| #[trigger] goes(squares, white, from, to) {
        let to = choose|to: int| #[trigger] goes(squares, white, from, to);
        let df = to % 8 - file;
        let dr = to / 8 - rank;
        lemma_goes(squares, white, from, df, dr);
        lemma_letters(squares[to]);
        assert((rank + dr) * 8 + (file + df) == to);
        assert(file + df == to % 8 && rank + dr == to / 8);
        if c == 'P' || c == 'p' {
            assert(on(squares, file + df, rank + dr) == squares[to]);
        }
    }
}

/// Where a piece can step there is a square that it goes to.
proof fn lemma_steps_go(squares: Seq<char>, white: bool, from: int)
    requires
        is_board(squares),
        0 <= from < 64,
        letters(white).contains(squares[from]),
        can_step(squares, white, from),
    ensures
        exists|to: int| #[trigger] goes(squares, white, from, to),
{
    let c = squares[from];
    lemma_letters(c);
    if c == 'P' || c == 'p' {
        let dr: int = if white { 1 } else { -1 };
        lemma_way(squares, white, from, -1, dr);
        lemma_way(squares, white, from, 0, dr);
        lemma_way(squares, white, from, 1, dr);
    } else {
        lemma_way(squares, white, from, -1, -1);
        lemma_way(squares, white, from, -1, 0);
        lemma_way(squares, white, from, -1, 1);
        lemma_way(squares, white, from, 0, -1);
        lemma_way(squares, white, from, 0, 1);
        lemma_way(squares, white, from, 1, -1);
        lemma_way(squares, white, from, 1, 0);
        lemma_way(squares, white, from, 1, 1);
        lemma_way(squares, white, from, -1, -2);
        lemma_way(squares, white, from, -1, 2);
        lemma_way(squares, white, from, 1, -2);
        lemma_way(squares, white, from, 1, 2);
        lemma_way(squares, white, from, -2, -1);
        lemma_way(squares, white, from, -2, 1);
        lemma_way(squares, white, from, 2, -1);
        lemma_way(squares, white, from, 2, 1);
    }
}

/// Where the square so far along is open to a piece that steps so far, it goes there.
proof fn lemma_way(squares: Seq<char>, white: bool, from: int, df: int, dr: int)
    requires
        is_board(squares),
        0 <= from < 64,
        letters(white).contains(squares[from]),
    ensures
        ({
            let c = squares[from];
            let at = on(squares, from % 8 + df, from / 8 + dr);
            let near = -1 <= df <= 1 && -1 <= dr <= 1 && !(df == 0 && dr == 0);
            let straight = near && (df == 0 || dr == 0);
            let diagonal = near && df != 0 && dr != 0;
            let jump = (df == 1 || df == -1) && (dr == 2 || dr == -2) || (df == 2 || df == -2)
                && (dr == 1 || dr == -1);
            let pawn = c == 'P' || c == 'p';
            let open = is_open(squares, white, from % 8 + df, from / 8 + dr);
            let ahead = if white { dr == 1 } else { dr == -1 };
            let way = (pawn && ahead && ((df == 0 && at == ' ') || ((df == 1 || df == -1)
                && is_own(at, !white)))) || (open && (((c == 'R' || c == 'r')
                && straight) || ((c == 'B' || c == 'b') && diagonal) || ((c == 'Q' || c == 'q' || c
                == 'K' || c == 'k') && near) || ((c == 'N' || c == 'n') && jump)));
            way ==> exists|to: int| #[trigger] goes(squares, white, from, to)
        }),
{
    lemma_goes(squares, white, from, df, dr);
    let to = (from / 8 + dr) * 8 + (from % 8 + df);
    if 0 <= from % 8 + df < 8 && 0 <= from / 8 + dr < 8 {
        lemma_letters(squares[to]);
        let c = squares[from];
        let open = is_open(squares, white, from % 8 + df, from / 8 + dr);
        assert(letters(!white).contains(squares[to]) == is_own(squares[to], !white));
        if c == 'P' || c == 'p' {
            assert(goes(squares, white, from, to) == pawn_steps(squares, white, from, to));
        } else {
            assert(goes(squares, white, from, to) == (steps(c, from, to) && open));
        }
    }
}

/// The pieces that have a way are counted, square by square, and nothing else is.
pub proof fn law_pieces_with_a_way_are_counted(squares: Seq<char>, white: bool, n: int)
    requires
        is_board(squares),
        0 <= n < 64,
    ensures
        movers(squares, white, 0) == 0,
        movers(squares, white, n + 1) == movers(squares, white, n) + (if letters(white).contains(
            squares[n],
        ) && (exists|to: int| #[trigger] goes(squares, white, n, to)) {
            1int
        } else {
            0
        }),
{
    lemma_letters(squares[n]);
    if letters(white).contains(squares[n]) {
        law_a_piece_is_hemmed_in_without_a_way(squares, white, n);
    }
}

/// Reads a field behind the first one: it is not left, and what it says of the side to
/// move and of a pawn that can be taken in passing stands at its start.
proof fn lemma_field_read(st: Scan, text: Seq<char>)
    requires
        st.field >= 1,
        !text.contains(' '),
    ensures
        ({
            let after = read_on(st, text);
            let n = text.len();
            &&& after.field == st.field
            &&& after.squares == st.squares
            &&& after.side == (if st.field == 1 && st.side == ' ' && n > 0 {
                text[0]
            } else {
                st.side
            })
            &&& st.field == 3 && st.passing == ' ' && st.passing_rank == ' ' ==> {
                &&& after.passing == (if n > 0 {
                    text[0]
                } else {
                    ' '
                })
                &&& after.passing_rank == (if n > 1 {
                    text[1]
                } else {
                    ' '
                })
            }
            &&& st.field != 3 ==> after.passing == st.passing && after.passing_rank
                == st.passing_rank
        }),
    decreases text.len(),
{
    if text.len() > 0 {
        let init = text.drop_last();
        assert forall|i: int| 0 <= i < text.len() implies #[trigger] text[i] != ' ' by {
            assert(text.contains(text[i]));
        }
        assert(!init.contains(' ')) by {
            if init.contains(' ') {
                let i = choose|i: int| 0 <= i < init.len() && init[i] == ' ';
                assert(text[i] == ' ');
            }
        }
        lemma_field_read(st, init);
        assert(text.last() != ' ');
    }
}

/// Reads the space behind a field.
proof fn lemma_space_read(st: Scan)
    ensures
        read_on(st, seq![' ']) == (Scan { field: st.field + 1, ..st }),
{
    reveal_with_fuel(read_on, 2);
    assert(seq![' '].drop_last() =~= Seq::empty());
}

/// In the first field nothing is said of a pawn that can be taken in passing.
proof fn lemma_nothing_passing(text: Seq<char>)
    requires
        !text.contains(' '),
    ensures
        scan(text).passing == ' ',
        scan(text).passing_rank == ' ',
    decreases text.len(),
{
    if text.len() > 0 {
        let init = text.drop_last();
        assert(!init.contains(' ')) by {
            if init.contains(' ') {
                let i = choose|i: int| 0 <= i < init.len() && init[i] == ' ';
                assert(text[i] == ' ');
            }
        }
        assert(text.contains(text[text.len() - 1]));
        lemma_first_field(init);
        lemma_nothing_passing(init);
    }
}

/// Behind the fourth field nothing more is learnt.
proof fn lemma_later_fields(st: Scan, text: Seq<char>)
    requires
        st.field >= 4,
    ensures
        ({
            let after = read_on(st, text);
            &&& after.field >= 4
            &&& after.squares == st.squares && after.side == st.side
            &&& after.passing == st.passing && after.passing_rank == st.passing_rank
        }),
    decreases text.len(),
{
    if text.len() > 0 {
        lemma_later_fields(st, text.drop_last());
    }
}

/// The fields of a FEN are read each for its own: the squares come from the first alone,
/// the side to move is how the second starts, the third says nothing, the fourth starts
/// with the file and the rank of a square behind a pawn, and nothing behind it counts.
pub proof fn law_fields_are_read(
    first: Seq<char>,
    side: Seq<char>,
    castling: Seq<char>,
    passing: Seq<char>,
    rest: Seq<char>,
)
    requires
        !first.contains(' ') && !side.contains(' ') && !castling.contains(' ')
            && !passing.contains(' '),
        side.len() > 0,
        passing.len() > 0,
    ensures
        ({
            let gap = seq![' '];
            let st = scan(first + gap + side + gap + castling + gap + passing + gap + rest);
            &&& st.squares == scan(first).squares
            &&& st.side == side[0]
            &&& st.passing == passing[0]
            &&& passing.len() > 1 ==> st.passing_rank == passing[1]
            &&& passing.len() == 1 ==> st.passing_rank == ' '
        }),
{
    let gap = seq![' '];
    assert(side.contains(side[0]));
    lemma_first_field(first);
    lemma_nothing_passing(first);
    lemma_read_on(first, gap);
    lemma_space_read(scan(first));
    lemma_read_on(first + gap, side);
    lemma_field_read(scan(first + gap), side);
    lemma_read_on(first + gap + side, gap);
    lemma_space_read(scan(first + gap + side));
    lemma_read_on(first + gap + side + gap, castling);
    lemma_field_read(scan(first + gap + side + gap), castling);
    lemma_read_on(first + gap + side + gap + castling, gap);
    lemma_space_read(scan(first + gap + side + gap + castling));
    lemma_read_on(first + gap + side + gap + castling + gap, passing);
    lemma_field_read(scan(first + gap + side + gap + castling + gap), passing);
    let four = first + gap + side + gap + castling + gap + passing;
    lemma_read_on(four, gap);
    lemma_space_read(scan(four));
    lemma_read_on(four + gap, rest);
    lemma_later_fields(scan(four + gap), rest);
}

/// A pawn is counted once more exactly where it stands beside the pawn that can be taken:
/// on the fifth rank for white and the fourth for black, on a file next to the one named.
pub proof fn law_pawns_that_may_take_are_counted(st: Scan, white: bool, file: int)
    requires
        is_board(st.squares),
        0 <= file < 8,
        st.passing as int == 'a' as int + file,
        '1' <= st.passing_rank && st.passing_rank <= '8',
    ensures
        ({
            let rank: int = if white { 4 } else { 3 };
            let pawn = if white { 'P' } else { 'p' };
            let left = file > 0 && st.squares[rank * 8 + file - 1] == pawn;
            let right = file < 7 && st.squares[rank * 8 + file + 1] == pawn;
            takers(st, white) == (if left && right {
                2int
            } else if left || right {
                1
            } else {
                0
            })
        }),
{
}

/// A position can be played exactly where either side has one king and the side to move
/// has no more than eighteen to move, those counted that have a way and those once more
/// that may take in passing. Where no square is named nothing is counted for passing.
pub proof fn law_playable_positions(fen: Seq<char>)
    ensures
        ({
            let st = scan(fen);
            let white = st.side == 'w' || st.side == 'W';
            let limit = movers(st.squares, white, 64) + takers(st, white) <= 18;
            &&& st.squares.len() == 64
            &&& playable(fen) <==> stands_once(st.squares, 'K') && stands_once(st.squares, 'k')
                && limit
            &&& st.passing < 'a' || 'h' < st.passing || st.passing_rank < '1' || '8'
                < st.passing_rank ==> takers(st, white) == 0
        }),
{
    lemma_sixty_four(fen);
    lemma_stands_once_counted(scan(fen).squares, 'K');
    lemma_stands_once_counted(scan(fen).squares, 'k');
}

/// A board has sixty-four squares.
proof fn lemma_sixty_four(fen: Seq<char>)
    ensures
        scan(fen).squares.len() == 64,
        0 <= scan(fen).rank < 8,
        0 <= scan(fen).file < 8,
    decreases fen.len(),
{
    if fen.len() > 0 {
        lemma_sixty_four(fen.drop_last());
    }
}

} // verus!
