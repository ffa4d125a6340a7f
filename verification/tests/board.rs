use dao_rollup::board::{is_playable, judge, play, BoardStatus};

const START: &str = "rnbqkbnr/pppppppp/8/8/8/8/PPPPPPPP/RNBQKBNR w KQkq - 0 1";

#[test]
fn the_first_move() {
    assert_eq!(
        play(START, "e4").as_deref(),
        Some("rnbqkbnr/pppppppp/8/8/4P3/8/PPPP1PPP/RNBQKBNR b KQkq - 0 1")
    );
    assert_eq!(
        play(START, "Nf3").as_deref(),
        Some("rnbqkbnr/pppppppp/8/8/8/5N2/PPPPPPPP/RNBQKB1R b KQkq - 0 1")
    );
}

#[test]
fn what_is_no_move_is_not_played() {
    assert_eq!(play(START, "e5"), None);
    assert_eq!(play(START, "Ke2"), None);
    assert_eq!(play(START, "nonsense"), None);
}

#[test]
fn promotion_is_played() {
    let before = "7k/P7/8/8/8/8/8/K7 w - - 0 1";
    assert_eq!(play(before, "a8Q").as_deref(), Some("Q6k/8/8/8/8/8/8/K7 b - - 0 1"));
    assert_eq!(play(before, "a8N").as_deref(), Some("N6k/8/8/8/8/8/8/K7 b - - 0 1"));
}

#[test]
fn castling_is_played() {
    let before = "4k3/8/8/8/8/8/8/R3K2R w KQ - 0 1";
    assert_eq!(play(before, "O-O").as_deref(), Some("4k3/8/8/8/8/8/8/R4RK1 b - - 0 1"));
}

#[test]
fn how_games_stand() {
    assert_eq!(judge(START), Some(BoardStatus::Ongoing));
    assert_eq!(
        judge("rnb1kbnr/pppp1ppp/8/4p3/6Pq/5P2/PPPPP2P/RNBQKBNR w KQkq - 0 1"),
        Some(BoardStatus::Checkmate)
    );
    assert_eq!(judge("7k/5Q2/6K1/8/8/8/8/8 b - - 0 1"), Some(BoardStatus::Stalemate));
}

#[test]
fn illegal_positions_have_no_status() {
    // The side that is not to move is in check.
    assert_eq!(judge("4k3/8/8/8/8/8/8/4RK2 w - - 0 1"), None);
    assert_eq!(play("4k3/8/8/8/8/8/8/4RK2 w - - 0 1", "Kf2"), None);
    // No king, two kings, a strange piece, too few fields, not a position.
    assert_eq!(judge("8/8/8/8/8/8/8/4K3 w - - 0 1"), None);
    assert_eq!(judge("kk6/8/8/8/8/8/8/4K3 w - - 0 1"), None);
    assert_eq!(judge("x7/8/8/8/8/8/8/K6k w - - 0 1"), None);
    assert_eq!(judge("k7/8/8/8/8/8/8/K7"), None);
    assert_eq!(judge("not a position"), None);
    assert_eq!(judge(""), None);
}

#[test]
fn ranks_and_files_need_not_add_up() {
    // Seven ranks, a short rank, a long one, nine ranks.
    assert_eq!(judge("k7/8/8/8/8/8/4K3 w - - 0 1"), Some(BoardStatus::Ongoing));
    assert_eq!(judge("k6/8/8/8/8/8/8/K7 w - - 0 1"), Some(BoardStatus::Ongoing));
    assert_eq!(judge("k8/8/8/8/8/8/8/K7 w - - 0 1"), Some(BoardStatus::Ongoing));
    assert_eq!(judge("k7/8/8/8/8/8/8/K7/8 w - - 0 1"), Some(BoardStatus::Ongoing));
    assert_eq!(
        play("k7/8/8/8/8/8/4K3 w - - 0 1", "Ke3").as_deref(),
        Some("k7/8/8/8/8/4K3/8/8 b - - 0 1")
    );
}

#[test]
fn playable_positions_have_one_king_a_side() {
    assert!(is_playable(START));
    assert!(is_playable("k7/8/8/8/8/8/8/K7 w - - 0 1"));
    assert!(!is_playable("8/8/8/8/8/8/8/K7 w - - 0 1"));
    assert!(!is_playable("k7/8/8/8/8/8/8/KK6 w - - 0 1"));
    // Behind the last rank the first one is filled again.
    assert!(!is_playable("k7/8/8/8/8/8/8/K7/p7 w - - 0 1"));
    // Behind the last file the first one is.
    assert!(!is_playable("kpppppppp/8/8/8/8/8/8/K7 w - - 0 1"));
}

#[test]
fn pieces_that_are_hemmed_in_do_not_count() {
    // Nineteen pieces of a side, of which eight can move.
    let crowd = "kppppppp/pppppppp/ppp5/8/8/8/8/K7";
    assert_eq!(judge(&format!("{crowd} b - - 0 1")), Some(BoardStatus::Ongoing));
    assert_eq!(judge(&format!("{crowd} w - - 0 1")), Some(BoardStatus::Ongoing));
    assert_eq!(
        play(&format!("{crowd} b - - 0 1"), "a5").as_deref(),
        Some("kppppppp/pppppppp/1pp5/p7/8/8/8/K7 w - - 0 1")
    );
}

#[test]
fn up_to_eighteen_pieces_can_move() {
    let eighteen = "k7/pppppppp/8/pppppppp/8/p7/8/7K";
    let nineteen = "k7/pppppppp/8/pppppppp/8/pp6/8/7K";
    assert_eq!(judge(&format!("{eighteen} b - - 0 1")), Some(BoardStatus::Ongoing));
    assert!(!is_playable(&format!("{nineteen} b - - 0 1")));
    assert_eq!(judge(&format!("{nineteen} w - - 0 1")), Some(BoardStatus::Ongoing));
}

#[test]
fn pawns_that_may_take_in_passing_count_twice() {
    let crowd = "k7/pppppppp/8/pppppppp/3pPp2/8/8/7K";
    assert_eq!(judge(&format!("{crowd} b - - 0 1")), Some(BoardStatus::Ongoing));
    assert_eq!(judge(&format!("{crowd} b - e9 0 1")), Some(BoardStatus::Ongoing));
    assert_eq!(judge(&format!("{crowd} b - a3 0 1")), Some(BoardStatus::Ongoing));
    assert!(!is_playable(&format!("{crowd} b - e3 0 1")));
    // With fewer pieces there is room for both of them.
    let sparse = "k7/pppppppp/8/8/3pPp2/8/8/7K b - e3 0 1";
    assert_eq!(judge(sparse), Some(BoardStatus::Ongoing));
    assert_eq!(
        play(sparse, "dxe3 e.p.").as_deref(),
        Some("k7/pppppppp/8/8/5p2/4p3/8/7K w - - 0 1")
    );
}

#[test]
fn a_move_can_lead_out_of_the_playable_positions() {
    let after = play("8/8/4K3/3Pp3/8/8/8/k7 w - e6 0 1", "dxe6").unwrap();
    assert_eq!(after, "8/8/4p3/8/8/8/8/k7 b - - 0 1");
    assert!(!is_playable(&after));
    assert_eq!(judge(&after), None);
}

#[test]
fn en_passant_is_played() {
    assert_eq!(
        play("4k3/8/8/3pP3/8/8/8/4K3 w - d6 0 1", "exd6 e.p.").as_deref(),
        Some("4k3/8/3P4/8/8/8/8/4K3 b - - 0 1")
    );
}

#[test]
fn positions_of_a_game_are_playable() {
    let mut board = START.to_string();
    for san in ["e4", "d5", "exd5", "Qxd5", "Nc3", "Qxg2", "Bxg2", "Nc6", "Nf3", "Bg4", "O-O"] {
        board = play(&board, san).expect(san);
        assert!(is_playable(&board));
        assert_eq!(judge(&board), Some(BoardStatus::Ongoing));
    }
    assert_eq!(board, "r3kbnr/ppp1pppp/2n5/8/6b1/2N2N2/PPPP1PBP/R1BQ1RK1 b kq - 0 1");
}
