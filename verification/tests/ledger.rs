use dao_rollup::address::Address;
use dao_rollup::board::BoardStatus;
use dao_rollup::crypto::{Parity, Signature};
use dao_rollup::numbers::U256;
use dao_rollup::table::Table;
use dao_rollup::tx::{
    apply, chain_event_loop, is_answerable, look_into, try_chain_event_loop, ChainError, Findings,
    Game, PendingGame, RollupState, TxType, WrappedTransaction,
};

const ALICE: Address = Address { hi: 0xe05fcc23, lo: 0x807536bee418f142d19fa0d21bb0cff7 };
const BOB: Address = Address { hi: 0x0376aac0, lo: 0x7ad725e01357b1725b5cec61ae10473c };
const CAROL: Address = Address { hi: 1, lo: 2 };

/// The signature of Alice on the message "alice".
fn alice_sig() -> Signature {
    Signature {
        r: U256 {
            hi: 0xcfdffae24cf8eb9be0f8ca5cf7f0a950,
            lo: 0x19b94095eedc33332a4b048c42e2a056,
        },
        s: U256 {
            hi: 0x6988f6f7ff4bef1efe786ac4d6218a12,
            lo: 0xc677108583ffc21fa27e3618bc0aa6c2,
        },
        v: Parity::Parity(true),
    }
}

/// The signature of Bob on the message "bob".
fn bob_sig() -> Signature {
    Signature {
        r: U256 {
            hi: 0x8fe01c0f7b168a2ff02846f4ba770858,
            lo: 0x9d92fe1654395077d99a791ade3a6eca,
        },
        s: U256 {
            hi: 0x4ce25f54a22fbab2fa136a14a3025734,
            lo: 0xd246e480bfc41879d451fc53a9395ce9,
        },
        v: Parity::Parity(false),
    }
}

fn n(value: u64) -> U256 {
    U256::from_u64(value)
}

fn ledger(balances: &[(Address, u64)]) -> RollupState {
    let mut table = Table::new();
    for (account, amount) in balances {
        table.insert(*account, n(*amount));
    }
    RollupState {
        sequenced: vec![],
        balances: table,
        withdrawals: vec![],
        pending_games: Table::new(),
        games: Table::new(),
    }
}

fn holds(state: &RollupState, account: Address) -> U256 {
    *state.balances.get(account).expect("an account")
}

/// Sends a transaction that is signed by the player it names.
fn send(state: &mut RollupState, player: Address, data: TxType) -> Option<Result<(), ChainError>> {
    let (sig, msg): (Signature, &[u8]) = if player == ALICE {
        (alice_sig(), b"alice")
    } else {
        (bob_sig(), b"bob")
    };
    try_chain_event_loop(WrappedTransaction { pub_key: player, sig, data }, msg, state)
}

fn propose(wager: u64) -> TxType {
    TxType::ProposeGame { white: ALICE, black: BOB, wager: n(wager) }
}

fn play(game_id: u64, san: &str) -> TxType {
    TxType::Move { game_id: n(game_id), san: san.to_string() }
}

/// A ledger in which Alice and Bob play for 3 each, out of 10.
fn playing() -> RollupState {
    let mut state = ledger(&[(ALICE, 10), (BOB, 10)]);
    assert_eq!(send(&mut state, ALICE, propose(3)), Some(Ok(())));
    assert_eq!(send(&mut state, BOB, TxType::StartGame(n(0))), Some(Ok(())));
    state
}

/// The ledger, with the board of its game replaced.
fn playing_at(board: &str, turns: u64) -> RollupState {
    let mut state = playing();
    state.games.insert(
        n(0),
        Game { turns, board: board.to_string(), white: ALICE, black: BOB, wager: n(6) },
    );
    state
}

#[test]
fn a_whole_game_is_played_and_won() {
    let mut state = playing();
    assert_eq!(holds(&state, ALICE), n(7));
    assert_eq!(holds(&state, BOB), n(7));
    let game = state.games.get(n(0)).unwrap();
    assert_eq!(game.board, "rnbqkbnr/pppppppp/8/8/8/8/PPPPPPPP/RNBQKBNR w KQkq - 0 1");
    assert_eq!((game.turns, game.wager, game.white, game.black), (0, n(6), ALICE, BOB));
    assert!(state.pending_games.get(n(0)).is_none());

    assert_eq!(send(&mut state, ALICE, play(0, "f3")), Some(Ok(())));
    assert_eq!(send(&mut state, BOB, play(0, "e5")), Some(Ok(())));
    assert_eq!(send(&mut state, BOB, TxType::ClaimWin(n(0))), Some(Err(ChainError::GameNotOver)));
    assert_eq!(send(&mut state, ALICE, play(0, "g4")), Some(Ok(())));
    assert_eq!(send(&mut state, BOB, play(0, "Qh4#")), Some(Ok(())));
    assert_eq!(state.games.get(n(0)).unwrap().turns, 4);

    assert_eq!(send(&mut state, ALICE, TxType::ClaimWin(n(0))), Some(Ok(())));
    assert_eq!(holds(&state, ALICE), n(7));
    assert_eq!(holds(&state, BOB), n(13));
    assert!(state.games.get(n(0)).is_none());
    // The proposal, the start and the four moves; claims are not sequenced.
    assert_eq!(state.sequenced.len(), 6);
    // A game is settled once.
    assert_eq!(send(&mut state, ALICE, TxType::ClaimWin(n(0))), None);
}

#[test]
fn white_can_win() {
    let board = "r1bqkb1r/pppp1Qpp/2n2n2/4p3/2B1P3/8/PPPP1PPP/RNB1K1NR b KQkq - 0 1";
    let mut state = playing_at(board, 7);
    assert_eq!(send(&mut state, BOB, TxType::ClaimWin(n(0))), Some(Ok(())));
    assert_eq!(holds(&state, ALICE), n(13));
    assert_eq!(holds(&state, BOB), n(7));
}

#[test]
fn stalemate_splits_the_wager() {
    let mut state = playing_at("7k/8/6K1/8/8/8/8/5Q2 w - - 0 1", 20);
    assert_eq!(send(&mut state, ALICE, play(0, "Qf7")), Some(Ok(())));
    assert_eq!(state.games.get(n(0)).unwrap().turns, 21);
    assert_eq!(send(&mut state, ALICE, TxType::ClaimWin(n(0))), Some(Ok(())));
    assert_eq!(holds(&state, ALICE), n(10));
    assert_eq!(holds(&state, BOB), n(10));
    assert!(state.games.get(n(0)).is_none());
}

#[test]
fn players_take_turns() {
    let mut state = playing();
    assert_eq!(send(&mut state, BOB, play(0, "e5")), Some(Err(ChainError::NotWhitesTurn)));
    assert_eq!(send(&mut state, ALICE, play(0, "e4")), Some(Ok(())));
    assert_eq!(send(&mut state, ALICE, play(0, "d4")), Some(Err(ChainError::NotBlacksTurn)));
    assert_eq!(send(&mut state, BOB, play(0, "e5")), Some(Ok(())));
    assert_eq!(
        state.games.get(n(0)).unwrap().board,
        "rnbqkbnr/pppp1ppp/8/4p3/4P3/8/PPPP1PPP/RNBQKBNR w KQkq - 0 1"
    );
}

#[test]
fn a_move_leaves_the_other_games_alone() {
    let mut state = playing();
    assert_eq!(send(&mut state, ALICE, propose(1)), Some(Ok(())));
    assert_eq!(send(&mut state, ALICE, propose(1)), Some(Ok(())));
    assert_eq!(send(&mut state, BOB, TxType::StartGame(n(1))), Some(Ok(())));
    assert_eq!(send(&mut state, ALICE, play(0, "e4")), Some(Ok(())));
    assert_eq!(state.games.get(n(0)).unwrap().turns, 1);
    assert_eq!(state.games.get(n(1)).unwrap().turns, 0);
    assert_eq!(holds(&state, ALICE), n(6));
}

#[test]
fn a_game_needs_both_players() {
    let mut state = ledger(&[(ALICE, 10), (BOB, 10)]);
    assert_eq!(send(&mut state, ALICE, propose(3)), Some(Ok(())));
    assert_eq!(state.pending_games.get(n(0)).unwrap().accepted, (true, false));
    assert_eq!(
        send(&mut state, ALICE, TxType::StartGame(n(0))),
        Some(Err(ChainError::NotWhite))
    );
    assert_eq!(send(&mut state, BOB, propose(3)), Some(Ok(())));
    assert_eq!(state.pending_games.get(n(1)).unwrap().accepted, (false, true));
    assert_eq!(
        send(&mut state, BOB, TxType::StartGame(n(1))),
        Some(Err(ChainError::NotBlack))
    );
    assert_eq!(send(&mut state, ALICE, TxType::StartGame(n(1))), Some(Ok(())));
    assert_eq!(state.games.len(), 1);
    assert_eq!(state.pending_games.len(), 1);
}

#[test]
fn a_proposal_is_by_a_player() {
    let mut state = ledger(&[]);
    let data = TxType::ProposeGame { white: BOB, black: CAROL, wager: n(1) };
    assert_eq!(send(&mut state, ALICE, data), Some(Err(ChainError::NotAPlayer)));
    assert_eq!(state.pending_games.len(), 0);
    assert_eq!(state.sequenced.len(), 0);
}

#[test]
fn reasons_not_to_start_a_game() {
    let mut state = ledger(&[]);
    let start = || TxType::StartGame(n(0));
    assert_eq!(send(&mut state, BOB, start()), Some(Err(ChainError::NoSuchGame)));
    assert_eq!(send(&mut state, ALICE, propose(3)), Some(Ok(())));
    assert_eq!(send(&mut state, BOB, start()), Some(Err(ChainError::NoWhiteAccount)));
    state.balances.insert(ALICE, n(3));
    assert_eq!(send(&mut state, BOB, start()), Some(Err(ChainError::NoBlackAccount)));
    state.balances.insert(BOB, n(2));
    assert_eq!(send(&mut state, BOB, start()), Some(Err(ChainError::InsufficientFunds)));
    state.balances.insert(BOB, n(3));
    state.balances.insert(ALICE, n(2));
    assert_eq!(send(&mut state, BOB, start()), Some(Err(ChainError::InsufficientFunds)));
    state.balances.insert(ALICE, n(3));
    assert_eq!(send(&mut state, BOB, start()), Some(Ok(())));
    assert_eq!(holds(&state, ALICE), n(0));
    let both = PendingGame { white: ALICE, black: BOB, accepted: (true, true), wager: n(0) };
    state.pending_games.insert(n(0), both);
    assert_eq!(send(&mut state, BOB, start()), Some(Err(ChainError::ImpossibleToReach)));
}

#[test]
fn a_move_needs_a_game() {
    let mut state = ledger(&[]);
    assert_eq!(send(&mut state, ALICE, play(0, "e4")), Some(Err(ChainError::NoSuchGame)));
}

#[test]
fn what_cannot_be_answered_changes_nothing() {
    let mut state = playing();
    assert_eq!(send(&mut state, ALICE, play(0, "e5")), None);
    assert_eq!(send(&mut state, ALICE, TxType::ClaimWin(n(5))), None);
    state.games.insert(
        n(1),
        Game { turns: u64::MAX, board: "x".to_string(), white: ALICE, black: BOB, wager: n(0) },
    );
    assert_eq!(send(&mut state, BOB, play(1, "e4")), None);
    assert_eq!(send(&mut state, BOB, TxType::ClaimWin(n(1))), None);
    // Mate, but the winner has no account.
    state.games.insert(
        n(2),
        Game {
            turns: 4,
            board: "rnb1kbnr/pppp1ppp/8/4p3/6Pq/5P2/PPPPP2P/RNBQKBNR w KQkq - 0 1".to_string(),
            white: ALICE,
            black: CAROL,
            wager: n(2),
        },
    );
    assert_eq!(send(&mut state, ALICE, TxType::ClaimWin(n(2))), None);
    assert_eq!(state.sequenced.len(), 2);
    assert_eq!(state.games.len(), 3);
    assert_eq!(holds(&state, ALICE), n(7));
}

#[test]
fn a_signature_counts_for_its_signer_and_message_only() {
    let mut state = ledger(&[(ALICE, 10)]);
    let withdraw = |pub_key: Address, sig: Signature| WrappedTransaction {
        pub_key,
        sig,
        data: TxType::WithdrawTokens(n(4)),
    };
    let bad = Some(Err(ChainError::BadSig));
    let tx = withdraw(ALICE, bob_sig());
    assert_eq!(try_chain_event_loop(tx, b"bob", &mut state), bad);
    let tx = withdraw(ALICE, alice_sig());
    assert_eq!(try_chain_event_loop(tx, b"alicf", &mut state), bad);
    let broken = Signature { r: U256::zero(), ..alice_sig() };
    let tx = withdraw(ALICE, broken);
    assert_eq!(try_chain_event_loop(tx, b"alice", &mut state), None);
    assert_eq!(holds(&state, ALICE), n(10));
    assert!(state.withdrawals.is_empty());
    let tx = withdraw(ALICE, alice_sig());
    assert_eq!(chain_event_loop(tx, b"alice", &mut state), Ok(()));
    assert_eq!(holds(&state, ALICE), n(6));
    assert_eq!(state.withdrawals, vec![(ALICE, n(4))]);
}

#[test]
fn balances_wrap_around() {
    let mut state = ledger(&[]);
    assert_eq!(send(&mut state, ALICE, TxType::WithdrawTokens(n(1))), Some(Ok(())));
    assert_eq!(holds(&state, ALICE), U256 { hi: u128::MAX, lo: u128::MAX });
    let data = TxType::Transfer { from: ALICE, to: BOB, amount: n(2) };
    assert_eq!(send(&mut state, BOB, data), Some(Ok(())));
    assert_eq!(holds(&state, ALICE), U256 { hi: u128::MAX, lo: u128::MAX - 2 });
    assert_eq!(holds(&state, BOB), n(2));
}

#[test]
fn a_transfer_to_oneself_changes_nothing() {
    let mut state = ledger(&[(ALICE, 5)]);
    let data = TxType::Transfer { from: ALICE, to: ALICE, amount: n(3) };
    assert_eq!(send(&mut state, ALICE, data), Some(Ok(())));
    assert_eq!(holds(&state, ALICE), n(5));
}

#[test]
fn a_bridged_amount_is_not_credited() {
    let mut state = ledger(&[(ALICE, 5)]);
    assert_eq!(send(&mut state, ALICE, TxType::BridgeTokens(n(9))), Some(Ok(())));
    assert_eq!(holds(&state, ALICE), n(5));
    assert!(state.sequenced.is_empty());
}

#[test]
fn value_is_conserved_through_a_game() {
    let sum = |state: &RollupState| {
        let held: u128 = state.balances.entries().iter().map(|e| e.1.lo).sum();
        let staked: u128 = state.games.entries().iter().map(|e| e.1.wager.lo).sum();
        let paid: u128 = state.withdrawals.iter().map(|w| w.1.lo).sum();
        held + staked + paid
    };
    let mut state = playing();
    assert_eq!(sum(&state), 20);
    let data = TxType::Transfer { from: ALICE, to: BOB, amount: n(2) };
    assert_eq!(send(&mut state, ALICE, data), Some(Ok(())));
    assert_eq!(send(&mut state, BOB, TxType::WithdrawTokens(n(4))), Some(Ok(())));
    assert_eq!(send(&mut state, ALICE, play(0, "e4")), Some(Ok(())));
    assert_eq!(sum(&state), 20);
    // Refused, and left unanswered.
    assert_eq!(send(&mut state, ALICE, play(0, "d4")), Some(Err(ChainError::NotBlacksTurn)));
    assert_eq!(send(&mut state, BOB, play(0, "e4")), None);
    assert_eq!(sum(&state), 20);
}

#[test]
fn a_game_under_a_number_in_use_replaces_its_stake() {
    let mut state = playing();
    assert_eq!(send(&mut state, ALICE, propose(1)), Some(Ok(())));
    assert_eq!(send(&mut state, BOB, TxType::StartGame(n(0))), Some(Ok(())));
    assert_eq!(state.games.len(), 1);
    assert_eq!(state.games.get(n(0)).unwrap().wager, n(2));
    assert_eq!(holds(&state, ALICE), n(6));
}

#[test]
fn findings_decide() {
    let mut state = playing();
    let tx = WrappedTransaction { pub_key: ALICE, sig: alice_sig(), data: play(0, "e4") };
    let findings = look_into(&tx, b"alice", &state);
    assert_eq!(findings.signer, Some(ALICE));
    assert_eq!(
        findings.played.as_deref(),
        Some("rnbqkbnr/pppppppp/8/8/4P3/8/PPPP1PPP/RNBQKBNR b KQkq - 0 1")
    );
    assert_eq!(findings.status, None);
    assert!(is_answerable(&tx, &findings, &state));
    let nothing = Findings { signer: None, played: None, status: None };
    assert!(!is_answerable(&tx, &nothing, &state));
    let given = Findings { signer: Some(ALICE), played: Some("there".to_string()), status: None };
    assert_eq!(apply(tx, given, &mut state), Ok(()));
    assert_eq!(state.games.get(n(0)).unwrap().board, "there");
    let claim = WrappedTransaction {
        pub_key: ALICE,
        sig: alice_sig(),
        data: TxType::ClaimWin(n(0)),
    };
    let won = Findings { signer: Some(ALICE), played: None, status: Some(BoardStatus::Checkmate) };
    assert_eq!(apply(claim, won, &mut state), Ok(()));
    assert_eq!(holds(&state, ALICE), n(13));
}

#[test]
fn refusals_in_words() {
    let words = [
        (ChainError::BadSig, "bad sig"),
        (ChainError::NotAPlayer, "not a player"),
        (ChainError::NoSuchGame, "game id doesn't exist"),
        (ChainError::NotWhite, "not white"),
        (ChainError::NotBlack, "not black"),
        (ChainError::ImpossibleToReach, "impossible to reach"),
        (ChainError::NoWhiteAccount, "white doesn't exist"),
        (ChainError::NoBlackAccount, "black doesn't exist"),
        (ChainError::InsufficientFunds, "insufficient funds"),
        (ChainError::NotWhitesTurn, "not white's turn"),
        (ChainError::NotBlacksTurn, "not black's turn"),
        (ChainError::GameNotOver, "game is not over"),
    ];
    for (reason, text) in words {
        assert_eq!(reason.message(), text);
    }
}
