//! A ledger of wagers on games of chess.
//!
//! Players deposit, transfer and withdraw amounts, propose games to each other,
//! play them move by move and claim what they have won. A transaction is signed
//! by the player who sends it.

use vstd::prelude::*;
use crate::address::Address;
use crate::board::{self, BoardStatus};
use crate::crypto::{self, Signature};
use crate::numbers::{u256, U256};
use crate::table::Table;
use crate::tx_laws::law_games_stay_playable;

verus! {

/// A game that is being played.
#[derive(Clone, Debug)]
pub struct Game {
    /// How many moves have been made: white is to move when it is even.
    pub turns: u64,
    /// The position, as a FEN.
    pub board: String,
    pub white: Address,
    pub black: Address,
    /// What both players have put in, together.
    pub wager: U256,
}

/// A game that one player has proposed and the other has not taken up yet.
#[derive(Clone, Copy, Debug)]
pub struct PendingGame {
    pub white: Address,
    pub black: Address,
    /// Whether white has accepted, and whether black has.
    pub accepted: (bool, bool),
    /// What each player is to put in.
    pub wager: U256,
}

/// The ledger.
pub struct RollupState {
    pub sequenced: Vec<WrappedTransaction>,
    pub balances: Table<Address, U256>,
    pub withdrawals: Vec<(Address, U256)>,
    pub pending_games: Table<U256, PendingGame>,
    pub games: Table<U256, Game>,
}

/// A transaction and who claims to have signed it.
#[derive(Clone, Debug)]
pub struct WrappedTransaction {
    pub pub_key: Address,
    pub sig: Signature,
    pub data: TxType,
}

/// What a transaction asks for.
#[derive(Clone, Debug)]
pub enum TxType {
    BridgeTokens(U256),
    WithdrawTokens(U256),
    Transfer { from: Address, to: Address, amount: U256 },
    ProposeGame { white: Address, black: Address, wager: U256 },
    StartGame(U256),
    Move { game_id: U256, san: String },
    ClaimWin(U256),
}

/// Why a transaction is refused.
#[derive(Clone, Copy, Debug, PartialEq, Eq, Structural)]
pub enum ChainError {
    BadSig,
    NotAPlayer,
    NoSuchGame,
    NotWhite,
    NotBlack,
    ImpossibleToReach,
    NoWhiteAccount,
    NoBlackAccount,
    InsufficientFunds,
    NotWhitesTurn,
    NotBlacksTurn,
    GameNotOver,
}

impl ChainError {
    /// The words for a reason.
    pub open spec fn words(self) -> Seq<char> {
        match self {
            ChainError::BadSig => "bad sig"@,
            ChainError::NotAPlayer => "not a player"@,
            ChainError::NoSuchGame => "game id doesn't exist"@,
            ChainError::NotWhite => "not white"@,
            ChainError::NotBlack => "not black"@,
            ChainError::ImpossibleToReach => "impossible to reach"@,
            ChainError::NoWhiteAccount => "white doesn't exist"@,
            ChainError::NoBlackAccount => "black doesn't exist"@,
            ChainError::InsufficientFunds => "insufficient funds"@,
            ChainError::NotWhitesTurn => "not white's turn"@,
            ChainError::NotBlacksTurn => "not black's turn"@,
            ChainError::GameNotOver => "game is not over"@,
        }
    }

    /// The reason in words.
    pub fn message(self) -> (r: &'static str)
        ensures
            r@ == self.words(),
    {
        match self {
            ChainError::BadSig => "bad sig",
            ChainError::NotAPlayer => "not a player",
            ChainError::NoSuchGame => "game id doesn't exist",
            ChainError::NotWhite => "not white",
            ChainError::NotBlack => "not black",
            ChainError::ImpossibleToReach => "impossible to reach",
            ChainError::NoWhiteAccount => "white doesn't exist",
            ChainError::NoBlackAccount => "black doesn't exist",
            ChainError::InsufficientFunds => "insufficient funds",
            ChainError::NotWhitesTurn => "not white's turn",
            ChainError::NotBlacksTurn => "not black's turn",
            ChainError::GameNotOver => "game is not over",
        }
    }
}

/// The contents of a [`Game`].
pub struct GameView {
    pub turns: int,
    pub board: Seq<char>,
    pub white: Address,
    pub black: Address,
    pub wager: U256,
}

impl View for Game {
    type V = GameView;

    open spec fn view(&self) -> GameView {
        GameView {
            turns: self.turns as int,
            board: self.board@,
            white: self.white,
            black: self.black,
            wager: self.wager,
        }
    }
}

/// The contents of a [`RollupState`].
#[verifier::ext_equal]
pub struct RollupView {
    pub sequenced: Seq<WrappedTransaction>,
    pub balances: Map<Address, U256>,
    pub withdrawals: Seq<(Address, U256)>,
    pub pending_games: Map<U256, PendingGame>,
    pub games: Map<U256, GameView>,
}

impl View for RollupState {
    type V = RollupView;

    open spec fn view(&self) -> RollupView {
        RollupView {
            sequenced: self.sequenced@,
            balances: self.balances@,
            withdrawals: self.withdrawals@,
            pending_games: self.pending_games@,
            games: self.games@.map_values(|g: Game| g@),
        }
    }
}

/// What an account holds: nothing where it has never been credited.
pub open spec fn balance(balances: Map<Address, U256>, account: Address) -> U256 {
    if balances.contains_key(account) {
        balances[account]
    } else {
        u256(0)
    }
}

/// Adds to what an account holds, modulo 2 to the 256.
pub open spec fn credit(
    balances: Map<Address, U256>,
    account: Address,
    amount: U256,
) -> Map<Address, U256> {
    balances.insert(account, u256(balance(balances, account).value() + amount.value()))
}

/// Takes from what an account holds, modulo 2 to the 256.
pub open spec fn debit(
    balances: Map<Address, U256>,
    account: Address,
    amount: U256,
) -> Map<Address, U256> {
    balances.insert(account, u256(balance(balances, account).value() - amount.value()))
}

/// Reads what `account` holds.
pub fn balance_of(balances: &Table<Address, U256>, account: Address) -> (r: U256)
    ensures
        r == balance(balances@, account),
{
    match balances.get(account) {
        Some(b) => *b,
        None => U256::zero(),
    }
}

/// Adds `amount` to what `account` holds.
pub fn credit_account(balances: &mut Table<Address, U256>, account: Address, amount: U256)
    ensures
        final(balances)@ == credit(old(balances)@, account, amount),
{
    let sum = balance_of(balances, account).wrapping_add(amount);
    balances.insert(account, sum);
}

/// Takes `amount` from what `account` holds.
pub fn debit_account(balances: &mut Table<Address, U256>, account: Address, amount: U256)
    ensures
        final(balances)@ == debit(old(balances)@, account, amount),
{
    let difference = balance_of(balances, account).wrapping_sub(amount);
    balances.insert(account, difference);
}

/// What a withdrawal does: it is taken from the sender and noted for payment.
pub open spec fn withdrawn(s: RollupView, tx: WrappedTransaction, amount: U256) -> RollupView {
    RollupView {
        balances: debit(s.balances, tx.pub_key, amount),
        withdrawals: s.withdrawals.push((tx.pub_key, amount)),
        sequenced: s.sequenced.push(tx),
        ..s
    }
}

/// What a transfer does: it is taken from one account, then given to the other.
pub open spec fn transferred(
    s: RollupView,
    tx: WrappedTransaction,
    from: Address,
    to: Address,
    amount: U256,
) -> RollupView {
    RollupView {
        balances: credit(debit(s.balances, from, amount), to, amount),
        sequenced: s.sequenced.push(tx),
        ..s
    }
}

/// What a proposal does: the player who makes it has accepted. The proposal is
/// numbered by how many are pending, and takes the place of one with its number.
pub open spec fn proposed(
    s: RollupView,
    tx: WrappedTransaction,
    white: Address,
    black: Address,
    wager: U256,
) -> (RollupView, Result<(), ChainError>) {
    if white != tx.pub_key && black != tx.pub_key {
        (s, Err(ChainError::NotAPlayer))
    } else {
        let accepted = if white == tx.pub_key {
            (true, false)
        } else {
            (false, true)
        };
        (
            RollupView {
                pending_games: s.pending_games.insert(
                    u256(s.pending_games.len() as int),
                    PendingGame { white, black, accepted, wager },
                ),
                sequenced: s.sequenced.push(tx),
                ..s
            },
            Ok(()),
        )
    }
}

/// Why a proposal cannot be taken up by `sender`, if so.
pub open spec fn start_refusal(s: RollupView, sender: Address, game_id: U256) -> Option<
    ChainError,
> {
    if !s.pending_games.contains_key(game_id) {
        Some(ChainError::NoSuchGame)
    } else {
        let pending = s.pending_games[game_id];
        if pending.accepted == (true, false) && sender != pending.black {
            Some(ChainError::NotWhite)
        } else if pending.accepted == (false, true) && sender != pending.white {
            Some(ChainError::NotBlack)
        } else if pending.accepted.0 == pending.accepted.1 {
            Some(ChainError::ImpossibleToReach)
        } else if !s.balances.contains_key(pending.white) {
            Some(ChainError::NoWhiteAccount)
        } else if !s.balances.contains_key(pending.black) {
            Some(ChainError::NoBlackAccount)
        } else if s.balances[pending.white].value() < pending.wager.value()
            || s.balances[pending.black].value() < pending.wager.value() {
            Some(ChainError::InsufficientFunds)
        } else {
            None
        }
    }
}

/// What taking up a proposal does: both players put in the wager, and the game
/// begins under the number of the proposal.
pub open spec fn started(s: RollupView, tx: WrappedTransaction, game_id: U256) -> (
    RollupView,
    Result<(), ChainError>,
) {
    match start_refusal(s, tx.pub_key, game_id) {
        Some(e) => (s, Err(e)),
        None => {
            let pending = s.pending_games[game_id];
            (
                RollupView {
                    balances: debit(
                        debit(s.balances, pending.white, pending.wager),
                        pending.black,
                        pending.wager,
                    ),
                    games: s.games.insert(
                        game_id,
                        GameView {
                            turns: 0,
                            board: board::initial_fen(),
                            white: pending.white,
                            black: pending.black,
                            wager: u256(2 * pending.wager.value()),
                        },
                    ),
                    pending_games: s.pending_games.remove(game_id),
                    sequenced: s.sequenced.push(tx),
                    ..s
                },
                Ok(()),
            )
        },
    }
}

/// Why `sender` cannot move in a game, if so: the game is not there, or it is
/// not their turn.
pub open spec fn move_refusal(s: RollupView, sender: Address, game_id: U256) -> Option<
    ChainError,
> {
    if !s.games.contains_key(game_id) {
        Some(ChainError::NoSuchGame)
    } else {
        let game = s.games[game_id];
        if game.turns % 2 == 0 && sender != game.white {
            Some(ChainError::NotWhitesTurn)
        } else if game.turns % 2 == 1 && sender != game.black {
            Some(ChainError::NotBlacksTurn)
        } else {
            None
        }
    }
}

/// What a move does: the game goes on from the position `played`.
pub open spec fn moved(
    s: RollupView,
    tx: WrappedTransaction,
    game_id: U256,
    played: Seq<char>,
) -> (RollupView, Result<(), ChainError>) {
    match move_refusal(s, tx.pub_key, game_id) {
        Some(e) => (s, Err(e)),
        None => {
            let game = s.games[game_id];
            (
                RollupView {
                    games: s.games.insert(
                        game_id,
                        GameView { turns: game.turns + 1, board: played, ..game },
                    ),
                    sequenced: s.sequenced.push(tx),
                    ..s
                },
                Ok(()),
            )
        },
    }
}

/// What settling a game does. After checkmate the player who made the last move
/// gets the whole wager; after stalemate each player gets half of it. The game
/// is then gone.
pub open spec fn settled(s: RollupView, game_id: U256, status: BoardStatus) -> (
    RollupView,
    Result<(), ChainError>,
) {
    let game = s.games[game_id];
    let balances = match status {
        BoardStatus::Checkmate => {
            let winner = if game.turns % 2 == 0 {
                game.black
            } else {
                game.white
            };
            credit(s.balances, winner, game.wager)
        },
        _ => {
            let share = u256(game.wager.value() / 2);
            credit(credit(s.balances, game.white, share), game.black, share)
        },
    };
    if status == BoardStatus::Ongoing {
        (s, Err(ChainError::GameNotOver))
    } else {
        (RollupView { balances, games: s.games.remove(game_id), ..s }, Ok(()))
    }
}

/// What has to be found out, beyond the ledger, to carry out a transaction.
pub struct Findings {
    /// Who signed it, where that can be recovered.
    pub signer: Option<Address>,
    /// For a move: the position that it leads to, where it is legal.
    pub played: Option<String>,
    /// For a claim: how the game stands, where its position is legal.
    pub status: Option<BoardStatus>,
}

/// The contents of [`Findings`].
pub struct FindingsView {
    pub signer: Option<Address>,
    pub played: Option<Seq<char>>,
    pub status: Option<BoardStatus>,
}

impl View for Findings {
    type V = FindingsView;

    open spec fn view(&self) -> FindingsView {
        FindingsView {
            signer: self.signer,
            played: match self.played {
                Some(p) => Some(p@),
                None => None,
            },
            status: self.status,
        }
    }
}

/// Whether a transaction can be carried out or refused. It can be neither where
/// no signer can be recovered, where a move in a game that is the sender's turn
/// is illegal or one too many to count, and where a claim names no game, a game
/// in an illegal position, or a winner without an account.
pub open spec fn answerable(s: RollupView, tx: WrappedTransaction, f: FindingsView) -> bool {
    f.signer is Some && (f.signer == Some(tx.pub_key) ==> match tx.data {
        TxType::Move { game_id, .. } => move_refusal(s, tx.pub_key, game_id) is Some || (
        s.games[game_id].turns < u64::MAX && f.played is Some),
        TxType::ClaimWin(game_id) => {
            let game = s.games[game_id];
            s.games.contains_key(game_id) && match f.status {
                Some(BoardStatus::Checkmate) => s.balances.contains_key(
                    if game.turns % 2 == 0 {
                        game.black
                    } else {
                        game.white
                    },
                ),
                Some(BoardStatus::Stalemate) => s.balances.contains_key(game.white)
                    && s.balances.contains_key(game.black),
                Some(BoardStatus::Ongoing) => true,
                None => false,
            }
        },
        _ => true,
    })
}

/// The ledger after a transaction, and the answer to its sender.
pub open spec fn chain_step(s: RollupView, tx: WrappedTransaction, f: FindingsView) -> (
    RollupView,
    Result<(), ChainError>,
) {
    if f.signer != Some(tx.pub_key) {
        (s, Err(ChainError::BadSig))
    } else {
        match tx.data {
            TxType::BridgeTokens(_) => (s, Ok(())),
            TxType::WithdrawTokens(amount) => (withdrawn(s, tx, amount), Ok(())),
            TxType::Transfer { from, to, amount } => (
                transferred(s, tx, from, to, amount),
                Ok(()),
            ),
            TxType::ProposeGame { white, black, wager } => proposed(s, tx, white, black, wager),
            TxType::StartGame(game_id) => started(s, tx, game_id),
            TxType::Move { game_id, .. } => moved(s, tx, game_id, f.played->0),
            TxType::ClaimWin(game_id) => settled(s, game_id, f.status->0),
        }
    }
}

/// The ledger after a transaction, and the answer to its sender; `None`, with the
/// ledger as it was, where it cannot be answered.
pub open spec fn answered(s: RollupView, tx: WrappedTransaction, f: FindingsView) -> (
    RollupView,
    Option<Result<(), ChainError>>,
) {
    if answerable(s, tx, f) {
        let (t, r) = chain_step(s, tx, f);
        (t, Some(r))
    } else {
        (s, None)
    }
}

/// Carries out a withdrawal.
fn withdraw(tx: WrappedTransaction, amount: U256, state: &mut RollupState)
    ensures
        final(state)@ == withdrawn(old(state)@, tx, amount),
{
    debit_account(&mut state.balances, tx.pub_key, amount);
    state.withdrawals.push((tx.pub_key, amount));
    state.sequenced.push(tx);
}

/// Carries out a transfer.
fn transfer(
    tx: WrappedTransaction,
    from: Address,
    to: Address,
    amount: U256,
    state: &mut RollupState,
)
    ensures
        final(state)@ == transferred(old(state)@, tx, from, to, amount),
{
    debit_account(&mut state.balances, from, amount);
    credit_account(&mut state.balances, to, amount);
    state.sequenced.push(tx);
}

/// Carries out the proposal of a game.
fn propose(
    tx: WrappedTransaction,
    white: Address,
    black: Address,
    wager: U256,
    state: &mut RollupState,
) -> (r: Result<(), ChainError>)
    ensures
        (final(state)@, r) == proposed(old(state)@, tx, white, black, wager),
{
    let game_id = U256::from_usize(state.pending_games.len());
    let accepted = if white == tx.pub_key {
        (true, false)
    } else if black == tx.pub_key {
        (false, true)
    } else {
        return Err(ChainError::NotAPlayer);
    };
    state.pending_games.insert(game_id, PendingGame { white, black, accepted, wager });
    state.sequenced.push(tx);
    Ok(())
}

/// Carries out the start of a game.
fn start(tx: WrappedTransaction, game_id: U256, state: &mut RollupState) -> (r: Result<
    (),
    ChainError,
>)
    ensures
        (final(state)@, r) == started(old(state)@, tx, game_id),
{
    let pending = match state.pending_games.get(game_id) {
        Some(p) => *p,
        None => {
            return Err(ChainError::NoSuchGame);
        },
    };
    if pending.accepted.0 && !pending.accepted.1 {
        if tx.pub_key != pending.black {
            return Err(ChainError::NotWhite);
        }
    } else if !pending.accepted.0 && pending.accepted.1 {
        if tx.pub_key != pending.white {
            return Err(ChainError::NotBlack);
        }
    } else {
        return Err(ChainError::ImpossibleToReach);
    }
    let white_balance = match state.balances.get(pending.white) {
        Some(b) => *b,
        None => {
            return Err(ChainError::NoWhiteAccount);
        },
    };
    let black_balance = match state.balances.get(pending.black) {
        Some(b) => *b,
        None => {
            return Err(ChainError::NoBlackAccount);
        },
    };
    if white_balance.less_than(pending.wager) || black_balance.less_than(pending.wager) {
        return Err(ChainError::InsufficientFunds);
    }
    debit_account(&mut state.balances, pending.white, pending.wager);
    debit_account(&mut state.balances, pending.black, pending.wager);
    state.games.insert(
        game_id,
        Game {
            turns: 0,
            board: board::initial_board(),
            white: pending.white,
            black: pending.black,
            wager: pending.wager.wrapping_double(),
        },
    );
    state.pending_games.remove(game_id);
    state.sequenced.push(tx);
    proof {
        assert(state@.games =~= started(old(state)@, tx, game_id).0.games);
    }
    Ok(())
}

/// Carries out a move to the position `played`.
fn make_turn(
    tx: WrappedTransaction,
    game_id: U256,
    played: Option<String>,
    state: &mut RollupState,
) -> (r: Result<(), ChainError>)
    requires
        move_refusal(old(state)@, tx.pub_key, game_id) is Some || (
        old(state)@.games[game_id].turns < u64::MAX && played is Some),
    ensures
        (final(state)@, r) == moved(old(state)@, tx, game_id, played->0@),
{
    let next = match state.games.get(game_id) {
        Some(game) => {
            if game.turns % 2 == 0 && tx.pub_key != game.white {
                return Err(ChainError::NotWhitesTurn);
            } else if game.turns % 2 == 1 && tx.pub_key != game.black {
                return Err(ChainError::NotBlacksTurn);
            }
            match played {
                Some(board) => Game {
                    turns: game.turns + 1,
                    board,
                    white: game.white,
                    black: game.black,
                    wager: game.wager,
                },
                None => {
                    return Err(ChainError::NoSuchGame);
                },
            }
        },
        None => {
            return Err(ChainError::NoSuchGame);
        },
    };
    state.games.insert(game_id, next);
    state.sequenced.push(tx);
    proof {
        assert(state@.games =~= moved(old(state)@, tx, game_id, played->0@).0.games);
    }
    Ok(())
}

/// Settles a game that stands at `status`.
fn settle(game_id: U256, status: BoardStatus, state: &mut RollupState) -> (r: Result<
    (),
    ChainError,
>)
    requires
        old(state)@.games.contains_key(game_id),
    ensures
        (final(state)@, r) == settled(old(state)@, game_id, status),
{
    let (turns, white, black, wager): (u64, Address, Address, U256) = match state.games.get(
        game_id,
    ) {
        Some(game) => (game.turns, game.white, game.black, game.wager),
        None => {
            return Err(ChainError::NoSuchGame);
        },
    };
    match status {
        BoardStatus::Checkmate => {
            if turns % 2 == 0 {
                credit_account(&mut state.balances, black, wager);
            } else {
                credit_account(&mut state.balances, white, wager);
            }
        },
        BoardStatus::Stalemate => {
            credit_account(&mut state.balances, white, wager.half());
            credit_account(&mut state.balances, black, wager.half());
        },
        BoardStatus::Ongoing => {
            return Err(ChainError::GameNotOver);
        },
    }
    state.games.remove(game_id);
    proof {
        assert(state@.games =~= settled(old(state)@, game_id, status).0.games);
    }
    Ok(())
}

/// Carries out a transaction, given what was found out about it.
pub fn apply(tx: WrappedTransaction, findings: Findings, state: &mut RollupState) -> (r: Result<
    (),
    ChainError,
>)
    requires
        answerable(old(state)@, tx, findings@),
    ensures
        (final(state)@, r) == chain_step(old(state)@, tx, findings@),
{
    match findings.signer {
        Some(signer) => {
            if signer != tx.pub_key {
                return Err(ChainError::BadSig);
            }
        },
        None => {
            return Err(ChainError::BadSig);
        },
    }
    match &tx.data {
        TxType::BridgeTokens(_) => Ok(()),
        TxType::WithdrawTokens(amount) => {
            let amount = *amount;
            withdraw(tx, amount, state);
            Ok(())
        },
        TxType::Transfer { from, to, amount } => {
            let (from, to, amount) = (*from, *to, *amount);
            transfer(tx, from, to, amount, state);
            Ok(())
        },
        TxType::ProposeGame { white, black, wager } => {
            let (white, black, wager) = (*white, *black, *wager);
            propose(tx, white, black, wager, state)
        },
        TxType::StartGame(game_id) => {
            let game_id = *game_id;
            start(tx, game_id, state)
        },
        TxType::Move { game_id, .. } => {
            let game_id = *game_id;
            make_turn(tx, game_id, findings.played, state)
        },
        TxType::ClaimWin(game_id) => {
            let game_id = *game_id;
            match findings.status {
                Some(status) => settle(game_id, status, state),
                None => Err(ChainError::NoSuchGame),
            }
        },
    }
}

/// What is to be found out about a transaction whose signed message is `msg`.
pub open spec fn findings_on(s: RollupView, tx: WrappedTransaction, msg: Seq<u8>) -> FindingsView {
    FindingsView {
        signer: crypto::recovered_address(tx.sig, msg),
        played: match tx.data {
            TxType::Move { game_id, san } => if s.games.contains_key(game_id) {
                board::played_position(s.games[game_id].board, san@)
            } else {
                None
            },
            _ => None,
        },
        status: match tx.data {
            TxType::ClaimWin(game_id) => if s.games.contains_key(game_id) {
                board::status_of(s.games[game_id].board)
            } else {
                None
            },
            _ => None,
        },
    }
}

/// Finds out what a transaction needs.
pub fn look_into(tx: &WrappedTransaction, msg: &[u8], state: &RollupState) -> (r: Findings)
    ensures
        r@ == findings_on(state@, *tx, msg@),
{
    let signer = crypto::recover_address_from_msg(&tx.sig, msg);
    let played = match &tx.data {
        TxType::Move { game_id, san } => match state.games.get(*game_id) {
            Some(game) => board::play(game.board.as_str(), san.as_str()),
            None => None,
        },
        _ => None,
    };
    let status = match &tx.data {
        TxType::ClaimWin(game_id) => match state.games.get(*game_id) {
            Some(game) => board::judge(game.board.as_str()),
            None => None,
        },
        _ => None,
    };
    Findings { signer, played, status }
}

/// Tells whether a transaction can be answered.
pub fn is_answerable(tx: &WrappedTransaction, findings: &Findings, state: &RollupState) -> (r:
    bool)
    ensures
        r == answerable(state@, *tx, findings@),
{
    match findings.signer {
        Some(signer) => {
            if signer != tx.pub_key {
                return true;
            }
        },
        None => {
            return false;
        },
    }
    match &tx.data {
        TxType::Move { game_id, .. } => match state.games.get(*game_id) {
            Some(game) => {
                let mover = if game.turns % 2 == 0 {
                    game.white
                } else {
                    game.black
                };
                tx.pub_key != mover || (game.turns < u64::MAX && findings.played.is_some())
            },
            None => true,
        },
        TxType::ClaimWin(game_id) => match state.games.get(*game_id) {
            Some(game) => match findings.status {
                Some(BoardStatus::Checkmate) => {
                    let winner = if game.turns % 2 == 0 {
                        game.black
                    } else {
                        game.white
                    };
                    state.balances.get(winner).is_some()
                },
                Some(BoardStatus::Stalemate) => state.balances.get(game.white).is_some()
                    && state.balances.get(game.black).is_some(),
                Some(BoardStatus::Ongoing) => true,
                None => false,
            },
            None => false,
        },
        _ => true,
    }
}

/// Whether every game stands in a playable position.
pub open spec fn games_are_playable(s: RollupView) -> bool {
    forall|id: U256| #[trigger]
        s.games.contains_key(id) ==> board::playable(s.games[id].board)
}

/// Carries out a signed transaction. `msg` is the message that was signed: the
/// data of the transaction, written as JSON. Where all games stand in playable
/// positions they still do afterwards, unless it is a move that leads to another
/// one.
pub fn chain_event_loop(tx: WrappedTransaction, msg: &[u8], state: &mut RollupState) -> (r: Result<
    (),
    ChainError,
>)
    requires
        answerable(old(state)@, tx, findings_on(old(state)@, tx, msg@)),
    ensures
        (final(state)@, r) == chain_step(
            old(state)@,
            tx,
            findings_on(old(state)@, tx, msg@),
        ),
        ({
            let f = findings_on(old(state)@, tx, msg@);
            games_are_playable(old(state)@) && (f.played is Some ==> board::playable(f.played->0))
                ==> games_are_playable(final(state)@)
        }),
{
    let findings = look_into(&tx, msg, state);
    proof {
        if games_are_playable(state@) && (findings@.played is Some ==> board::playable(
            findings@.played->0,
        )) {
            law_games_stay_playable(state@, tx, findings@);
        }
    }
    apply(tx, findings, state)
}

/// Carries out a signed transaction where it can be answered. Where it cannot,
/// the result is `None` and the ledger stays as it was.
pub fn try_chain_event_loop(tx: WrappedTransaction, msg: &[u8], state: &mut RollupState) -> (r:
    Option<Result<(), ChainError>>)
    ensures
        (final(state)@, r) == answered(
            old(state)@,
            tx,
            findings_on(old(state)@, tx, msg@),
        ),
        ({
            let f = findings_on(old(state)@, tx, msg@);
            games_are_playable(old(state)@) && (f.played is Some ==> board::playable(f.played->0))
                ==> games_are_playable(final(state)@)
        }),
{
    let findings = look_into(&tx, msg, state);
    if is_answerable(&tx, &findings, state) {
        Some(chain_event_loop(tx, msg, state))
    } else {
        None
    }
}

} // verus!
