//! What each transaction of the ledger of wagers comes to, whoever sends it and
//! whatever else the ledger holds: when it is carried out, who gains and who pays,
//! and what stays as it was.

use vstd::prelude::*;
use crate::address::Address;
use crate::board::{
    legal_position, playable, position_after, position_status, san_move, BoardStatus,
};
use crate::crypto::recovered_address;
use crate::numbers::{lemma_u256_value, lemma_value_injective, modulus, u256, U256};
use crate::tx::{
    answerable, answered, chain_step, credit, debit, findings_on, ChainError, Findings,
    FindingsView, RollupState, RollupView, TxType, WrappedTransaction,
};

verus! {

/// What an account holds, as a number: nothing where there is no account.
pub open spec fn held(balances: Map<Address, U256>, account: Address) -> int {
    if balances.contains_key(account) {
        balances[account].value()
    } else {
        0
    }
}

/// Whether two sets of accounts differ in `a` and `b` at most.
pub open spec fn same_but(
    before: Map<Address, U256>,
    after: Map<Address, U256>,
    a: Address,
    b: Address,
) -> bool {
    forall|x: Address|
        x != a && x != b ==> (#[trigger] after.contains_key(x) <==> before.contains_key(x)) && (
        before.contains_key(x) ==> after[x] == before[x])
}

/// Adding to a number that was reduced is adding to the number, modulo 2 to the 256.
pub proof fn lemma_add_reduced(n: int, d: int)
    ensures
        (n % modulus() + d) % modulus() == (n + d) % modulus(),
{
    vstd::arithmetic::div_mod::lemma_add_mod_noop(n, d, modulus());
    vstd::arithmetic::div_mod::lemma_add_mod_noop(n % modulus(), d, modulus());
}

/// A number that fits 256 bits is itself, modulo 2 to the 256.
pub proof fn lemma_fits(n: int)
    requires
        0 <= n < modulus(),
    ensures
        n % modulus() == n,
{
}

/// A credit adds to one account alone.
pub proof fn lemma_credited(b: Map<Address, U256>, account: Address, amount: U256)
    ensures
        credit(b, account, amount).contains_key(account),
        held(credit(b, account, amount), account) == (held(b, account) + amount.value())
            % modulus(),
        same_but(b, credit(b, account, amount), account, account),
{
    lemma_u256_value(0);
    lemma_u256_value(held(b, account) + amount.value());
}

/// A debit takes from one account alone.
pub proof fn lemma_debited(b: Map<Address, U256>, account: Address, amount: U256)
    ensures
        debit(b, account, amount).contains_key(account),
        held(debit(b, account, amount), account) == (held(b, account) - amount.value())
            % modulus(),
        same_but(b, debit(b, account, amount), account, account),
{
    lemma_u256_value(0);
    lemma_u256_value(held(b, account) - amount.value());
}

/// A transaction that its sender has not signed is refused, and nothing happens. One
/// of which no signer can be recovered has no answer.
pub proof fn law_only_the_sender_signs(s: RollupView, tx: WrappedTransaction, f: FindingsView)
    requires
        f.signer != Some(tx.pub_key),
    ensures
        answerable(s, tx, f) <==> f.signer is Some,
        f.signer is Some ==> answered(s, tx, f) == (
            s,
            Some(Err::<(), ChainError>(ChainError::BadSig)),
        ),
        f.signer is None ==> answered(s, tx, f) == (s, None::<Result<(), ChainError>>),
{
}

/// A transaction that has an answer gets it, and one that has none leaves the ledger
/// as it was.
pub proof fn law_an_answer_is_given(s: RollupView, tx: WrappedTransaction, f: FindingsView)
    ensures
        answered(s, tx, f).1 is Some <==> answerable(s, tx, f),
        answered(s, tx, f).1 is Some ==> answered(s, tx, f).0 == chain_step(s, tx, f).0,
        answered(s, tx, f).1 is Some ==> answered(s, tx, f).1->0 == chain_step(s, tx, f).1,
        answered(s, tx, f).1 is None ==> answered(s, tx, f).0 == s,
{
}

/// The player whose turn it is can move: white after an even number of moves, black
/// after an odd one. Whatever the game and however long it has lasted, a legal move
/// is carried out. It is counted and leads to the position found, and is sequenced;
/// the players, the wager, all other games, all accounts and proposals stay.
pub proof fn law_a_legal_move_in_turn_is_made(
    s: RollupView,
    game_id: U256,
    tx: WrappedTransaction,
    f: FindingsView,
)
    requires
        tx.data matches TxType::Move { game_id: id, .. } && id == game_id,
        f.signer == Some(tx.pub_key),
        s.games.contains_key(game_id),
        s.games[game_id].turns < u64::MAX,
        s.games[game_id].turns % 2 == 0 ==> tx.pub_key == s.games[game_id].white,
        s.games[game_id].turns % 2 != 0 ==> tx.pub_key == s.games[game_id].black,
        f.played is Some,
    ensures
        ({
            let (t, r) = answered(s, tx, f);
            let before = s.games[game_id];
            &&& r == Some(Ok::<(), ChainError>(()))
            &&& t.games.contains_key(game_id)
            &&& t.games[game_id].turns == before.turns + 1
            &&& f.played == Some(t.games[game_id].board)
            &&& t.games[game_id].white == before.white
            &&& t.games[game_id].black == before.black
            &&& t.games[game_id].wager == before.wager
            &&& t.games.remove(game_id) == s.games.remove(game_id)
            &&& t.balances == s.balances
            &&& t.withdrawals == s.withdrawals
            &&& t.pending_games == s.pending_games
            &&& t.sequenced == s.sequenced.push(tx)
        }),
{
    assert(answered(s, tx, f).0.games.remove(game_id) =~= s.games.remove(game_id));
}

/// A move is refused only where there is no such game or it is the other player's
/// turn. In turn, one that is not legal, or one too many to be counted, has no answer.
pub proof fn law_a_move_is_refused_out_of_turn(
    s: RollupView,
    game_id: U256,
    tx: WrappedTransaction,
    f: FindingsView,
)
    requires
        tx.data matches TxType::Move { game_id: id, .. } && id == game_id,
        f.signer == Some(tx.pub_key),
    ensures
        ({
            let (t, r) = answered(s, tx, f);
            let game = s.games[game_id];
            let there = s.games.contains_key(game_id);
            let whites = game.turns % 2 == 0;
            let blacks = game.turns % 2 != 0;
            let mine = (whites && tx.pub_key == game.white) || (blacks && tx.pub_key == game.black);
            &&& r == Some(Err::<(), ChainError>(ChainError::NoSuchGame)) <==> !there
            &&& r == Some(Err::<(), ChainError>(ChainError::NotWhitesTurn)) <==> there && whites
                && !mine
            &&& r == Some(Err::<(), ChainError>(ChainError::NotBlacksTurn)) <==> there && blacks
                && !mine
            &&& r is None <==> there && mine && (f.played is None || game.turns >= u64::MAX)
            &&& r != Some(Ok::<(), ChainError>(())) ==> t == s
        }),
{
}

/// Mate pays the player who gave it: black, if an even number of moves were made, and
/// white otherwise. That account grows by the whole wager and no other account changes.
/// The game is gone; every other one stays.
pub proof fn law_mate_pays_who_moved_last(
    s: RollupView,
    game_id: U256,
    tx: WrappedTransaction,
    f: FindingsView,
    winner: Address,
)
    requires
        tx.data == TxType::ClaimWin(game_id),
        f.signer == Some(tx.pub_key),
        s.games.contains_key(game_id),
        f.status == Some(BoardStatus::Checkmate),
        s.games[game_id].turns % 2 == 0 ==> winner == s.games[game_id].black,
        s.games[game_id].turns % 2 != 0 ==> winner == s.games[game_id].white,
    ensures
        answerable(s, tx, f) <==> s.balances.contains_key(winner),
        s.balances.contains_key(winner) ==> {
            let (t, r) = answered(s, tx, f);
            &&& r == Some(Ok::<(), ChainError>(()))
            &&& held(t.balances, winner) == (held(s.balances, winner)
                + s.games[game_id].wager.value()) % modulus()
            &&& same_but(s.balances, t.balances, winner, winner)
            &&& t.games == s.games.remove(game_id)
            &&& t.withdrawals == s.withdrawals
            &&& t.pending_games == s.pending_games
            &&& t.sequenced == s.sequenced
        },
{
    lemma_credited(s.balances, winner, s.games[game_id].wager);
}

/// What crediting two players with the same share does.
proof fn lemma_shared(b: Map<Address, U256>, white: Address, black: Address, share: U256)
    ensures
        ({
            let after = credit(credit(b, white, share), black, share);
            let half = share.value();
            &&& white != black ==> held(after, white) == (held(b, white) + half) % modulus()
            &&& white != black ==> held(after, black) == (held(b, black) + half) % modulus()
            &&& white == black ==> held(after, white) == (held(b, white) + 2 * half) % modulus()
            &&& same_but(b, after, white, black)
        }),
{
    let once = credit(b, white, share);
    lemma_credited(b, white, share);
    lemma_credited(once, black, share);
    lemma_add_reduced(held(b, white) + share.value(), share.value());
}

/// Stalemate gives each player half of the wager, and no other account changes. The
/// game is gone; every other one stays.
#[verifier::rlimit(40)]
pub proof fn law_stalemate_pays_both(
    s: RollupView,
    game_id: U256,
    tx: WrappedTransaction,
    f: FindingsView,
)
    requires
        tx.data == TxType::ClaimWin(game_id),
        f.signer == Some(tx.pub_key),
        s.games.contains_key(game_id),
        f.status == Some(BoardStatus::Stalemate),
    ensures
        answerable(s, tx, f) <==> s.balances.contains_key(s.games[game_id].white)
            && s.balances.contains_key(s.games[game_id].black),
        answerable(s, tx, f) ==> {
            let (t, r) = answered(s, tx, f);
            let white = s.games[game_id].white;
            let black = s.games[game_id].black;
            let half = s.games[game_id].wager.value() / 2;
            &&& r == Some(Ok::<(), ChainError>(()))
            &&& white != black ==> held(t.balances, white) == (held(s.balances, white) + half)
                % modulus() && held(t.balances, black) == (held(s.balances, black) + half)
                % modulus()
            &&& white == black ==> held(t.balances, white) == (held(s.balances, white) + 2 * half)
                % modulus()
            &&& same_but(s.balances, t.balances, white, black)
            &&& t.games == s.games.remove(game_id)
            &&& t.withdrawals == s.withdrawals
            &&& t.pending_games == s.pending_games
            &&& t.sequenced == s.sequenced
        },
{
    let game = s.games[game_id];
    let half = game.wager.value() / 2;
    lemma_u256_value(half);
    lemma_fits(half);
    let share = u256(half);
    lemma_shared(s.balances, game.white, game.black, share);
    if answerable(s, tx, f) {
        assert(answered(s, tx, f).0.balances == credit(
            credit(s.balances, game.white, share),
            game.black,
            share,
        ));
    }
}

/// A claim on a game that goes on is refused, whoever makes it, and nothing happens.
/// On no game, or on one in a position that is not legal, it has no answer.
pub proof fn law_a_claim_waits_for_the_end(
    s: RollupView,
    game_id: U256,
    tx: WrappedTransaction,
    f: FindingsView,
)
    requires
        tx.data == TxType::ClaimWin(game_id),
        f.signer == Some(tx.pub_key),
    ensures
        ({
            let (t, r) = answered(s, tx, f);
            let there = s.games.contains_key(game_id);
            &&& r == Some(Err::<(), ChainError>(ChainError::GameNotOver)) <==> there && f.status
                == Some(BoardStatus::Ongoing)
            &&& !there || f.status is None ==> r is None
            &&& r is Some && f.status != Some(BoardStatus::Ongoing) ==> r == Some(
                Ok::<(), ChainError>(()),
            )
            &&& r != Some(Ok::<(), ChainError>(())) ==> t == s
        }),
{
}

/// Any proposal that one player has made can be taken up by the other, as long as both
/// accounts hold the wager: whatever its number, however many others are pending and
/// however long it has been there. Both stakes are put in; the game begins from the
/// initial position under that number, and only that proposal is gone.
#[verifier::rlimit(40)]
pub proof fn law_any_proposal_can_be_taken_up(
    s: RollupView,
    game_id: U256,
    tx: WrappedTransaction,
    f: FindingsView,
)
    requires
        tx.data == TxType::StartGame(game_id),
        f.signer == Some(tx.pub_key),
        s.pending_games.contains_key(game_id),
        (s.pending_games[game_id].accepted == (true, false) && tx.pub_key
            == s.pending_games[game_id].black) || (s.pending_games[game_id].accepted == (
            false,
            true,
        ) && tx.pub_key == s.pending_games[game_id].white),
        s.balances.contains_key(s.pending_games[game_id].white),
        s.balances.contains_key(s.pending_games[game_id].black),
        s.pending_games[game_id].wager.value() <= held(
            s.balances,
            s.pending_games[game_id].white,
        ),
        s.pending_games[game_id].wager.value() <= held(
            s.balances,
            s.pending_games[game_id].black,
        ),
    ensures
        ({
            let (t, r) = answered(s, tx, f);
            let white = s.pending_games[game_id].white;
            let black = s.pending_games[game_id].black;
            let wager = s.pending_games[game_id].wager.value();
            &&& r == Some(Ok::<(), ChainError>(()))
            &&& white != black ==> held(t.balances, white) == held(s.balances, white) - wager
                && held(t.balances, black) == held(s.balances, black) - wager
            &&& white == black ==> held(t.balances, white) == (held(s.balances, white) - 2 * wager)
                % modulus()
            &&& same_but(s.balances, t.balances, white, black)
            &&& t.games.contains_key(game_id)
            &&& t.games[game_id].turns == 0
            &&& t.games[game_id].board
                == "rnbqkbnr/pppppppp/8/8/8/8/PPPPPPPP/RNBQKBNR w KQkq - 0 1"@
            &&& t.games[game_id].white == white
            &&& t.games[game_id].black == black
            &&& t.games[game_id].wager.value() == (2 * wager) % modulus()
            &&& t.games.remove(game_id) == s.games.remove(game_id)
            &&& t.pending_games == s.pending_games.remove(game_id)
            &&& t.withdrawals == s.withdrawals
            &&& t.sequenced == s.sequenced.push(tx)
        }),
{
    let p = s.pending_games[game_id];
    let wager = p.wager.value();
    let once = debit(s.balances, p.white, p.wager);
    lemma_debited(s.balances, p.white, p.wager);
    lemma_debited(once, p.black, p.wager);
    lemma_add_reduced(held(s.balances, p.white) - wager, -wager);
    lemma_fits(held(s.balances, p.white) - wager);
    lemma_fits(held(s.balances, p.black) - wager);
    lemma_u256_value(2 * wager);
    let t = answered(s, tx, f).0;
    assert(t.balances == debit(once, p.black, p.wager));
    assert(t.games.remove(game_id) =~= s.games.remove(game_id));
}

/// A game is not started for one of these reasons alone, and each of them in its turn:
/// there is no such proposal, the sender is not who was asked, a player has no account,
/// or one of them cannot pay. Nothing happens then.
pub proof fn law_reasons_not_to_start(
    s: RollupView,
    game_id: U256,
    tx: WrappedTransaction,
    f: FindingsView,
)
    requires
        tx.data == TxType::StartGame(game_id),
        f.signer == Some(tx.pub_key),
    ensures
        ({
            let (t, r) = answered(s, tx, f);
            let there = s.pending_games.contains_key(game_id);
            let p = s.pending_games[game_id];
            let asks_black = p.accepted == (true, false);
            let asks_white = p.accepted == (false, true);
            let asked = (asks_black && tx.pub_key == p.black) || (asks_white && tx.pub_key
                == p.white);
            let w = s.balances.contains_key(p.white);
            let b = s.balances.contains_key(p.black);
            let able = p.wager.value() <= held(s.balances, p.white) && p.wager.value() <= held(
                s.balances,
                p.black,
            );
            &&& r is Some
            &&& r == Some(Err::<(), ChainError>(ChainError::NoSuchGame)) <==> !there
            &&& r == Some(Err::<(), ChainError>(ChainError::NotWhite)) <==> there && asks_black
                && !asked
            &&& r == Some(Err::<(), ChainError>(ChainError::NotBlack)) <==> there && asks_white
                && !asked
            &&& r == Some(Err::<(), ChainError>(ChainError::ImpossibleToReach)) <==> there
                && !asks_black && !asks_white
            &&& r == Some(Err::<(), ChainError>(ChainError::NoWhiteAccount)) <==> there && asked
                && !w
            &&& r == Some(Err::<(), ChainError>(ChainError::NoBlackAccount)) <==> there && asked
                && w && !b
            &&& r == Some(Err::<(), ChainError>(ChainError::InsufficientFunds)) <==> there
                && asked && w && b && !able
            &&& r == Some(Ok::<(), ChainError>(())) <==> there && asked && w && b && able
            &&& r != Some(Ok::<(), ChainError>(())) ==> t == s
        }),
{
}

/// A player can propose any game to anyone, for any wager. The proposal is numbered by
/// how many are pending and waits for the other player alone; all others stay, and no
/// account changes. Who is to play neither side is refused.
pub proof fn law_players_propose(
    s: RollupView,
    white: Address,
    black: Address,
    wager: U256,
    tx: WrappedTransaction,
    f: FindingsView,
    id: U256,
)
    requires
        tx.data == (TxType::ProposeGame { white, black, wager }),
        f.signer == Some(tx.pub_key),
        s.pending_games.len() < modulus(),
        id.value() == s.pending_games.len(),
    ensures
        ({
            let (t, r) = answered(s, tx, f);
            let plays = tx.pub_key == white || tx.pub_key == black;
            &&& r == Some(Ok::<(), ChainError>(())) <==> plays
            &&& !plays ==> r == Some(Err::<(), ChainError>(ChainError::NotAPlayer)) && t == s
            &&& plays ==> {
                &&& t.pending_games.contains_key(id)
                &&& t.pending_games[id].white == white
                &&& t.pending_games[id].black == black
                &&& t.pending_games[id].wager == wager
                &&& t.pending_games[id].accepted == (if tx.pub_key == white {
                    (true, false)
                } else {
                    (false, true)
                })
                &&& t.pending_games.remove(id) == s.pending_games.remove(id)
                &&& t.balances == s.balances
                &&& t.games == s.games
                &&& t.withdrawals == s.withdrawals
                &&& t.sequenced == s.sequenced.push(tx)
            }
        }),
{
    lemma_u256_value(s.pending_games.len() as int);
    lemma_value_injective(id, u256(s.pending_games.len() as int));
    assert(answered(s, tx, f).0.pending_games.remove(id) =~= s.pending_games.remove(id));
}

/// Anyone can withdraw any amount: it is taken from the sender's account, modulo 2 to
/// the 256, and noted for payment to the sender. No other account changes.
pub proof fn law_a_withdrawal_is_paid_by_its_sender(
    s: RollupView,
    amount: U256,
    tx: WrappedTransaction,
    f: FindingsView,
)
    requires
        tx.data == TxType::WithdrawTokens(amount),
        f.signer == Some(tx.pub_key),
    ensures
        ({
            let (t, r) = answered(s, tx, f);
            &&& r == Some(Ok::<(), ChainError>(()))
            &&& t.balances.contains_key(tx.pub_key)
            &&& held(t.balances, tx.pub_key) == (held(s.balances, tx.pub_key) - amount.value())
                % modulus()
            &&& same_but(s.balances, t.balances, tx.pub_key, tx.pub_key)
            &&& t.withdrawals == s.withdrawals.push((tx.pub_key, amount))
            &&& t.games == s.games
            &&& t.pending_games == s.pending_games
            &&& t.sequenced == s.sequenced.push(tx)
        }),
{
    lemma_debited(s.balances, tx.pub_key, amount);
}

/// A transfer moves its amount from the one account to the other, modulo 2 to the 256.
/// No third account changes, and none does where the two are one.
#[verifier::rlimit(40)]
pub proof fn law_a_transfer_moves_its_amount(
    s: RollupView,
    from: Address,
    to: Address,
    amount: U256,
    tx: WrappedTransaction,
    f: FindingsView,
)
    requires
        tx.data == (TxType::Transfer { from, to, amount }),
        f.signer == Some(tx.pub_key),
    ensures
        ({
            let (t, r) = answered(s, tx, f);
            &&& r == Some(Ok::<(), ChainError>(()))
            &&& t.balances.contains_key(from) && t.balances.contains_key(to)
            &&& from != to ==> held(t.balances, from) == (held(s.balances, from)
                - amount.value()) % modulus()
            &&& from != to ==> held(t.balances, to) == (held(s.balances, to) + amount.value())
                % modulus()
            &&& from == to ==> held(t.balances, to) == held(s.balances, to)
            &&& same_but(s.balances, t.balances, from, to)
            &&& t.withdrawals == s.withdrawals
            &&& t.games == s.games
            &&& t.pending_games == s.pending_games
            &&& t.sequenced == s.sequenced.push(tx)
        }),
{
    let once = debit(s.balances, from, amount);
    lemma_debited(s.balances, from, amount);
    lemma_credited(once, to, amount);
    lemma_add_reduced(held(s.balances, from) - amount.value(), amount.value());
    lemma_u256_value(0);
    lemma_fits(held(s.balances, from));
    assert(answered(s, tx, f).0.balances == credit(once, to, amount));
}

/// A bridged amount is acknowledged and changes nothing.
pub proof fn law_a_bridged_amount_changes_nothing(
    s: RollupView,
    amount: U256,
    tx: WrappedTransaction,
    f: FindingsView,
)
    requires
        tx.data == TxType::BridgeTokens(amount),
        f.signer == Some(tx.pub_key),
    ensures
        answered(s, tx, f) == (s, Some(Ok::<(), ChainError>(()))),
{
}

/// What is found out about a transaction: who signed its message; for a move, the
/// position after the move that its text denotes, where the position of the game is
/// legal and the text denotes one; for a claim, how the game stands.
pub proof fn law_what_is_found_out(s: RollupView, tx: WrappedTransaction, msg: Seq<u8>)
    ensures
        findings_on(s, tx, msg).signer == recovered_address(tx.sig, msg),
        tx.data matches TxType::Move { game_id, san } ==> {
            let fen = s.games[game_id].board;
            let found = findings_on(s, tx, msg).played;
            &&& found is Some <==> s.games.contains_key(game_id) && playable(fen)
                && legal_position(fen) && san_move(fen, san@) is Some
            &&& found is Some ==> found->0 == position_after(fen, san_move(fen, san@)->0)
        },
        tx.data matches TxType::ClaimWin(game_id) ==> {
            let fen = s.games[game_id].board;
            let found = findings_on(s, tx, msg).status;
            &&& found is Some <==> s.games.contains_key(game_id) && playable(fen)
                && legal_position(fen)
            &&& found is Some ==> found->0 == position_status(fen)
        },
{
}

/// What is said of a ledger is said of all that it holds: each list, account and proposal
/// as it stands, and each game with its turns, position, players and wager. What was found
/// out is taken as it was found.
pub proof fn law_nothing_of_a_ledger_is_left_out(state: RollupState, id: U256, findings: Findings)
    ensures
        state@.sequenced == state.sequenced@,
        state@.balances == state.balances@,
        state@.withdrawals == state.withdrawals@,
        state@.pending_games == state.pending_games@,
        state@.games.contains_key(id) <==> state.games@.contains_key(id),
        state.games@.contains_key(id) ==> {
            let shown = state@.games[id];
            let game = state.games@[id];
            &&& shown.turns == game.turns
            &&& shown.board == game.board@
            &&& shown.white == game.white
            &&& shown.black == game.black
            &&& shown.wager == game.wager
        },
        findings@.signer == findings.signer,
        findings@.status == findings.status,
        findings@.played is Some <==> findings.played is Some,
        findings.played is Some ==> findings@.played->0 == findings.played->0@,
{
}

} // verus!
