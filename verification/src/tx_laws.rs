//! What holds of the ledger of wagers as a whole.

use vstd::prelude::*;
use crate::address::Address;
use crate::board::{lemma_initial_playable, playable, BoardStatus};
use crate::numbers::{lemma_u256_value, modulus, u256, U256};
use crate::totals::{
    amount_value, lemma_paid_push, lemma_total_insert, lemma_total_remove, paid, total,
};
use crate::tx::{
    answerable, answered, balance, chain_step, credit, debit, games_are_playable, move_refusal,
    settled, started, ChainError, FindingsView, GameView, RollupView, TxType, WrappedTransaction,
};

verus! {

/// Reading the wager of a game as a number.
pub open spec fn wager_value() -> spec_fn(GameView) -> int {
    |g: GameView| g.wager.value()
}

/// All that the ledger accounts for: what players hold, what is at stake, and
/// what has been withdrawn.
pub open spec fn holdings(s: RollupView) -> int {
    total(s.balances, amount_value()) + total(s.games, wager_value()) + paid(s.withdrawals)
}

/// Whether two numbers are equal modulo 2 to the 256.
pub open spec fn congruent(a: int, b: int) -> bool {
    (a - b) % modulus() == 0
}

/// A ledger that can arise: finitely many accounts and games, and in each game a
/// wager that two equal shares make up.
pub open spec fn valid(s: RollupView) -> bool {
    &&& s.balances.dom().finite()
    &&& s.games.dom().finite()
    &&& forall|id: U256| #[trigger]
        s.games.contains_key(id) ==> s.games[id].wager.value() % 2 == 0
}

/// What a credit adds to the sum of all accounts, up to a multiple of the modulus.
pub proof fn lemma_credit_total(b: Map<Address, U256>, account: Address, amount: U256) -> (k: int)
    requires
        b.dom().finite(),
    ensures
        credit(b, account, amount).dom().finite(),
        total(credit(b, account, amount), amount_value()) == total(b, amount_value())
            + amount.value() + k * modulus(),
{
    let n = balance(b, account).value() + amount.value();
    lemma_u256_value(n);
    lemma_u256_value(0);
    lemma_total_insert(b, amount_value(), account, u256(n));
    -(n / modulus())
}

/// What a debit takes from the sum of all accounts, up to a multiple of the
/// modulus.
pub proof fn lemma_debit_total(b: Map<Address, U256>, account: Address, amount: U256) -> (k: int)
    requires
        b.dom().finite(),
    ensures
        debit(b, account, amount).dom().finite(),
        total(debit(b, account, amount), amount_value()) == total(b, amount_value())
            - amount.value() + k * modulus(),
{
    let n = balance(b, account).value() - amount.value();
    lemma_u256_value(n);
    lemma_u256_value(0);
    lemma_total_insert(b, amount_value(), account, u256(n));
    -(n / modulus())
}

/// A transaction that is refused leaves the ledger as it was.
pub proof fn law_refusal_changes_nothing(s: RollupView, tx: WrappedTransaction, f: FindingsView)
    requires
        chain_step(s, tx, f).1 is Err,
    ensures
        chain_step(s, tx, f).0 == s,
{
}

/// Every transaction leaves a valid ledger valid.
pub proof fn law_validity_is_kept(s: RollupView, tx: WrappedTransaction, f: FindingsView)
    requires
        valid(s),
        answerable(s, tx, f),
    ensures
        valid(chain_step(s, tx, f).0),
{
    let t = chain_step(s, tx, f).0;
    assert(t.balances.dom().finite()) by {
        broadcast use vstd::map_lib::group_map_properties;

        broadcast use vstd::map::group_map_axioms;

    }
    assert forall|id: U256| #[trigger] t.games.contains_key(id) implies t.games[id].wager.value()
        % 2 == 0 by {
        if f.signer == Some(tx.pub_key) {
            match tx.data {
                TxType::StartGame(game_id) => {
                    if id == game_id && started(s, tx, game_id).1 is Ok {
                        let w = s.pending_games[game_id].wager.value();
                        lemma_u256_value(2 * w);
                    } else {
                        assert(s.games.contains_key(id));
                    }
                },
                TxType::Move { game_id, .. } => {
                    assert(s.games.contains_key(id));
                },
                _ => {
                    assert(s.games.contains_key(id));
                },
            }
        }
    }
}

/// No transaction makes or destroys value, whether it is carried out, refused or
/// left unanswered: what the ledger accounts for stays the same, modulo 2 to the
/// 256. There are two exceptions. A game that is started under the number of a game
/// in progress replaces its stake. Of an odd wager one is lost when it is shared; no
/// ledger that can arise holds such a wager.
pub proof fn law_value_is_conserved(s: RollupView, tx: WrappedTransaction, f: FindingsView)
    requires
        s.balances.dom().finite(),
        s.games.dom().finite(),
        tx.data matches TxType::StartGame(game_id) ==> chain_step(s, tx, f).1 is Err
            || !s.games.contains_key(game_id) || s.games[game_id].wager.value() == 0,
        tx.data matches TxType::ClaimWin(game_id) ==> chain_step(s, tx, f).1 is Err
            || f.status != Some(BoardStatus::Stalemate) || s.games[game_id].wager.value() % 2 == 0,
    ensures
        congruent(holdings(answered(s, tx, f).0), holdings(s)),
{
    if answerable(s, tx, f) {
        lemma_value_is_conserved(s, tx, f);
    }
}

/// What holds of a transaction that can be answered.
proof fn lemma_value_is_conserved(s: RollupView, tx: WrappedTransaction, f: FindingsView)
    requires
        s.balances.dom().finite(),
        s.games.dom().finite(),
        answerable(s, tx, f),
        tx.data matches TxType::StartGame(game_id) ==> chain_step(s, tx, f).1 is Err
            || !s.games.contains_key(game_id) || s.games[game_id].wager.value() == 0,
        tx.data matches TxType::ClaimWin(game_id) ==> chain_step(s, tx, f).1 is Err
            || f.status != Some(BoardStatus::Stalemate) || s.games[game_id].wager.value() % 2 == 0,
    ensures
        congruent(holdings(chain_step(s, tx, f).0), holdings(s)),
{
    let t = chain_step(s, tx, f).0;
    if f.signer == Some(tx.pub_key) {
        match tx.data {
            TxType::BridgeTokens(_) => {},
            TxType::WithdrawTokens(amount) => {
                let k = lemma_debit_total(s.balances, tx.pub_key, amount);
                lemma_paid_push(s.withdrawals, tx.pub_key, amount);
                assert(holdings(t) == holdings(s) + k * modulus());
            },
            TxType::Transfer { from, to, amount } => {
                let k = lemma_debit_total(s.balances, from, amount);
                let l = lemma_credit_total(debit(s.balances, from, amount), to, amount);
                assert(holdings(t) == holdings(s) + (k + l) * modulus());
            },
            TxType::ProposeGame { white, black, wager } => {},
            TxType::StartGame(game_id) => {
                if started(s, tx, game_id).1 is Ok {
                    let pending = s.pending_games[game_id];
                    let w = pending.wager.value();
                    let k = lemma_debit_total(s.balances, pending.white, pending.wager);
                    let l = lemma_debit_total(
                        debit(s.balances, pending.white, pending.wager),
                        pending.black,
                        pending.wager,
                    );
                    lemma_u256_value(2 * w);
                    lemma_total_insert(s.games, wager_value(), game_id, t.games[game_id]);
                    let q = (2 * w) / modulus();
                    assert(holdings(t) == holdings(s) + (k + l - q) * modulus());
                }
            },
            TxType::Move { game_id, .. } => {
                if move_refusal(s, tx.pub_key, game_id) is None {
                    lemma_total_insert(s.games, wager_value(), game_id, t.games[game_id]);
                    assert(holdings(t) == holdings(s));
                }
            },
            TxType::ClaimWin(game_id) => {
                let status = f.status->0;
                if settled(s, game_id, status).1 is Ok {
                    let game = s.games[game_id];
                    lemma_total_remove(s.games, wager_value(), game_id);
                    if status == BoardStatus::Checkmate {
                        let winner = if game.turns % 2 == 0 {
                            game.black
                        } else {
                            game.white
                        };
                        let k = lemma_credit_total(s.balances, winner, game.wager);
                        assert(holdings(t) == holdings(s) + k * modulus());
                    } else {
                        let share = u256(game.wager.value() / 2);
                        lemma_u256_value(game.wager.value() / 2);
                        assert(2 * share.value() == game.wager.value());
                        let k = lemma_credit_total(s.balances, game.white, share);
                        let l = lemma_credit_total(
                            credit(s.balances, game.white, share),
                            game.black,
                            share,
                        );
                        assert(holdings(t) == holdings(s) + (k + l) * modulus());
                    }
                }
            },
        }
    }
}

/// Players take turns: who has just moved in a game against someone else cannot
/// move in it again before the other player has.
pub proof fn law_turns_alternate(
    s: RollupView,
    game_id: U256,
    first: WrappedTransaction,
    f: FindingsView,
    second: WrappedTransaction,
    g: FindingsView,
)
    requires
        first.data matches TxType::Move { game_id: id, .. } && id == game_id,
        second.data matches TxType::Move { game_id: id, .. } && id == game_id,
        chain_step(s, first, f).1 is Ok,
        s.games[game_id].white != s.games[game_id].black,
        second.pub_key == first.pub_key,
    ensures
        chain_step(chain_step(s, first, f).0, second, g).1 is Err,
{
}

/// A move is made by the player whose turn it is. It is counted, leads to the
/// position that was found, and leaves the players, the wager and every other
/// game alone.
pub proof fn law_move_changes_one_game(
    s: RollupView,
    game_id: U256,
    tx: WrappedTransaction,
    f: FindingsView,
)
    requires
        tx.data matches TxType::Move { game_id: id, .. } && id == game_id,
        chain_step(s, tx, f).1 is Ok,
    ensures
        ({
            let before = s.games[game_id];
            let after = chain_step(s, tx, f).0.games[game_id];
            &&& s.games.contains_key(game_id)
            &&& tx.pub_key == (if before.turns % 2 == 0 {
                before.white
            } else {
                before.black
            })
            &&& after.turns == before.turns + 1
            &&& after.board == f.played->0
            &&& after.white == before.white && after.black == before.black
            &&& after.wager == before.wager
        }),
        chain_step(s, tx, f).0.games.remove(game_id) == s.games.remove(game_id),
        chain_step(s, tx, f).0.balances == s.balances,
{
    assert(chain_step(s, tx, f).0.games.remove(game_id) =~= s.games.remove(game_id));
}

/// A game is settled once: afterwards it is gone, and no further claim on it can
/// be answered.
pub proof fn law_settled_once(
    s: RollupView,
    game_id: U256,
    first: WrappedTransaction,
    f: FindingsView,
    second: WrappedTransaction,
    g: FindingsView,
)
    requires
        first.data == TxType::ClaimWin(game_id),
        second.data == TxType::ClaimWin(game_id),
        chain_step(s, first, f).1 is Ok,
        g.signer == Some(second.pub_key),
    ensures
        !chain_step(s, first, f).0.games.contains_key(game_id),
        !answerable(chain_step(s, first, f).0, second, g),
{
}

/// A game starts by the consent of both players: one has proposed it, and the
/// other one is who starts it.
pub proof fn law_start_takes_both_players(
    s: RollupView,
    game_id: U256,
    tx: WrappedTransaction,
    f: FindingsView,
)
    requires
        tx.data == TxType::StartGame(game_id),
        chain_step(s, tx, f).1 is Ok,
    ensures
        s.pending_games.contains_key(game_id),
        ({
            let pending = s.pending_games[game_id];
            ||| pending.accepted == (true, false) && tx.pub_key == pending.black
            ||| pending.accepted == (false, true) && tx.pub_key == pending.white
        }),
{
}

/// A game that one player has just proposed begins when the other one takes it
/// up, as long as both can pay. Then both stakes are in it.
pub proof fn law_proposal_can_be_taken_up(
    s: RollupView,
    white: Address,
    black: Address,
    wager: U256,
    proposal: WrappedTransaction,
    f: FindingsView,
    acceptance: WrappedTransaction,
    g: FindingsView,
)
    requires
        proposal.data == (TxType::ProposeGame { white, black, wager }),
        f.signer == Some(proposal.pub_key),
        acceptance.data == TxType::StartGame(u256(s.pending_games.len() as int)),
        g.signer == Some(acceptance.pub_key),
        (proposal.pub_key == white && acceptance.pub_key == black) || (proposal.pub_key == black
            && acceptance.pub_key == white),
        s.balances.contains_key(white) && wager.value() <= s.balances[white].value(),
        s.balances.contains_key(black) && wager.value() <= s.balances[black].value(),
    ensures
        ({
            let id = u256(s.pending_games.len() as int);
            let (t, r) = chain_step(chain_step(s, proposal, f).0, acceptance, g);
            &&& r is Ok
            &&& t.games.contains_key(id)
            &&& t.games[id].white == white && t.games[id].black == black
            &&& t.games[id].turns == 0
            &&& t.games[id].wager == u256(2 * wager.value())
            &&& !t.pending_games.contains_key(id)
            &&& white != black ==> t.balances[white].value() == s.balances[white].value()
                - wager.value() && t.balances[black].value() == s.balances[black].value()
                - wager.value()
        }),
{
    lemma_u256_value(s.balances[white].value() - wager.value());
    lemma_u256_value(s.balances[black].value() - wager.value());
}

/// A withdrawal is noted for payment to who asked for it, in full.
pub proof fn law_withdrawal_is_noted(
    s: RollupView,
    amount: U256,
    tx: WrappedTransaction,
    f: FindingsView,
)
    requires
        tx.data == TxType::WithdrawTokens(amount),
        f.signer == Some(tx.pub_key),
    ensures
        chain_step(s, tx, f).1 is Ok,
        chain_step(s, tx, f).0.withdrawals == s.withdrawals.push((tx.pub_key, amount)),
{
}

/// What is carried out is sequenced, in order and as it was received. Bridged
/// amounts and claims are not, nor is what is refused.
pub proof fn law_sequenced(s: RollupView, tx: WrappedTransaction, f: FindingsView)
    ensures
        chain_step(s, tx, f).0.sequenced == (if chain_step(s, tx, f).1 is Ok && !(
        tx.data is BridgeTokens) && !(tx.data is ClaimWin) {
            s.sequenced.push(tx)
        } else {
            s.sequenced
        }),
{
}

/// Whether each proposal has been accepted by exactly one player.
pub open spec fn one_has_accepted(s: RollupView) -> bool {
    forall|id: U256| #[trigger]
        s.pending_games.contains_key(id) ==> s.pending_games[id].accepted.0
            != s.pending_games[id].accepted.1
}

/// In every ledger that can arise a proposal has been accepted by exactly one
/// player, so no transaction is refused as impossible to reach.
pub proof fn law_impossible_is_never_reached(
    s: RollupView,
    tx: WrappedTransaction,
    f: FindingsView,
)
    requires
        one_has_accepted(s),
    ensures
        one_has_accepted(chain_step(s, tx, f).0),
        chain_step(s, tx, f).1 != Err::<(), ChainError>(ChainError::ImpossibleToReach),
{
}

/// Whether both players of each game have accounts.
pub open spec fn players_have_accounts(s: RollupView) -> bool {
    forall|id: U256| #[trigger]
        s.games.contains_key(id) ==> s.balances.contains_key(s.games[id].white)
            && s.balances.contains_key(s.games[id].black)
}

/// No account is ever closed, and both players of a game have one: every
/// transaction keeps that.
pub proof fn law_players_keep_their_accounts(
    s: RollupView,
    tx: WrappedTransaction,
    f: FindingsView,
)
    requires
        players_have_accounts(s),
    ensures
        s.balances.dom().subset_of(chain_step(s, tx, f).0.balances.dom()),
        players_have_accounts(chain_step(s, tx, f).0),
{
    let t = chain_step(s, tx, f).0;
    assert forall|id: U256| #[trigger] t.games.contains_key(id) implies t.balances.contains_key(
        t.games[id].white,
    ) && t.balances.contains_key(t.games[id].black) by {
        assert(s.games.contains_key(id) ==> s.balances.contains_key(s.games[id].white));
    }
}

/// Who has won can be paid: a claim can be answered wherever its game is there
/// and stands in a legal position.
pub proof fn law_winners_can_be_paid(
    s: RollupView,
    game_id: U256,
    claim: WrappedTransaction,
    f: FindingsView,
)
    requires
        players_have_accounts(s),
        s.games.contains_key(game_id),
        claim.data == TxType::ClaimWin(game_id),
        f.signer is Some,
        f.status is Some,
    ensures
        answerable(s, claim, f),
{
}

/// Games start from a playable position, and moves that lead to playable positions
/// keep them there.
pub proof fn law_games_stay_playable(s: RollupView, tx: WrappedTransaction, f: FindingsView)
    requires
        games_are_playable(s),
        answerable(s, tx, f),
        f.played is Some ==> playable(f.played->0),
    ensures
        games_are_playable(chain_step(s, tx, f).0),
{
    lemma_initial_playable();
    let t = chain_step(s, tx, f).0;
    assert forall|id: U256| #[trigger] t.games.contains_key(id) implies playable(
        t.games[id].board,
    ) by {
        assert(s.games.contains_key(id) ==> playable(s.games[id].board));
    }
}

} // verus!
