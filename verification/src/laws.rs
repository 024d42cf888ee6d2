//! Laws of the lottery state machine, proved over the transition
//! specifications that the operations' contracts are stated with.

use vstd::prelude::*;
use crate::ledger::{
    Identity, LotteryError, PoolView, Ticket, buy_outcome, escrow_share, init_state, inv,
    payout_authorized, payout_outcome, payout_share, pick_outcome, spec_buy, spec_new_ticket,
    withdraw_outcome,
};

verus! {

/// The escrow share and the payout share of a purchase always sum to the
/// ticket price exactly — deriving the escrow share first and the payout
/// share as the remainder leaves no rounding gap, whether or not the price
/// divides by ten.
pub proof fn lemma_shares_sum_to_price(price: u64)
    ensures
        escrow_share(price as int) + payout_share(price as int) == price,
{
}

/// Both shares of a purchase are non-negative and no larger than the ticket
/// price itself.
pub proof fn lemma_shares_within_price(price: u64)
    ensures
        0 <= escrow_share(price as int) <= price,
        0 <= payout_share(price as int) <= price,
{
    vstd::arithmetic::div_mod::lemma_div_pos_is_pos(price as int, 10);
    vstd::arithmetic::div_mod::lemma_div_nonincreasing(price as int, 10);
}

/// Every purchase moves exactly the ticket price: the pool's funds grow by
/// the price, and the two claimable balances together grow by the price,
/// so nothing leaks between the buyer's debit and the recorded shares.
pub proof fn lemma_purchase_conserves_funds(s: PoolView, player: Identity)
    ensures
        spec_buy(s, player).escrow + spec_buy(s, player).payout == s.escrow + s.payout
            + s.ticket_price,
        spec_buy(s, player).funds == s.funds + s.ticket_price,
{
}

/// A purchase preserves well-formedness, advances the counter by one, and
/// appends one ticket, bound to the buyer, under the old counter value.
pub proof fn lemma_purchase_preserves_inv(s: PoolView, player: Identity)
    requires
        inv(s),
        s.count < u32::MAX,
    ensures
        inv(spec_buy(s, player)),
        spec_buy(s, player).count == s.count + 1,
        spec_buy(s, player).tickets == s.tickets.push(spec_new_ticket(s, player)),
        buy_outcome(s, player, s.ticket_price) == Ok::<PoolView, LotteryError>(
            spec_buy(s, player),
        ),
{
    lemma_shares_within_price(s.ticket_price);
    let s2 = spec_buy(s, player);
    assert forall|i: int| 0 <= i < s2.tickets.len() implies (#[trigger] s2.tickets[i]).idx
        == i by {
        if i < s.tickets.len() {
            assert(s.tickets[i].idx == i);
        }
    }
    assert(!(exists|i: int|
        0 <= i < s.tickets.len() && (#[trigger] s.tickets[i]).idx == s.count as u32));
}

/// Whether some ticket record of the pool carries index `k`.
pub open spec fn index_on_some_ticket(s: PoolView, k: int) -> bool {
    exists|i: int| 0 <= i < s.tickets.len() && (#[trigger] s.tickets[i]).idx == k
}

/// On a well-formed pool, the ticket indices held by the records are exactly
/// `{0, 1, ..., count - 1}`: each index below the counter appears on some
/// ticket, and no two tickets carry the same index.
pub proof fn lemma_ticket_indices_exact(s: PoolView)
    requires
        inv(s),
    ensures
        s.tickets.len() == s.count,
        forall|k: int| 0 <= k < s.count ==> #[trigger] index_on_some_ticket(s, k),
        forall|i: int, j: int|
            0 <= i < j < s.tickets.len() ==> s.tickets[i].idx != s.tickets[j].idx,
{
    assert forall|k: int| 0 <= k < s.count implies #[trigger] index_on_some_ticket(s, k) by {
        assert(s.tickets[k].idx == k);
    }
}

/// The state after a sequence of purchases, one per listed buyer, in order.
pub open spec fn buy_many(s: PoolView, players: Seq<Identity>) -> PoolView
    decreases players.len(),
{
    if players.len() == 0 {
        s
    } else {
        buy_many(spec_buy(s, players[0]), players.drop_first())
    }
}

/// A sequence of purchases preserves well-formedness and advances the
/// counter once per purchase.
pub proof fn lemma_buy_many_counts(s: PoolView, players: Seq<Identity>)
    requires
        inv(s),
        s.count + players.len() <= u32::MAX,
    ensures
        inv(buy_many(s, players)),
        buy_many(s, players).count == s.count + players.len(),
    decreases players.len(),
{
    if players.len() > 0 {
        lemma_purchase_preserves_inv(s, players[0]);
        lemma_buy_many_counts(spec_buy(s, players[0]), players.drop_first());
    }
}

/// After any number of successful purchases on a fresh ledger, the counter
/// equals the number of purchases and the ticket indices are exactly
/// `{0, 1, ..., N - 1}`, each appearing once.
pub proof fn lemma_fresh_ledger_ticket_indices(
    ticket_price: u64,
    oracle: Identity,
    admin: Identity,
    players: Seq<Identity>,
)
    requires
        players.len() <= u32::MAX,
    ensures
        ({
            let s = buy_many(init_state(ticket_price, oracle, admin), players);
            &&& s.count == players.len()
            &&& s.tickets.len() == players.len()
            &&& forall|k: int| 0 <= k < players.len() ==> #[trigger] index_on_some_ticket(s, k)
            &&& forall|i: int, j: int|
                0 <= i < j < s.tickets.len() ==> s.tickets[i].idx != s.tickets[j].idx
        }),
{
    let s0 = init_state(ticket_price, oracle, admin);
    lemma_buy_many_counts(s0, players);
    lemma_ticket_indices_exact(buy_many(s0, players));
}

/// A nonzero payout accumulation can be claimed successfully at most once:
/// a successful claim empties the payout balance, and every further claim —
/// by anyone, with any ticket — fails until purchases replenish the balance;
/// in particular an authorized second claim fails with `NoPayoutFunds`.
pub proof fn lemma_payout_claimed_at_most_once(
    s: PoolView,
    ticket: Ticket,
    claimant: Identity,
    ticket2: Ticket,
    claimant2: Identity,
)
    requires
        payout_outcome(s, ticket, claimant) is Ok,
    ensures
        ({
            let s1 = payout_outcome(s, ticket, claimant)->Ok_0;
            &&& s1.payout == 0
            &&& payout_outcome(s1, ticket2, claimant2) is Err
            &&& payout_authorized(s1, ticket2, claimant2) ==> payout_outcome(
                s1,
                ticket2,
                claimant2,
            ) == Err::<PoolView, LotteryError>(LotteryError::NoPayoutFunds)
        }),
{
}

/// A caller that fails the authority check is always rejected with
/// `Unauthorized`, whatever the balances: escrow withdrawal by anyone but
/// the administrator, and a payout claim whose ticket or claimant does not
/// match the announced winner. The operations' contracts then guarantee
/// that a rejected call leaves the pool unchanged.
pub proof fn lemma_unauthorized_always_rejected(
    s: PoolView,
    caller: Identity,
    ticket: Ticket,
    claimant: Identity,
)
    ensures
        caller != s.authority ==> withdraw_outcome(s, caller) == Err::<PoolView, LotteryError>(
            LotteryError::Unauthorized,
        ),
        !payout_authorized(s, ticket, claimant) ==> payout_outcome(s, ticket, claimant) == Err::<
            PoolView,
            LotteryError,
        >(LotteryError::Unauthorized),
{
}

/// Announcing a winner never fails for the oracle, and announcing the same
/// index again leaves the state exactly as it was after the first
/// announcement.
pub proof fn lemma_announce_idempotent(s: PoolView, caller: Identity, winner: u32)
    requires
        caller == s.oracle,
    ensures
        pick_outcome(s, caller, winner) is Ok,
        pick_outcome(s, caller, winner)->Ok_0.winner_index == Some(winner),
        pick_outcome(pick_outcome(s, caller, winner)->Ok_0, caller, winner) == Ok::<
            PoolView,
            LotteryError,
        >(pick_outcome(s, caller, winner)->Ok_0),
{
    let s1 = pick_outcome(s, caller, winner)->Ok_0;
    assert((PoolView { winner_index: Some(winner), ..s1 }) =~= s1);
}

} // verus!
