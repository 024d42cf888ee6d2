//! The lottery ledger and its guarded state transitions.
//!
//! A `Pool` holds one lottery instance as the host ledger sees it: the
//! `Lottery` configuration record, the ticket records issued so far, and the
//! funds the pooled account currently holds. Every operation is an atomic,
//! all-or-nothing transition: it validates its preconditions, mutates the
//! pool (and the caller's balance) in one step, and returns either `Ok` or a
//! `LotteryError` that leaves everything unchanged.

use vstd::prelude::*;

verus! {

/// An account identity on the host ledger, reduced to the plain value the
/// lottery compares: every authority check is an equality of identities.
pub type Identity = u64;

/// Why a lottery operation was refused. Every error is terminal for the
/// operation that raised it: no partial state is ever committed.
#[derive(Clone, Copy, PartialEq, Eq, Structural, Debug)]
pub enum LotteryError {
    /// The caller fails an authority check: it is not the administrator, not
    /// the oracle, or not the winning ticket's buyer.
    Unauthorized,
    /// The buyer cannot cover the ticket price.
    InsufficientFunds,
    /// An escrow withdrawal was attempted against a zero escrow balance.
    NoEscrowFunds,
    /// A payout claim was attempted against a zero payout balance.
    NoPayoutFunds,
    /// A newly allocated ticket index would collide with an existing ticket
    /// record. Monotonic index assignment rules this out on well-formed
    /// pools, but it is a checked invariant, not an assumed one.
    DuplicateTicketIndex,
}

/// The persistent configuration and balances of one lottery instance.
#[derive(Clone, Copy, Debug)]
pub struct Lottery {
    /// Sole authority over escrow withdrawal; set to the creator.
    pub authority: Identity,
    /// Sole authority permitted to announce a winner.
    pub oracle: Identity,
    /// Fixed cost per ticket, immutable after creation.
    pub ticket_price: u64,
    /// Tickets sold so far; doubles as the next ticket's index.
    pub count: u32,
    /// Winning ticket index; `None` until the oracle announces one.
    pub winner_index: Option<u32>,
    /// Administrator-claimable share accumulated from purchases.
    pub escrow: u64,
    /// Winner-claimable share accumulated from purchases.
    pub payout: u64,
}

/// An immutable-after-creation claim check binding a buyer to the sequence
/// index it was assigned at purchase time.
#[derive(Clone, Copy, PartialEq, Eq, Structural, Debug)]
pub struct Ticket {
    /// Who purchased this ticket.
    pub submitter: Identity,
    /// Position assigned at purchase time: the ledger's `count` before the
    /// purchase incremented it.
    pub idx: u32,
}

/// One lottery instance as the host ledger holds it: the configuration
/// record, every ticket record issued against it, and the funds the pooled
/// account currently holds.
pub struct Pool {
    /// The lottery configuration and balance record.
    pub lottery: Lottery,
    /// The ticket records issued so far, in order of purchase.
    pub tickets: Vec<Ticket>,
    /// Funds currently held by the pooled account.
    pub funds: u64,
}

/// The mathematical state of a pool: the same fields with unbounded
/// integers for the balances and a sequence for the ticket records. All
/// transition specifications and laws are stated over this type.
#[verifier::ext_equal]
pub struct PoolView {
    pub authority: Identity,
    pub oracle: Identity,
    pub ticket_price: u64,
    pub count: int,
    pub winner_index: Option<u32>,
    pub escrow: int,
    pub payout: int,
    pub tickets: Seq<Ticket>,
    pub funds: int,
}

impl View for Pool {
    type V = PoolView;

    open spec fn view(&self) -> PoolView {
        PoolView {
            authority: self.lottery.authority,
            oracle: self.lottery.oracle,
            ticket_price: self.lottery.ticket_price,
            count: self.lottery.count as int,
            winner_index: self.lottery.winner_index,
            escrow: self.lottery.escrow as int,
            payout: self.lottery.payout as int,
            tickets: self.tickets@,
            funds: self.funds as int,
        }
    }
}

/// Well-formedness of a pool state: ticket indices are exactly
/// `0 .. count`, contiguous and in order, and the two claimable shares are
/// covered by the funds the pooled account actually holds.
pub open spec fn inv(s: PoolView) -> bool {
    &&& s.tickets.len() == s.count
    &&& forall|i: int| 0 <= i < s.tickets.len() ==> (#[trigger] s.tickets[i]).idx == i
    &&& 0 <= s.escrow
    &&& 0 <= s.payout
    &&& s.escrow + s.payout <= s.funds
}

impl Pool {
    /// Well-formedness, established by `initialise_lottery` and preserved by
    /// every operation.
    pub open spec fn wf(&self) -> bool {
        inv(self@)
    }
}

/// The escrow share of one purchase: a tenth of the ticket price, rounded
/// down.
pub open spec fn escrow_share(price: int) -> int {
    price / 10
}

/// The payout share of one purchase: whatever the escrow share leaves of
/// the ticket price, so the two shares always sum to the price exactly.
pub open spec fn payout_share(price: int) -> int {
    price - price / 10
}

/// The state of a freshly created lottery: no tickets, no winner, both
/// balances zero.
pub open spec fn init_state(ticket_price: u64, oracle: Identity, admin: Identity) -> PoolView {
    PoolView {
        authority: admin,
        oracle: oracle,
        ticket_price: ticket_price,
        count: 0,
        winner_index: None,
        escrow: 0,
        payout: 0,
        tickets: Seq::empty(),
        funds: 0,
    }
}

/// The ticket a purchase by `player` creates: the buyer's identity bound to
/// the ledger's current counter value.
pub open spec fn spec_new_ticket(s: PoolView, player: Identity) -> Ticket {
    Ticket { submitter: player, idx: s.count as u32 }
}

/// The state after a successful purchase by `player`: the ticket price moves
/// into the pool and is split — escrow share first, payout share as the
/// remainder — a new ticket is recorded under the current counter value, and
/// the counter advances.
pub open spec fn spec_buy(s: PoolView, player: Identity) -> PoolView {
    PoolView {
        count: s.count + 1,
        escrow: s.escrow + escrow_share(s.ticket_price as int),
        payout: s.payout + payout_share(s.ticket_price as int),
        tickets: s.tickets.push(spec_new_ticket(s, player)),
        funds: s.funds + s.ticket_price,
        ..s
    }
}

/// The exact outcome of a purchase attempt: it fails with
/// `InsufficientFunds` when the buyer cannot cover the ticket price, with
/// `DuplicateTicketIndex` when a ticket already carries the index about to
/// be assigned, and succeeds otherwise.
pub open spec fn buy_outcome(s: PoolView, player: Identity, player_funds: u64) -> Result<
    PoolView,
    LotteryError,
> {
    if player_funds < s.ticket_price {
        Err(LotteryError::InsufficientFunds)
    } else if exists|i: int|
        0 <= i < s.tickets.len() && (#[trigger] s.tickets[i]).idx == s.count as u32 {
        Err(LotteryError::DuplicateTicketIndex)
    } else {
        Ok(spec_buy(s, player))
    }
}

/// Creates a new, independent lottery instance: the caller becomes its
/// administrator, the given identity its oracle, and the given price its
/// fixed ticket price.
pub fn initialise_lottery(ticket_price: u64, oracle: Identity, admin: Identity) -> (pool: Pool)
    ensures
        pool@ == init_state(ticket_price, oracle, admin),
        pool.wf(),
{
    let pool = Pool {
        lottery: Lottery {
            authority: admin,
            oracle: oracle,
            ticket_price: ticket_price,
            count: 0,
            winner_index: None,
            escrow: 0,
            payout: 0,
        },
        tickets: Vec::new(),
        funds: 0,
    };
    proof {
        assert(pool@ =~= init_state(ticket_price, oracle, admin));
    }
    pool
}

/// Whether some existing ticket record already carries index `idx`.
fn ticket_index_taken(tickets: &Vec<Ticket>, idx: u32) -> (taken: bool)
    ensures
        taken == exists|i: int| 0 <= i < tickets@.len() && (#[trigger] tickets@[i]).idx == idx,
{
    let mut j: usize = 0;
    while j < tickets.len()
        invariant
            0 <= j <= tickets@.len(),
            forall|i: int| 0 <= i < j ==> (#[trigger] tickets@[i]).idx != idx,
        decreases tickets@.len() - j,
    {
        if tickets[j].idx == idx {
            return true;
        }
        j = j + 1;
    }
    false
}

/// Sells one ticket to `player`, atomically: the ticket price moves from the
/// buyer's balance into the pool, is split into the escrow share and the
/// payout share, and a ticket record bound to the buyer is created under the
/// next free index. On any error, nothing moves and nothing is recorded.
pub fn buy_ticket(pool: &mut Pool, player: Identity, player_funds: &mut u64) -> (r: Result<
    Ticket,
    LotteryError,
>)
    requires
        old(pool).wf(),
        old(pool).funds + old(pool).lottery.ticket_price <= u64::MAX,
        old(pool).lottery.count < u32::MAX,
    ensures
        final(pool).wf(),
        buy_outcome(old(pool)@, player, *old(player_funds)) matches Ok(s2) ==> {
            &&& r matches Ok(t) && t == spec_new_ticket(old(pool)@, player)
            &&& final(pool)@ == s2
            &&& *final(player_funds) == *old(player_funds) - old(pool).lottery.ticket_price
        },
        buy_outcome(old(pool)@, player, *old(player_funds)) matches Err(e) ==> {
            &&& r == Err::<Ticket, LotteryError>(e)
            &&& final(pool)@ == old(pool)@
            &&& *final(player_funds) == *old(player_funds)
        },
{
    let price = pool.lottery.ticket_price;
    if *player_funds < price {
        return Err(LotteryError::InsufficientFunds);
    }
    if ticket_index_taken(&pool.tickets, pool.lottery.count) {
        return Err(LotteryError::DuplicateTicketIndex);
    }
    // The whole transfer-split-record-increment sequence below is one atomic
    // unit: no error can interrupt it once the checks above have passed.
    *player_funds = *player_funds - price;
    pool.funds = pool.funds + price;
    let holdback_amount = price / 10;
    proof {
        vstd::arithmetic::div_mod::lemma_div_pos_is_pos(price as int, 10);
        vstd::arithmetic::div_mod::lemma_div_nonincreasing(price as int, 10);
    }
    let payout_amount = price - holdback_amount;
    pool.lottery.escrow = pool.lottery.escrow + holdback_amount;
    pool.lottery.payout = pool.lottery.payout + payout_amount;
    let ticket = Ticket { submitter: player, idx: pool.lottery.count };
    pool.tickets.push(ticket);
    pool.lottery.count = pool.lottery.count + 1;
    proof {
        assert(pool@ =~= spec_buy(old(pool)@, player));
    }
    Ok(ticket)
}

/// The exact outcome of a winner announcement: only the oracle may announce,
/// and a permitted announcement overwrites any prior winner index.
pub open spec fn pick_outcome(s: PoolView, caller: Identity, winner: u32) -> Result<
    PoolView,
    LotteryError,
> {
    if caller != s.oracle {
        Err(LotteryError::Unauthorized)
    } else {
        Ok(PoolView { winner_index: Some(winner), ..s })
    }
}

/// Designates the winning ticket index. Only the oracle may call this; a
/// repeated announcement simply overwrites the stored index, so announcing
/// the same index twice changes nothing. Nothing else in the pool moves.
pub fn pick_winner(pool: &mut Pool, caller: Identity, winner: u32) -> (r: Result<
    (),
    LotteryError,
>)
    requires
        old(pool).wf(),
    ensures
        final(pool).wf(),
        pick_outcome(old(pool)@, caller, winner) matches Ok(s2) ==> r is Ok && final(pool)@
            == s2,
        pick_outcome(old(pool)@, caller, winner) matches Err(e) ==> r == Err::<
            (),
            LotteryError,
        >(e) && final(pool)@ == old(pool)@,
{
    if caller != pool.lottery.oracle {
        return Err(LotteryError::Unauthorized);
    }
    pool.lottery.winner_index = Some(winner);
    proof {
        assert(pool@ =~= (PoolView { winner_index: Some(winner), ..old(pool)@ }));
    }
    Ok(())
}

/// Whether a payout claim is authorized: the presented ticket's index is the
/// announced winner index, and the claimant is that ticket's buyer.
pub open spec fn payout_authorized(s: PoolView, ticket: Ticket, claimant: Identity) -> bool {
    &&& s.winner_index == Some(ticket.idx)
    &&& ticket.submitter == claimant
}

/// The exact outcome of a payout claim: an unauthorized claim fails with
/// `Unauthorized`, an authorized claim against an empty payout balance fails
/// with `NoPayoutFunds`, and otherwise the whole payout balance leaves the
/// pool and the balance resets to zero.
pub open spec fn payout_outcome(s: PoolView, ticket: Ticket, claimant: Identity) -> Result<
    PoolView,
    LotteryError,
> {
    if !payout_authorized(s, ticket, claimant) {
        Err(LotteryError::Unauthorized)
    } else if s.payout == 0 {
        Err(LotteryError::NoPayoutFunds)
    } else {
        Ok(PoolView { payout: 0, funds: s.funds - s.payout, ..s })
    }
}

/// Pays the accumulated payout share to the winner, atomically: the whole
/// payout balance leaves the pool, is credited to the claimant, and the
/// balance resets to zero. Only the buyer of the ticket whose index the
/// oracle announced may claim. On any error, nothing moves.
pub fn pay_out_winner(
    pool: &mut Pool,
    ticket: &Ticket,
    claimant: Identity,
    claimant_funds: &mut u64,
) -> (r: Result<(), LotteryError>)
    requires
        old(pool).wf(),
        *old(claimant_funds) + old(pool).lottery.payout <= u64::MAX,
    ensures
        final(pool).wf(),
        payout_outcome(old(pool)@, *ticket, claimant) matches Ok(s2) ==> {
            &&& r is Ok
            &&& final(pool)@ == s2
            &&& *final(claimant_funds) == *old(claimant_funds) + old(pool).lottery.payout
        },
        payout_outcome(old(pool)@, *ticket, claimant) matches Err(e) ==> {
            &&& r == Err::<(), LotteryError>(e)
            &&& final(pool)@ == old(pool)@
            &&& *final(claimant_funds) == *old(claimant_funds)
        },
{
    let authorized = match pool.lottery.winner_index {
        Some(w) => ticket.idx == w && ticket.submitter == claimant,
        None => false,
    };
    if !authorized {
        return Err(LotteryError::Unauthorized);
    }
    let payout_amount = pool.lottery.payout;
    if payout_amount == 0 {
        return Err(LotteryError::NoPayoutFunds);
    }
    // One atomic transfer: the pool's debit and the claimant's credit stand
    // or fall together.
    pool.funds = pool.funds - payout_amount;
    *claimant_funds = *claimant_funds + payout_amount;
    pool.lottery.payout = 0;
    proof {
        assert(pool@ =~= (PoolView {
            payout: 0,
            funds: old(pool)@.funds - old(pool)@.payout,
            ..old(pool)@
        }));
    }
    Ok(())
}

/// The exact outcome of an escrow withdrawal: a caller other than the
/// administrator fails with `Unauthorized`, an empty escrow balance fails
/// with `NoEscrowFunds`, and otherwise the whole escrow balance leaves the
/// pool and the balance resets to zero.
pub open spec fn withdraw_outcome(s: PoolView, caller: Identity) -> Result<
    PoolView,
    LotteryError,
> {
    if caller != s.authority {
        Err(LotteryError::Unauthorized)
    } else if s.escrow == 0 {
        Err(LotteryError::NoEscrowFunds)
    } else {
        Ok(PoolView { escrow: 0, funds: s.funds - s.escrow, ..s })
    }
}

/// Withdraws the accumulated escrow share, atomically: the whole escrow
/// balance leaves the pool, is credited to the caller, and the balance
/// resets to zero. Only the administrator may withdraw, whatever the state
/// of the lottery otherwise. On any error, nothing moves.
pub fn withdraw_escrow(pool: &mut Pool, caller: Identity, caller_funds: &mut u64) -> (r: Result<
    (),
    LotteryError,
>)
    requires
        old(pool).wf(),
        *old(caller_funds) + old(pool).lottery.escrow <= u64::MAX,
    ensures
        final(pool).wf(),
        withdraw_outcome(old(pool)@, caller) matches Ok(s2) ==> {
            &&& r is Ok
            &&& final(pool)@ == s2
            &&& *final(caller_funds) == *old(caller_funds) + old(pool).lottery.escrow
        },
        withdraw_outcome(old(pool)@, caller) matches Err(e) ==> {
            &&& r == Err::<(), LotteryError>(e)
            &&& final(pool)@ == old(pool)@
            &&& *final(caller_funds) == *old(caller_funds)
        },
{
    if caller != pool.lottery.authority {
        return Err(LotteryError::Unauthorized);
    }
    let escrow_amount = pool.lottery.escrow;
    if escrow_amount == 0 {
        return Err(LotteryError::NoEscrowFunds);
    }
    // One atomic transfer: the pool's debit and the administrator's credit
    // stand or fall together.
    pool.funds = pool.funds - escrow_amount;
    *caller_funds = *caller_funds + escrow_amount;
    pool.lottery.escrow = 0;
    proof {
        assert(pool@ =~= (PoolView {
            escrow: 0,
            funds: old(pool)@.funds - old(pool)@.escrow,
            ..old(pool)@
        }));
    }
    Ok(())
}

} // verus!
