//! Settling a finished auction against the ledger.
//!
//! A settlement proceeds in [`Step`]s: it asks for the winner's balance, has
//! the lowered balance written, and has the payment entered in the journal.
//! It is driven from the auction that the registry has handed out, so it runs
//! once per auction.

use crate::auction::Auction;
use crate::clock::{unix_now, MAX_TIMESTAMP};
use crate::error::AuctionError;
use crate::ledger::{
    auction_win_record, auction_win_transaction, fresh_transaction_id, LedgerReply, LedgerRequest,
    LedgerRequestView, Step, StepView,
};
use vstd::prelude::*;

verus! {

/// What a settlement is waiting for.
#[derive(Clone, Copy, Debug, PartialEq, Eq, Structural)]
pub enum SettlementState {
    /// The winner's balance has been asked for.
    AwaitingBalance { winner: u64, amount: i64 },
    /// The winner's lowered balance is being written.
    AwaitingDebit { winner: u64, amount: i64 },
    /// The journal entry is being written.
    AwaitingRecord,
}

/// Where a settlement stands.
pub type Settlement = Step<SettlementState, Result<(), AuctionError>>;

/// A [`Settlement`], its request by its view.
pub type SettlementView = StepView<SettlementState, Result<(), AuctionError>>;

impl SettlementState {
    /// The amount to pay is positive.
    pub open spec fn wf(self) -> bool {
        match self {
            SettlementState::AwaitingBalance { amount, .. } => amount > 0,
            SettlementState::AwaitingDebit { amount, .. } => amount > 0,
            SettlementState::AwaitingRecord => true,
        }
    }

    /// Run-time test for [`SettlementState::wf`].
    pub fn is_wf(&self) -> (ok: bool)
        ensures
            ok == self.wf(),
    {
        match self {
            SettlementState::AwaitingBalance { amount, .. } => *amount > 0,
            SettlementState::AwaitingDebit { amount, .. } => *amount > 0,
            SettlementState::AwaitingRecord => true,
        }
    }
}

/// The first step of settling an auction whose highest bid, if any, is
/// `winner`: without a winner there is nothing to settle, otherwise the
/// winner's balance is wanted.
pub open spec fn first_step(winner: Option<(u64, i64)>) -> SettlementView {
    match winner {
        Some((user_id, amount)) => StepView::Ask {
            state: SettlementState::AwaitingBalance { winner: user_id, amount },
            request: LedgerRequestView::GetBalance { user_id },
        },
        None => StepView::Done(Ok(())),
    }
}

/// The step that follows `state` once the ledger has answered `reply`.
///
/// A balance that covers the amount is lowered by it, and once that is
/// written, the payment is entered in the journal under `id` at `now`. A
/// balance that does not cover the amount ends the settlement with
/// `InsufficientFunds` before anything is written. A failure of the ledger, or
/// a reply that does not answer the request, ends it with `SettlementFailed`;
/// what was written before stays written.
pub open spec fn next_step(
    state: SettlementState,
    reply: LedgerReply,
    id: Seq<char>,
    now: i64,
) -> SettlementView {
    match (state, reply) {
        (SettlementState::AwaitingBalance { winner, amount }, LedgerReply::Balance(balance)) => {
            if balance >= amount {
                StepView::Ask {
                    state: SettlementState::AwaitingDebit { winner, amount },
                    request: LedgerRequestView::SetBalance {
                        user_id: winner,
                        balance: (balance - amount) as i64,
                    },
                }
            } else {
                StepView::Done(Err(AuctionError::InsufficientFunds))
            }
        },
        (SettlementState::AwaitingDebit { winner, amount }, LedgerReply::Written) => {
            StepView::Ask {
                state: SettlementState::AwaitingRecord,
                request: LedgerRequestView::RecordTransaction {
                    transaction: auction_win_record(id, winner, amount, now),
                },
            }
        },
        (SettlementState::AwaitingRecord, LedgerReply::Written) => StepView::Done(Ok(())),
        _ => StepView::Done(Err(AuctionError::SettlementFailed)),
    }
}

/// Starts settling `auction`: asks for the balance of the highest bidder, or
/// is over at once where nobody has bid, as in every vote.
pub fn begin(auction: &Auction) -> (step: Settlement)
    requires
        auction@.wf(),
    ensures
        step@ == first_step(auction@.top_bidder()),
        step matches Step::Ask { state, .. } ==> state.wf(),
{
    match auction.get_winner() {
        Some((user_id, amount)) => Step::Ask {
            state: SettlementState::AwaitingBalance { winner: user_id, amount },
            request: LedgerRequest::GetBalance { user_id },
        },
        None => Step::Done(Ok(())),
    }
}

/// Takes the settlement one step further, given the ledger's `reply`; a
/// journal entry, should one be due, is written under `id` at `now`.
pub fn advance_with(state: SettlementState, reply: LedgerReply, id: String, now: i64) -> (step: Settlement)
    requires
        state.wf(),
    ensures
        step@ == next_step(state, reply, id@, now),
        step matches Step::Ask { state: next, .. } ==> next.wf(),
{
    match state {
        SettlementState::AwaitingBalance { winner, amount } => match reply {
            LedgerReply::Balance(balance) => {
                if balance >= amount {
                    Step::Ask {
                        state: SettlementState::AwaitingDebit { winner, amount },
                        request: LedgerRequest::SetBalance {
                            user_id: winner,
                            balance: balance - amount,
                        },
                    }
                } else {
                    Step::Done(Err(AuctionError::InsufficientFunds))
                }
            },
            _ => Step::Done(Err(AuctionError::SettlementFailed)),
        },
        SettlementState::AwaitingDebit { winner, amount } => match reply {
            LedgerReply::Written => Step::Ask {
                state: SettlementState::AwaitingRecord,
                request: LedgerRequest::RecordTransaction {
                    transaction: auction_win_transaction(id, winner, amount, now),
                },
            },
            _ => Step::Done(Err(AuctionError::SettlementFailed)),
        },
        SettlementState::AwaitingRecord => match reply {
            LedgerReply::Written => Step::Done(Ok(())),
            _ => Step::Done(Err(AuctionError::SettlementFailed)),
        },
    }
}

/// Takes the settlement one step further, given the ledger's `reply`. A
/// journal entry gets a new random identifier and the time the system clock
/// shows.
pub fn advance(state: SettlementState, reply: LedgerReply) -> (step: Settlement)
    requires
        state.wf(),
    ensures
        exists|id: Seq<char>, now: i64|
            0 <= now <= MAX_TIMESTAMP && step@ == #[trigger] next_step(state, reply, id, now),
        step matches Step::Ask { state: next, .. } ==> next.wf(),
{
    let id = fresh_transaction_id();
    let now = unix_now();
    advance_with(state, reply, id, now)
}

} // verus!
