//! What holds of auctions and of the registry whatever is done to them.
//!
//! Each statement is over the views and transition functions that the
//! contracts of [`crate::auction`] and [`crate::manager`] speak of.

use crate::clock::valid_timestamp;
use crate::error::AuctionError;
use crate::ledger::{auction_win_record, LedgerReply, LedgerRequestView};
use crate::manager::{
    after_start, after_submit, is_sweep_of, start_verdict, submit_verdict, unexpired,
};
use crate::model::{
    highest_amount, is_top_amount, lemma_highest_amount, lemma_top_bidder_unique, supporters,
    AuctionView,
};
use crate::proposal::{AuctionBid, ProposalValueView};
use crate::settlement::{next_step, SettlementState, SettlementView};
use vstd::prelude::*;

verus! {

/// Among finitely many bids, at least one, an amount is the largest.
proof fn lemma_finite_bids_have_top(bids: Map<u64, AuctionBid>)
    requires
        bids.dom().finite(),
        bids.dom().len() > 0,
    ensures
        exists|top: int| is_top_amount(bids, top),
    decreases bids.dom().len(),
{
    let user = bids.dom().choose();
    let rest = bids.remove(user);
    let amount = bids[user].amount as int;
    assert(bids.dom().contains(user));
    if rest.dom().len() == 0 {
        assert forall|other: u64| bids.contains_key(other) implies (#[trigger] bids[other]).amount
            <= amount by {
            if other != user {
                assert(rest.dom().contains(other));
            }
        }
        assert(is_top_amount(bids, amount));
    } else {
        lemma_finite_bids_have_top(rest);
        let rest_top = choose|top: int| is_top_amount(rest, top);
        let top = if rest_top >= amount {
            rest_top
        } else {
            amount
        };
        let holder = choose|other: u64| rest.contains_key(other) && (#[trigger] rest[other]).amount
            == rest_top;
        assert(bids.contains_key(holder) && bids[holder].amount == rest_top);
        assert forall|other: u64| bids.contains_key(other) implies (#[trigger] bids[other]).amount
            <= top by {
            if other != user {
                assert(rest[other].amount <= rest_top);
            }
        }
        assert(is_top_amount(bids, top));
    }
}

/// In a well-formed auction no bid exceeds the highest bid, which is zero
/// without bids and some user's bid otherwise.
pub proof fn lemma_highest_bid_bounds(auction: AuctionView)
    requires
        auction.wf(),
    ensures
        auction.highest_bid() >= 0,
        forall|user: u64|
            auction.bids().contains_key(user) ==> (#[trigger] auction.bids()[user]).amount
                <= auction.highest_bid(),
        auction.bids().dom().len() > 0 ==> is_top_amount(auction.bids(), auction.highest_bid()),
        auction.bids().dom().len() == 0 ==> auction.highest_bid() == 0,
{
    let bids = auction.bids();
    lemma_highest_amount(bids);
    if bids.dom().len() > 0 {
        lemma_finite_bids_have_top(bids);
        let top = choose|top: int| is_top_amount(bids, top);
        assert(highest_amount(bids) == top);
    } else {
        assert forall|user: u64| bids.contains_key(user) implies (#[trigger] bids[user]).amount
            <= auction.highest_bid() by {
            assert(bids.dom().contains(user));
        }
    }
}

/// A bid at a valid instant leaves a well-formed auction well formed.
pub proof fn lemma_bid_keeps_wf(auction: AuctionView, user_id: u64, amount: i64, now: i64)
    requires
        auction.wf(),
        valid_timestamp(now),
    ensures
        auction.after_bid(user_id, amount, now).wf(),
{
    if auction.bid_verdict(amount, now) is Ok {
        lemma_highest_bid_bounds(auction);
        let before = auction.bids();
        let after = auction.with_bid(user_id, amount, now);
        assert(after.bids() == before.insert(user_id, AuctionBid { user_id, amount, timestamp: now }));
        assert forall|one: u64, other: u64|
            after.bids().contains_key(one) && after.bids().contains_key(other) && one
                != other implies (#[trigger] after.bids()[one]).amount != (
        #[trigger] after.bids()[other]).amount by {
            if one != user_id {
                assert(before[one].amount <= auction.highest_bid());
            }
            if other != user_id {
                assert(before[other].amount <= auction.highest_bid());
            }
        }
    }
}

/// A bid that does not exceed the highest bid so far is turned down and
/// changes nothing, the deadline included. While the auction is open it is
/// turned down as too low, with the highest bid so far.
pub proof fn law_low_bid_is_rejected(auction: AuctionView, user_id: u64, amount: i64, now: i64)
    requires
        auction.wf(),
        auction.proposals is Bids,
        amount <= auction.highest_bid(),
    ensures
        auction.bid_verdict(amount, now) is Err,
        auction.after_bid(user_id, amount, now) == auction,
        !auction.is_expired_at(now) ==> auction.bid_verdict(amount, now) == Err::<(), AuctionError>(
            AuctionError::BidTooLow(auction.highest_bid() as i64),
        ),
{
}

/// The highest bid never falls: after a bid it is what it was where the bid
/// was turned down, and the amount of the bid where it was accepted.
pub proof fn law_highest_bid_never_falls(auction: AuctionView, user_id: u64, amount: i64, now: i64)
    requires
        auction.wf(),
    ensures
        auction.after_bid(user_id, amount, now).highest_bid() >= auction.highest_bid(),
        auction.bid_verdict(amount, now) is Ok ==> auction.after_bid(
            user_id,
            amount,
            now,
        ).highest_bid() == amount,
{
    if auction.bid_verdict(amount, now) is Ok {
        lemma_highest_bid_bounds(auction);
        let after = auction.with_bid(user_id, amount, now).bids();
        assert(after.contains_key(user_id) && after[user_id].amount == amount);
        assert forall|user: u64| after.contains_key(user) implies (#[trigger] after[user]).amount
            <= amount by {
            if user != user_id {
                assert(auction.bids()[user].amount <= auction.highest_bid());
            }
        }
        assert(is_top_amount(after, amount as int));
    }
}

/// Whoever places an accepted bid is the highest bidder from then on, until
/// the next bid is accepted.
pub proof fn law_accepted_bid_leads(auction: AuctionView, user_id: u64, amount: i64, now: i64)
    requires
        auction.wf(),
        valid_timestamp(now),
        auction.bid_verdict(amount, now) is Ok,
    ensures
        auction.after_bid(user_id, amount, now).top_bidder() == Some((user_id, amount)),
{
    let after = auction.after_bid(user_id, amount, now);
    lemma_bid_keeps_wf(auction, user_id, amount, now);
    law_highest_bid_never_falls(auction, user_id, amount, now);
    lemma_highest_bid_bounds(after);
    assert(after.is_top_bidder(user_id));
    let chosen = choose|other: u64| after.is_top_bidder(other);
    lemma_top_bidder_unique(after, chosen, user_id);
}

/// A vote at a valid instant leaves a well-formed auction well formed.
pub proof fn lemma_vote_keeps_wf(auction: AuctionView, user_id: u64, label: Seq<char>, now: i64)
    requires
        auction.wf(),
        valid_timestamp(now),
    ensures
        auction.after_vote(user_id, label, now).wf(),
{
    if auction.vote_verdict() is Ok {
        let after = auction.with_vote(user_id, label, now);
        assert(after.bids() =~= auction.bids());
    }
}

/// One bid of a run of bids.
pub struct BidCall {
    pub user_id: u64,
    pub amount: i64,
    pub now: i64,
}

/// The auction after the bids of `calls`, made in turn.
pub open spec fn after_bids(auction: AuctionView, calls: Seq<BidCall>) -> AuctionView
    decreases calls.len(),
{
    if calls.len() == 0 {
        auction
    } else {
        let last = calls.last();
        after_bids(auction, calls.drop_last()).after_bid(last.user_id, last.amount, last.now)
    }
}

/// A run of bids at valid instants leaves a well-formed auction well formed.
pub proof fn lemma_bids_keep_wf(auction: AuctionView, calls: Seq<BidCall>)
    requires
        auction.wf(),
        forall|i: int| 0 <= i < calls.len() ==> valid_timestamp((#[trigger] calls[i]).now),
    ensures
        after_bids(auction, calls).wf(),
    decreases calls.len(),
{
    if calls.len() > 0 {
        let last = calls.last();
        lemma_bids_keep_wf(auction, calls.drop_last());
        lemma_bid_keeps_wf(after_bids(auction, calls.drop_last()), last.user_id, last.amount, last.now);
    }
}

/// Over any run of bids the highest bid never falls: it is at least as high
/// after the first `later` bids as after the first `earlier` ones.
pub proof fn law_highest_bid_is_monotonic(
    auction: AuctionView,
    calls: Seq<BidCall>,
    earlier: int,
    later: int,
)
    requires
        auction.wf(),
        forall|i: int| 0 <= i < calls.len() ==> valid_timestamp((#[trigger] calls[i]).now),
        0 <= earlier <= later <= calls.len(),
    ensures
        after_bids(auction, calls.take(earlier)).highest_bid() <= after_bids(
            auction,
            calls.take(later),
        ).highest_bid(),
    decreases later - earlier,
{
    if earlier < later {
        let shorter = calls.take(later - 1);
        let longer = calls.take(later);
        let last = longer.last();
        assert(longer.drop_last() =~= shorter);
        law_highest_bid_is_monotonic(auction, calls, earlier, later - 1);
        lemma_bids_keep_wf(auction, shorter);
        law_highest_bid_never_falls(after_bids(auction, shorter), last.user_id, last.amount, last.now);
    }
}

/// In a vote, a label with more supporters than any other label is the one
/// that leads.
pub proof fn law_strict_leader_wins(auction: AuctionView, winner: Seq<char>, leader: Seq<char>)
    requires
        auction.leads(winner),
        forall|other: Seq<char>|
            other != leader ==> (#[trigger] supporters(auction.votes(), other)).len() < supporters(
                auction.votes(),
                leader,
            ).len(),
    ensures
        winner == leader,
{
    if winner != leader {
        assert(supporters(auction.votes(), leader).len() <= supporters(auction.votes(), winner).len());
    }
}

/// In a vote, the label that leads has supporters, and as many as any label
/// has: where several labels share the lead, it is one of them.
pub proof fn law_winner_shares_the_lead(auction: AuctionView, winner: Seq<char>, other: Seq<char>)
    requires
        auction.wf(),
        auction.leads(winner),
    ensures
        exists|user: u64|
            auction.votes().contains_key(user) && (#[trigger] auction.votes()[user]).label == winner,
        supporters(auction.votes(), other).len() <= supporters(auction.votes(), winner).len(),
        supporters(auction.votes(), other).len() == supporters(auction.votes(), winner).len()
            ==> auction.leads(other),
{
    let backing = supporters(auction.votes(), winner);
    assert(backing.subset_of(auction.votes().dom()));
    let user = backing.choose();
    assert(backing.contains(user));
}

/// A proposal that is accepted, and is the actor's first or differs from the
/// actor's previous one, moves the deadline to `now` plus the extension when
/// fewer seconds than the extension window were left. A proposal that repeats
/// the previous one, or comes while at least the window is left, leaves the
/// deadline where it was.
pub proof fn law_extension(auction: AuctionView, actor: u64, value: ProposalValueView, now: i64)
    requires
        auction.wf(),
        valid_timestamp(now),
        auction.proposal_verdict(value, now) is Ok,
    ensures
        auction.proposal_is_new_or_changed(actor, value) && auction.end_time - now
            < auction.extension_window_seconds ==> auction.after_proposal(actor, value, now).end_time
            == now + auction.extension_seconds,
        !auction.proposal_is_new_or_changed(actor, value) || auction.end_time - now
            >= auction.extension_window_seconds ==> auction.after_proposal(actor, value, now).end_time
            == auction.end_time,
{
}

/// A proposal that is turned down leaves the auction as it was.
pub proof fn law_rejection_changes_nothing(
    auction: AuctionView,
    actor: u64,
    value: ProposalValueView,
    now: i64,
)
    requires
        auction.proposal_verdict(value, now) is Err,
    ensures
        auction.after_proposal(actor, value, now) == auction,
{
}

/// As long as no proposal is dated before the start, the deadline does not
/// precede the start.
pub proof fn law_deadline_follows_start(
    auction: AuctionView,
    actor: u64,
    value: ProposalValueView,
    now: i64,
)
    requires
        auction.wf(),
        auction.time_ordered(),
        valid_timestamp(now),
        auction.start_time <= now,
    ensures
        auction.after_proposal(actor, value, now).time_ordered(),
        auction.after_proposal(actor, value, now).start_time == auction.start_time,
{
}

/// The registry takes no proposal of any kind for an auction past its
/// deadline, and stays as it is.
pub proof fn law_no_proposal_after_the_deadline(
    registry: Map<u64, AuctionView>,
    channel: u64,
    actor: u64,
    value: ProposalValueView,
    now: i64,
)
    requires
        registry.contains_key(channel),
        registry[channel].is_expired_at(now),
    ensures
        submit_verdict(registry, channel, value, now) == Err::<(), AuctionError>(
            AuctionError::AuctionExpired,
        ),
        after_submit(registry, channel, actor, value, now) == registry,
{
}

/// A proposal changes nothing but the auction of its channel, and that only
/// where it is accepted.
pub proof fn law_proposal_stays_in_its_channel(
    registry: Map<u64, AuctionView>,
    channel: u64,
    actor: u64,
    value: ProposalValueView,
    now: i64,
    other: u64,
)
    requires
        other != channel || submit_verdict(registry, channel, value, now) is Err,
    ensures
        after_submit(registry, channel, actor, value, now).contains_key(other)
            == registry.contains_key(other),
        registry.contains_key(other) ==> after_submit(registry, channel, actor, value, now)[other]
            == registry[other],
{
}

/// A channel that holds an auction cannot start another, whether or not the
/// one it holds is past its deadline, and the registry stays as it is.
pub proof fn law_start_on_held_channel_fails(
    registry: Map<u64, AuctionView>,
    channel: u64,
    auction: AuctionView,
)
    requires
        registry.contains_key(channel),
    ensures
        start_verdict(registry, channel) == Err::<(), AuctionError>(AuctionError::AlreadyRunning),
        after_start(registry, channel, auction) == registry,
{
}

/// Once a channel's auction has been ended, the channel can start another.
pub proof fn law_start_after_end_succeeds(registry: Map<u64, AuctionView>, channel: u64)
    ensures
        start_verdict(registry.remove(channel), channel) == Ok::<(), AuctionError>(()),
{
}

/// Once a channel's auction has been swept, the channel can start another.
pub proof fn law_start_after_sweep_succeeds(registry: Map<u64, AuctionView>, channel: u64, now: i64)
    requires
        registry.contains_key(channel),
        registry[channel].is_expired_at(now),
    ensures
        start_verdict(unexpired(registry, now), channel) == Ok::<(), AuctionError>(()),
{
}

/// A sweep hands out no auction that is still open at that instant, and
/// leaves none in the registry that is not. What stays is untouched.
pub proof fn law_sweep_parts_expired_from_open(
    registry: Map<u64, AuctionView>,
    swept: Seq<(u64, AuctionView)>,
    now: i64,
)
    requires
        is_sweep_of(swept, registry, now),
    ensures
        forall|i: int| 0 <= i < swept.len() ==> (#[trigger] swept[i]).1.is_expired_at(now),
        forall|channel: u64|
            unexpired(registry, now).contains_key(channel) ==> !(#[trigger] unexpired(
                registry,
                now,
            )[channel]).is_expired_at(now),
        forall|channel: u64|
            registry.contains_key(channel) && !(#[trigger] registry[channel]).is_expired_at(now)
                ==> unexpired(registry, now).contains_key(channel) && unexpired(
                registry,
                now,
            )[channel] == registry[channel],
        forall|channel: u64|
            registry.contains_key(channel) ==> (unexpired(registry, now).contains_key(channel) <==> !(
            exists|i: int| 0 <= i < swept.len() && (#[trigger] swept[i]).0 == channel)),
{
    assert forall|channel: u64| registry.contains_key(channel) implies (unexpired(
        registry,
        now,
    ).contains_key(channel) <==> !(exists|i: int|
        0 <= i < swept.len() && (#[trigger] swept[i]).0 == channel)) by {
        if registry[channel].is_expired_at(now) {
        } else {
            if exists|i: int| 0 <= i < swept.len() && (#[trigger] swept[i]).0 == channel {
                let i = choose|i: int| 0 <= i < swept.len() && (#[trigger] swept[i]).0 == channel;
                assert(swept[i].1.is_expired_at(now));
            }
        }
    }
}

/// A winner who cannot pay is not debited: the settlement ends before
/// anything is asked of the ledger but the balance.
pub proof fn law_no_debit_without_funds(
    winner: u64,
    amount: i64,
    balance: i64,
    id: Seq<char>,
    now: i64,
)
    requires
        balance < amount,
    ensures
        next_step(
            SettlementState::AwaitingBalance { winner, amount },
            LedgerReply::Balance(balance),
            id,
            now,
        ) == SettlementView::Done(Err(AuctionError::InsufficientFunds)),
{
}

/// A winner who can pay is debited the winning bid, no more and no less, and
/// the payment is entered in the journal only once the debit is written.
pub proof fn law_debit_is_the_winning_bid(
    winner: u64,
    amount: i64,
    balance: i64,
    id: Seq<char>,
    now: i64,
)
    requires
        0 < amount <= balance,
    ensures
        next_step(
            SettlementState::AwaitingBalance { winner, amount },
            LedgerReply::Balance(balance),
            id,
            now,
        ) == (SettlementView::Ask {
            state: SettlementState::AwaitingDebit { winner, amount },
            request: LedgerRequestView::SetBalance {
                user_id: winner,
                balance: (balance - amount) as i64,
            },
        }),
        next_step(SettlementState::AwaitingDebit { winner, amount }, LedgerReply::Written, id, now)
            == (SettlementView::Ask {
            state: SettlementState::AwaitingRecord,
            request: LedgerRequestView::RecordTransaction {
                transaction: auction_win_record(id, winner, amount, now),
            },
        }),
        next_step(SettlementState::AwaitingDebit { winner, amount }, LedgerReply::Failed, id, now)
            == SettlementView::Done(Err(AuctionError::SettlementFailed)),
{
}

} // verus!
