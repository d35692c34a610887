//! The mathematical content of an auction and the rules it follows.
//!
//! An [`AuctionView`] is what the contracts of [`crate::auction::Auction`]
//! speak of: the configuration, the deadline, and the proposals as a map from
//! actor to proposal. The functions here say how a proposal is answered and
//! what it does to the auction.

use crate::clock::{
    valid_duration, valid_timestamp, MAX_DURATION_SECONDS, MAX_TIMESTAMP, MIN_TIMESTAMP,
};
use crate::error::AuctionError;
use crate::proposal::{AuctionBid, AuctionMode, ProposalValueView, VoteView};
use vstd::prelude::*;

verus! {

/// The proposals of an auction as maps from actor to proposal.
pub enum ProposalsView {
    Bids(Map<u64, AuctionBid>),
    Votes(Map<u64, VoteView>),
}

/// Whether `top` is the largest amount among `bids`.
pub open spec fn is_top_amount(bids: Map<u64, AuctionBid>, top: int) -> bool {
    &&& exists|user: u64| bids.contains_key(user) && (#[trigger] bids[user]).amount == top
    &&& forall|user: u64| bids.contains_key(user) ==> (#[trigger] bids[user]).amount <= top
}

/// The largest amount among `bids`, and zero where there is no bid.
pub open spec fn highest_amount(bids: Map<u64, AuctionBid>) -> int {
    if exists|top: int| is_top_amount(bids, top) {
        choose|top: int| is_top_amount(bids, top)
    } else {
        0
    }
}

/// Whether `ranking` lists the bids of the users `holders`, in that order,
/// and `holders` names every bidder once.
pub open spec fn is_held_by(
    ranking: Seq<AuctionBid>,
    bids: Map<u64, AuctionBid>,
    holders: Seq<u64>,
) -> bool {
    &&& holders.len() == ranking.len()
    &&& holders.no_duplicates()
    &&& holders.to_set() == bids.dom()
    &&& forall|k: int| 0 <= k < ranking.len() ==> #[trigger] ranking[k] == bids[holders[k]]
}

/// Whether `ranking` lists every bid of `bids` once, highest first.
pub open spec fn is_ranking_of(ranking: Seq<AuctionBid>, bids: Map<u64, AuctionBid>) -> bool {
    &&& exists|holders: Seq<u64>| is_held_by(ranking, bids, holders)
    &&& forall|a: int, b: int|
        0 <= a < b < ranking.len() ==> (#[trigger] ranking[a]).amount >= (#[trigger] ranking[b]).amount
}

/// The actors whose vote carries `label`.
pub open spec fn supporters(votes: Map<u64, VoteView>, label: Seq<char>) -> Set<u64> {
    Set::new(|user: u64| votes.contains_key(user) && votes[user].label == label)
}

/// The mathematical content of an [`crate::auction::Auction`].
pub struct AuctionView {
    pub voice_channel_id: u64,
    pub creator_id: u64,
    pub start_time: i64,
    pub end_time: i64,
    pub proposals: ProposalsView,
    pub base_duration_seconds: i64,
    pub extension_window_seconds: i64,
    pub extension_seconds: i64,
}

impl AuctionView {
    /// Whether the auction takes bids or votes.
    pub open spec fn mode(self) -> AuctionMode {
        match self.proposals {
            ProposalsView::Bids(_) => AuctionMode::NumericBid,
            ProposalsView::Votes(_) => AuctionMode::CategoricalVote,
        }
    }

    /// The bids held; none in a vote.
    pub open spec fn bids(self) -> Map<u64, AuctionBid> {
        match self.proposals {
            ProposalsView::Bids(bids) => bids,
            ProposalsView::Votes(_) => Map::empty(),
        }
    }

    /// The votes held; none in a bidding auction.
    pub open spec fn votes(self) -> Map<u64, VoteView> {
        match self.proposals {
            ProposalsView::Bids(_) => Map::empty(),
            ProposalsView::Votes(votes) => votes,
        }
    }

    /// Number of proposals held.
    pub open spec fn proposal_count(self) -> nat {
        match self.proposals {
            ProposalsView::Bids(bids) => bids.len(),
            ProposalsView::Votes(votes) => votes.len(),
        }
    }

    /// Every proposal is filed under the actor who made it, bids are positive
    /// and no two of them for the same amount, and instants and durations are
    /// in range.
    pub open spec fn wf(self) -> bool {
        &&& valid_timestamp(self.start_time)
        &&& MIN_TIMESTAMP <= self.end_time <= MAX_TIMESTAMP + MAX_DURATION_SECONDS
        &&& valid_duration(self.base_duration_seconds)
        &&& valid_duration(self.extension_window_seconds)
        &&& valid_duration(self.extension_seconds)
        &&& self.bids().dom().finite()
        &&& self.votes().dom().finite()
        &&& forall|user: u64|
            self.bids().contains_key(user) ==> {
                &&& (#[trigger] self.bids()[user]).user_id == user
                &&& self.bids()[user].amount > 0
            }
        &&& forall|one: u64, other: u64|
            self.bids().contains_key(one) && self.bids().contains_key(other) && one != other
                ==> (#[trigger] self.bids()[one]).amount != (#[trigger] self.bids()[other]).amount
        &&& forall|user: u64|
            self.votes().contains_key(user) ==> (#[trigger] self.votes()[user]).user_id == user
    }

    /// The deadline does not precede the start.
    pub open spec fn time_ordered(self) -> bool {
        self.start_time <= self.end_time
    }

    /// The deadline has passed at `now`.
    pub open spec fn is_expired_at(self, now: i64) -> bool {
        now > self.end_time
    }

    /// Seconds left until the deadline at `now`, zero once it has passed.
    pub open spec fn time_remaining_at(self, now: i64) -> int {
        if self.end_time - now > 0 {
            self.end_time - now
        } else {
            0
        }
    }

    /// Fewer seconds than the extension window are left at `now`.
    pub open spec fn in_extension_window(self, now: i64) -> bool {
        self.end_time - now < self.extension_window_seconds
    }

    /// The deadline after a proposal at `now` that is new or differs from the
    /// actor's previous one (`changed`), or repeats it.
    pub open spec fn deadline_after(self, changed: bool, now: i64) -> int {
        if changed && self.in_extension_window(now) {
            now + self.extension_seconds
        } else {
            self.end_time as int
        }
    }

    /// The highest bid, zero where there is none.
    pub open spec fn highest_bid(self) -> int {
        highest_amount(self.bids())
    }

    /// `user_id` has bid, and nobody has bid more.
    pub open spec fn is_top_bidder(self, user_id: u64) -> bool {
        self.bids().contains_key(user_id) && is_top_amount(
            self.bids(),
            self.bids()[user_id].amount as int,
        )
    }

    /// The highest bidder with the amount bid; `None` where nobody has bid.
    pub open spec fn top_bidder(self) -> Option<(u64, i64)> {
        if exists|user_id: u64| self.is_top_bidder(user_id) {
            let user_id = choose|user_id: u64| self.is_top_bidder(user_id);
            Some((user_id, self.bids()[user_id].amount))
        } else {
            None
        }
    }

    /// `user` has no bid yet, or one for another amount.
    pub open spec fn bid_is_new_or_changed(self, user_id: u64, amount: i64) -> bool {
        !self.bids().contains_key(user_id) || self.bids()[user_id].amount != amount
    }

    /// `user` has no vote yet, or one for another label.
    pub open spec fn vote_is_new_or_changed(self, user_id: u64, label: Seq<char>) -> bool {
        !self.votes().contains_key(user_id) || self.votes()[user_id].label != label
    }

    /// `label` has a supporter, and no label has more supporters.
    pub open spec fn leads(self, label: Seq<char>) -> bool {
        &&& supporters(self.votes(), label).len() > 0
        &&& forall|other: Seq<char>|
            (#[trigger] supporters(self.votes(), other)).len() <= supporters(
                self.votes(),
                label,
            ).len()
    }

    /// How a bid of `amount` at `now` is answered.
    pub open spec fn bid_verdict(self, amount: i64, now: i64) -> Result<(), AuctionError> {
        if !(self.proposals is Bids) {
            Err(AuctionError::WrongProposalKind)
        } else if self.is_expired_at(now) {
            Err(AuctionError::AuctionExpired)
        } else if amount <= self.highest_bid() {
            Err(AuctionError::BidTooLow(self.highest_bid() as i64))
        } else {
            Ok(())
        }
    }

    /// The auction once `user_id` has bid `amount` at `now`.
    pub open spec fn with_bid(self, user_id: u64, amount: i64, now: i64) -> AuctionView {
        AuctionView {
            end_time: self.deadline_after(self.bid_is_new_or_changed(user_id, amount), now) as i64,
            proposals: ProposalsView::Bids(
                self.bids().insert(user_id, AuctionBid { user_id, amount, timestamp: now }),
            ),
            ..self
        }
    }

    /// How a proposal of either kind is answered at `now`.
    pub open spec fn proposal_verdict(self, value: ProposalValueView, now: i64) -> Result<
        (),
        AuctionError,
    > {
        match value {
            ProposalValueView::Amount(amount) => self.bid_verdict(amount, now),
            ProposalValueView::Label(_) => self.vote_verdict(),
        }
    }

    /// The auction once `actor` has proposed `value` at `now`.
    pub open spec fn with_proposal(self, actor: u64, value: ProposalValueView, now: i64) -> AuctionView {
        match value {
            ProposalValueView::Amount(amount) => self.with_bid(actor, amount, now),
            ProposalValueView::Label(label) => self.with_vote(actor, label, now),
        }
    }

    /// The auction after a bid at `now`, accepted or not.
    pub open spec fn after_bid(self, user_id: u64, amount: i64, now: i64) -> AuctionView {
        if self.bid_verdict(amount, now) is Ok {
            self.with_bid(user_id, amount, now)
        } else {
            self
        }
    }

    /// The auction after a vote at `now`, accepted or not.
    pub open spec fn after_vote(self, user_id: u64, label: Seq<char>, now: i64) -> AuctionView {
        if self.vote_verdict() is Ok {
            self.with_vote(user_id, label, now)
        } else {
            self
        }
    }

    /// The auction after a proposal of either kind at `now`, accepted or not.
    pub open spec fn after_proposal(self, actor: u64, value: ProposalValueView, now: i64) -> AuctionView {
        match value {
            ProposalValueView::Amount(amount) => self.after_bid(actor, amount, now),
            ProposalValueView::Label(label) => self.after_vote(actor, label, now),
        }
    }

    /// `actor` has made no proposal yet, or one of another value.
    pub open spec fn proposal_is_new_or_changed(self, actor: u64, value: ProposalValueView) -> bool {
        match value {
            ProposalValueView::Amount(amount) => self.bid_is_new_or_changed(actor, amount),
            ProposalValueView::Label(label) => self.vote_is_new_or_changed(actor, label),
        }
    }

    /// How a vote is answered. The deadline plays no part.
    pub open spec fn vote_verdict(self) -> Result<(), AuctionError> {
        if !(self.proposals is Votes) {
            Err(AuctionError::WrongProposalKind)
        } else {
            Ok(())
        }
    }

    /// The auction once `user_id` has voted for `label` at `now`.
    pub open spec fn with_vote(self, user_id: u64, label: Seq<char>, now: i64) -> AuctionView {
        AuctionView {
            end_time: self.deadline_after(self.vote_is_new_or_changed(user_id, label), now) as i64,
            proposals: ProposalsView::Votes(
                self.votes().insert(user_id, VoteView { user_id, label, timestamp: now }),
            ),
            ..self
        }
    }
}

/// A newly opened auction.
pub open spec fn opened(
    voice_channel_id: u64,
    creator_id: u64,
    mode: AuctionMode,
    base_duration_seconds: i64,
    extension_window_seconds: i64,
    extension_seconds: i64,
    now: i64,
) -> AuctionView {
    AuctionView {
        voice_channel_id,
        creator_id,
        start_time: now,
        end_time: (now + base_duration_seconds) as i64,
        proposals: match mode {
            AuctionMode::NumericBid => ProposalsView::Bids(Map::empty()),
            AuctionMode::CategoricalVote => ProposalsView::Votes(Map::empty()),
        },
        base_duration_seconds,
        extension_window_seconds,
        extension_seconds,
    }
}

/// The largest amount among `bids` is unique.
pub proof fn lemma_top_amount_unique(bids: Map<u64, AuctionBid>, one: int, other: int)
    requires
        is_top_amount(bids, one),
        is_top_amount(bids, other),
    ensures
        one == other,
{
}

/// What [`highest_amount`] is, once the largest amount is known or known not
/// to exist.
pub proof fn lemma_highest_amount(bids: Map<u64, AuctionBid>)
    ensures
        bids.dom() =~= Set::<u64>::empty() ==> highest_amount(bids) == 0,
        forall|top: int| is_top_amount(bids, top) ==> highest_amount(bids) == top,
{
    assert forall|top: int| is_top_amount(bids, top) implies highest_amount(bids) == top by {
        let chosen = choose|top: int| is_top_amount(bids, top);
        lemma_top_amount_unique(bids, chosen, top);
    }
}

/// In a well-formed auction only one user can be the highest bidder.
pub proof fn lemma_top_bidder_unique(auction: AuctionView, one: u64, other: u64)
    requires
        auction.wf(),
        auction.is_top_bidder(one),
        auction.is_top_bidder(other),
    ensures
        one == other,
{
    lemma_top_amount_unique(
        auction.bids(),
        auction.bids()[one].amount as int,
        auction.bids()[other].amount as int,
    );
}

} // verus!
