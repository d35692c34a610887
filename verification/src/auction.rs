//! One auction: its proposals, its deadline, and the operations that take a
//! proposal in and name the winner.

use crate::clock::{unix_now, valid_duration, valid_timestamp, MAX_TIMESTAMP};
use crate::error::AuctionError;
use crate::model::{
    is_held_by, is_ranking_of, is_top_amount, lemma_top_bidder_unique, opened, supporters,
    AuctionView, ProposalsView,
};
use crate::proposal::{
    vote_views, AuctionBid, AuctionMode, AuctionVote, Outcome, ProposalValue, VoteView,
};
use crate::tally::{leading_candidate, ranked, top_bid};
use std::collections::HashMap;
use vstd::prelude::*;

verus! {

/// The proposals an auction holds, one for each actor at most.
enum Proposals {
    Bids(HashMap<u64, AuctionBid>),
    Votes(HashMap<u64, AuctionVote>),
}

impl View for Proposals {
    type V = ProposalsView;

    closed spec fn view(&self) -> ProposalsView {
        match self {
            Proposals::Bids(bids) => ProposalsView::Bids(bids@),
            Proposals::Votes(votes) => ProposalsView::Votes(vote_views(votes@)),
        }
    }
}

/// A time-boxed competition in one voice channel.
pub struct Auction {
    voice_channel_id: u64,
    creator_id: u64,
    start_time: i64,
    end_time: i64,
    proposals: Proposals,
    base_duration_seconds: i64,
    extension_window_seconds: i64,
    extension_seconds: i64,
}

impl View for Auction {
    type V = AuctionView;

    closed spec fn view(&self) -> AuctionView {
        AuctionView {
            voice_channel_id: self.voice_channel_id,
            creator_id: self.creator_id,
            start_time: self.start_time,
            end_time: self.end_time,
            proposals: self.proposals@,
            base_duration_seconds: self.base_duration_seconds,
            extension_window_seconds: self.extension_window_seconds,
            extension_seconds: self.extension_seconds,
        }
    }
}

impl Auction {
    /// Opens an auction at `now`. It ends `base_duration_seconds` later,
    /// unless a late proposal pushes the deadline back.
    pub fn new_at(
        voice_channel_id: u64,
        creator_id: u64,
        mode: AuctionMode,
        base_duration_seconds: i64,
        extension_window_seconds: i64,
        extension_seconds: i64,
        now: i64,
    ) -> (auction: Auction)
        requires
            valid_duration(base_duration_seconds),
            valid_duration(extension_window_seconds),
            valid_duration(extension_seconds),
            valid_timestamp(now),
        ensures
            auction@ == opened(
                voice_channel_id,
                creator_id,
                mode,
                base_duration_seconds,
                extension_window_seconds,
                extension_seconds,
                now,
            ),
            auction@.wf(),
            auction@.time_ordered(),
    {
        let proposals = match mode {
            AuctionMode::NumericBid => Proposals::Bids(HashMap::new()),
            AuctionMode::CategoricalVote => Proposals::Votes(HashMap::new()),
        };
        let auction = Auction {
            voice_channel_id,
            creator_id,
            start_time: now,
            end_time: now + base_duration_seconds,
            proposals,
            base_duration_seconds,
            extension_window_seconds,
            extension_seconds,
        };
        proof {
            assert(vote_views(Map::<u64, AuctionVote>::empty()) =~= Map::<u64, VoteView>::empty());
        }
        auction
    }

    /// Opens an auction that starts at the time the system clock shows.
    pub fn new(
        voice_channel_id: u64,
        creator_id: u64,
        mode: AuctionMode,
        base_duration_seconds: i64,
        extension_window_seconds: i64,
        extension_seconds: i64,
    ) -> (auction: Auction)
        requires
            valid_duration(base_duration_seconds),
            valid_duration(extension_window_seconds),
            valid_duration(extension_seconds),
        ensures
            exists|now: i64|
                0 <= now <= MAX_TIMESTAMP && auction@ == #[trigger] opened(
                    voice_channel_id,
                    creator_id,
                    mode,
                    base_duration_seconds,
                    extension_window_seconds,
                    extension_seconds,
                    now,
                ),
            auction@.wf(),
            auction@.time_ordered(),
    {
        let now = unix_now();
        Auction::new_at(
            voice_channel_id,
            creator_id,
            mode,
            base_duration_seconds,
            extension_window_seconds,
            extension_seconds,
            now,
        )
    }

    /// The voice channel the auction is held in.
    pub fn voice_channel_id(&self) -> (id: u64)
        ensures
            id == self@.voice_channel_id,
    {
        self.voice_channel_id
    }

    /// The user who opened the auction.
    pub fn creator_id(&self) -> (id: u64)
        ensures
            id == self@.creator_id,
    {
        self.creator_id
    }

    /// Whether the auction takes bids or votes.
    pub fn mode(&self) -> (mode: AuctionMode)
        ensures
            mode == self@.mode(),
    {
        match &self.proposals {
            Proposals::Bids(_) => AuctionMode::NumericBid,
            Proposals::Votes(_) => AuctionMode::CategoricalVote,
        }
    }

    /// When the auction was opened.
    pub fn start_time(&self) -> (t: i64)
        ensures
            t == self@.start_time,
    {
        self.start_time
    }

    /// The deadline as it stands.
    pub fn end_time(&self) -> (t: i64)
        ensures
            t == self@.end_time,
    {
        self.end_time
    }

    /// Seconds from the start to the first deadline.
    pub fn base_duration_seconds(&self) -> (seconds: i64)
        ensures
            seconds == self@.base_duration_seconds,
    {
        self.base_duration_seconds
    }

    /// A proposal with fewer seconds than this left moves the deadline.
    pub fn extension_window_seconds(&self) -> (seconds: i64)
        ensures
            seconds == self@.extension_window_seconds,
    {
        self.extension_window_seconds
    }

    /// Seconds from a proposal that moves the deadline to the new deadline.
    pub fn extension_seconds(&self) -> (seconds: i64)
        ensures
            seconds == self@.extension_seconds,
    {
        self.extension_seconds
    }

    /// Whether the deadline has passed at `now`.
    pub fn is_expired_at(&self, now: i64) -> (expired: bool)
        ensures
            expired == self@.is_expired_at(now),
    {
        now > self.end_time
    }

    /// Whether the deadline has passed by the system clock.
    pub fn is_expired(&self) -> (expired: bool)
        ensures
            exists|now: i64| 0 <= now <= MAX_TIMESTAMP && expired == #[trigger] self@.is_expired_at(now),
    {
        let now = unix_now();
        self.is_expired_at(now)
    }

    /// Seconds left until the deadline at `now`, zero once it has passed.
    pub fn time_remaining_at(&self, now: i64) -> (seconds: i64)
        requires
            self@.wf(),
            valid_timestamp(now),
        ensures
            seconds == self@.time_remaining_at(now),
    {
        let left: i64 = self.end_time - now;
        if left > 0 {
            left
        } else {
            0
        }
    }

    /// Seconds left until the deadline by the system clock.
    pub fn time_remaining(&self) -> (seconds: i64)
        requires
            self@.wf(),
        ensures
            exists|now: i64|
                0 <= now <= MAX_TIMESTAMP && seconds == #[trigger] self@.time_remaining_at(now),
    {
        let now = unix_now();
        self.time_remaining_at(now)
    }

    /// The highest bidder and the amount of that bid; `None` where nobody has
    /// bid, as in every vote.
    pub fn get_winner(&self) -> (winner: Option<(u64, i64)>)
        ensures
            match winner {
                Some((user_id, amount)) => {
                    &&& self@.bids().contains_key(user_id)
                    &&& self@.bids()[user_id].amount == amount
                    &&& amount == self@.highest_bid()
                    &&& is_top_amount(self@.bids(), amount as int)
                },
                None => self@.bids().dom() =~= Set::<u64>::empty(),
            },
            self@.wf() ==> winner == self@.top_bidder(),
    {
        let winner = match &self.proposals {
            Proposals::Bids(bids) => top_bid(bids),
            Proposals::Votes(_) => None,
        };
        proof {
            match winner {
                Some((user_id, amount)) => {
                    assert(self@.is_top_bidder(user_id));
                    if self@.wf() {
                        let chosen = choose|user_id: u64| self@.is_top_bidder(user_id);
                        lemma_top_bidder_unique(self@, chosen, user_id);
                    }
                },
                None => {},
            }
        }
        winner
    }

    /// The highest amount bid so far, zero where nobody has bid.
    pub fn get_highest_bid_amount(&self) -> (amount: i64)
        ensures
            amount == self@.highest_bid(),
            forall|user: u64|
                self@.bids().contains_key(user) ==> (#[trigger] self@.bids()[user]).amount <= amount,
    {
        match self.get_winner() {
            Some((_, amount)) => amount,
            None => 0,
        }
    }

    /// The amount `user_id` has bid, if any.
    pub fn get_user_bid(&self, user_id: u64) -> (amount: Option<i64>)
        ensures
            amount == (if self@.bids().contains_key(user_id) {
                Some(self@.bids()[user_id].amount)
            } else {
                None::<i64>
            }),
    {
        broadcast use vstd::std_specs::hash::group_hash_axioms;

        match &self.proposals {
            Proposals::Bids(bids) => match bids.get(&user_id) {
                Some(bid) => Some(bid.amount),
                None => None,
            },
            Proposals::Votes(_) => None,
        }
    }

    /// Takes in a bid of `amount` from `user_id` at `now`.
    ///
    /// The bid is refused in a vote, after the deadline, and unless it exceeds
    /// every bid so far. An accepted bid replaces the user's earlier one, and
    /// moves the deadline to `now` plus the extension when fewer seconds than
    /// the extension window were left.
    pub fn add_or_update_bid_at(&mut self, user_id: u64, amount: i64, now: i64) -> (verdict: Result<
        (),
        AuctionError,
    >)
        requires
            old(self)@.wf(),
            valid_timestamp(now),
        ensures
            verdict == old(self)@.bid_verdict(amount, now),
            final(self)@ == old(self)@.after_bid(user_id, amount, now),
            final(self)@.wf(),
            old(self)@.time_ordered() && old(self)@.start_time <= now ==> final(self)@.time_ordered(),
    {
        broadcast use vstd::std_specs::hash::group_hash_axioms;

        if self.mode() != AuctionMode::NumericBid {
            return Err(AuctionError::WrongProposalKind);
        }
        if self.is_expired_at(now) {
            return Err(AuctionError::AuctionExpired);
        }
        let highest = self.get_highest_bid_amount();
        if amount <= highest {
            return Err(AuctionError::BidTooLow(highest));
        }
        let changed = match self.get_user_bid(user_id) {
            Some(previous) => previous != amount,
            None => true,
        };
        if changed && self.end_time - now < self.extension_window_seconds {
            self.end_time = now + self.extension_seconds;
        }
        match &mut self.proposals {
            Proposals::Bids(bids) => {
                bids.insert(user_id, AuctionBid { user_id, amount, timestamp: now });
            },
            Proposals::Votes(_) => {},
        }
        proof {
            let before = old(self)@.bids();
            let after = self@.bids();
            assert(after == before.insert(user_id, AuctionBid { user_id, amount, timestamp: now }));
            assert forall|user: u64| before.contains_key(user) implies (#[trigger] before[user]).amount
                < amount by {
                assert(before[user].amount <= highest);
            }
            assert forall|one: u64, other: u64|
                after.contains_key(one) && after.contains_key(other) && one != other implies (
            #[trigger] after[one]).amount != (#[trigger] after[other]).amount by {
                if one != user_id {
                    assert(after[one] == before[one]);
                }
                if other != user_id {
                    assert(after[other] == before[other]);
                }
            }
        }
        Ok(())
    }

    /// Takes in a bid at the time the system clock shows.
    pub fn add_or_update_bid(&mut self, user_id: u64, amount: i64) -> (verdict: Result<
        (),
        AuctionError,
    >)
        requires
            old(self)@.wf(),
        ensures
            exists|now: i64|
                {
                    &&& 0 <= now <= MAX_TIMESTAMP
                    &&& verdict == #[trigger] old(self)@.bid_verdict(amount, now)
                    &&& final(self)@ == old(self)@.after_bid(user_id, amount, now)
                },
            final(self)@.wf(),
    {
        let now = unix_now();
        self.add_or_update_bid_at(user_id, amount, now)
    }

    /// The label `user_id` has voted for, if any.
    pub fn get_user_vote(&self, user_id: u64) -> (label: Option<String>)
        ensures
            match label {
                Some(label) => self@.votes().contains_key(user_id) && self@.votes()[user_id].label
                    == label@,
                None => !self@.votes().contains_key(user_id),
            },
    {
        broadcast use vstd::std_specs::hash::group_hash_axioms;

        match &self.proposals {
            Proposals::Bids(_) => None,
            Proposals::Votes(votes) => match votes.get(&user_id) {
                Some(vote) => Some(vote.label.clone()),
                None => None,
            },
        }
    }

    /// Takes in a vote for `label` from `user_id` at `now`.
    ///
    /// The vote is refused in a bidding auction and accepted otherwise,
    /// whether or not the deadline has passed: whoever lets actors vote looks
    /// at the deadline first. The vote replaces the user's earlier one. Where
    /// the user is new or has changed label, and fewer seconds than the
    /// extension window were left, the deadline moves to `now` plus the
    /// extension.
    pub fn add_or_update_vote_at(&mut self, user_id: u64, label: String, now: i64) -> (verdict:
        Result<(), AuctionError>)
        requires
            old(self)@.wf(),
            valid_timestamp(now),
        ensures
            verdict == old(self)@.vote_verdict(),
            final(self)@ == old(self)@.after_vote(user_id, label@, now),
            final(self)@.wf(),
            old(self)@.time_ordered() && old(self)@.start_time <= now ==> final(self)@.time_ordered(),
    {
        broadcast use vstd::std_specs::hash::group_hash_axioms;

        let changed = match &self.proposals {
            Proposals::Bids(_) => {
                return Err(AuctionError::WrongProposalKind);
            },
            Proposals::Votes(votes) => match votes.get(&user_id) {
                Some(previous) => !(previous.label == label),
                None => true,
            },
        };
        if changed && self.end_time - now < self.extension_window_seconds {
            self.end_time = now + self.extension_seconds;
        }
        match &mut self.proposals {
            Proposals::Bids(_) => {},
            Proposals::Votes(votes) => {
                let ghost before = votes@;
                let ghost label_view = label@;
                votes.insert(user_id, AuctionVote { user_id, label, timestamp: now });
                proof {
                    assert(vote_views(votes@) =~= vote_views(before).insert(
                        user_id,
                        VoteView { user_id, label: label_view, timestamp: now },
                    ));
                }
            },
        }
        Ok(())
    }

    /// Takes in a vote at the time the system clock shows.
    pub fn add_or_update_vote(&mut self, user_id: u64, label: String) -> (verdict: Result<
        (),
        AuctionError,
    >)
        requires
            old(self)@.wf(),
        ensures
            verdict == old(self)@.vote_verdict(),
            exists|now: i64|
                0 <= now <= MAX_TIMESTAMP && final(self)@ == #[trigger] old(self)@.after_vote(
                    user_id,
                    label@,
                    now,
                ),
            final(self)@.wf(),
    {
        let now = unix_now();
        self.add_or_update_vote_at(user_id, label, now)
    }

    /// The winner: in a bidding auction the highest bidder, in a vote the
    /// label with the most supporters. `None` where there is no proposal.
    ///
    /// Labels that share the lead are not told apart by any rule: one of them
    /// is returned.
    pub fn resolve_winner(&self) -> (outcome: Option<Outcome>)
        ensures
            match outcome {
                Some(Outcome::Bid { winner, amount }) => {
                    &&& self@.proposals is Bids
                    &&& self@.bids().contains_key(winner)
                    &&& self@.bids()[winner].amount == amount
                    &&& is_top_amount(self@.bids(), amount as int)
                },
                Some(Outcome::Vote { candidate, supporters: backers }) => {
                    &&& self@.proposals is Votes
                    &&& self@.leads(candidate@)
                    &&& backers@.no_duplicates()
                    &&& backers@.to_set() == supporters(self@.votes(), candidate@)
                },
                None => self@.proposal_count() == 0,
            },
    {
        match &self.proposals {
            Proposals::Bids(bids) => match top_bid(bids) {
                Some((winner, amount)) => Some(Outcome::Bid { winner, amount }),
                None => None,
            },
            Proposals::Votes(votes) => match leading_candidate(votes) {
                Some((candidate, backers)) => {
                    proof {
                        backers@.unique_seq_to_set();
                    }
                    Some(Outcome::Vote { candidate, supporters: backers })
                },
                None => {
                    proof {
                        assert(vote_views(votes@).dom() =~= Set::<u64>::empty());
                    }
                    None
                },
            },
        }
    }

    /// Takes in a proposal of either kind from `actor` at `now`: an amount as
    /// a bid, a label as a vote.
    pub fn accept_at(&mut self, actor: u64, value: ProposalValue, now: i64) -> (verdict: Result<
        (),
        AuctionError,
    >)
        requires
            old(self)@.wf(),
            valid_timestamp(now),
        ensures
            verdict == old(self)@.proposal_verdict(value@, now),
            final(self)@ == old(self)@.after_proposal(actor, value@, now),
            final(self)@.wf(),
            old(self)@.time_ordered() && old(self)@.start_time <= now ==> final(self)@.time_ordered(),
    {
        match value {
            ProposalValue::Amount(amount) => self.add_or_update_bid_at(actor, amount, now),
            ProposalValue::Label(label) => self.add_or_update_vote_at(actor, label, now),
        }
    }

    /// Takes in a proposal at the time the system clock shows.
    pub fn accept(&mut self, actor: u64, value: ProposalValue) -> (verdict: Result<(), AuctionError>)
        requires
            old(self)@.wf(),
        ensures
            exists|now: i64|
                {
                    &&& 0 <= now <= MAX_TIMESTAMP
                    &&& verdict == #[trigger] old(self)@.proposal_verdict(value@, now)
                    &&& final(self)@ == old(self)@.after_proposal(actor, value@, now)
                },
            final(self)@.wf(),
    {
        let now = unix_now();
        self.accept_at(actor, value, now)
    }

    /// Number of proposals held.
    pub fn proposal_count(&self) -> (count: usize)
        ensures
            count == self@.proposal_count(),
    {
        broadcast use vstd::std_specs::hash::group_hash_axioms;

        match &self.proposals {
            Proposals::Bids(bids) => bids.len(),
            Proposals::Votes(votes) => {
                proof {
                    assert(vote_views(votes@).dom() =~= votes@.dom());
                }
                votes.len()
            },
        }
    }

    /// Every bid, highest first. A vote has none.
    pub fn ranked_bids(&self) -> (ranking: Vec<AuctionBid>)
        ensures
            is_ranking_of(ranking@, self@.bids()),
            ranking@.len() == self@.bids().len(),
    {
        let ranking = match &self.proposals {
            Proposals::Bids(bids) => ranked(bids),
            Proposals::Votes(_) => {
                let ranking: Vec<AuctionBid> = Vec::new();
                proof {
                    assert(Seq::<u64>::empty().to_set() =~= Set::<u64>::empty());
                    assert(is_held_by(ranking@, self@.bids(), Seq::<u64>::empty()));
                }
                ranking
            },
        };
        proof {
            let holders = choose|holders: Seq<u64>| is_held_by(ranking@, self@.bids(), holders);
            holders.unique_seq_to_set();
        }
        ranking
    }
}

impl Clone for Auction {
    /// A copy with the same content.
    fn clone(&self) -> (copy: Auction)
        ensures
            copy@ == self@,
    {
        let proposals = match &self.proposals {
            Proposals::Bids(bids) => Proposals::Bids(bids.clone()),
            Proposals::Votes(votes) => Proposals::Votes(votes.clone()),
        };
        Auction {
            voice_channel_id: self.voice_channel_id,
            creator_id: self.creator_id,
            start_time: self.start_time,
            end_time: self.end_time,
            proposals,
            base_duration_seconds: self.base_duration_seconds,
            extension_window_seconds: self.extension_window_seconds,
            extension_seconds: self.extension_seconds,
        }
    }
}

} // verus!
