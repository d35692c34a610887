//! What actors hand to an auction, and what comes out of one.

use vstd::prelude::*;

verus! {

/// What the proposals of an auction are: amounts that outbid each other, or
/// labels that are counted.
#[derive(Clone, Copy, Debug, PartialEq, Eq, Structural)]
pub enum AuctionMode {
    NumericBid,
    CategoricalVote,
}

/// The standing bid of one user.
#[derive(Clone, Copy, Debug, PartialEq, Eq, Structural)]
pub struct AuctionBid {
    pub user_id: u64,
    pub amount: i64,
    pub timestamp: i64,
}

/// The standing vote of one user.
#[derive(Clone, Debug)]
pub struct AuctionVote {
    pub user_id: u64,
    pub label: String,
    pub timestamp: i64,
}

/// An [`AuctionVote`] with its label as a sequence of characters.
pub struct VoteView {
    pub user_id: u64,
    pub label: Seq<char>,
    pub timestamp: i64,
}

impl View for AuctionVote {
    type V = VoteView;

    open spec fn view(&self) -> VoteView {
        VoteView { user_id: self.user_id, label: self.label@, timestamp: self.timestamp }
    }
}

/// What an actor proposes: an amount or a label.
#[derive(Clone, Debug)]
pub enum ProposalValue {
    Amount(i64),
    Label(String),
}

/// A [`ProposalValue`] with its label as a sequence of characters.
pub enum ProposalValueView {
    Amount(i64),
    Label(Seq<char>),
}

impl View for ProposalValue {
    type V = ProposalValueView;

    open spec fn view(&self) -> ProposalValueView {
        match self {
            ProposalValue::Amount(amount) => ProposalValueView::Amount(*amount),
            ProposalValue::Label(label) => ProposalValueView::Label(label@),
        }
    }
}

/// How an auction came out.
#[derive(Clone, Debug)]
pub enum Outcome {
    /// The highest bidder and the amount to pay.
    Bid { winner: u64, amount: i64 },
    /// The label with the most votes and the actors who voted for it.
    Vote { candidate: String, supporters: Vec<u64> },
}

/// The votes of `votes`, each by its view.
pub open spec fn vote_views(votes: Map<u64, AuctionVote>) -> Map<u64, VoteView> {
    Map::new(|user: u64| votes.contains_key(user), |user: u64| votes[user]@)
}

} // verus!
