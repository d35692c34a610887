//! The ways an auction operation can be turned down.

use vstd::prelude::*;

verus! {

/// Why an operation on an auction or on the registry did not go through.
#[derive(Clone, Copy, Debug, PartialEq, Eq, Structural)]
pub enum AuctionError {
    /// The channel already holds an auction, expired or not.
    AlreadyRunning,
    /// The channel holds no auction.
    NoActiveAuction,
    /// The deadline of a numeric-bid auction has passed.
    AuctionExpired,
    /// The bid does not exceed the highest bid so far, which is carried along.
    BidTooLow(i64),
    /// The winner cannot pay the winning bid.
    InsufficientFunds,
    /// The ledger failed while the auction was being settled.
    SettlementFailed,
    /// A bid was sent to a vote, or a vote to a bidding auction.
    WrongProposalKind,
}

} // verus!
