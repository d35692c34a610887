//! The bank of a Discord server and the auctions held in its voice channels.
//!
//! The heart of the crate is the auction. An [`auction::Auction`] collects one
//! proposal per actor, numeric bids or categorical votes, and pushes its
//! deadline back when a proposal arrives late; [`model`] says in mathematical
//! terms what it holds and how it answers. The [`manager::AuctionManager`]
//! keeps at most one auction per channel, [`settlement`] makes the winner of
//! a finished auction pay, and [`laws`] states what holds of all of them.
//!
//! Around it stand the [`ledger`] records, the [`accounts`] and their
//! [`crypto`] keys, the rules of the [`bidding`] desk, and the
//! [`permissions`] of administrators.
//!
//! Nothing here waits for anything. Work that needs the ledger proceeds in
//! [`ledger::Step`]s that the caller carries out, and every operation that
//! depends on the time of day exists twice: once taking the instant as an
//! argument (`*_at`, `*_with`), and once reading the system clock.

pub mod accounts;
pub mod auction;
pub mod bidding;
pub mod clock;
pub mod crypto;
pub mod error;
pub mod funny;
pub mod laws;
pub mod ledger;
pub mod manager;
pub mod model;
pub mod permissions;
pub mod proposal;
pub mod settlement;
mod tally;
