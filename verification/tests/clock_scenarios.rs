use slumbank::auction::Auction;
use slumbank::clock::{
    is_valid_duration, is_valid_timestamp, MAX_DURATION_SECONDS, MAX_TIMESTAMP, MIN_TIMESTAMP,
};
use slumbank::error::AuctionError;
use slumbank::manager::AuctionManager;
use slumbank::proposal::{AuctionMode, ProposalValue};
use std::time::{SystemTime, UNIX_EPOCH};

fn system_seconds() -> i64 {
    SystemTime::now().duration_since(UNIX_EPOCH).expect("clock is past the epoch").as_secs() as i64
}

#[test]
fn timestamps_and_durations_have_limits() {
    assert!(is_valid_timestamp(0));
    assert!(is_valid_timestamp(MIN_TIMESTAMP));
    assert!(is_valid_timestamp(MAX_TIMESTAMP));
    assert!(!is_valid_timestamp(MIN_TIMESTAMP - 1));
    assert!(!is_valid_timestamp(MAX_TIMESTAMP + 1));
    assert!(is_valid_duration(0));
    assert!(is_valid_duration(MAX_DURATION_SECONDS));
    assert!(!is_valid_duration(-1));
    assert!(!is_valid_duration(MAX_DURATION_SECONDS + 1));
    assert_eq!(MAX_DURATION_SECONDS, i64::MAX / 1_000);
}

#[test]
fn auction_starts_at_the_time_of_day() {
    let before = system_seconds();
    let auction = Auction::new(1, 2, AuctionMode::NumericBid, 120, 30, 15);
    let after = system_seconds();
    assert!(before <= auction.start_time() && auction.start_time() <= after);
    assert_eq!(auction.end_time(), auction.start_time() + 120);
    assert!(is_valid_timestamp(auction.start_time()));
    assert!(!auction.is_expired());
    let left = auction.time_remaining();
    assert!(0 < left && left <= 120);
}

#[test]
fn auction_with_no_duration_expires_as_the_clock_moves_on() {
    let auction = Auction::new_at(1, 2, AuctionMode::NumericBid, 0, 0, 0, 1_000);
    assert!(auction.is_expired());
    assert_eq!(auction.time_remaining(), 0);
}

#[test]
fn proposals_are_stamped_with_the_time_of_day() {
    let mut auction = Auction::new(1, 2, AuctionMode::NumericBid, 120, 300, 15);
    let before = system_seconds();
    assert_eq!(auction.add_or_update_bid(5, 10), Ok(()));
    let after = system_seconds();
    // the whole auction lies inside the extension window
    assert!(before + 15 <= auction.end_time() && auction.end_time() <= after + 15);
    let bids = auction.ranked_bids();
    assert_eq!(bids.len(), 1);
    assert!(before <= bids[0].timestamp && bids[0].timestamp <= after);
    assert_eq!(auction.add_or_update_bid(6, 10), Err(AuctionError::BidTooLow(10)));
    assert_eq!(auction.accept(6, ProposalValue::Amount(11)), Ok(()));

    let mut vote = Auction::new(1, 2, AuctionMode::CategoricalVote, 120, 300, 15);
    assert_eq!(vote.add_or_update_vote(5, "chess".to_string()), Ok(()));
    assert!(before + 15 <= vote.end_time());
}

#[test]
fn registry_works_by_the_time_of_day() {
    let mut manager = AuctionManager::new();
    let before = system_seconds();
    assert_eq!(manager.start_auction(1, 2, AuctionMode::NumericBid, 120, 30, 15), Ok(()));
    assert_eq!(
        manager.start_auction(1, 2, AuctionMode::NumericBid, 120, 30, 15),
        Err(AuctionError::AlreadyRunning)
    );
    assert_eq!(manager.start_auction(2, 2, AuctionMode::CategoricalVote, 120, 30, 15), Ok(()));
    let started = manager.get_auction(1).expect("auction is running").start_time();
    assert!(before <= started && started <= system_seconds());

    assert_eq!(manager.place_bid(1, 5, 10), Ok(()));
    assert_eq!(manager.place_bid(9, 5, 10), Err(AuctionError::NoActiveAuction));
    assert_eq!(manager.submit(1, 6, ProposalValue::Amount(20)), Ok(()));
    assert_eq!(manager.place_vote(2, 5, "chess".to_string()), Ok(()));
    assert!(manager.end_auction_if_expired(1).is_none());

    // an auction that started in 1970 is long over
    assert_eq!(manager.start_auction_at(3, 2, AuctionMode::NumericBid, 120, 30, 15, 0), Ok(()));
    let swept = manager.cleanup_expired_auctions();
    assert!(swept.iter().any(|(channel, _)| *channel == 3));
    assert!(swept.iter().all(|(channel, _)| *channel != 1));
    assert!(manager.get_auction(1).is_some());
    assert!(manager.get_auction(2).is_some());
    assert!(manager.get_auction(3).is_none());

    // and takes no bids
    assert_eq!(manager.start_auction_at(4, 2, AuctionMode::NumericBid, 120, 30, 15, 0), Ok(()));
    assert_eq!(manager.place_bid(4, 5, 10), Err(AuctionError::AuctionExpired));
    assert_eq!(manager.place_vote(4, 5, "chess".to_string()), Err(AuctionError::AuctionExpired));
    assert!(manager.end_auction_if_expired(4).is_some());
}
