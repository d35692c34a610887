use slumbank::auction::Auction;
use slumbank::error::AuctionError;
use slumbank::proposal::{AuctionBid, AuctionMode, Outcome, ProposalValue};

const A: u64 = 1001;
const B: u64 = 1002;
const C: u64 = 1003;

fn bidding(now: i64) -> Auction {
    Auction::new_at(42, A, AuctionMode::NumericBid, 120, 30, 15, now)
}

fn voting(now: i64) -> Auction {
    Auction::new_at(42, A, AuctionMode::CategoricalVote, 120, 30, 15, now)
}

#[test]
fn numeric_auction_runs_to_a_winner() {
    let mut auction = bidding(0);
    assert_eq!(auction.end_time(), 120);

    assert_eq!(auction.add_or_update_bid_at(A, 100, 0), Ok(()));
    assert_eq!(auction.get_highest_bid_amount(), 100);

    assert_eq!(auction.add_or_update_bid_at(B, 100, 1), Err(AuctionError::BidTooLow(100)));
    assert_eq!(auction.get_highest_bid_amount(), 100);
    assert_eq!(auction.get_user_bid(B), None);
    assert_eq!(auction.end_time(), 120);

    assert_eq!(auction.add_or_update_bid_at(B, 150, 1), Ok(()));
    assert_eq!(auction.get_highest_bid_amount(), 150);
    assert_eq!(auction.end_time(), 120);

    assert_eq!(auction.add_or_update_bid_at(C, 200, 115), Ok(()));
    assert_eq!(auction.end_time(), 130);

    assert_eq!(auction.get_winner(), Some((C, 200)));
    match auction.resolve_winner() {
        Some(Outcome::Bid { winner, amount }) => {
            assert_eq!(winner, C);
            assert_eq!(amount, 200);
        }
        other => panic!("unexpected outcome: {:?}", other),
    }
}

#[test]
fn vote_goes_to_the_label_with_most_supporters() {
    let mut auction = voting(0);
    assert_eq!(auction.add_or_update_vote_at(A, "chess".to_string(), 1), Ok(()));
    assert_eq!(auction.add_or_update_vote_at(B, "chess".to_string(), 2), Ok(()));
    assert_eq!(auction.accept_at(C, ProposalValue::Label("poker".to_string()), 3), Ok(()));
    match auction.resolve_winner() {
        Some(Outcome::Vote { candidate, supporters }) => {
            assert_eq!(candidate, "chess");
            let mut supporters = supporters;
            supporters.sort();
            assert_eq!(supporters, vec![A, B]);
        }
        other => panic!("unexpected outcome: {:?}", other),
    }
}

#[test]
fn new_auction_is_as_configured() {
    let auction = Auction::new_at(7, 9, AuctionMode::NumericBid, 60, 10, 5, 1_000);
    assert_eq!(auction.voice_channel_id(), 7);
    assert_eq!(auction.creator_id(), 9);
    assert_eq!(auction.mode(), AuctionMode::NumericBid);
    assert_eq!(auction.start_time(), 1_000);
    assert_eq!(auction.end_time(), 1_060);
    assert_eq!(auction.proposal_count(), 0);
    assert_eq!(auction.get_winner(), None);
    assert_eq!(auction.get_highest_bid_amount(), 0);
    assert!(auction.resolve_winner().is_none());
    assert!(auction.ranked_bids().is_empty());
}

#[test]
fn auction_is_live_up_to_and_including_its_deadline() {
    let auction = bidding(0);
    assert!(!auction.is_expired_at(0));
    assert!(!auction.is_expired_at(119));
    assert!(!auction.is_expired_at(120));
    assert!(auction.is_expired_at(121));
}

#[test]
fn time_remaining_counts_down_and_stops_at_zero() {
    let auction = bidding(0);
    assert_eq!(auction.time_remaining_at(0), 120);
    assert_eq!(auction.time_remaining_at(90), 30);
    assert_eq!(auction.time_remaining_at(120), 0);
    assert_eq!(auction.time_remaining_at(500), 0);
}

#[test]
fn first_bid_must_be_positive() {
    let mut auction = bidding(0);
    assert_eq!(auction.add_or_update_bid_at(A, 0, 1), Err(AuctionError::BidTooLow(0)));
    assert_eq!(auction.add_or_update_bid_at(A, -5, 1), Err(AuctionError::BidTooLow(0)));
    assert_eq!(auction.proposal_count(), 0);
    assert_eq!(auction.add_or_update_bid_at(A, 1, 1), Ok(()));
    assert_eq!(auction.get_user_bid(A), Some(1));
}

#[test]
fn low_bid_changes_nothing() {
    let mut auction = bidding(0);
    assert_eq!(auction.add_or_update_bid_at(A, 100, 10), Ok(()));
    // inside the extension window, where an accepted bid would move the deadline
    assert_eq!(auction.add_or_update_bid_at(B, 99, 118), Err(AuctionError::BidTooLow(100)));
    assert_eq!(auction.add_or_update_bid_at(A, 100, 118), Err(AuctionError::BidTooLow(100)));
    assert_eq!(auction.end_time(), 120);
    assert_eq!(auction.proposal_count(), 1);
    assert_eq!(auction.get_user_bid(A), Some(100));
    assert_eq!(auction.get_user_bid(B), None);
    assert_eq!(
        auction.ranked_bids(),
        vec![AuctionBid { user_id: A, amount: 100, timestamp: 10 }]
    );
}

#[test]
fn highest_bid_never_falls() {
    let mut auction = bidding(0);
    let calls: [(u64, i64); 8] =
        [(A, 5), (B, 3), (B, 9), (A, 9), (C, 40), (A, 41), (B, 1), (C, 100)];
    let mut highest = auction.get_highest_bid_amount();
    let mut now = 0;
    for (user, amount) in calls {
        now += 1;
        let verdict = auction.add_or_update_bid_at(user, amount, now);
        let after = auction.get_highest_bid_amount();
        assert!(after >= highest);
        if amount <= highest {
            assert_eq!(verdict, Err(AuctionError::BidTooLow(highest)));
            assert_eq!(after, highest);
        } else {
            assert_eq!(verdict, Ok(()));
            assert_eq!(after, amount);
        }
        highest = after;
    }
    assert_eq!(highest, 100);
}

#[test]
fn bid_after_the_deadline_is_refused() {
    let mut auction = bidding(0);
    assert_eq!(auction.add_or_update_bid_at(A, 10, 120), Ok(()));
    // the bid at the last second moved the deadline to 135
    assert_eq!(auction.end_time(), 135);
    assert_eq!(auction.add_or_update_bid_at(B, 20, 136), Err(AuctionError::AuctionExpired));
    // expiry is looked at before the amount
    assert_eq!(auction.add_or_update_bid_at(B, 5, 136), Err(AuctionError::AuctionExpired));
    assert_eq!(auction.get_winner(), Some((A, 10)));
    assert_eq!(auction.end_time(), 135);
}

#[test]
fn user_raising_their_own_bid_replaces_it() {
    let mut auction = bidding(0);
    assert_eq!(auction.add_or_update_bid_at(A, 10, 1), Ok(()));
    assert_eq!(auction.add_or_update_bid_at(A, 20, 2), Ok(()));
    assert_eq!(auction.proposal_count(), 1);
    assert_eq!(auction.get_user_bid(A), Some(20));
    assert_eq!(
        auction.ranked_bids(),
        vec![AuctionBid { user_id: A, amount: 20, timestamp: 2 }]
    );
}

#[test]
fn deadline_moves_only_inside_the_extension_window() {
    let mut auction = bidding(0);
    // 31 seconds left: outside the window
    assert_eq!(auction.add_or_update_bid_at(A, 10, 89), Ok(()));
    assert_eq!(auction.end_time(), 120);
    // exactly 30 seconds left: still outside
    assert_eq!(auction.add_or_update_bid_at(B, 20, 90), Ok(()));
    assert_eq!(auction.end_time(), 120);
    // 29 seconds left: inside, and the new deadline is earlier than the old one
    assert_eq!(auction.add_or_update_bid_at(C, 30, 91), Ok(()));
    assert_eq!(auction.end_time(), 106);
    // 1 second left
    assert_eq!(auction.add_or_update_bid_at(A, 40, 105), Ok(()));
    assert_eq!(auction.end_time(), 120);
}

#[test]
fn repeated_vote_does_not_move_the_deadline() {
    let mut auction = voting(0);
    assert_eq!(auction.add_or_update_vote_at(A, "chess".to_string(), 50), Ok(()));
    assert_eq!(auction.end_time(), 120);
    // same label again, inside the window
    assert_eq!(auction.add_or_update_vote_at(A, "chess".to_string(), 100), Ok(()));
    assert_eq!(auction.end_time(), 120);
    assert_eq!(auction.proposal_count(), 1);
    // another label, inside the window
    assert_eq!(auction.add_or_update_vote_at(A, "poker".to_string(), 101), Ok(()));
    assert_eq!(auction.end_time(), 116);
    // a new voter, inside the window
    assert_eq!(auction.add_or_update_vote_at(B, "poker".to_string(), 110), Ok(()));
    assert_eq!(auction.end_time(), 125);
    assert_eq!(auction.get_user_vote(A), Some("poker".to_string()));
    assert_eq!(auction.get_user_vote(C), None);
}

#[test]
fn vote_is_taken_after_the_deadline() {
    let mut auction = voting(0);
    assert!(auction.is_expired_at(200));
    assert_eq!(auction.add_or_update_vote_at(A, "chess".to_string(), 200), Ok(()));
    assert_eq!(auction.end_time(), 215);
    assert!(!auction.is_expired_at(200));
}

#[test]
fn proposals_of_the_wrong_kind_are_refused() {
    let mut bids = bidding(0);
    assert_eq!(
        bids.add_or_update_vote_at(A, "chess".to_string(), 1),
        Err(AuctionError::WrongProposalKind)
    );
    assert_eq!(
        bids.accept_at(A, ProposalValue::Label("chess".to_string()), 1),
        Err(AuctionError::WrongProposalKind)
    );
    assert_eq!(bids.proposal_count(), 0);
    assert_eq!(bids.get_user_vote(A), None);

    let mut votes = voting(0);
    assert_eq!(votes.add_or_update_bid_at(A, 10, 1), Err(AuctionError::WrongProposalKind));
    assert_eq!(votes.accept_at(A, ProposalValue::Amount(10), 1), Err(AuctionError::WrongProposalKind));
    assert_eq!(votes.proposal_count(), 0);
    assert_eq!(votes.get_winner(), None);
    assert_eq!(votes.get_highest_bid_amount(), 0);
    assert_eq!(votes.get_user_bid(A), None);
}

#[test]
fn accept_takes_amounts_as_bids() {
    let mut auction = bidding(0);
    assert_eq!(auction.accept_at(A, ProposalValue::Amount(10), 1), Ok(()));
    assert_eq!(auction.accept_at(B, ProposalValue::Amount(10), 2), Err(AuctionError::BidTooLow(10)));
    assert_eq!(auction.get_winner(), Some((A, 10)));
}

#[test]
fn strict_leader_wins_the_vote() {
    let mut auction = voting(0);
    let votes: [(u64, &str); 6] =
        [(1, "go"), (2, "chess"), (3, "poker"), (4, "chess"), (5, "go"), (6, "chess")];
    for (user, label) in votes {
        assert_eq!(auction.add_or_update_vote_at(user, label.to_string(), 1), Ok(()));
    }
    match auction.resolve_winner() {
        Some(Outcome::Vote { candidate, supporters }) => {
            assert_eq!(candidate, "chess");
            let mut supporters = supporters;
            supporters.sort();
            assert_eq!(supporters, vec![2, 4, 6]);
        }
        other => panic!("unexpected outcome: {:?}", other),
    }
}

#[test]
fn tied_vote_goes_to_one_of_the_leaders() {
    let mut auction = voting(0);
    let votes: [(u64, &str); 5] = [(1, "go"), (2, "chess"), (3, "poker"), (4, "chess"), (5, "go")];
    for (user, label) in votes {
        assert_eq!(auction.add_or_update_vote_at(user, label.to_string(), 1), Ok(()));
    }
    match auction.resolve_winner() {
        Some(Outcome::Vote { candidate, supporters }) => {
            let mut supporters = supporters;
            supporters.sort();
            if candidate == "go" {
                assert_eq!(supporters, vec![1, 5]);
            } else {
                assert_eq!(candidate, "chess");
                assert_eq!(supporters, vec![2, 4]);
            }
        }
        other => panic!("unexpected outcome: {:?}", other),
    }
}

#[test]
fn changed_vote_counts_once() {
    let mut auction = voting(0);
    assert_eq!(auction.add_or_update_vote_at(A, "chess".to_string(), 1), Ok(()));
    assert_eq!(auction.add_or_update_vote_at(B, "poker".to_string(), 2), Ok(()));
    assert_eq!(auction.add_or_update_vote_at(C, "poker".to_string(), 3), Ok(()));
    assert_eq!(auction.add_or_update_vote_at(B, "chess".to_string(), 4), Ok(()));
    assert_eq!(auction.proposal_count(), 3);
    match auction.resolve_winner() {
        Some(Outcome::Vote { candidate, supporters }) => {
            assert_eq!(candidate, "chess");
            let mut supporters = supporters;
            supporters.sort();
            assert_eq!(supporters, vec![A, B]);
        }
        other => panic!("unexpected outcome: {:?}", other),
    }
}

#[test]
fn bids_are_ranked_highest_first() {
    let mut auction = bidding(0);
    let calls: [(u64, i64); 5] = [(5, 10), (3, 20), (9, 30), (5, 40), (1, 50)];
    let mut now = 0;
    for (user, amount) in calls {
        now += 1;
        assert_eq!(auction.add_or_update_bid_at(user, amount, now), Ok(()));
    }
    assert_eq!(
        auction.ranked_bids(),
        vec![
            AuctionBid { user_id: 1, amount: 50, timestamp: 5 },
            AuctionBid { user_id: 5, amount: 40, timestamp: 4 },
            AuctionBid { user_id: 9, amount: 30, timestamp: 3 },
            AuctionBid { user_id: 3, amount: 20, timestamp: 2 },
        ]
    );
}

#[test]
fn copy_of_an_auction_is_independent() {
    let mut auction = bidding(0);
    assert_eq!(auction.add_or_update_bid_at(A, 10, 1), Ok(()));
    let mut copy = auction.clone();
    assert_eq!(copy.get_winner(), Some((A, 10)));
    assert_eq!(copy.end_time(), 120);
    assert_eq!(copy.add_or_update_bid_at(B, 20, 100), Ok(()));
    assert_eq!(copy.get_winner(), Some((B, 20)));
    assert_eq!(auction.get_winner(), Some((A, 10)));
    assert_eq!(auction.end_time(), 120);
}
