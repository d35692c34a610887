use slumbank::auction::Auction;
use slumbank::error::AuctionError;
use slumbank::ledger::{
    auction_win_transaction, ledger_name, LedgerReply, LedgerRequest, Step, Transaction,
};
use slumbank::proposal::AuctionMode;
use slumbank::settlement::{advance, advance_with, begin, SettlementState};
use std::collections::HashMap;

struct Book {
    balances: HashMap<u64, i64>,
    journal: Vec<Transaction>,
    fail_reads: bool,
    fail_writes: bool,
    fail_journal: bool,
    requests: usize,
}

impl Book {
    fn with_balance(user: u64, balance: i64) -> Book {
        let mut balances = HashMap::new();
        balances.insert(user, balance);
        Book {
            balances,
            journal: Vec::new(),
            fail_reads: false,
            fail_writes: false,
            fail_journal: false,
            requests: 0,
        }
    }

    fn serve(&mut self, request: LedgerRequest) -> LedgerReply {
        self.requests += 1;
        match request {
            LedgerRequest::GetBalance { user_id } => {
                if self.fail_reads {
                    LedgerReply::Failed
                } else {
                    LedgerReply::Balance(*self.balances.get(&user_id).unwrap_or(&0))
                }
            }
            LedgerRequest::SetBalance { user_id, balance } => {
                if self.fail_writes {
                    LedgerReply::Failed
                } else {
                    self.balances.insert(user_id, balance);
                    LedgerReply::Written
                }
            }
            LedgerRequest::RecordTransaction { transaction } => {
                if self.fail_journal {
                    LedgerReply::Failed
                } else {
                    self.journal.push(transaction);
                    LedgerReply::Written
                }
            }
            other => panic!("unexpected request: {:?}", other),
        }
    }
}

fn settle(auction: &Auction, book: &mut Book) -> Result<(), AuctionError> {
    let mut step = begin(auction);
    loop {
        match step {
            Step::Done(result) => return result,
            Step::Ask { state, request } => {
                let reply = book.serve(request);
                step = advance_with(state, reply, "tx-1".to_string(), 9_000);
            }
        }
    }
}

fn won_by(user: u64, amount: i64) -> Auction {
    let mut auction = Auction::new_at(42, 1, AuctionMode::NumericBid, 120, 30, 15, 0);
    assert_eq!(auction.add_or_update_bid_at(user + 1, 1, 1), Ok(()));
    assert_eq!(auction.add_or_update_bid_at(user, amount, 2), Ok(()));
    auction
}

#[test]
fn winner_without_funds_is_not_debited() {
    let auction = won_by(7, 80);
    let mut book = Book::with_balance(7, 50);
    assert_eq!(settle(&auction, &mut book), Err(AuctionError::InsufficientFunds));
    assert_eq!(book.balances[&7], 50);
    assert!(book.journal.is_empty());
    assert_eq!(book.requests, 1);
}

#[test]
fn winner_with_funds_pays_the_winning_bid() {
    let auction = won_by(7, 80);
    let mut book = Book::with_balance(7, 200);
    assert_eq!(settle(&auction, &mut book), Ok(()));
    assert_eq!(book.balances[&7], 120);
    assert_eq!(book.journal.len(), 1);
    let entry = &book.journal[0];
    assert_eq!(entry.id, "tx-1");
    assert_eq!(entry.from_user, "7");
    assert_eq!(entry.to_user, "AUCTION_SYSTEM");
    assert_eq!(entry.amount, 80);
    assert_eq!(entry.transaction_type, "auction_win");
    assert_eq!(entry.message.as_deref(), Some("Auction win deduction"));
    assert_eq!(entry.nonce, 0);
    assert_eq!(entry.signature, "system");
    assert_eq!(entry.timestamp_unix, 9_000);
    assert_eq!(entry.created_at, 9_000);
    assert_eq!(book.requests, 3);
}

#[test]
fn winner_may_spend_the_whole_balance() {
    let auction = won_by(7, 80);
    let mut book = Book::with_balance(7, 80);
    assert_eq!(settle(&auction, &mut book), Ok(()));
    assert_eq!(book.balances[&7], 0);
}

#[test]
fn auction_without_bids_settles_at_once() {
    let auction = Auction::new_at(42, 1, AuctionMode::NumericBid, 120, 30, 15, 0);
    let mut book = Book::with_balance(7, 50);
    assert_eq!(settle(&auction, &mut book), Ok(()));
    assert_eq!(book.requests, 0);
    assert_eq!(book.balances[&7], 50);
}

#[test]
fn vote_settles_without_touching_the_ledger() {
    let mut auction = Auction::new_at(42, 1, AuctionMode::CategoricalVote, 120, 30, 15, 0);
    assert_eq!(auction.add_or_update_vote_at(7, "chess".to_string(), 1), Ok(()));
    let mut book = Book::with_balance(7, 50);
    assert_eq!(settle(&auction, &mut book), Ok(()));
    assert_eq!(book.requests, 0);
}

#[test]
fn failed_read_fails_the_settlement() {
    let auction = won_by(7, 80);
    let mut book = Book::with_balance(7, 200);
    book.fail_reads = true;
    assert_eq!(settle(&auction, &mut book), Err(AuctionError::SettlementFailed));
    assert_eq!(book.balances[&7], 200);
    assert!(book.journal.is_empty());
}

#[test]
fn failed_debit_fails_the_settlement() {
    let auction = won_by(7, 80);
    let mut book = Book::with_balance(7, 200);
    book.fail_writes = true;
    assert_eq!(settle(&auction, &mut book), Err(AuctionError::SettlementFailed));
    assert_eq!(book.balances[&7], 200);
    assert!(book.journal.is_empty());
    assert_eq!(book.requests, 2);
}

#[test]
fn failed_journal_entry_fails_the_settlement() {
    let auction = won_by(7, 80);
    let mut book = Book::with_balance(7, 200);
    book.fail_journal = true;
    assert_eq!(settle(&auction, &mut book), Err(AuctionError::SettlementFailed));
    assert_eq!(book.balances[&7], 120);
    assert!(book.journal.is_empty());
    assert_eq!(book.requests, 3);
}

#[test]
fn settlement_asks_for_the_balance_of_the_winner_first() {
    let auction = won_by(7, 80);
    match begin(&auction) {
        Step::Ask { state, request } => {
            assert_eq!(state, SettlementState::AwaitingBalance { winner: 7, amount: 80 });
            assert!(state.is_wf());
            match request {
                LedgerRequest::GetBalance { user_id } => assert_eq!(user_id, 7),
                other => panic!("unexpected request: {:?}", other),
            }
        }
        other => panic!("unexpected step: {:?}", other),
    }
}

#[test]
fn reply_that_does_not_answer_the_request_fails_the_settlement() {
    let waiting = SettlementState::AwaitingBalance { winner: 7, amount: 80 };
    match advance_with(waiting, LedgerReply::Written, "x".to_string(), 1) {
        Step::Done(result) => assert_eq!(result, Err(AuctionError::SettlementFailed)),
        other => panic!("unexpected step: {:?}", other),
    }
    let debiting = SettlementState::AwaitingDebit { winner: 7, amount: 80 };
    match advance_with(debiting, LedgerReply::Balance(5), "x".to_string(), 1) {
        Step::Done(result) => assert_eq!(result, Err(AuctionError::SettlementFailed)),
        other => panic!("unexpected step: {:?}", other),
    }
    match advance_with(SettlementState::AwaitingRecord, LedgerReply::Balance(5), "x".to_string(), 1)
    {
        Step::Done(result) => assert_eq!(result, Err(AuctionError::SettlementFailed)),
        other => panic!("unexpected step: {:?}", other),
    }
    match advance_with(waiting, LedgerReply::UserFound, "x".to_string(), 1) {
        Step::Done(result) => assert_eq!(result, Err(AuctionError::SettlementFailed)),
        other => panic!("unexpected step: {:?}", other),
    }
}

#[test]
fn journal_entries_get_fresh_identifiers_and_the_current_time() {
    let debiting = SettlementState::AwaitingDebit { winner: 7, amount: 80 };
    let mut ids = Vec::new();
    for _ in 0..2 {
        match advance(debiting, LedgerReply::Written) {
            Step::Ask { state, request } => {
                assert_eq!(state, SettlementState::AwaitingRecord);
                match request {
                    LedgerRequest::RecordTransaction { transaction } => {
                        assert_eq!(transaction.id.len(), 36);
                        assert_eq!(transaction.from_user, "7");
                        assert_eq!(transaction.amount, 80);
                        assert!(transaction.timestamp_unix > 1_600_000_000);
                        assert_eq!(transaction.created_at, transaction.timestamp_unix);
                        ids.push(transaction.id);
                    }
                    other => panic!("unexpected request: {:?}", other),
                }
            }
            other => panic!("unexpected step: {:?}", other),
        }
    }
    assert_ne!(ids[0], ids[1]);
}

#[test]
fn users_are_named_by_their_identifier_in_decimal() {
    assert_eq!(ledger_name(0), "0");
    assert_eq!(ledger_name(7), "7");
    assert_eq!(ledger_name(10), "10");
    assert_eq!(ledger_name(339829749218017281), "339829749218017281");
    assert_eq!(ledger_name(u64::MAX), "18446744073709551615");
}

#[test]
fn auction_win_entry_is_filled_in() {
    let entry = auction_win_transaction("abc".to_string(), 1078723086448349365, 15, 33);
    assert_eq!(entry.id, "abc");
    assert_eq!(entry.from_user, "1078723086448349365");
    assert_eq!(entry.to_user, "AUCTION_SYSTEM");
    assert_eq!(entry.amount, 15);
    assert_eq!(entry.transaction_type, "auction_win");
    assert_eq!(entry.message, Some("Auction win deduction".to_string()));
    assert_eq!(entry.nonce, 0);
    assert_eq!(entry.signature, "system");
    assert_eq!(entry.timestamp_unix, 33);
    assert_eq!(entry.created_at, 33);
}
