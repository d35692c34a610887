use base64::engine::general_purpose::STANDARD;
use base64::Engine;
use slumbank::accounts::{
    begin_grant, begin_registration, check_grant_fits, continue_grant, continue_grant_with,
    continue_inquiry, continue_registration, continue_registration_with, inquire, Grant,
    GrantState, Inquiry, InquiryState, Registration, RegistrationState,
};
use slumbank::crypto::CryptoManager;
use slumbank::ledger::{mint_transaction, new_user, LedgerReply, LedgerRequest, Step, User};
use std::collections::HashMap;

fn crypto() -> CryptoManager {
    CryptoManager::new("default_dev_key_change_in_production").expect("key is accepted")
}

#[test]
fn inquiry_finds_the_balance_of_a_registered_user() {
    let state = match inquire(7) {
        Step::Ask { state, request } => {
            assert!(matches!(request, LedgerRequest::FindUser { user_id: 7 }));
            state
        }
        other => panic!("unexpected step: {:?}", other),
    };
    assert_eq!(state, InquiryState::AwaitingUser { user_id: 7 });
    let state = match continue_inquiry(state, LedgerReply::UserFound) {
        Step::Ask { state, request } => {
            assert!(matches!(request, LedgerRequest::GetBalance { user_id: 7 }));
            state
        }
        other => panic!("unexpected step: {:?}", other),
    };
    assert_eq!(state, InquiryState::AwaitingBalance { user_id: 7 });
    assert!(matches!(
        continue_inquiry(state, LedgerReply::Balance(42)),
        Step::Done(Inquiry::Balance(42))
    ));
}

#[test]
fn inquiry_stops_where_the_ledger_has_no_answer() {
    let asking = InquiryState::AwaitingUser { user_id: 7 };
    assert!(matches!(
        continue_inquiry(asking, LedgerReply::UserMissing),
        Step::Done(Inquiry::NotRegistered)
    ));
    assert!(matches!(continue_inquiry(asking, LedgerReply::Failed), Step::Done(Inquiry::LookupFailed)));
    assert!(matches!(
        continue_inquiry(asking, LedgerReply::Balance(1)),
        Step::Done(Inquiry::LookupFailed)
    ));
    let reading = InquiryState::AwaitingBalance { user_id: 7 };
    assert!(matches!(continue_inquiry(reading, LedgerReply::Failed), Step::Done(Inquiry::BalanceFailed)));
    assert!(matches!(
        continue_inquiry(reading, LedgerReply::UserFound),
        Step::Done(Inquiry::BalanceFailed)
    ));
}

struct Book {
    users: HashMap<u64, Option<User>>,
    balances: HashMap<u64, i64>,
    journal: Vec<slumbank::ledger::Transaction>,
    failing: Option<usize>,
    requests: usize,
}

impl Book {
    fn new() -> Book {
        Book {
            users: HashMap::new(),
            balances: HashMap::new(),
            journal: Vec::new(),
            failing: None,
            requests: 0,
        }
    }

    fn serve(&mut self, request: LedgerRequest) -> LedgerReply {
        self.requests += 1;
        if self.failing == Some(self.requests) {
            return LedgerReply::Failed;
        }
        match request {
            LedgerRequest::FindUser { user_id } => {
                if self.users.contains_key(&user_id) {
                    LedgerReply::UserFound
                } else {
                    LedgerReply::UserMissing
                }
            }
            LedgerRequest::GetBalance { user_id } => {
                LedgerReply::Balance(*self.balances.get(&user_id).unwrap_or(&0))
            }
            LedgerRequest::SetBalance { user_id, balance } => {
                self.balances.insert(user_id, balance);
                LedgerReply::Written
            }
            LedgerRequest::RecordTransaction { transaction } => {
                self.journal.push(transaction);
                LedgerReply::Written
            }
            LedgerRequest::CreateUser { user } => {
                let user_id: u64 = user.discord_id.parse().expect("users are named by their number");
                self.users.insert(user_id, Some(user));
                self.balances.insert(user_id, 0);
                LedgerReply::Written
            }
        }
    }
}

fn grant(book: &mut Book, permitted: bool, to_user: u64, amount: i64) -> Grant {
    let mut step = begin_grant(permitted, to_user, amount);
    loop {
        match step {
            Step::Done(outcome) => return outcome,
            Step::Ask { state, request } => {
                let reply = book.serve(request);
                assert!(check_grant_fits(state, reply));
                step = continue_grant_with(state, reply, "banker", "id-1".to_string(), 500);
            }
        }
    }
}

#[test]
fn grant_is_journalled_and_credited() {
    let mut book = Book::new();
    book.users.insert(7, None);
    book.balances.insert(7, 100);
    assert_eq!(grant(&mut book, true, 7, 50), Grant::Granted { new_balance: 150 });
    assert_eq!(book.balances[&7], 150);
    assert_eq!(book.journal.len(), 1);
    let entry = &book.journal[0];
    assert_eq!(entry.id, "id-1");
    assert_eq!(entry.from_user, "SYSTEM");
    assert_eq!(entry.to_user, "7");
    assert_eq!(entry.amount, 50);
    assert_eq!(entry.transaction_type, "mint");
    assert_eq!(entry.message, Some("Admin grant by banker".to_string()));
    assert_eq!(entry.timestamp_unix, 500);
    assert_eq!(book.requests, 4);
}

#[test]
fn grant_needs_an_administrator_and_a_registered_receiver() {
    let mut book = Book::new();
    book.users.insert(7, None);
    assert_eq!(grant(&mut book, false, 7, 50), Grant::NotPermitted);
    assert_eq!(book.requests, 0);
    assert_eq!(grant(&mut book, true, 8, 50), Grant::NotRegistered);
    assert_eq!(book.requests, 1);
    assert!(book.journal.is_empty());
    assert!(book.balances.is_empty());
}

#[test]
fn grant_stops_where_the_ledger_fails() {
    let mut book = Book::new();
    book.users.insert(7, None);
    book.failing = Some(1);
    assert_eq!(grant(&mut book, true, 7, 50), Grant::LookupFailed);

    let mut book = Book::new();
    book.users.insert(7, None);
    book.failing = Some(2);
    assert_eq!(grant(&mut book, true, 7, 50), Grant::RecordFailed);
    assert!(book.journal.is_empty());
    assert!(book.balances.is_empty());

    let mut book = Book::new();
    book.users.insert(7, None);
    book.balances.insert(7, 100);
    book.failing = Some(4);
    assert_eq!(grant(&mut book, true, 7, 50), Grant::CreditFailed);
    assert_eq!(book.journal.len(), 1);
    assert_eq!(book.balances[&7], 100);
}

#[test]
fn unreadable_balance_counts_as_empty_in_a_grant() {
    let mut book = Book::new();
    book.users.insert(7, None);
    book.balances.insert(7, 100);
    book.failing = Some(3);
    assert_eq!(grant(&mut book, true, 7, 50), Grant::Granted { new_balance: 50 });
    assert_eq!(book.balances[&7], 50);
}

#[test]
fn grant_may_take_coins_away() {
    let mut book = Book::new();
    book.users.insert(7, None);
    book.balances.insert(7, 100);
    assert_eq!(grant(&mut book, true, 7, -30), Grant::Granted { new_balance: 70 });
}

#[test]
fn grant_that_overflows_the_balance_does_not_fit() {
    let reading = GrantState::AwaitingBalance { to_user: 7, amount: 1 };
    assert!(check_grant_fits(reading, LedgerReply::Balance(i64::MAX - 1)));
    assert!(!check_grant_fits(reading, LedgerReply::Balance(i64::MAX)));
    assert!(check_grant_fits(reading, LedgerReply::Failed));
    let taking = GrantState::AwaitingBalance { to_user: 7, amount: -1 };
    assert!(!check_grant_fits(taking, LedgerReply::Balance(i64::MIN)));
    assert!(check_grant_fits(GrantState::AwaitingUser { to_user: 7, amount: 1 }, LedgerReply::Balance(i64::MAX)));
    assert!(check_grant_fits(GrantState::AwaitingCredit { new_balance: i64::MAX }, LedgerReply::Written));
}

#[test]
fn new_grants_get_their_own_identifiers() {
    let found = GrantState::AwaitingUser { to_user: 1002, amount: 250 };
    let mut ids = Vec::new();
    for _ in 0..2 {
        match continue_grant(found, LedgerReply::UserFound, "banker") {
            Step::Ask { state, request } => {
                assert_eq!(state, GrantState::AwaitingRecord { to_user: 1002, amount: 250 });
                match request {
                    LedgerRequest::RecordTransaction { transaction } => {
                        assert_eq!(transaction.id.len(), 36);
                        assert_eq!(transaction.to_user, "1002");
                        assert_eq!(transaction.message, Some("Admin grant by banker".to_string()));
                        assert!(transaction.timestamp_unix > 1_600_000_000);
                        assert_eq!(transaction.created_at, transaction.timestamp_unix);
                        ids.push(transaction.id);
                    }
                    other => panic!("unexpected request: {:?}", other),
                }
            }
            other => panic!("unexpected step: {:?}", other),
        }
    }
    assert_ne!(ids[0], ids[1]);
}

#[test]
fn grant_is_entered_as_a_mint() {
    let entry = mint_transaction("id-9".to_string(), 1002, 250, "banker", 77);
    assert_eq!(entry.id, "id-9");
    assert_eq!(entry.from_user, "SYSTEM");
    assert_eq!(entry.to_user, "1002");
    assert_eq!(entry.amount, 250);
    assert_eq!(entry.transaction_type, "mint");
    assert_eq!(entry.message, Some("Admin grant by banker".to_string()));
    assert_eq!(entry.nonce, 0);
    assert_eq!(entry.signature, "system");
    assert_eq!(entry.timestamp_unix, 77);
    assert_eq!(entry.created_at, 77);
}

#[test]
fn new_user_starts_without_transactions() {
    let user = new_user(1002, "ann".to_string(), "pk".to_string(), "sealed".to_string(), 33);
    assert_eq!(user.discord_id, "1002");
    assert_eq!(user.username, "ann");
    assert_eq!(user.public_key, "pk");
    assert_eq!(user.encrypted_private_key, "sealed");
    assert_eq!(user.nonce, 0);
    assert_eq!(user.created_at, 33);
    assert_eq!(user.updated_at, 33);
}

fn register(book: &mut Book, user_id: u64, other: bool, permitted: bool) -> Registration {
    let crypto = crypto();
    let mut step = begin_registration(user_id, other, permitted);
    loop {
        match step {
            Step::Done(outcome) => return outcome,
            Step::Ask { state, request } => {
                let reply = book.serve(request);
                step = continue_registration(state, reply, &crypto, "ann".to_string());
            }
        }
    }
}

#[test]
fn registration_opens_an_account_with_a_sealed_key() {
    let mut book = Book::new();
    assert_eq!(register(&mut book, 1002, false, true), Registration::Registered);
    assert_eq!(book.requests, 2);
    assert_eq!(book.balances[&1002], 0);
    let user = book.users[&1002].clone().expect("account was written");
    assert_eq!(user.discord_id, "1002");
    assert_eq!(user.username, "ann");
    assert_eq!(user.nonce, 0);
    assert!(user.created_at > 1_600_000_000);
    assert_eq!(user.updated_at, user.created_at);

    // the private key opens for its owner, and belongs to the public key
    let crypto = crypto();
    let private_key =
        crypto.decrypt_private_key(&user.encrypted_private_key, "1002").expect("key opens");
    let signature = crypto.sign_transaction(&private_key, "hello").expect("key signs");
    assert!(crypto.verify_signature(&user.public_key, &signature, "hello"));
    assert!(crypto.decrypt_private_key(&user.encrypted_private_key, "1003").is_err());
    assert_eq!(STANDARD.decode(&user.public_key).expect("public key is base64").len(), 32);
}

#[test]
fn registration_is_for_new_users() {
    let mut book = Book::new();
    assert_eq!(register(&mut book, 1002, false, true), Registration::Registered);
    assert_eq!(register(&mut book, 1002, false, true), Registration::AlreadyRegistered);
    assert_eq!(register(&mut book, 1002, true, true), Registration::AlreadyRegistered);
    assert_eq!(book.users.len(), 1);
}

#[test]
fn only_administrators_register_others() {
    let mut book = Book::new();
    assert_eq!(register(&mut book, 1002, true, false), Registration::NotPermitted);
    assert_eq!(book.requests, 0);
    // whoever registers themselves needs no permission
    assert_eq!(register(&mut book, 1002, false, false), Registration::Registered);
    assert_eq!(register(&mut book, 1003, true, true), Registration::Registered);
}

#[test]
fn registration_stops_where_the_ledger_fails() {
    let mut book = Book::new();
    book.failing = Some(1);
    assert_eq!(register(&mut book, 1002, false, true), Registration::LookupFailed);
    let mut book = Book::new();
    book.failing = Some(2);
    assert_eq!(register(&mut book, 1002, false, true), Registration::StoreFailed);
    assert!(book.users.is_empty());
}

#[test]
fn registration_needs_a_key_pair() {
    let crypto = crypto();
    let asking = RegistrationState::AwaitingUser { user_id: 1002 };
    assert!(matches!(
        continue_registration_with(asking, LedgerReply::UserMissing, &crypto, "ann".to_string(), None, 5),
        Step::Done(Registration::NoKeyPair)
    ));
    match continue_registration_with(
        asking,
        LedgerReply::UserMissing,
        &crypto,
        "ann".to_string(),
        Some(("public".to_string(), "private".to_string())),
        5,
    ) {
        Step::Ask { state, request } => {
            assert_eq!(state, RegistrationState::AwaitingStore);
            match request {
                LedgerRequest::CreateUser { user } => {
                    assert_eq!(user.discord_id, "1002");
                    assert_eq!(user.username, "ann");
                    assert_eq!(user.public_key, "public");
                    assert_eq!(
                        user.encrypted_private_key,
                        crypto.encrypt_private_key("private", "1002").expect("sealing succeeds")
                    );
                    assert_eq!(user.created_at, 5);
                    assert_eq!(user.updated_at, 5);
                }
                other => panic!("unexpected request: {:?}", other),
            }
        }
        other => panic!("unexpected step: {:?}", other),
    }
    // a pair is not looked at where none is due
    assert!(matches!(
        continue_registration_with(asking, LedgerReply::UserFound, &crypto, "ann".to_string(), None, 5),
        Step::Done(Registration::AlreadyRegistered)
    ));
    assert!(matches!(
        continue_registration_with(
            RegistrationState::AwaitingStore,
            LedgerReply::Written,
            &crypto,
            "ann".to_string(),
            None,
            5
        ),
        Step::Done(Registration::Registered)
    ));
}
