//! Accounts: looking one up, opening one, and granting coins to one.
//!
//! Each piece of work here needs the ledger and proceeds in
//! [`Step`](crate::ledger::Step)s.

use crate::clock::{unix_now, MAX_TIMESTAMP};
use crate::crypto::{keypair_texts, sealed_text, CryptoManager};
use crate::ledger::{
    decimal_digits, fresh_transaction_id, ledger_name, mint_record, mint_transaction, new_user,
    LedgerReply, LedgerRequest, LedgerRequestView, Step, StepView, UserView,
};
use vstd::prelude::*;

verus! {

/// What an inquiry after a balance is waiting for.
#[derive(Clone, Copy, Debug, PartialEq, Eq, Structural)]
pub enum InquiryState {
    AwaitingUser { user_id: u64 },
    AwaitingBalance { user_id: u64 },
}

/// What an inquiry after a balance came to.
#[derive(Clone, Copy, Debug, PartialEq, Eq, Structural)]
pub enum Inquiry {
    /// The user has no account.
    NotRegistered,
    /// The ledger failed when asked for the user.
    LookupFailed,
    /// The ledger failed when asked for the balance.
    BalanceFailed,
    /// The balance of the user's account.
    Balance(i64),
}

/// The step that follows `state` once the ledger has answered `reply`: a user
/// who is found is asked after, and their balance is the answer.
pub open spec fn inquiry_step(state: InquiryState, reply: LedgerReply) -> StepView<
    InquiryState,
    Inquiry,
> {
    match (state, reply) {
        (InquiryState::AwaitingUser { user_id }, LedgerReply::UserFound) => StepView::Ask {
            state: InquiryState::AwaitingBalance { user_id },
            request: LedgerRequestView::GetBalance { user_id },
        },
        (InquiryState::AwaitingUser { .. }, LedgerReply::UserMissing) => StepView::Done(
            Inquiry::NotRegistered,
        ),
        (InquiryState::AwaitingUser { .. }, _) => StepView::Done(Inquiry::LookupFailed),
        (InquiryState::AwaitingBalance { .. }, LedgerReply::Balance(balance)) => StepView::Done(
            Inquiry::Balance(balance),
        ),
        (InquiryState::AwaitingBalance { .. }, _) => StepView::Done(Inquiry::BalanceFailed),
    }
}

/// Starts an inquiry after the balance of `user_id`: first, whether the user
/// has an account.
pub fn inquire(user_id: u64) -> (step: Step<InquiryState, Inquiry>)
    ensures
        step@ == (StepView::<InquiryState, Inquiry>::Ask {
            state: InquiryState::AwaitingUser { user_id },
            request: LedgerRequestView::FindUser { user_id },
        }),
{
    Step::Ask {
        state: InquiryState::AwaitingUser { user_id },
        request: LedgerRequest::FindUser { user_id },
    }
}

/// Takes an inquiry one step further, given the ledger's `reply`.
pub fn continue_inquiry(state: InquiryState, reply: LedgerReply) -> (step: Step<InquiryState, Inquiry>)
    ensures
        step@ == inquiry_step(state, reply),
{
    match state {
        InquiryState::AwaitingUser { user_id } => match reply {
            LedgerReply::UserFound => Step::Ask {
                state: InquiryState::AwaitingBalance { user_id },
                request: LedgerRequest::GetBalance { user_id },
            },
            LedgerReply::UserMissing => Step::Done(Inquiry::NotRegistered),
            _ => Step::Done(Inquiry::LookupFailed),
        },
        InquiryState::AwaitingBalance { .. } => match reply {
            LedgerReply::Balance(balance) => Step::Done(Inquiry::Balance(balance)),
            _ => Step::Done(Inquiry::BalanceFailed),
        },
    }
}

/// What a grant is waiting for.
#[derive(Clone, Copy, Debug, PartialEq, Eq, Structural)]
pub enum GrantState {
    /// Whether the receiver has an account.
    AwaitingUser { to_user: u64, amount: i64 },
    /// The journal entry is being written.
    AwaitingRecord { to_user: u64, amount: i64 },
    /// The receiver's balance has been asked for.
    AwaitingBalance { to_user: u64, amount: i64 },
    /// The receiver's raised balance is being written.
    AwaitingCredit { new_balance: i64 },
}

/// What a grant came to.
#[derive(Clone, Copy, Debug, PartialEq, Eq, Structural)]
pub enum Grant {
    /// Whoever asked is no administrator.
    NotPermitted,
    /// The receiver has no account.
    NotRegistered,
    /// The ledger failed when asked for the receiver.
    LookupFailed,
    /// The journal entry could not be written; nothing was granted.
    RecordFailed,
    /// The journal entry is written, the raised balance is not.
    CreditFailed,
    /// The receiver's balance is now `new_balance`.
    Granted { new_balance: i64 },
}

/// The balance of the receiver as a grant reckons it: what the ledger
/// answered, and nothing where it failed to answer.
pub open spec fn reckoned_balance(reply: LedgerReply) -> int {
    match reply {
        LedgerReply::Balance(balance) => balance as int,
        _ => 0,
    }
}

/// Whether the balance that `reply` brings, raised by the amount of the
/// grant, is a balance the ledger can hold.
pub open spec fn grant_fits(state: GrantState, reply: LedgerReply) -> bool {
    match state {
        GrantState::AwaitingBalance { amount, .. } => i64::MIN <= reckoned_balance(reply) + amount
            <= i64::MAX,
        _ => true,
    }
}

/// The first step of a grant of `amount` to `to_user`: only administrators
/// grant.
pub open spec fn grant_first_step(permitted: bool, to_user: u64, amount: i64) -> StepView<
    GrantState,
    Grant,
> {
    if permitted {
        StepView::Ask {
            state: GrantState::AwaitingUser { to_user, amount },
            request: LedgerRequestView::FindUser { user_id: to_user },
        }
    } else {
        StepView::Done(Grant::NotPermitted)
    }
}

/// The step that follows `state` once the ledger has answered `reply`.
///
/// For a receiver with an account, the grant is entered in the journal under
/// `id`, in the name of `granted_by` and at `now`; then the receiver's
/// balance is read, raised by the amount, and written.
pub open spec fn grant_step(
    state: GrantState,
    reply: LedgerReply,
    granted_by: Seq<char>,
    id: Seq<char>,
    now: i64,
) -> StepView<GrantState, Grant> {
    match (state, reply) {
        (GrantState::AwaitingUser { to_user, amount }, LedgerReply::UserFound) => StepView::Ask {
            state: GrantState::AwaitingRecord { to_user, amount },
            request: LedgerRequestView::RecordTransaction {
                transaction: mint_record(id, to_user, amount, granted_by, now),
            },
        },
        (GrantState::AwaitingUser { .. }, LedgerReply::UserMissing) => StepView::Done(
            Grant::NotRegistered,
        ),
        (GrantState::AwaitingUser { .. }, _) => StepView::Done(Grant::LookupFailed),
        (GrantState::AwaitingRecord { to_user, amount }, LedgerReply::Written) => StepView::Ask {
            state: GrantState::AwaitingBalance { to_user, amount },
            request: LedgerRequestView::GetBalance { user_id: to_user },
        },
        (GrantState::AwaitingRecord { .. }, _) => StepView::Done(Grant::RecordFailed),
        (GrantState::AwaitingBalance { to_user, amount }, _) => StepView::Ask {
            state: GrantState::AwaitingCredit {
                new_balance: (reckoned_balance(reply) + amount) as i64,
            },
            request: LedgerRequestView::SetBalance {
                user_id: to_user,
                balance: (reckoned_balance(reply) + amount) as i64,
            },
        },
        (GrantState::AwaitingCredit { new_balance }, LedgerReply::Written) => StepView::Done(
            Grant::Granted { new_balance },
        ),
        (GrantState::AwaitingCredit { .. }, _) => StepView::Done(Grant::CreditFailed),
    }
}

/// Starts a grant of `amount` to `to_user`, asked for by somebody who is an
/// administrator or not (`permitted`).
pub fn begin_grant(permitted: bool, to_user: u64, amount: i64) -> (step: Step<GrantState, Grant>)
    ensures
        step@ == grant_first_step(permitted, to_user, amount),
{
    if permitted {
        Step::Ask {
            state: GrantState::AwaitingUser { to_user, amount },
            request: LedgerRequest::FindUser { user_id: to_user },
        }
    } else {
        Step::Done(Grant::NotPermitted)
    }
}

/// Run-time test for [`grant_fits`].
pub fn check_grant_fits(state: GrantState, reply: LedgerReply) -> (fits: bool)
    ensures
        fits == grant_fits(state, reply),
{
    match state {
        GrantState::AwaitingBalance { amount, .. } => {
            let balance: i64 = match reply {
                LedgerReply::Balance(balance) => balance,
                _ => 0,
            };
            balance.checked_add(amount).is_some()
        },
        _ => true,
    }
}

/// Takes a grant one step further, given the ledger's `reply`; a journal
/// entry, should one be due, is written under `id` at `now`.
pub fn continue_grant_with(
    state: GrantState,
    reply: LedgerReply,
    granted_by: &str,
    id: String,
    now: i64,
) -> (step: Step<GrantState, Grant>)
    requires
        grant_fits(state, reply),
    ensures
        step@ == grant_step(state, reply, granted_by@, id@, now),
{
    match state {
        GrantState::AwaitingUser { to_user, amount } => match reply {
            LedgerReply::UserFound => Step::Ask {
                state: GrantState::AwaitingRecord { to_user, amount },
                request: LedgerRequest::RecordTransaction {
                    transaction: mint_transaction(id, to_user, amount, granted_by, now),
                },
            },
            LedgerReply::UserMissing => Step::Done(Grant::NotRegistered),
            _ => Step::Done(Grant::LookupFailed),
        },
        GrantState::AwaitingRecord { to_user, amount } => match reply {
            LedgerReply::Written => Step::Ask {
                state: GrantState::AwaitingBalance { to_user, amount },
                request: LedgerRequest::GetBalance { user_id: to_user },
            },
            _ => Step::Done(Grant::RecordFailed),
        },
        GrantState::AwaitingBalance { to_user, amount } => {
            let balance: i64 = match reply {
                LedgerReply::Balance(balance) => balance,
                _ => 0,
            };
            let new_balance: i64 = balance + amount;
            Step::Ask {
                state: GrantState::AwaitingCredit { new_balance },
                request: LedgerRequest::SetBalance { user_id: to_user, balance: new_balance },
            }
        },
        GrantState::AwaitingCredit { new_balance } => match reply {
            LedgerReply::Written => Step::Done(Grant::Granted { new_balance }),
            _ => Step::Done(Grant::CreditFailed),
        },
    }
}

/// Takes a grant one step further, given the ledger's `reply`. A journal
/// entry gets a new random identifier and the time the system clock shows.
pub fn continue_grant(state: GrantState, reply: LedgerReply, granted_by: &str) -> (step: Step<
    GrantState,
    Grant,
>)
    requires
        grant_fits(state, reply),
    ensures
        exists|id: Seq<char>, now: i64|
            0 <= now <= MAX_TIMESTAMP && step@ == #[trigger] grant_step(
                state,
                reply,
                granted_by@,
                id,
                now,
            ),
{
    let id = fresh_transaction_id();
    let now = unix_now();
    continue_grant_with(state, reply, granted_by, id, now)
}

/// What a registration is waiting for.
#[derive(Clone, Copy, Debug, PartialEq, Eq, Structural)]
pub enum RegistrationState {
    /// Whether the user has an account already.
    AwaitingUser { user_id: u64 },
    /// The new account is being written.
    AwaitingStore,
}

/// What a registration came to.
#[derive(Clone, Copy, Debug, PartialEq, Eq, Structural)]
pub enum Registration {
    /// Somebody who is no administrator tried to register somebody else.
    NotPermitted,
    /// The user has an account already.
    AlreadyRegistered,
    /// The ledger failed when asked for the user.
    LookupFailed,
    /// No key pair could be made for the user.
    NoKeyPair,
    /// The user's private key could not be sealed.
    NotSealed,
    /// The new account could not be written.
    StoreFailed,
    /// The user has an account now.
    Registered,
}

/// The first step of registering `user_id`: users register themselves, and
/// administrators register others.
pub open spec fn registration_first_step(
    user_id: u64,
    registering_other: bool,
    permitted: bool,
) -> StepView<RegistrationState, Registration> {
    if registering_other && !permitted {
        StepView::Done(Registration::NotPermitted)
    } else {
        StepView::Ask {
            state: RegistrationState::AwaitingUser { user_id },
            request: LedgerRequestView::FindUser { user_id },
        }
    }
}

/// The account of a new user `user_id` whose key pair has the texts `pair`
/// (`None` where no pair could be made), or why there is none: the private
/// key is kept sealed for the user under `key`.
pub open spec fn enrollment(
    key: Seq<u8>,
    user_id: u64,
    username: Seq<char>,
    pair: Option<(Seq<char>, Seq<char>)>,
    now: i64,
) -> Result<UserView, Registration> {
    match pair {
        None => Err(Registration::NoKeyPair),
        Some((public_key, private_key)) => match sealed_text(
            key,
            private_key,
            decimal_digits(user_id as nat),
        ) {
            None => Err(Registration::NotSealed),
            Some(sealed) => Ok(
                UserView {
                    discord_id: decimal_digits(user_id as nat),
                    username,
                    public_key,
                    encrypted_private_key: sealed,
                    nonce: 0,
                    created_at: now,
                    updated_at: now,
                },
            ),
        },
    }
}

/// The step that follows `state` once the ledger has answered `reply`.
///
/// A user without an account gets one, named `username`, with the key pair
/// `pair`, opened at `now`.
pub open spec fn registration_step(
    state: RegistrationState,
    reply: LedgerReply,
    key: Seq<u8>,
    username: Seq<char>,
    pair: Option<(Seq<char>, Seq<char>)>,
    now: i64,
) -> StepView<RegistrationState, Registration> {
    match (state, reply) {
        (RegistrationState::AwaitingUser { .. }, LedgerReply::UserFound) => StepView::Done(
            Registration::AlreadyRegistered,
        ),
        (RegistrationState::AwaitingUser { user_id }, LedgerReply::UserMissing) => match enrollment(
            key,
            user_id,
            username,
            pair,
            now,
        ) {
            Ok(user) => StepView::Ask {
                state: RegistrationState::AwaitingStore,
                request: LedgerRequestView::CreateUser { user },
            },
            Err(failure) => StepView::Done(failure),
        },
        (RegistrationState::AwaitingUser { .. }, _) => StepView::Done(Registration::LookupFailed),
        (RegistrationState::AwaitingStore, LedgerReply::Written) => StepView::Done(
            Registration::Registered,
        ),
        (RegistrationState::AwaitingStore, _) => StepView::Done(Registration::StoreFailed),
    }
}

/// The texts of `pair` as sequences of characters.
pub open spec fn pair_texts(pair: Option<(String, String)>) -> Option<(Seq<char>, Seq<char>)> {
    match pair {
        Some((public_key, private_key)) => Some((public_key@, private_key@)),
        None => None,
    }
}

/// Starts registering `user_id`, at their own request or at the request of
/// somebody else (`registering_other`) who is an administrator or not
/// (`permitted`).
pub fn begin_registration(user_id: u64, registering_other: bool, permitted: bool) -> (step: Step<
    RegistrationState,
    Registration,
>)
    ensures
        step@ == registration_first_step(user_id, registering_other, permitted),
{
    if registering_other && !permitted {
        Step::Done(Registration::NotPermitted)
    } else {
        Step::Ask {
            state: RegistrationState::AwaitingUser { user_id },
            request: LedgerRequest::FindUser { user_id },
        }
    }
}

/// Takes a registration one step further, given the ledger's `reply`; an
/// account, should one be due, gets the key pair `pair` and is opened at
/// `now`.
pub fn continue_registration_with(
    state: RegistrationState,
    reply: LedgerReply,
    crypto: &CryptoManager,
    username: String,
    pair: Option<(String, String)>,
    now: i64,
) -> (step: Step<RegistrationState, Registration>)
    ensures
        step@ == registration_step(
            state,
            reply,
            crypto.key(),
            username@,
            pair_texts(pair),
            now,
        ),
{
    match state {
        RegistrationState::AwaitingUser { user_id } => match reply {
            LedgerReply::UserFound => Step::Done(Registration::AlreadyRegistered),
            LedgerReply::UserMissing => match pair {
                None => Step::Done(Registration::NoKeyPair),
                Some((public_key, private_key)) => {
                    let name = ledger_name(user_id);
                    match crypto.encrypt_private_key(private_key.as_str(), name.as_str()) {
                        Ok(sealed) => Step::Ask {
                            state: RegistrationState::AwaitingStore,
                            request: LedgerRequest::CreateUser {
                                user: new_user(user_id, username, public_key, sealed, now),
                            },
                        },
                        Err(_) => Step::Done(Registration::NotSealed),
                    }
                },
            },
            _ => Step::Done(Registration::LookupFailed),
        },
        RegistrationState::AwaitingStore => match reply {
            LedgerReply::Written => Step::Done(Registration::Registered),
            _ => Step::Done(Registration::StoreFailed),
        },
    }
}

/// Takes a registration one step further, given the ledger's `reply`. An
/// account, should one be due, gets a new key pair and is opened at the time
/// the system clock shows.
pub fn continue_registration(
    state: RegistrationState,
    reply: LedgerReply,
    crypto: &CryptoManager,
    username: String,
) -> (step: Step<RegistrationState, Registration>)
    ensures
        exists|pair: Option<(Seq<char>, Seq<char>)>, now: i64|
            {
                &&& 0 <= now <= MAX_TIMESTAMP
                &&& pair matches Some(texts) ==> exists|pkcs8: Seq<u8>|
                    #[trigger] keypair_texts(pkcs8) == Some(texts)
                &&& step@ == #[trigger] registration_step(
                    state,
                    reply,
                    crypto.key(),
                    username@,
                    pair,
                    now,
                )
            },
{
    let due = match (state, reply) {
        (RegistrationState::AwaitingUser { .. }, LedgerReply::UserMissing) => true,
        _ => false,
    };
    let pair = if due {
        match crypto.generate_keypair() {
            Ok(pair) => Some(pair),
            Err(_) => None,
        }
    } else {
        None
    };
    let now = unix_now();
    let ghost texts = pair_texts(pair);
    let step = continue_registration_with(state, reply, crypto, username, pair, now);
    proof {
        assert(step@ == registration_step(state, reply, crypto.key(), username@, texts, now));
    }
    step
}

} // verus!
