//! Records that go to the ledger, and the names users carry in it.

use vstd::prelude::*;
use vstd::string::StringExecFns;

verus! {

/// The character for the decimal digit `d`.
pub open spec fn digit_char(d: nat) -> char {
    if d == 0 {
        '0'
    } else if d == 1 {
        '1'
    } else if d == 2 {
        '2'
    } else if d == 3 {
        '3'
    } else if d == 4 {
        '4'
    } else if d == 5 {
        '5'
    } else if d == 6 {
        '6'
    } else if d == 7 {
        '7'
    } else if d == 8 {
        '8'
    } else {
        '9'
    }
}

/// The decimal digits of `n`, most significant first, without leading zeros.
pub open spec fn decimal_digits(n: nat) -> Seq<char>
    decreases n,
{
    if n < 10 {
        seq![digit_char(n)]
    } else {
        decimal_digits(n / 10).push(digit_char(n % 10))
    }
}

/// The decimal digit `d` as a string of one character.
fn digit_str(d: u64) -> (s: &'static str)
    requires
        d < 10,
    ensures
        s@ == seq![digit_char(d as nat)],
{
    proof {
        reveal_strlit("0");
        reveal_strlit("1");
        reveal_strlit("2");
        reveal_strlit("3");
        reveal_strlit("4");
        reveal_strlit("5");
        reveal_strlit("6");
        reveal_strlit("7");
        reveal_strlit("8");
        reveal_strlit("9");
    }
    if d == 0 {
        "0"
    } else if d == 1 {
        "1"
    } else if d == 2 {
        "2"
    } else if d == 3 {
        "3"
    } else if d == 4 {
        "4"
    } else if d == 5 {
        "5"
    } else if d == 6 {
        "6"
    } else if d == 7 {
        "7"
    } else if d == 8 {
        "8"
    } else {
        "9"
    }
}

/// The name under which the ledger knows the user `user_id`: the identifier
/// in decimal.
pub fn ledger_name(user_id: u64) -> (name: String)
    ensures
        name@ == decimal_digits(user_id as nat),
    decreases user_id,
{
    if user_id < 10 {
        String::from_str(digit_str(user_id))
    } else {
        let name = ledger_name(user_id / 10).concat(digit_str(user_id % 10));
        assert(name@ =~= decimal_digits(user_id as nat));
        name
    }
}

/// One entry of the ledger's journal.
#[derive(Clone, Debug)]
pub struct Transaction {
    pub id: String,
    pub from_user: String,
    pub to_user: String,
    pub amount: i64,
    pub transaction_type: String,
    pub message: Option<String>,
    pub nonce: i64,
    pub signature: String,
    pub timestamp_unix: i64,
    pub created_at: i64,
}

/// A [`Transaction`] with its texts as sequences of characters.
pub struct TransactionView {
    pub id: Seq<char>,
    pub from_user: Seq<char>,
    pub to_user: Seq<char>,
    pub amount: i64,
    pub transaction_type: Seq<char>,
    pub message: Option<Seq<char>>,
    pub nonce: i64,
    pub signature: Seq<char>,
    pub timestamp_unix: i64,
    pub created_at: i64,
}

impl View for Transaction {
    type V = TransactionView;

    open spec fn view(&self) -> TransactionView {
        TransactionView {
            id: self.id@,
            from_user: self.from_user@,
            to_user: self.to_user@,
            amount: self.amount,
            transaction_type: self.transaction_type@,
            message: match self.message {
                Some(message) => Some(message@),
                None => None,
            },
            nonce: self.nonce,
            signature: self.signature@,
            timestamp_unix: self.timestamp_unix,
            created_at: self.created_at,
        }
    }
}

/// The entry that records what the winner `winner` paid for an auction:
/// `amount`, from the winner to the auction system, at `now`.
pub open spec fn auction_win_record(id: Seq<char>, winner: u64, amount: i64, now: i64) -> TransactionView {
    TransactionView {
        id,
        from_user: decimal_digits(winner as nat),
        to_user: "AUCTION_SYSTEM"@,
        amount,
        transaction_type: "auction_win"@,
        message: Some("Auction win deduction"@),
        nonce: 0,
        signature: "system"@,
        timestamp_unix: now,
        created_at: now,
    }
}

/// Writes the entry for an auction win under the identifier `id`.
pub fn auction_win_transaction(id: String, winner: u64, amount: i64, now: i64) -> (transaction:
    Transaction)
    ensures
        transaction@ == auction_win_record(id@, winner, amount, now),
{
    Transaction {
        id,
        from_user: ledger_name(winner),
        to_user: String::from_str("AUCTION_SYSTEM"),
        amount,
        transaction_type: String::from_str("auction_win"),
        message: Some(String::from_str("Auction win deduction")),
        nonce: 0,
        signature: String::from_str("system"),
        timestamp_unix: now,
        created_at: now,
    }
}

/// The entry that records a grant of `amount` by the administrator
/// `granted_by` to the user `to_user`, out of nothing, at `now`.
pub open spec fn mint_record(
    id: Seq<char>,
    to_user: u64,
    amount: i64,
    granted_by: Seq<char>,
    now: i64,
) -> TransactionView {
    TransactionView {
        id,
        from_user: "SYSTEM"@,
        to_user: decimal_digits(to_user as nat),
        amount,
        transaction_type: "mint"@,
        message: Some("Admin grant by "@ + granted_by),
        nonce: 0,
        signature: "system"@,
        timestamp_unix: now,
        created_at: now,
    }
}

/// Writes the entry for a grant under the identifier `id`.
pub fn mint_transaction(id: String, to_user: u64, amount: i64, granted_by: &str, now: i64) -> (transaction:
    Transaction)
    ensures
        transaction@ == mint_record(id@, to_user, amount, granted_by@, now),
{
    Transaction {
        id,
        from_user: String::from_str("SYSTEM"),
        to_user: ledger_name(to_user),
        amount,
        transaction_type: String::from_str("mint"),
        message: Some(String::from_str("Admin grant by ").concat(granted_by)),
        nonce: 0,
        signature: String::from_str("system"),
        timestamp_unix: now,
        created_at: now,
    }
}

/// An account holder as the ledger keeps them.
#[derive(Clone, Debug)]
pub struct User {
    pub discord_id: String,
    pub username: String,
    pub public_key: String,
    pub encrypted_private_key: String,
    pub nonce: i64,
    pub created_at: i64,
    pub updated_at: i64,
}

/// A [`User`] with its texts as sequences of characters.
pub struct UserView {
    pub discord_id: Seq<char>,
    pub username: Seq<char>,
    pub public_key: Seq<char>,
    pub encrypted_private_key: Seq<char>,
    pub nonce: i64,
    pub created_at: i64,
    pub updated_at: i64,
}

impl View for User {
    type V = UserView;

    open spec fn view(&self) -> UserView {
        UserView {
            discord_id: self.discord_id@,
            username: self.username@,
            public_key: self.public_key@,
            encrypted_private_key: self.encrypted_private_key@,
            nonce: self.nonce,
            created_at: self.created_at,
            updated_at: self.updated_at,
        }
    }
}

/// The record of a user who registers at `now` with the given keys: known to
/// the ledger by their identifier in decimal, and without transactions so
/// far.
pub fn new_user(
    user_id: u64,
    username: String,
    public_key: String,
    encrypted_private_key: String,
    now: i64,
) -> (user: User)
    ensures
        user@ == (UserView {
            discord_id: decimal_digits(user_id as nat),
            username: username@,
            public_key: public_key@,
            encrypted_private_key: encrypted_private_key@,
            nonce: 0,
            created_at: now,
            updated_at: now,
        }),
{
    User {
        discord_id: ledger_name(user_id),
        username,
        public_key,
        encrypted_private_key,
        nonce: 0,
        created_at: now,
        updated_at: now,
    }
}

/// The balance of one account.
#[derive(Clone, Debug)]
pub struct Balance {
    pub discord_id: String,
    pub balance: i64,
    pub last_updated: i64,
}

/// What a caller is to ask of the ledger.
#[derive(Clone, Debug)]
pub enum LedgerRequest {
    /// Whether the user has an account.
    FindUser { user_id: u64 },
    /// The balance of the user's account; an account never written to is
    /// empty.
    GetBalance { user_id: u64 },
    /// Set the balance of the user's account.
    SetBalance { user_id: u64, balance: i64 },
    /// Enter the transaction in the journal.
    RecordTransaction { transaction: Transaction },
    /// Open an account for the user, empty.
    CreateUser { user: User },
}

/// A [`LedgerRequest`], its records by their views.
pub enum LedgerRequestView {
    FindUser { user_id: u64 },
    GetBalance { user_id: u64 },
    SetBalance { user_id: u64, balance: i64 },
    RecordTransaction { transaction: TransactionView },
    CreateUser { user: UserView },
}

impl View for LedgerRequest {
    type V = LedgerRequestView;

    open spec fn view(&self) -> LedgerRequestView {
        match self {
            LedgerRequest::FindUser { user_id } => LedgerRequestView::FindUser { user_id: *user_id },
            LedgerRequest::GetBalance { user_id } => LedgerRequestView::GetBalance {
                user_id: *user_id,
            },
            LedgerRequest::SetBalance { user_id, balance } => LedgerRequestView::SetBalance {
                user_id: *user_id,
                balance: *balance,
            },
            LedgerRequest::RecordTransaction { transaction } => LedgerRequestView::RecordTransaction {
                transaction: transaction@,
            },
            LedgerRequest::CreateUser { user } => LedgerRequestView::CreateUser { user: user@ },
        }
    }
}

/// What the ledger answered.
#[derive(Clone, Copy, Debug, PartialEq, Eq, Structural)]
pub enum LedgerReply {
    /// The user has an account.
    UserFound,
    /// The user has no account.
    UserMissing,
    /// The balance that was asked for.
    Balance(i64),
    /// The write went through.
    Written,
    /// The ledger could not be read or written.
    Failed,
}

/// Where a piece of work that needs the ledger stands.
///
/// The ledger is somebody else's: reading from it or writing to it may take
/// long and may fail. Work that needs it therefore proceeds in steps. Each
/// step names one request; the caller carries it out and comes back with the
/// reply and the state, until the work is done.
#[derive(Debug)]
pub enum Step<S, O> {
    /// `request` is to be carried out; the reply goes to the next step
    /// together with `state`.
    Ask { state: S, request: LedgerRequest },
    /// The work is over, with this outcome.
    Done(O),
}

/// A [`Step`], its request by its view.
pub enum StepView<S, O> {
    Ask { state: S, request: LedgerRequestView },
    Done(O),
}

impl<S, O> View for Step<S, O> {
    type V = StepView<S, O>;

    open spec fn view(&self) -> StepView<S, O> {
        match self {
            Step::Ask { state, request } => StepView::Ask { state: *state, request: request@ },
            Step::Done(outcome) => StepView::Done(*outcome),
        }
    }
}

/// A new identifier for a transaction, from `uuid::Uuid::new_v4`, in the
/// text form that `Uuid` prints.
///
/// Trusted, and nothing is claimed: the identifier is drawn at random.
#[verifier::external_body]
pub(crate) fn fresh_transaction_id() -> (id: String) {
    uuid::Uuid::new_v4().to_string()
}

} // verus!
