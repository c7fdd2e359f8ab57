//! Accounts, transaction records, and the rule by which one transfer is settled.

use crate::claims::AuthenticatedUser;
use crate::decimal::Decimal;
use crate::error::ApiError;
use crate::ident::Uuid;
use crate::secret::SecretString;
use vstd::prelude::*;

verus! {

/// An account.
#[derive(Debug)]
pub struct User {
    pub id: Uuid,
    /// Unique among accounts; capitals and small letters differ.
    pub username: String,
    /// The verifier that passwords are checked against; never the password.
    pub password_hash: SecretString,
    /// Never negative in a ledger.
    pub balance: Decimal,
}

/// An account by its values.
pub struct UserView {
    pub id: u128,
    pub username: Seq<char>,
    pub password_hash: Seq<char>,
    pub balance: real,
}

impl View for User {
    type V = UserView;

    open spec fn view(&self) -> UserView {
        UserView {
            id: self.id@,
            username: self.username@,
            password_hash: self.password_hash@,
            balance: self.balance@,
        }
    }
}

/// The record of one transfer. It is made once and never changed.
#[derive(Debug)]
pub struct Transaction {
    pub id: Uuid,
    /// Greater than zero.
    pub amount: Decimal,
    pub recipient: Uuid,
    pub sender: Uuid,
    /// Nanoseconds since the epoch.
    pub timestamp: i128,
}

/// A record by its values.
pub struct TransactionView {
    pub id: u128,
    pub amount: real,
    pub recipient: u128,
    pub sender: u128,
    pub timestamp: i128,
}

impl View for Transaction {
    type V = TransactionView;

    open spec fn view(&self) -> TransactionView {
        TransactionView {
            id: self.id@,
            amount: self.amount@,
            recipient: self.recipient@,
            sender: self.sender@,
            timestamp: self.timestamp,
        }
    }
}

impl Transaction {
    /// A second record with the same values.
    pub fn duplicate(&self) -> (r: Transaction)
        ensures
            r == *self,
    {
        Transaction {
            id: self.id,
            amount: self.amount.duplicate(),
            recipient: self.recipient,
            sender: self.sender,
            timestamp: self.timestamp,
        }
    }
}

/// Why a transfer was refused.
#[derive(Clone, Copy, Debug, PartialEq, Eq, Structural)]
pub enum TransactionError {
    /// The principal is not the sender.
    PermissionDenied,
    /// The sender has no account, though it was authenticated.
    SenderMissing,
    /// The recipient has no account.
    InvalidRecipient,
    /// The sender's balance is below the amount.
    InsufficientBalance,
    /// A record with the new record's identifier exists.
    DuplicateRecord,
    /// The clock shows no time that a record could be stamped with.
    ClockUnreadable,
}

impl TransactionError {
    pub open spec fn spec_to_api(&self) -> ApiError {
        match self {
            TransactionError::PermissionDenied => ApiError::PermissionDenied,
            TransactionError::SenderMissing => ApiError::ServerError,
            TransactionError::InvalidRecipient => ApiError::InvalidRecipient,
            TransactionError::InsufficientBalance => ApiError::InsufficientBalance,
            TransactionError::DuplicateRecord => ApiError::ServerError,
            TransactionError::ClockUnreadable => ApiError::ServerError,
        }
    }

    /// What the caller is told.
    pub fn to_api(&self) -> (r: ApiError)
        ensures
            r == self.spec_to_api(),
    {
        match self {
            TransactionError::PermissionDenied => ApiError::PermissionDenied,
            TransactionError::SenderMissing => ApiError::ServerError,
            TransactionError::InvalidRecipient => ApiError::InvalidRecipient,
            TransactionError::InsufficientBalance => ApiError::InsufficientBalance,
            TransactionError::DuplicateRecord => ApiError::ServerError,
            TransactionError::ClockUnreadable => ApiError::ServerError,
        }
    }
}

/// What one transfer changes: the record to add and the two balances to write,
/// the sender's first and the recipient's after it.
#[derive(Debug)]
pub struct Settlement {
    pub record: Transaction,
    pub sender_balance: Decimal,
    pub recipient_balance: Decimal,
}

pub struct SettlementView {
    pub record: TransactionView,
    pub sender_balance: real,
    pub recipient_balance: real,
}

impl View for Settlement {
    type V = SettlementView;

    open spec fn view(&self) -> SettlementView {
        SettlementView {
            record: self.record@,
            sender_balance: self.sender_balance@,
            recipient_balance: self.recipient_balance@,
        }
    }
}

/// The time that a record made at `now` is stamped with, given the time of
/// the record made last, if there is one: `now`, or that record's time where
/// the clock has fallen behind it. So the times of the records never
/// decrease.
pub open spec fn spec_next_record_time(last: Option<i128>, now: i128) -> i128 {
    match last {
        Some(time) => if time > now {
            time
        } else {
            now
        },
        None => now,
    }
}

/// The time that a record made at `now` is stamped with, given the time of
/// the record made last, if there is one.
pub fn next_record_time(last: Option<i128>, now: i128) -> (r: i128)
    ensures
        r == spec_next_record_time(last, now),
        r >= now,
        last matches Some(time) ==> r >= time,
{
    match last {
        Some(time) => if time > now {
            time
        } else {
            now
        },
        None => now,
    }
}

/// Why a transfer of `amount` is refused, if it is, given the rows found for
/// sender and recipient. The checks come in this order: the principal is the
/// sender; the sender has a row; the recipient has a row; the sender's
/// balance covers the amount. Neither the record's identifier nor the time
/// has a part in it.
pub open spec fn spec_refusal(
    principal: u128,
    sender_id: u128,
    amount: real,
    sender: Option<UserView>,
    recipient: Option<UserView>,
) -> Option<TransactionError> {
    if principal != sender_id {
        Some(TransactionError::PermissionDenied)
    } else if sender.is_none() {
        Some(TransactionError::SenderMissing)
    } else if recipient.is_none() {
        Some(TransactionError::InvalidRecipient)
    } else if sender.unwrap().balance < amount {
        Some(TransactionError::InsufficientBalance)
    } else {
        None
    }
}

/// The settlement of a transfer of `amount`, given the rows found for sender
/// and recipient: refused as `spec_refusal` says, or else the record and the
/// two balances. The recipient is credited on its row as the debit leaves
/// it, so a transfer to oneself leaves the balance as it was.
pub open spec fn spec_settle(
    principal: u128,
    sender_id: u128,
    amount: real,
    sender: Option<UserView>,
    recipient: Option<UserView>,
    record_id: u128,
    timestamp: i128,
) -> Result<SettlementView, TransactionError> {
    match spec_refusal(principal, sender_id, amount, sender, recipient) {
        Some(refusal) => Err(refusal),
        None => {
            let debited = sender.unwrap().balance - amount;
            let before_credit = if sender.unwrap().id == recipient.unwrap().id {
                debited
            } else {
                recipient.unwrap().balance
            };
            Ok(
                SettlementView {
                    record: TransactionView {
                        id: record_id,
                        amount,
                        recipient: recipient.unwrap().id,
                        sender: sender.unwrap().id,
                        timestamp,
                    },
                    sender_balance: debited,
                    recipient_balance: before_credit + amount,
                },
            )
        },
    }
}

/// A row, where one was found, by its values.
pub open spec fn row_view(row: Option<&User>) -> Option<UserView> {
    match row {
        Some(user) => Some(user@),
        None => None,
    }
}

/// Whether an executable settlement is the one that the model gives.
pub open spec fn settlement_is(
    r: Result<Settlement, TransactionError>,
    model: Result<SettlementView, TransactionError>,
) -> bool {
    match r {
        Ok(s) => model == Ok::<SettlementView, TransactionError>(s@),
        Err(e) => model == Err::<SettlementView, TransactionError>(e),
    }
}

/// Says why a transfer of `amount` is refused, if it is, from the rows found
/// for sender and recipient.
pub fn transfer_refusal(
    principal: &AuthenticatedUser,
    sender_id: Uuid,
    amount: &Decimal,
    sender: Option<&User>,
    recipient: Option<&User>,
) -> (r: Option<TransactionError>)
    ensures
        r == spec_refusal(
            principal.subject@,
            sender_id@,
            amount@,
            row_view(sender),
            row_view(recipient),
        ),
{
    if principal.subject != sender_id {
        return Some(TransactionError::PermissionDenied);
    }
    let sender = match sender {
        Some(sender) => sender,
        None => {
            return Some(TransactionError::SenderMissing);
        },
    };
    if recipient.is_none() {
        return Some(TransactionError::InvalidRecipient);
    }
    if sender.balance.lt(amount) {
        return Some(TransactionError::InsufficientBalance);
    }
    None
}

/// Settles a transfer of a positive `amount` from the rows found for sender
/// and recipient: decides whether it may happen, and if so makes its record
/// and the two new balances. Nothing is written.
pub fn settle_transfer(
    principal: &AuthenticatedUser,
    sender_id: Uuid,
    amount: &Decimal,
    sender: Option<&User>,
    recipient: Option<&User>,
    record_id: Uuid,
    timestamp: i128,
) -> (r: Result<Settlement, TransactionError>)
    requires
        amount@ > 0real,
    ensures
        settlement_is(
            r,
            spec_settle(
                principal.subject@,
                sender_id@,
                amount@,
                row_view(sender),
                row_view(recipient),
                record_id@,
                timestamp,
            ),
        ),
        r matches Ok(s) ==> s.record.amount == *amount,
{
    match transfer_refusal(principal, sender_id, amount, sender, recipient) {
        Some(refusal) => {
            return Err(refusal);
        },
        None => {},
    }
    let sender = match sender {
        Some(sender) => sender,
        None => {
            return Err(TransactionError::SenderMissing);
        },
    };
    let recipient = match recipient {
        Some(recipient) => recipient,
        None => {
            return Err(TransactionError::InvalidRecipient);
        },
    };
    let sender_balance = sender.balance.minus(amount);
    let recipient_balance = if sender.id == recipient.id {
        sender_balance.plus(amount)
    } else {
        recipient.balance.plus(amount)
    };
    Ok(
        Settlement {
            record: Transaction {
                id: record_id,
                amount: amount.duplicate(),
                recipient: recipient.id,
                sender: sender.id,
                timestamp,
            },
            sender_balance,
            recipient_balance,
        },
    )
}

} // verus!
