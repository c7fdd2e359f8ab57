//! The ledger: accounts and the records of the transfers between them, held
//! in memory. Every change is one step from a well-formed ledger to another.

use crate::account::{
    next_record_time, row_view, settle_transfer, spec_next_record_time, spec_refusal, spec_settle,
    transfer_refusal, Settlement, SettlementView, Transaction, TransactionError, TransactionView,
    User, UserView,
};
use crate::claims::AuthenticatedUser;
use crate::decimal::Decimal;
use crate::error::ApiError;
use crate::ident::Uuid;
use crate::secret::SecretString;
use vstd::prelude::*;

verus! {

/// What `id` has received less what it has sent, over all of `records`.
pub open spec fn net_flow(records: Seq<TransactionView>, id: u128) -> real
    decreases records.len(),
{
    if records.len() == 0 {
        0real
    } else {
        let last = records.last();
        let credit = if last.recipient == id {
            last.amount
        } else {
            0real
        };
        let debit = if last.sender == id {
            last.amount
        } else {
            0real
        };
        net_flow(records.drop_last(), id) + credit - debit
    }
}

/// Why no account was made.
#[derive(Clone, Copy, Debug, PartialEq, Eq, Structural)]
pub enum SignupError {
    /// An account with the name exists.
    UsernameTaken,
    /// An account with the new identifier exists.
    DuplicateId,
}

impl SignupError {
    pub open spec fn spec_to_api(&self) -> ApiError {
        match self {
            SignupError::UsernameTaken => ApiError::UsernameTaken,
            SignupError::DuplicateId => ApiError::ServerError,
        }
    }

    /// What the caller is told.
    pub fn to_api(&self) -> (r: ApiError)
        ensures
            r == self.spec_to_api(),
    {
        match self {
            SignupError::UsernameTaken => ApiError::UsernameTaken,
            SignupError::DuplicateId => ApiError::ServerError,
        }
    }
}

/// Whether a record names `id` as sender or as recipient.
pub open spec fn involves(record: TransactionView, id: u128) -> bool {
    record.sender == id || record.recipient == id
}

/// The records that involve `id`, the one made last first.
pub open spec fn history_of(records: Seq<TransactionView>, id: u128) -> Seq<TransactionView>
    decreases records.len(),
{
    if records.len() == 0 {
        Seq::empty()
    } else if involves(records.last(), id) {
        seq![records.last()] + history_of(records.drop_last(), id)
    } else {
        history_of(records.drop_last(), id)
    }
}

/// A ledger by its values: the accounts, the records in the order in which
/// they were made, and for each account the balance that it was opened with.
pub struct LedgerView {
    pub users: Seq<UserView>,
    pub transactions: Seq<TransactionView>,
    pub opening: Seq<real>,
}

impl LedgerView {
    /// Whether an account has the identifier `id`.
    pub open spec fn has_user(self, id: u128) -> bool {
        exists|i: int| 0 <= i < self.users.len() && (#[trigger] self.users[i]).id == id
    }

    /// The place of the account with the identifier `id`.
    pub open spec fn user_index(self, id: u128) -> int {
        choose|i: int| 0 <= i < self.users.len() && (#[trigger] self.users[i]).id == id
    }

    /// The account with the identifier `id`, if there is one.
    pub open spec fn user(self, id: u128) -> Option<UserView> {
        if self.has_user(id) {
            Some(self.users[self.user_index(id)])
        } else {
            None
        }
    }

    /// Whether an account has the name `username`.
    pub open spec fn has_username(self, username: Seq<char>) -> bool {
        exists|i: int| 0 <= i < self.users.len() && (#[trigger] self.users[i]).username == username
    }

    /// The place of the account with the name `username`.
    pub open spec fn username_index(self, username: Seq<char>) -> int {
        choose|i: int| 0 <= i < self.users.len() && (#[trigger] self.users[i]).username == username
    }

    /// The account with the name `username`, if there is one.
    pub open spec fn user_named(self, username: Seq<char>) -> Option<UserView> {
        if self.has_username(username) {
            Some(self.users[self.username_index(username)])
        } else {
            None
        }
    }

    /// Whether a record has the identifier `id`.
    pub open spec fn has_record(self, id: u128) -> bool {
        exists|k: int|
            0 <= k < self.transactions.len() && (#[trigger] self.transactions[k]).id == id
    }

    /// The time that a record made at `now` is stamped with: `now`, or the
    /// last record's time where the clock has fallen behind it.
    pub open spec fn next_timestamp(self, now: i128) -> i128 {
        spec_next_record_time(
            if self.transactions.len() > 0 {
                Some(self.transactions.last().timestamp)
            } else {
                None
            },
            now,
        )
    }

    /// The balance of the account with the identifier `id`.
    pub open spec fn balance(self, id: u128) -> real {
        self.users[self.user_index(id)].balance
    }

    /// What holds of every ledger.
    pub open spec fn wf(self) -> bool {
        &&& self.opening.len() == self.users.len()
        &&& forall|i: int| 0 <= i < self.opening.len() ==> #[trigger] self.opening[i] >= 0real
        &&& forall|i: int, j: int|
            0 <= i < j < self.users.len() ==> (#[trigger] self.users[i]).id != (
            #[trigger] self.users[j]).id
        &&& forall|i: int, j: int|
            0 <= i < j < self.users.len() ==> (#[trigger] self.users[i]).username != (
            #[trigger] self.users[j]).username
        &&& forall|i: int|
            0 <= i < self.users.len() ==> (#[trigger] self.users[i]).balance == self.opening[i]
                + net_flow(self.transactions, self.users[i].id)
        &&& forall|i: int| 0 <= i < self.users.len() ==> (#[trigger] self.users[i]).balance >= 0real
        &&& forall|k: int|
            0 <= k < self.transactions.len() ==> (#[trigger] self.transactions[k]).amount > 0real
        &&& forall|k: int|
            0 <= k < self.transactions.len() ==> self.has_user(
                (#[trigger] self.transactions[k]).sender,
            ) && self.has_user(self.transactions[k].recipient)
        &&& forall|k: int, l: int|
            0 <= k < l < self.transactions.len() ==> (#[trigger] self.transactions[k]).id != (
            #[trigger] self.transactions[l]).id
        &&& forall|k: int, l: int|
            0 <= k < l < self.transactions.len() ==> (#[trigger] self.transactions[k]).timestamp
                <= (#[trigger] self.transactions[l]).timestamp
    }

    /// The ledger and the outcome after an account is asked for: refused
    /// where the name is taken, or the identifier is; else added at the end.
    pub open spec fn registered(
        self,
        username: Seq<char>,
        password_hash: Seq<char>,
        id: u128,
        opening: real,
    ) -> (LedgerView, Result<u128, SignupError>) {
        if self.has_username(username) {
            (self, Err(SignupError::UsernameTaken))
        } else if self.has_user(id) {
            (self, Err(SignupError::DuplicateId))
        } else {
            (
                LedgerView {
                    users: self.users.push(UserView { id, username, password_hash, balance: opening }),
                    transactions: self.transactions,
                    opening: self.opening.push(opening),
                },
                Ok(id),
            )
        }
    }

    /// The ledger after a settlement has been written: the sender's balance,
    /// then the recipient's, then the record.
    pub open spec fn settled(self, s: SettlementView) -> LedgerView {
        let si = self.user_index(s.record.sender);
        let ri = self.user_index(s.record.recipient);
        let debited = self.users.update(
            si,
            UserView { balance: s.sender_balance, ..self.users[si] },
        );
        let credited = debited.update(
            ri,
            UserView { balance: s.recipient_balance, ..debited[ri] },
        );
        LedgerView {
            users: credited,
            transactions: self.transactions.push(s.record),
            opening: self.opening,
        }
    }

    /// Why a transfer of `amount` asked for by `principal` is refused, if it
    /// is, before a record is made for it.
    pub open spec fn refusal(
        self,
        principal: u128,
        sender_id: u128,
        recipient_id: u128,
        amount: real,
    ) -> Option<TransactionError> {
        spec_refusal(principal, sender_id, amount, self.user(sender_id), self.user(recipient_id))
    }

    /// The ledger and the outcome after a transfer of `amount` is asked for
    /// by `principal`, with `record_id` and `now` at hand for the new record.
    /// A transfer that is refused leaves the ledger as it was.
    pub open spec fn transfer(
        self,
        principal: u128,
        sender_id: u128,
        recipient_id: u128,
        amount: real,
        record_id: u128,
        now: i128,
    ) -> (LedgerView, Result<TransactionView, TransactionError>) {
        match spec_settle(
            principal,
            sender_id,
            amount,
            self.user(sender_id),
            self.user(recipient_id),
            record_id,
            self.next_timestamp(now),
        ) {
            Err(e) => (self, Err(e)),
            Ok(s) => if self.has_record(record_id) {
                (self, Err(TransactionError::DuplicateRecord))
            } else {
                (self.settled(s), Ok(s.record))
            },
        }
    }
}

/// Whether an executable outcome of a transfer is the one that the model gives.
pub open spec fn record_is(
    r: Result<Transaction, TransactionError>,
    model: Result<TransactionView, TransactionError>,
) -> bool {
    match r {
        Ok(record) => model == Ok::<TransactionView, TransactionError>(record@),
        Err(e) => model == Err::<TransactionView, TransactionError>(e),
    }
}

/// Whether ledger and outcome are what the transfer leaves that is made
/// with the record identifier `record_id` at the time `now`.
pub open spec fn transfer_outcome(
    r: Result<Transaction, TransactionError>,
    before: LedgerView,
    after: LedgerView,
    principal: u128,
    sender_id: u128,
    recipient_id: u128,
    amount: real,
    record_id: u128,
    now: i128,
) -> bool {
    let model = before.transfer(principal, sender_id, recipient_id, amount, record_id, now);
    after == model.0 && record_is(r, model.1)
}

/// The accounts and records, held in memory.
pub struct Ledger {
    users: Vec<User>,
    transactions: Vec<Transaction>,
    opening: Ghost<Seq<real>>,
}

/// A list of accounts by the values of each.
pub open spec fn users_view(users: Seq<User>) -> Seq<UserView> {
    users.map_values(|u: User| u@)
}

/// A list of records by the values of each.
pub open spec fn transactions_view(transactions: Seq<Transaction>) -> Seq<TransactionView> {
    transactions.map_values(|t: Transaction| t@)
}

impl View for Ledger {
    type V = LedgerView;

    closed spec fn view(&self) -> LedgerView {
        LedgerView {
            users: users_view(self.users@),
            transactions: transactions_view(self.transactions@),
            opening: self.opening@,
        }
    }
}

/// In a well-formed ledger an identifier names one place.
pub proof fn lemma_user_index(l: LedgerView, i: int)
    requires
        l.wf(),
        0 <= i < l.users.len(),
    ensures
        l.has_user(l.users[i].id),
        l.user_index(l.users[i].id) == i,
        l.user(l.users[i].id) == Some(l.users[i]),
{
    let id = l.users[i].id;
    let j = l.user_index(id);
    assert(0 <= j < l.users.len() && l.users[j].id == id);
    if j < i {
        assert(l.users[j].id != l.users[i].id);
    } else if i < j {
        assert(l.users[i].id != l.users[j].id);
    }
}

/// In a well-formed ledger a name names one place.
pub proof fn lemma_username_index(l: LedgerView, i: int)
    requires
        l.wf(),
        0 <= i < l.users.len(),
    ensures
        l.has_username(l.users[i].username),
        l.username_index(l.users[i].username) == i,
        l.user_named(l.users[i].username) == Some(l.users[i]),
{
    let name = l.users[i].username;
    let j = l.username_index(name);
    assert(0 <= j < l.users.len() && l.users[j].username == name);
    if j < i {
        assert(l.users[j].username != l.users[i].username);
    } else if i < j {
        assert(l.users[i].username != l.users[j].username);
    }
}

/// An account that no record names has neither received nor sent.
pub proof fn lemma_net_flow_of_stranger(records: Seq<TransactionView>, id: u128)
    requires
        forall|k: int|
            0 <= k < records.len() ==> (#[trigger] records[k]).sender != id && records[k].recipient
                != id,
    ensures
        net_flow(records, id) == 0real,
    decreases records.len(),
{
    if records.len() > 0 {
        let rest = records.drop_last();
        assert forall|k: int| 0 <= k < rest.len() implies (#[trigger] rest[k]).sender != id
            && rest[k].recipient != id by {
            assert(rest[k] == records[k]);
        }
        lemma_net_flow_of_stranger(rest, id);
        assert(records.last() == records[records.len() - 1]);
    }
}

/// Adding an account keeps a ledger well-formed.
pub proof fn lemma_registered_wf(
    l: LedgerView,
    username: Seq<char>,
    password_hash: Seq<char>,
    id: u128,
    opening: real,
)
    requires
        l.wf(),
        opening >= 0real,
    ensures
        l.registered(username, password_hash, id, opening).0.wf(),
{
    let after = l.registered(username, password_hash, id, opening).0;
    if !l.has_username(username) && !l.has_user(id) {
        let n = l.users.len() as int;
        assert forall|k: int| 0 <= k < l.transactions.len() implies (
        #[trigger] l.transactions[k]).sender != id && l.transactions[k].recipient != id by {
            assert(l.has_user(l.transactions[k].sender));
            assert(l.has_user(l.transactions[k].recipient));
        }
        lemma_net_flow_of_stranger(l.transactions, id);
        assert forall|i: int, j: int| 0 <= i < j < after.users.len() implies (
        #[trigger] after.users[i]).id != (#[trigger] after.users[j]).id by {
            if j == n {
                assert(after.users[i] == l.users[i]);
            }
        }
        assert forall|i: int, j: int| 0 <= i < j < after.users.len() implies (
        #[trigger] after.users[i]).username != (#[trigger] after.users[j]).username by {
            if j == n {
                assert(after.users[i] == l.users[i]);
            }
        }
        assert forall|i: int| 0 <= i < after.users.len() implies (
        #[trigger] after.users[i]).balance == after.opening[i] + net_flow(
            after.transactions,
            after.users[i].id,
        ) by {
            if i < n {
                assert(after.users[i] == l.users[i]);
            }
        }
        assert forall|i: int| 0 <= i < after.users.len() implies (
        #[trigger] after.users[i]).balance >= 0real by {
            if i < n {
                assert(after.users[i] == l.users[i]);
            }
        }
        assert forall|k: int| 0 <= k < after.transactions.len() implies after.has_user(
            (#[trigger] after.transactions[k]).sender,
        ) && after.has_user(after.transactions[k].recipient) by {
            let s = l.user_index(l.transactions[k].sender);
            let r = l.user_index(l.transactions[k].recipient);
            assert(l.has_user(l.transactions[k].sender));
            assert(l.has_user(l.transactions[k].recipient));
            assert(after.users[s] == l.users[s]);
            assert(after.users[r] == l.users[r]);
        }
        assert forall|i: int| 0 <= i < after.opening.len() implies #[trigger] after.opening[i]
            >= 0real by {
            if i < n {
                assert(after.opening[i] == l.opening[i]);
            }
        }
    }
}

/// A transfer, granted or refused, keeps a ledger well-formed.
pub proof fn lemma_transfer_wf(
    l: LedgerView,
    principal: u128,
    sender_id: u128,
    recipient_id: u128,
    amount: real,
    record_id: u128,
    now: i128,
)
    requires
        l.wf(),
        amount > 0real,
    ensures
        l.transfer(principal, sender_id, recipient_id, amount, record_id, now).0.wf(),
{
    let outcome = spec_settle(
        principal,
        sender_id,
        amount,
        l.user(sender_id),
        l.user(recipient_id),
        record_id,
        l.next_timestamp(now),
    );
    if outcome is Ok && !l.has_record(record_id) {
        let s = outcome->Ok_0;
        let after = l.settled(s);
        let si = l.user_index(sender_id);
        let ri = l.user_index(recipient_id);
        assert(0 <= si < l.users.len() && l.users[si].id == sender_id);
        assert(0 <= ri < l.users.len() && l.users[ri].id == recipient_id);
        assert(s.record.sender == sender_id && s.record.recipient == recipient_id);
        assert(after.transactions.drop_last() =~= l.transactions);
        assert(after.transactions.last() == s.record);
        assert forall|i: int| 0 <= i < l.users.len() implies (#[trigger] after.users[i]).id
            == l.users[i].id && after.users[i].username == l.users[i].username by {}
        assert forall|i: int| 0 <= i < after.users.len() implies (
        #[trigger] after.users[i]).balance == after.opening[i] + net_flow(
            after.transactions,
            after.users[i].id,
        ) && after.users[i].balance >= 0real by {
            assert(l.users[i].balance == l.opening[i] + net_flow(l.transactions, l.users[i].id));
            assert(l.users[i].balance >= 0real);
            if i != si {
                assert(l.users[i].id != l.users[si].id);
            }
            if i != ri {
                assert(l.users[i].id != l.users[ri].id);
            }
        }
        assert forall|k: int| 0 <= k < after.transactions.len() implies (
        #[trigger] after.transactions[k]).amount > 0real && after.has_user(
            after.transactions[k].sender,
        ) && after.has_user(after.transactions[k].recipient) by {
            let record = after.transactions[k];
            if k < l.transactions.len() {
                assert(record == l.transactions[k]);
                assert(l.has_user(record.sender) && l.has_user(record.recipient));
            }
            let a = l.user_index(record.sender);
            let b = l.user_index(record.recipient);
            assert(after.users[a].id == record.sender);
            assert(after.users[b].id == record.recipient);
        }
        assert forall|k: int, m: int| 0 <= k < m < after.transactions.len() implies (
        #[trigger] after.transactions[k]).id != (#[trigger] after.transactions[m]).id
            && after.transactions[k].timestamp <= after.transactions[m].timestamp by {
            assert(after.transactions[k] == l.transactions[k]);
            if m < l.transactions.len() {
                assert(after.transactions[m] == l.transactions[m]);
            } else {
                let last = l.transactions.len() - 1;
                assert(l.transactions.last() == l.transactions[last]);
                if k < last {
                    assert(l.transactions[k].timestamp <= l.transactions[last].timestamp);
                }
            }
        }
        assert forall|i: int, j: int| 0 <= i < j < after.users.len() implies (
        #[trigger] after.users[i]).id != (#[trigger] after.users[j]).id && after.users[i].username
            != after.users[j].username by {
            assert(l.users[i].id != l.users[j].id);
            assert(l.users[i].username != l.users[j].username);
        }
    }
}

/// A history holds records of the list that involve `id`, and none is
/// stamped before those that it holds.
pub proof fn lemma_history_members(records: Seq<TransactionView>, id: u128)
    requires
        forall|k: int, l: int|
            0 <= k < l < records.len() ==> (#[trigger] records[k]).timestamp <= (
            #[trigger] records[l]).timestamp,
    ensures
        history_of(records, id).len() <= records.len(),
        forall|h: int|
            0 <= h < history_of(records, id).len() ==> involves(
                #[trigger] history_of(records, id)[h],
                id,
            ) && records.contains(history_of(records, id)[h]),
        forall|h: int|
            0 <= h < history_of(records, id).len() && records.len() > 0 ==> (
            #[trigger] history_of(records, id)[h]).timestamp <= records.last().timestamp,
    decreases records.len(),
{
    if records.len() > 0 {
        let rest = records.drop_last();
        assert forall|k: int, l: int| 0 <= k < l < rest.len() implies (
        #[trigger] rest[k]).timestamp <= (#[trigger] rest[l]).timestamp by {
            assert(rest[k] == records[k] && rest[l] == records[l]);
        }
        lemma_history_members(rest, id);
        let last = records.len() - 1;
        assert(records.last() == records[last]);
        let inner = history_of(rest, id);
        assert forall|h: int| 0 <= h < inner.len() implies records.contains(#[trigger] inner[h])
            && inner[h].timestamp <= records.last().timestamp by {
            let k = choose|k: int| 0 <= k < rest.len() && rest[k] == inner[h];
            assert(records[k] == inner[h]);
            if rest.len() > 0 {
                assert(rest.last() == records[rest.len() - 1]);
                if rest.len() - 1 < last {
                    assert(records[rest.len() - 1].timestamp <= records[last].timestamp);
                }
            }
        }
        let whole = history_of(records, id);
        if involves(records.last(), id) {
            assert forall|h: int| 0 <= h < whole.len() implies involves(#[trigger] whole[h], id)
                && records.contains(whole[h]) && whole[h].timestamp <= records.last().timestamp by {
                if h > 0 {
                    assert(whole[h] == inner[h - 1]);
                }
            }
        }
    }
}

/// A history is ordered by time, the most recent record first.
pub proof fn lemma_history_newest_first(records: Seq<TransactionView>, id: u128)
    requires
        forall|k: int, l: int|
            0 <= k < l < records.len() ==> (#[trigger] records[k]).timestamp <= (
            #[trigger] records[l]).timestamp,
    ensures
        forall|g: int, h: int|
            0 <= g < h < history_of(records, id).len() ==> (
            #[trigger] history_of(records, id)[g]).timestamp >= (#[trigger] history_of(
                records,
                id,
            )[h]).timestamp,
    decreases records.len(),
{
    if records.len() > 0 {
        let rest = records.drop_last();
        assert forall|k: int, l: int| 0 <= k < l < rest.len() implies (
        #[trigger] rest[k]).timestamp <= (#[trigger] rest[l]).timestamp by {
            assert(rest[k] == records[k] && rest[l] == records[l]);
        }
        lemma_history_newest_first(rest, id);
        lemma_history_members(rest, id);
        let inner = history_of(rest, id);
        let whole = history_of(records, id);
        let last = records.len() - 1;
        assert(records.last() == records[last]);
        if involves(records.last(), id) {
            assert forall|g: int, h: int| 0 <= g < h < whole.len() implies (
            #[trigger] whole[g]).timestamp >= (#[trigger] whole[h]).timestamp by {
                assert(whole[h] == inner[h - 1]);
                if g > 0 {
                    assert(whole[g] == inner[g - 1]);
                } else {
                    assert(rest.len() > 0);
                    assert(rest.last() == records[rest.len() - 1]);
                    assert(records[rest.len() - 1].timestamp <= records[last].timestamp);
                }
            }
        }
    }
}

impl Ledger {
    /// What holds of every ledger.
    pub open spec fn wf(&self) -> bool {
        self@.wf()
    }

    /// A ledger without accounts or records.
    pub fn new() -> (r: Ledger)
        ensures
            r.wf(),
            r@.users.len() == 0,
            r@.transactions.len() == 0,
    {
        Ledger { users: Vec::new(), transactions: Vec::new(), opening: Ghost(Seq::empty()) }
    }

    /// The number of accounts.
    pub fn user_count(&self) -> (r: usize)
        ensures
            r == self@.users.len(),
    {
        self.users.len()
    }

    /// The number of records.
    pub fn transaction_count(&self) -> (r: usize)
        ensures
            r == self@.transactions.len(),
    {
        self.transactions.len()
    }

    /// Adds an account with an opening balance that is not negative, unless
    /// its name or its identifier is taken. A refusal changes nothing.
    pub fn register(
        &mut self,
        username: String,
        password_hash: SecretString,
        id: Uuid,
        opening: Decimal,
    ) -> (r: Result<Uuid, SignupError>)
        requires
            old(self).wf(),
            opening@ >= 0real,
        ensures
            final(self).wf(),
            final(self)@ == old(self)@.registered(username@, password_hash@, id@, opening@).0,
            r.is_ok() == old(self)@.registered(username@, password_hash@, id@, opening@).1.is_ok(),
            r matches Ok(made) ==> made == id,
            r matches Err(e) ==> old(self)@.registered(username@, password_hash@, id@, opening@).1
                == Err::<u128, SignupError>(e) && *final(self) == *old(self),
    {
        if self.find_username(&username).is_some() {
            return Err(SignupError::UsernameTaken);
        }
        if self.find_user(id).is_some() {
            return Err(SignupError::DuplicateId);
        }
        proof {
            lemma_registered_wf(self@, username@, password_hash@, id@, opening@);
        }
        let ghost before = self@;
        let ghost amount = opening@;
        let user = User { id, username, password_hash, balance: opening };
        self.users.push(user);
        self.opening = Ghost(self.opening@.push(amount));
        assert(self@.users =~= before.users.push(user@));
        assert(self@.transactions =~= before.transactions);
        Ok(id)
    }

    /// The account with the identifier `id`, if there is one.
    pub fn user(&self, id: Uuid) -> (r: Option<&User>)
        requires
            self.wf(),
        ensures
            row_view(r) == self@.user(id@),
            r matches Some(user) ==> user.id == id && user.balance@ >= 0real,
    {
        match self.find_user(id) {
            Some(i) => {
                assert(self@.users[i as int] == self.users@[i as int]@);
                Some(&self.users[i])
            },
            None => None,
        }
    }

    /// The account with the name `username`, if there is one.
    pub fn user_named(&self, username: &String) -> (r: Option<&User>)
        requires
            self.wf(),
        ensures
            row_view(r) == self@.user_named(username@),
            r matches Some(user) ==> user.username@ == username@ && self@.has_user(user.id@),
    {
        match self.find_username(username) {
            Some(i) => {
                assert(self@.users[i as int] == self.users@[i as int]@);
                Some(&self.users[i])
            },
            None => None,
        }
    }

    /// The records that involve `id`, the most recent first.
    pub fn history(&self, id: Uuid) -> (r: Vec<Transaction>)
        ensures
            transactions_view(r@) == history_of(self@.transactions, id@),
    {
        let mut found: Vec<Transaction> = Vec::new();
        let mut k: usize = 0;
        assert(self@.transactions.take(0) =~= Seq::<TransactionView>::empty());
        while k < self.transactions.len()
            invariant
                k <= self.transactions.len(),
                transactions_view(found@) =~= history_of(self@.transactions.take(k as int), id@),
            decreases self.transactions.len() - k,
        {
            let record = &self.transactions[k];
            let ghost upto = self@.transactions.take(k as int + 1);
            assert(upto.drop_last() =~= self@.transactions.take(k as int));
            assert(upto.last() == record@);
            if record.sender == id || record.recipient == id {
                let ghost before = transactions_view(found@);
                found.insert(0, record.duplicate());
                assert(transactions_view(found@) =~= seq![record@] + before);
            }
            k += 1;
        }
        assert(self@.transactions.take(k as int) =~= self@.transactions);
        found
    }

    /// The time that a record made at `now` is stamped with.
    fn stamp(&self, now: i128) -> (r: i128)
        ensures
            r == self@.next_timestamp(now),
    {
        let n = self.transactions.len();
        if n > 0 {
            assert(self@.transactions.last() == self.transactions@[n - 1]@);
            next_record_time(Some(self.transactions[n - 1].timestamp), now)
        } else {
            next_record_time(None, now)
        }
    }

    /// Writes `balance` to the account at place `i`.
    fn write_balance(&mut self, i: usize, balance: Decimal)
        requires
            i < old(self).users@.len(),
        ensures
            final(self)@.users == old(self)@.users.update(
                i as int,
                UserView { balance: balance@, ..old(self)@.users[i as int] },
            ),
            final(self)@.transactions == old(self)@.transactions,
            final(self)@.opening == old(self)@.opening,
            final(self).users@.len() == old(self).users@.len(),
    {
        let ghost before = self@;
        let mut user = self.users.remove(i);
        user.balance = balance;
        self.users.insert(i, user);
        assert(self@.users =~= before.users.update(
            i as int,
            UserView { balance: balance@, ..before.users[i as int] },
        ));
        assert(self@.transactions =~= before.transactions);
    }

    /// Transfers a positive `amount` from the principal's account to the
    /// recipient's, with `record_id` and the time `now` at hand for the record.
    ///
    /// Granted, it debits the sender, credits the recipient, appends the
    /// record and returns it; refused, it changes nothing.
    pub fn transfer_with(
        &mut self,
        principal: &AuthenticatedUser,
        sender_id: Uuid,
        recipient_id: Uuid,
        amount: &Decimal,
        record_id: Uuid,
        now: i128,
    ) -> (r: Result<Transaction, TransactionError>)
        requires
            old(self).wf(),
            amount@ > 0real,
        ensures
            final(self).wf(),
            final(self)@ == old(self)@.transfer(
                principal.subject@,
                sender_id@,
                recipient_id@,
                amount@,
                record_id@,
                now,
            ).0,
            record_is(
                r,
                old(self)@.transfer(
                    principal.subject@,
                    sender_id@,
                    recipient_id@,
                    amount@,
                    record_id@,
                    now,
                ).1,
            ),
            r is Err ==> *final(self) == *old(self),
            r matches Ok(record) ==> record.amount == *amount,
    {
        proof {
            lemma_transfer_wf(
                self@,
                principal.subject@,
                sender_id@,
                recipient_id@,
                amount@,
                record_id@,
                now,
            );
        }
        let sender_at = self.find_user(sender_id);
        let recipient_at = self.find_user(recipient_id);
        let timestamp = self.stamp(now);
        let sender = match sender_at {
            Some(i) => Some(&self.users[i]),
            None => None,
        };
        let recipient = match recipient_at {
            Some(i) => Some(&self.users[i]),
            None => None,
        };
        let settlement = match settle_transfer(
            principal,
            sender_id,
            amount,
            sender,
            recipient,
            record_id,
            timestamp,
        ) {
            Ok(settlement) => settlement,
            Err(e) => {
                return Err(e);
            },
        };
        if self.find_record(record_id) {
            return Err(TransactionError::DuplicateRecord);
        }
        let ghost before = self@;
        let ghost model = settlement@;
        let Settlement { record, sender_balance, recipient_balance } = settlement;
        let copy = record.duplicate();
        let si = sender_at.unwrap();
        let ri = recipient_at.unwrap();
        self.write_balance(si, sender_balance);
        self.write_balance(ri, recipient_balance);
        self.transactions.push(record);
        assert(self@.transactions =~= before.transactions.push(model.record));
        assert(self@.users =~= before.settled(model).users);
        Ok(copy)
    }

    /// Says why a transfer of `amount` asked for by `principal` is refused,
    /// if it is, before a record is made for it. Nothing is changed.
    pub fn refusal(
        &self,
        principal: &AuthenticatedUser,
        sender_id: Uuid,
        recipient_id: Uuid,
        amount: &Decimal,
    ) -> (r: Option<TransactionError>)
        requires
            self.wf(),
        ensures
            r == self@.refusal(principal.subject@, sender_id@, recipient_id@, amount@),
    {
        let sender = match self.find_user(sender_id) {
            Some(i) => Some(&self.users[i]),
            None => None,
        };
        let recipient = match self.find_user(recipient_id) {
            Some(i) => Some(&self.users[i]),
            None => None,
        };
        transfer_refusal(principal, sender_id, amount, sender, recipient)
    }

    /// Transfers a positive `amount` from the principal's account to the
    /// recipient's, under a fresh record identifier and at the time that the
    /// clock shows. A transfer that is refused for the principal, the
    /// accounts or the balance is refused before the clock is read. Else,
    /// whatever identifier and time are, ledger and outcome are what the
    /// model gives for them; a refusal changes nothing, and so does a clock
    /// that shows no time.
    pub fn transfer(
        &mut self,
        principal: &AuthenticatedUser,
        sender_id: Uuid,
        recipient_id: Uuid,
        amount: &Decimal,
    ) -> (r: Result<Transaction, TransactionError>)
        requires
            old(self).wf(),
            amount@ > 0real,
        ensures
            final(self).wf(),
            r is Err ==> *final(self) == *old(self),
            old(self)@.refusal(
                principal.subject@,
                sender_id@,
                recipient_id@,
                amount@,
            ) matches Some(refusal) ==> r is Err && r->Err_0 == refusal,
            old(self)@.refusal(principal.subject@, sender_id@, recipient_id@, amount@) is None
                ==> (r is Err && r->Err_0 == TransactionError::ClockUnreadable) || exists|
                record_id: u128,
                now: i128,
            |
                transfer_outcome(
                    r,
                    old(self)@,
                    final(self)@,
                    principal.subject@,
                    sender_id@,
                    recipient_id@,
                    amount@,
                    record_id,
                    now,
                ),
    {
        let ghost before = self@;
        match self.refusal(principal, sender_id, recipient_id, amount) {
            Some(refusal) => {
                return Err(refusal);
            },
            None => {},
        }
        let record_id = match Uuid::now_v7() {
            Some(id) => id,
            None => {
                return Err(TransactionError::ClockUnreadable);
            },
        };
        let now = match crate::clock::record_time_now() {
            Some(now) => now,
            None => {
                return Err(TransactionError::ClockUnreadable);
            },
        };
        let r = self.transfer_with(principal, sender_id, recipient_id, amount, record_id, now);
        assert(transfer_outcome(
            r,
            before,
            self@,
            principal.subject@,
            sender_id@,
            recipient_id@,
            amount@,
            record_id@,
            now,
        ));
        r
    }

    /// The place of the account with the identifier `id`.
    fn find_user(&self, id: Uuid) -> (r: Option<usize>)
        requires
            self.wf(),
        ensures
            r.is_some() == self@.has_user(id@),
            r matches Some(i) ==> i < self.users@.len() && self.users@[i as int].id == id
                && self@.user_index(id@) == i && self@.user(id@) == Some(self.users@[i as int]@),
            r.is_none() ==> self@.user(id@).is_none(),
    {
        let mut i: usize = 0;
        while i < self.users.len()
            invariant
                self.wf(),
                i <= self.users.len(),
                forall|j: int| 0 <= j < i ==> (#[trigger] self@.users[j]).id != id@,
            decreases self.users.len() - i,
        {
            if self.users[i].id == id {
                proof {
                    assert(self@.users[i as int] == self.users@[i as int]@);
                    lemma_user_index(self@, i as int);
                }
                return Some(i);
            }
            i += 1;
        }
        None
    }

    /// The place of the account with the name `username`.
    fn find_username(&self, username: &String) -> (r: Option<usize>)
        requires
            self.wf(),
        ensures
            r.is_some() == self@.has_username(username@),
            r matches Some(i) ==> i < self.users@.len() && self.users@[i as int].username@
                == username@ && self@.username_index(username@) == i && self@.user_named(
                username@,
            ) == Some(self.users@[i as int]@),
            r.is_none() ==> self@.user_named(username@).is_none(),
    {
        let mut i: usize = 0;
        while i < self.users.len()
            invariant
                self.wf(),
                i <= self.users.len(),
                forall|j: int| 0 <= j < i ==> (#[trigger] self@.users[j]).username != username@,
            decreases self.users.len() - i,
        {
            if self.users[i].username == *username {
                proof {
                    assert(self@.users[i as int] == self.users@[i as int]@);
                    lemma_username_index(self@, i as int);
                }
                return Some(i);
            }
            i += 1;
        }
        None
    }

    /// Whether a record has the identifier `id`.
    fn find_record(&self, id: Uuid) -> (r: bool)
        ensures
            r == self@.has_record(id@),
    {
        let mut k: usize = 0;
        while k < self.transactions.len()
            invariant
                k <= self.transactions.len(),
                forall|j: int| 0 <= j < k ==> (#[trigger] self@.transactions[j]).id != id@,
            decreases self.transactions.len() - k,
        {
            if self.transactions[k].id == id {
                assert(self@.transactions[k as int].id == id@);
                return true;
            }
            k += 1;
        }
        false
    }
}

} // verus!
