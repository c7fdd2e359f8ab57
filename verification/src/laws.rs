//! What holds of every ledger and every token, whatever is done with them.

use crate::account::{TransactionError, TransactionView, UserView};
use crate::bearer::{has_scheme, printable, spec_bearer_token, token_part};
use crate::claims::{spec_principal, spec_validate, DecodedTokenView};
use crate::error::{ApiError, TokenFault};
use crate::ledger::{lemma_transfer_wf, lemma_user_index, net_flow, LedgerView, SignupError};
use crate::password::password_verifies;
use crate::service::spec_login_with;
use crate::state::AuthStateView;
use crate::token::{spec_authenticate, spec_decode};
use vstd::prelude::*;

verus! {

/// A transfer keeps every account's identifier and name in its place.
pub proof fn lemma_transfer_keeps_accounts(
    l: LedgerView,
    principal: u128,
    sender_id: u128,
    recipient_id: u128,
    amount: real,
    record_id: u128,
    now: i128,
)
    requires
        l.wf(),
        amount > 0real,
    ensures
        ({
            let after = l.transfer(principal, sender_id, recipient_id, amount, record_id, now).0;
            &&& after.users.len() == l.users.len()
            &&& after.opening == l.opening
            &&& forall|i: int|
                0 <= i < l.users.len() ==> (#[trigger] after.users[i]).id == l.users[i].id
                    && after.users[i].username == l.users[i].username
                    && after.users[i].password_hash == l.users[i].password_hash
            &&& forall|id: u128| l.has_user(id) == after.has_user(id)
            &&& forall|id: u128| l.has_user(id) ==> l.user_index(id) == after.user_index(id)
        }),
{
    let after = l.transfer(principal, sender_id, recipient_id, amount, record_id, now).0;
    lemma_transfer_wf(l, principal, sender_id, recipient_id, amount, record_id, now);
    assert forall|i: int| 0 <= i < l.users.len() implies (#[trigger] after.users[i]).id
        == l.users[i].id && after.users[i].username == l.users[i].username
        && after.users[i].password_hash == l.users[i].password_hash by {}
    assert forall|id: u128| l.has_user(id) == after.has_user(id) by {
        if l.has_user(id) {
            let i = l.user_index(id);
            assert(after.users[i].id == id);
        }
        if after.has_user(id) {
            let i = after.user_index(id);
            assert(l.users[i].id == id);
        }
    }
    assert forall|id: u128| l.has_user(id) implies l.user_index(id) == after.user_index(id) by {
        let i = l.user_index(id);
        assert(after.users[i].id == id);
        lemma_user_index(after, i);
    }
}

/// A transfer that the sender's balance covers, from the principal's own
/// account to another one, is granted: the sender then has the amount less,
/// the recipient the amount more, every other account what it had, and one
/// record more stands at the end of the records.
pub proof fn lemma_covered_transfer_is_granted(
    l: LedgerView,
    sender_id: u128,
    recipient_id: u128,
    amount: real,
    record_id: u128,
    now: i128,
)
    requires
        l.wf(),
        l.has_user(sender_id),
        l.has_user(recipient_id),
        sender_id != recipient_id,
        amount > 0real,
        l.balance(sender_id) >= amount,
        !l.has_record(record_id),
    ensures
        ({
            let (after, outcome) = l.transfer(
                sender_id,
                sender_id,
                recipient_id,
                amount,
                record_id,
                now,
            );
            &&& outcome == Ok::<TransactionView, TransactionError>(
                TransactionView {
                    id: record_id,
                    amount,
                    recipient: recipient_id,
                    sender: sender_id,
                    timestamp: l.next_timestamp(now),
                },
            )
            &&& after.balance(sender_id) == l.balance(sender_id) - amount
            &&& after.balance(recipient_id) == l.balance(recipient_id) + amount
            &&& forall|id: u128|
                l.has_user(id) && id != sender_id && id != recipient_id ==> after.balance(id)
                    == l.balance(id)
            &&& after.transactions == l.transactions.push(outcome.unwrap())
        }),
{
    let (after, outcome) = l.transfer(sender_id, sender_id, recipient_id, amount, record_id, now);
    lemma_transfer_keeps_accounts(l, sender_id, sender_id, recipient_id, amount, record_id, now);
    let si = l.user_index(sender_id);
    let ri = l.user_index(recipient_id);
    assert(l.users[si].id == sender_id);
    assert(l.users[ri].id == recipient_id);
    assert forall|id: u128|
        l.has_user(id) && id != sender_id && id != recipient_id implies after.balance(id)
            == l.balance(id) by {
        let i = l.user_index(id);
        assert(l.users[i].id == id);
    }
}

/// A transfer to one's own account that the balance covers is granted and
/// recorded, and leaves every balance as it was.
pub proof fn lemma_transfer_to_self_keeps_balance(
    l: LedgerView,
    account: u128,
    amount: real,
    record_id: u128,
    now: i128,
)
    requires
        l.wf(),
        l.has_user(account),
        amount > 0real,
        l.balance(account) >= amount,
        !l.has_record(record_id),
    ensures
        ({
            let (after, outcome) = l.transfer(account, account, account, amount, record_id, now);
            &&& outcome is Ok
            &&& forall|id: u128| l.has_user(id) ==> after.balance(id) == l.balance(id)
            &&& after.transactions == l.transactions.push(outcome.unwrap())
        }),
{
    let (after, outcome) = l.transfer(account, account, account, amount, record_id, now);
    lemma_transfer_keeps_accounts(l, account, account, account, amount, record_id, now);
    let si = l.user_index(account);
    assert(l.users[si].id == account);
    assert forall|id: u128| l.has_user(id) implies after.balance(id) == l.balance(id) by {
        let i = l.user_index(id);
        assert(l.users[i].id == id);
    }
}

/// A transfer of more than the sender has is refused for want of balance,
/// whoever the recipient is, and the ledger stays as it was.
pub proof fn lemma_overdraft_is_refused(
    l: LedgerView,
    sender_id: u128,
    recipient_id: u128,
    amount: real,
    record_id: u128,
    now: i128,
)
    requires
        l.wf(),
        l.has_user(sender_id),
        l.has_user(recipient_id),
        amount > l.balance(sender_id),
    ensures
        l.transfer(sender_id, sender_id, recipient_id, amount, record_id, now) == (
            l,
            Err::<TransactionView, TransactionError>(TransactionError::InsufficientBalance),
        ),
{
    let si = l.user_index(sender_id);
    assert(l.users[si].id == sender_id);
}

/// A transfer asked for by anyone but the sender is refused, and the ledger
/// stays as it was.
pub proof fn lemma_foreign_transfer_is_refused(
    l: LedgerView,
    principal: u128,
    sender_id: u128,
    recipient_id: u128,
    amount: real,
    record_id: u128,
    now: i128,
)
    requires
        principal != sender_id,
    ensures
        l.transfer(principal, sender_id, recipient_id, amount, record_id, now) == (
            l,
            Err::<TransactionView, TransactionError>(TransactionError::PermissionDenied),
        ),
{
}

/// Of two transfers from one sender to other accounts, made one after the
/// other in either order, at most one is granted where the amounts together
/// exceed the sender's balance; and the sender's balance is never negative.
pub proof fn lemma_overdrawing_pair(
    l: LedgerView,
    sender_id: u128,
    first_recipient: u128,
    second_recipient: u128,
    first_amount: real,
    second_amount: real,
    first_record: u128,
    second_record: u128,
    first_now: i128,
    second_now: i128,
)
    requires
        l.wf(),
        l.has_user(sender_id),
        first_recipient != sender_id,
        second_recipient != sender_id,
        first_amount > 0real,
        second_amount > 0real,
        first_amount + second_amount > l.balance(sender_id),
    ensures
        ({
            let (between, first) = l.transfer(
                sender_id,
                sender_id,
                first_recipient,
                first_amount,
                first_record,
                first_now,
            );
            let (after, second) = between.transfer(
                sender_id,
                sender_id,
                second_recipient,
                second_amount,
                second_record,
                second_now,
            );
            &&& !(first is Ok && second is Ok)
            &&& between.balance(sender_id) >= 0real
            &&& after.balance(sender_id) >= 0real
        }),
{
    let (between, first) = l.transfer(
        sender_id,
        sender_id,
        first_recipient,
        first_amount,
        first_record,
        first_now,
    );
    let (after, second) = between.transfer(
        sender_id,
        sender_id,
        second_recipient,
        second_amount,
        second_record,
        second_now,
    );
    lemma_transfer_wf(l, sender_id, sender_id, first_recipient, first_amount, first_record, first_now);
    lemma_transfer_keeps_accounts(
        l,
        sender_id,
        sender_id,
        first_recipient,
        first_amount,
        first_record,
        first_now,
    );
    lemma_transfer_wf(
        between,
        sender_id,
        sender_id,
        second_recipient,
        second_amount,
        second_record,
        second_now,
    );
    lemma_transfer_keeps_accounts(
        between,
        sender_id,
        sender_id,
        second_recipient,
        second_amount,
        second_record,
        second_now,
    );
    let si = l.user_index(sender_id);
    assert(l.users[si].id == sender_id);
    assert(between.users[si].id == sender_id);
    assert(after.users[si].id == sender_id);
    if first is Ok {
        assert(l.has_user(first_recipient));
        let ri = l.user_index(first_recipient);
        assert(l.users[ri].id == first_recipient);
        assert(between.balance(sender_id) == l.balance(sender_id) - first_amount);
    }
}

/// In every ledger each balance is the opening balance plus what the account
/// has received less what it has sent, and no balance is negative.
pub proof fn lemma_balances_account_for_records(l: LedgerView, id: u128)
    requires
        l.wf(),
        l.has_user(id),
    ensures
        l.balance(id) == l.opening[l.user_index(id)] + net_flow(l.transactions, id),
        l.balance(id) >= 0real,
{
    let i = l.user_index(id);
    assert(l.users[i].id == id);
}

/// A transfer changes no record that was made before it.
pub proof fn lemma_records_are_kept(
    l: LedgerView,
    principal: u128,
    sender_id: u128,
    recipient_id: u128,
    amount: real,
    record_id: u128,
    now: i128,
)
    ensures
        ({
            let after = l.transfer(principal, sender_id, recipient_id, amount, record_id, now).0;
            &&& l.transactions.len() <= after.transactions.len() <= l.transactions.len() + 1
            &&& after.transactions.take(l.transactions.len() as int) == l.transactions
        }),
{
    let after = l.transfer(principal, sender_id, recipient_id, amount, record_id, now).0;
    assert(after.transactions.take(l.transactions.len() as int) =~= l.transactions);
}

/// A token that was issued longer ago than the configured lifetime is not
/// accepted, whatever else it claims.
pub proof fn lemma_stale_token_is_rejected(token: DecodedTokenView, cfg: AuthStateView, now: i64)
    requires
        token.issued_at is Some,
        token.issued_at.unwrap() + cfg.lifetime < now,
    ensures
        spec_validate(token, cfg, now) is Err,
        spec_principal(token, cfg, now) is Err,
{
}

/// A request that bears a token with a valid signature, issued longer ago
/// than the configured lifetime, is refused as bearing an invalid token.
pub proof fn lemma_stale_request_is_refused(
    header: Seq<u8>,
    token: DecodedTokenView,
    cfg: AuthStateView,
    now: i64,
)
    requires
        printable(header),
        spec_bearer_token(header) is Some,
        spec_decode(spec_bearer_token(header).unwrap(), cfg.key) == Ok::<
            DecodedTokenView,
            TokenFault,
        >(token),
        token.issued_at is Some,
        token.issued_at.unwrap() + cfg.lifetime < now,
    ensures
        spec_authenticate(Some(header), cfg, now) is Err,
        spec_authenticate(Some(header), cfg, now)->Err_0 is InvalidToken,
{
    lemma_stale_token_is_rejected(token, cfg, now);
}

/// Whatever a request bears, it is refused unless a token is there whose
/// signature holds under the configured key.
pub proof fn lemma_only_signed_tokens_authenticate(header: Option<Seq<u8>>, cfg: AuthStateView, now: i64)
    requires
        spec_authenticate(header, cfg, now) is Ok,
    ensures
        header is Some,
        printable(header.unwrap()),
        spec_bearer_token(header.unwrap()) is Some,
        spec_decode(spec_bearer_token(header.unwrap()).unwrap(), cfg.key) is Ok,
{
}

/// A signup under a name that is taken is refused, and the ledger stays as
/// it was: the same accounts in the same places.
pub proof fn lemma_taken_name_is_refused(
    l: LedgerView,
    username: Seq<char>,
    password_hash: Seq<char>,
    id: u128,
    opening: real,
)
    requires
        l.has_username(username),
    ensures
        l.registered(username, password_hash, id, opening) == (
            l,
            Err::<u128, SignupError>(SignupError::UsernameTaken),
        ),
{
}

/// A signup that is granted adds one account at the end and changes no
/// other; afterwards the name is taken.
pub proof fn lemma_granted_signup_adds_one_account(
    l: LedgerView,
    username: Seq<char>,
    password_hash: Seq<char>,
    id: u128,
    opening: real,
)
    requires
        l.registered(username, password_hash, id, opening).1 is Ok,
    ensures
        ({
            let after = l.registered(username, password_hash, id, opening).0;
            &&& after.users.len() == l.users.len() + 1
            &&& after.users.take(l.users.len() as int) == l.users
            &&& after.users.last() == (UserView { id, username, password_hash, balance: opening })
            &&& after.transactions == l.transactions
            &&& after.has_username(username)
            &&& after.has_user(id)
        }),
{
    let after = l.registered(username, password_hash, id, opening).0;
    assert(after.users.take(l.users.len() as int) =~= l.users);
    assert(after.users[l.users.len() as int].username == username);
    assert(after.users[l.users.len() as int].id == id);
}

/// A login under a name that no account has and a login with a password
/// that does not verify are refused with one and the same outcome.
pub proof fn lemma_login_refusals_are_alike(
    user: UserView,
    cfg: AuthStateView,
    password: Seq<char>,
    other_password: Seq<char>,
    now: i64,
)
    requires
        !password_verifies(password, user.password_hash),
    ensures
        spec_login_with(Some(user), cfg, password, now) == spec_login_with(
            None,
            cfg,
            other_password,
            now,
        ),
        spec_login_with(None, cfg, other_password, now) == Err::<u128, ApiError>(
            ApiError::InvalidUsernameOrPassword,
        ),
{
}

/// A transfer that is refused leaves the ledger as it was; one that is
/// granted appends its record and nothing else to the records.
pub proof fn lemma_transfer_is_all_or_nothing(
    l: LedgerView,
    principal: u128,
    sender_id: u128,
    recipient_id: u128,
    amount: real,
    record_id: u128,
    now: i128,
)
    ensures
        ({
            let (after, outcome) = l.transfer(
                principal,
                sender_id,
                recipient_id,
                amount,
                record_id,
                now,
            );
            &&& outcome is Err ==> after == l
            &&& outcome is Ok ==> after.transactions == l.transactions.push(outcome->Ok_0)
                && outcome->Ok_0.id == record_id && outcome->Ok_0.amount == amount
                && outcome->Ok_0.sender == sender_id && principal == sender_id
                && l.has_user(sender_id) && l.has_user(recipient_id) && l.balance(sender_id)
                >= amount
        }),
{
    let (after, outcome) = l.transfer(principal, sender_id, recipient_id, amount, record_id, now);
    if outcome is Ok {
        let si = l.user_index(sender_id);
        assert(l.users[si].id == sender_id);
    }
}

/// A request whose header names the scheme and no token after it is
/// unauthenticated, at every time and under every configuration.
pub proof fn lemma_scheme_without_token_is_unauthenticated(
    header: Seq<u8>,
    cfg: AuthStateView,
    now: i64,
)
    requires
        printable(header),
        has_scheme(header),
        token_part(header).len() == 0,
    ensures
        spec_authenticate(Some(header), cfg, now) == Err::<u128, ApiError>(
            ApiError::Unauthenticated,
        ),
{
}

/// A transfer is refused for the principal, the accounts or the balance
/// just where the ledger tells that refusal beforehand, whatever identifier
/// and time are at hand for the record; else it is granted, unless the
/// identifier is taken.
pub proof fn lemma_refusal_is_told_beforehand(
    l: LedgerView,
    principal: u128,
    sender_id: u128,
    recipient_id: u128,
    amount: real,
    record_id: u128,
    now: i128,
)
    ensures
        ({
            let told = l.refusal(principal, sender_id, recipient_id, amount);
            let outcome = l.transfer(principal, sender_id, recipient_id, amount, record_id, now).1;
            &&& told matches Some(refusal) ==> outcome == Err::<TransactionView, TransactionError>(
                refusal,
            )
            &&& told is None ==> outcome is Ok || outcome == Err::<
                TransactionView,
                TransactionError,
            >(TransactionError::DuplicateRecord)
            &&& principal != sender_id ==> told == Some(TransactionError::PermissionDenied)
        }),
{
}

} // verus!
