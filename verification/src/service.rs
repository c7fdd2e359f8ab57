//! What the service does for each request, from payload to response, against
//! a ledger in memory.

use crate::account::{
    row_view, Transaction, TransactionError, TransactionView, User, UserView,
};
use crate::claims::{AuthenticatedUser, DecodedTokenView};
use crate::decimal::Decimal;
use crate::error::{ApiError, TokenFault};
use crate::ident::{has_standard_variant, version_of, Uuid};
use crate::jws::{ascii_bytes, dots, token_text};
use crate::ledger::{
    history_of, lemma_history_newest_first, lemma_username_index, transactions_view, Ledger,
    LedgerView, SignupError,
};
use crate::password::{generate_hash, password_verifies, verify_password};
use crate::secret::SecretString;
use crate::state::{AuthState, AuthStateView};
use crate::token::{bearer_header, issue_access_token, issued_token, spec_authenticate, spec_decode};
use vstd::prelude::*;

verus! {

/// A name and a password, as a client sends them in the clear. It is not
/// printable, so that no password is logged by the way.
pub struct RawRequestBody {
    pub username: String,
    pub password: String,
}

/// The credentials sent to log in.
#[derive(Debug)]
pub struct PostLoginPayload {
    pub username: String,
    pub password: SecretString,
}

/// The credentials sent to sign up.
#[derive(Debug)]
pub struct PostSignupPayload {
    pub username: String,
    pub password: SecretString,
}

impl RawRequestBody {
    /// The same credentials for logging in, the password taken into keeping.
    pub fn into_login(self) -> (r: PostLoginPayload)
        ensures
            r.username@ == self.username@,
            r.password@ == self.password@,
    {
        PostLoginPayload { username: self.username, password: SecretString::new(self.password) }
    }

    /// The same credentials for signing up, the password taken into keeping.
    pub fn into_signup(self) -> (r: PostSignupPayload)
        ensures
            r.username@ == self.username@,
            r.password@ == self.password@,
    {
        PostSignupPayload { username: self.username, password: SecretString::new(self.password) }
    }
}

/// The answer to a login: the account and a token for it.
#[derive(Debug)]
pub struct PostLoginResponse {
    pub id: Uuid,
    pub access_token: String,
}

/// The answer to a signup: the new account.
#[derive(Debug)]
pub struct PostSignUpResponse {
    pub id: Uuid,
}

/// A transfer as a client asks for it.
#[derive(Debug)]
pub struct PostTranscactionPayload {
    pub amount: Decimal,
    pub recipient: Uuid,
    pub sender: Uuid,
}

/// The answer to a transfer: its record.
#[derive(Debug)]
pub struct PostTransactionResponse {
    pub id: Uuid,
    pub amount: Decimal,
    pub recipient: Uuid,
    pub sender: Uuid,
    pub timestamp: i128,
}

impl View for PostTransactionResponse {
    type V = TransactionView;

    open spec fn view(&self) -> TransactionView {
        TransactionView {
            id: self.id@,
            amount: self.amount@,
            recipient: self.recipient@,
            sender: self.sender@,
            timestamp: self.timestamp,
        }
    }
}

impl PostTransactionResponse {
    /// The answer that shows a record.
    pub fn from_record(record: Transaction) -> (r: PostTransactionResponse)
        ensures
            r@ == record@,
            r.amount == record.amount,
    {
        PostTransactionResponse {
            id: record.id,
            amount: record.amount,
            recipient: record.recipient,
            sender: record.sender,
            timestamp: record.timestamp,
        }
    }
}

/// What an account's owner is shown of it.
#[derive(Debug)]
pub struct GetUserResponse {
    pub id: Uuid,
    pub username: String,
    pub balance: Decimal,
}

/// One record in a list of records.
#[derive(Debug)]
pub struct TransactionResponse {
    pub id: Uuid,
    pub amount: Decimal,
    pub recipient: Uuid,
    pub sender: Uuid,
    pub timestamp: i128,
}

impl View for TransactionResponse {
    type V = TransactionView;

    open spec fn view(&self) -> TransactionView {
        TransactionView {
            id: self.id@,
            amount: self.amount@,
            recipient: self.recipient@,
            sender: self.sender@,
            timestamp: self.timestamp,
        }
    }
}

impl TransactionResponse {
    /// The entry that shows a record.
    pub fn from_record(record: Transaction) -> (r: TransactionResponse)
        ensures
            r@ == record@,
            r.amount == record.amount,
    {
        TransactionResponse {
            id: record.id,
            amount: record.amount,
            recipient: record.recipient,
            sender: record.sender,
            timestamp: record.timestamp,
        }
    }
}

/// The records of an account, the most recent first.
#[derive(Debug)]
pub struct GetTransactionsResponse {
    pub transactions: Vec<TransactionResponse>,
}

/// A list of shown records by the values of each.
pub open spec fn responses_view(list: Seq<TransactionResponse>) -> Seq<TransactionView> {
    list.map_values(|t: TransactionResponse| t@)
}

/// `rand::random_range` over `..=u16::MAX`: nothing is known of the outcome
/// but its type.
#[verifier::external_body]
fn random_opening() -> u16 {
    rand::random_range(..=u16::MAX)
}

/// Whether a login at the time `now` succeeds against the row found for the
/// name, and as whom: the account of that row, where the password verifies
/// against its verifier and the token's expiry is a time. No row and a wrong
/// password are refused alike.
pub open spec fn spec_login_with(
    user: Option<UserView>,
    cfg: AuthStateView,
    password: Seq<char>,
    now: i64,
) -> Result<u128, ApiError> {
    match spec_credentials(user, password) {
        Err(refusal) => Err(refusal),
        Ok(id) => if now + cfg.lifetime > i64::MAX {
            Err(ApiError::ServerError)
        } else {
            Ok(id)
        },
    }
}

/// Whether a login at the time `now` succeeds against a ledger, and as whom.
pub open spec fn spec_login(
    l: LedgerView,
    cfg: AuthStateView,
    username: Seq<char>,
    password: Seq<char>,
    now: i64,
) -> Result<u128, ApiError> {
    spec_login_with(l.user_named(username), cfg, password, now)
}

/// Whether `r` is the outcome of a login at the time `now` with the token
/// identifier `token_id`, given what the model says of the credentials:
/// refused as it says, or answered with the account and a token that
/// authenticates as it until its lifetime has passed.
pub open spec fn login_outcome(
    r: Result<PostLoginResponse, ApiError>,
    model: Result<u128, ApiError>,
    cfg: AuthStateView,
    now: i64,
    token_id: u128,
) -> bool {
    match r {
        Err(e) => model == Err::<u128, ApiError>(e),
        Ok(response) => {
            &&& model == Ok::<u128, ApiError>(response.id@)
            &&& token_text(response.access_token@)
            &&& dots(response.access_token@) == 2
            &&& response.access_token@.len() > 0
            &&& spec_decode(ascii_bytes(response.access_token@), cfg.key) == Ok::<
                DecodedTokenView,
                TokenFault,
            >(issued_token(cfg, response.id@, now, token_id))
            &&& forall|at: i64|
                now <= at <= now + cfg.lifetime ==> #[trigger] spec_authenticate(
                    Some(bearer_header(ascii_bytes(response.access_token@))),
                    cfg,
                    at,
                ) == Ok::<u128, ApiError>(response.id@)
        },
    }
}

/// A verifier that a login is held against where no account has the name,
/// so that such a login does the work of one with a wrong password.
pub const DECOY_VERIFIER: &'static str =
    "$argon2id$v=19$m=19456,t=2,p=1$lf+0QZrv/vhTp49G8j+R/Q$9wLEEf2Z1NszdewV3/WjmLAPXWU84ffTJd3R7a9cTiQ";

/// Whose credentials a name and a password are, given the row found for the
/// name: those of the row's account where the password verifies against its
/// verifier. No row and a wrong password are refused alike.
pub open spec fn spec_credentials(user: Option<UserView>, password: Seq<char>) -> Result<
    u128,
    ApiError,
> {
    match user {
        None => Err(ApiError::InvalidUsernameOrPassword),
        Some(user) => if password_verifies(password, user.password_hash) {
            Ok(user.id)
        } else {
            Err(ApiError::InvalidUsernameOrPassword)
        },
    }
}

/// Checks a password against the row found for a name. Where there is no
/// row, the password is held against `DECOY_VERIFIER` all the same, and the
/// login is refused whatever comes of it.
pub fn check_credentials(user: Option<&User>, password: &SecretString) -> (r: Result<
    Uuid,
    ApiError,
>)
    ensures
        r.is_ok() == spec_credentials(row_view(user), password@).is_ok(),
        r matches Ok(id) ==> spec_credentials(row_view(user), password@) == Ok::<u128, ApiError>(
            id@,
        ),
        r matches Err(e) ==> e == ApiError::InvalidUsernameOrPassword,
{
    match user {
        Some(user) => {
            if verify_password(password.expose_secret(), user.password_hash.expose_secret()) {
                Ok(user.id)
            } else {
                Err(ApiError::InvalidUsernameOrPassword)
            }
        },
        None => {
            let _ = verify_password(password.expose_secret(), DECOY_VERIFIER);
            Err(ApiError::InvalidUsernameOrPassword)
        },
    }
}

/// Issues a token to the account `id` at the time `now`, with `token_id` at
/// hand for it, and answers the login with both.
pub fn answer_login(id: Uuid, cfg: &AuthState, now: i64, token_id: Uuid) -> (r: Result<
    PostLoginResponse,
    ApiError,
>)
    ensures
        login_outcome(
            r,
            if now + cfg@.lifetime > i64::MAX {
                Err::<u128, ApiError>(ApiError::ServerError)
            } else {
                Ok::<u128, ApiError>(id@)
            },
            cfg@,
            now,
            token_id@,
        ),
{
    match issue_access_token(cfg, id, now, token_id) {
        Ok(access_token) => Ok(PostLoginResponse { id, access_token }),
        Err(e) => Err(e),
    }
}

/// Checks a password against the row found for a name and, where it
/// verifies, issues a token at the time `now`, in seconds since the epoch,
/// with `token_id` at hand for it.
pub fn login_with(
    user: Option<&User>,
    cfg: &AuthState,
    password: &SecretString,
    now: i64,
    token_id: Uuid,
) -> (r: Result<PostLoginResponse, ApiError>)
    ensures
        login_outcome(r, spec_login_with(row_view(user), cfg@, password@, now), cfg@, now, token_id@),
{
    match check_credentials(user, password) {
        Ok(id) => answer_login(id, cfg, now, token_id),
        Err(e) => Err(e),
    }
}

/// Logs in against a ledger at the time `now`, in seconds since the epoch,
/// with `token_id` at hand for the token.
pub fn login_at(
    ledger: &Ledger,
    cfg: &AuthState,
    payload: &PostLoginPayload,
    now: i64,
    token_id: Uuid,
) -> (r: Result<PostLoginResponse, ApiError>)
    requires
        ledger.wf(),
    ensures
        login_outcome(
            r,
            spec_login(ledger@, cfg@, payload.username@, payload.password@, now),
            cfg@,
            now,
            token_id@,
        ),
{
    login_with(ledger.user_named(&payload.username), cfg, &payload.password, now, token_id)
}

/// Logs in: checks the credentials against the ledger, and for credentials
/// that hold issues a token at the time that the clock shows, under a fresh
/// token identifier. The clock is read only then. Whatever time and
/// identifier are, the outcome is the one that the model gives for them; a
/// clock that shows no time is a server error.
pub fn post_login(ledger: &Ledger, cfg: &AuthState, payload: &PostLoginPayload) -> (r: Result<
    PostLoginResponse,
    ApiError,
>)
    requires
        ledger.wf(),
    ensures
        spec_credentials(ledger@.user_named(payload.username@), payload.password@) is Err ==> r
            is Err && r->Err_0 == ApiError::InvalidUsernameOrPassword,
        spec_credentials(ledger@.user_named(payload.username@), payload.password@) is Ok ==> (r
            is Err && r->Err_0 == ApiError::ServerError) || exists|now: i64, token_id: u128|
            login_outcome(
                r,
                spec_login(ledger@, cfg@, payload.username@, payload.password@, now),
                cfg@,
                now,
                token_id,
            ),
{
    let id = match check_credentials(ledger.user_named(&payload.username), &payload.password) {
        Ok(id) => id,
        Err(e) => {
            return Err(e);
        },
    };
    let now = match crate::clock::token_time_now() {
        Some(now) => now,
        None => {
            return Err(ApiError::ServerError);
        },
    };
    let token_id = Uuid::new_v4();
    let r = answer_login(id, cfg, now, token_id);
    assert(login_outcome(
        r,
        spec_login(ledger@, cfg@, payload.username@, payload.password@, now),
        cfg@,
        now,
        token_id@,
    ));
    r
}

/// Whether ledger and answer are what a signup leaves: refused with the
/// ledger as it was, or the account added with a verifier that the password
/// verifies against, the identifier `id` and the opening balance `opening`.
pub open spec fn signup_outcome(
    r: Result<PostSignUpResponse, ApiError>,
    before: LedgerView,
    after: LedgerView,
    username: Seq<char>,
    password: Seq<char>,
    hash: Seq<char>,
    id: u128,
    opening: u16,
) -> bool {
    let model = before.registered(username, hash, id, opening as real);
    match r {
        Err(e) => after == before && (e == ApiError::ServerError || (model.1 is Err && e
            == model.1->Err_0.spec_to_api())),
        Ok(response) => {
            &&& password_verifies(password, hash)
            &&& model.1 == Ok::<u128, SignupError>(response.id@)
            &&& after == model.0
        },
    }
}

/// Greatest opening balance that is drawn for a new account.
pub const MAX_OPENING_BALANCE: u16 = 65_535;

/// A whole opening balance as an amount.
pub open spec fn whole_amount(opening: u16) -> real {
    opening as real
}

/// Makes the account for a signup, unless the name is taken: with a verifier
/// for the password, a fresh identifier and a whole opening balance drawn at
/// random. Nothing is stored.
pub fn new_account(taken: bool, payload: PostSignupPayload) -> (r: Result<User, ApiError>)
    ensures
        taken ==> r is Err && r->Err_0 == ApiError::UsernameTaken,
        r matches Err(e) ==> (e == ApiError::UsernameTaken && taken) || (e == ApiError::ServerError
            && !taken),
        r matches Ok(user) ==> {
            &&& !taken
            &&& user.username@ == payload.username@
            &&& password_verifies(payload.password@, user.password_hash@)
            &&& version_of(user.id@) == 7
            &&& has_standard_variant(user.id@)
            &&& exists|opening: u16| user.balance@ == #[trigger] whole_amount(opening)
            &&& 0real <= user.balance@ <= MAX_OPENING_BALANCE as real
        },
{
    if taken {
        return Err(ApiError::UsernameTaken);
    }
    let hash = match generate_hash(payload.password.expose_secret()) {
        Some(hash) => hash,
        None => {
            return Err(ApiError::ServerError);
        },
    };
    let id = match Uuid::now_v7() {
        Some(id) => id,
        None => {
            return Err(ApiError::ServerError);
        },
    };
    let opening = random_opening();
    let balance = Decimal::from_u64(opening as u64);
    assert(balance@ == whole_amount(opening));
    Ok(
        User {
            id,
            username: payload.username,
            password_hash: SecretString::new(hash),
            balance,
        },
    )
}

/// Signs up against a ledger: refuses a name that is taken; else makes the
/// account and adds it.
pub fn post_signup(ledger: &mut Ledger, payload: PostSignupPayload) -> (r: Result<
    PostSignUpResponse,
    ApiError,
>)
    requires
        old(ledger).wf(),
    ensures
        final(ledger).wf(),
        old(ledger)@.has_username(payload.username@) ==> r == Err::<PostSignUpResponse, ApiError>(
            ApiError::UsernameTaken,
        ),
        r is Err ==> *final(ledger) == *old(ledger),
        exists|hash: Seq<char>, id: u128, opening: u16|
            signup_outcome(
                r,
                old(ledger)@,
                final(ledger)@,
                payload.username@,
                payload.password@,
                hash,
                id,
                opening,
            ),
{
    let ghost before = ledger@;
    let ghost name = payload.username@;
    let ghost password = payload.password@;
    let taken = ledger.user_named(&payload.username).is_some();
    let user = match new_account(taken, payload) {
        Ok(user) => user,
        Err(e) => {
            assert(signup_outcome(Err(e), before, before, name, password, Seq::empty(), 0, 0));
            return Err(e);
        },
    };
    let ghost hash = user.password_hash@;
    let ghost id = user.id@;
    let ghost opening = choose|opening: u16| user.balance@ == #[trigger] whole_amount(opening);
    let outcome = ledger.register(user.username, user.password_hash, user.id, user.balance);
    let r = match outcome {
        Ok(made) => Ok(PostSignUpResponse { id: made }),
        Err(e) => Err(e.to_api()),
    };
    assert(signup_outcome(r, before, ledger@, name, password, hash, id, opening));
    r
}

/// What a transfer's error is shown as, and its record as it is.
pub open spec fn response_is(
    r: Result<PostTransactionResponse, ApiError>,
    model: Result<TransactionView, TransactionError>,
) -> bool {
    match r {
        Ok(response) => model == Ok::<TransactionView, TransactionError>(response@),
        Err(e) => model is Err && e == model->Err_0.spec_to_api(),
    }
}

/// Whether ledger and answer are what the transfer leaves that is made with
/// the record identifier `record_id` at the time `now`.
pub open spec fn transaction_outcome(
    r: Result<PostTransactionResponse, ApiError>,
    before: LedgerView,
    after: LedgerView,
    principal: u128,
    sender: u128,
    recipient: u128,
    amount: real,
    record_id: u128,
    now: i128,
) -> bool {
    let model = before.transfer(principal, sender, recipient, amount, record_id, now);
    after == model.0 && response_is(r, model.1)
}

/// Transfers on behalf of `principal`. The checks come in this order: the
/// principal is the sender, else permission is denied; the amount is
/// greater than zero, else the request is malformed; sender, recipient and
/// balance, as the ledger refuses them. Only then the clock is read: the
/// transfer is made with a fresh record identifier at the time that it
/// shows, and whatever these two are, ledger and answer are what the model
/// gives for them. A clock that shows no time is a server error.
pub fn post_transaction(
    ledger: &mut Ledger,
    principal: &AuthenticatedUser,
    payload: &PostTranscactionPayload,
) -> (r: Result<PostTransactionResponse, ApiError>)
    requires
        old(ledger).wf(),
    ensures
        final(ledger).wf(),
        r is Err ==> *final(ledger) == *old(ledger),
        principal.subject@ != payload.sender@ ==> r is Err && r->Err_0
            == ApiError::PermissionDenied,
        principal.subject@ == payload.sender@ && !(payload.amount@ > 0real) ==> r is Err
            && r->Err_0 == ApiError::MalformedRequest,
        principal.subject@ == payload.sender@ && payload.amount@ > 0real && old(ledger)@.refusal(
            principal.subject@,
            payload.sender@,
            payload.recipient@,
            payload.amount@,
        ) is Some ==> r is Err && r->Err_0 == old(ledger)@.refusal(
            principal.subject@,
            payload.sender@,
            payload.recipient@,
            payload.amount@,
        )->Some_0.spec_to_api(),
        principal.subject@ == payload.sender@ && payload.amount@ > 0real && old(ledger)@.refusal(
            principal.subject@,
            payload.sender@,
            payload.recipient@,
            payload.amount@,
        ) is None ==> (r is Err && r->Err_0 == ApiError::ServerError) || exists|
            record_id: u128,
            now: i128,
        |
            transaction_outcome(
                r,
                old(ledger)@,
                final(ledger)@,
                principal.subject@,
                payload.sender@,
                payload.recipient@,
                payload.amount@,
                record_id,
                now,
            ),
{
    match must_own(principal, payload.sender) {
        Ok(()) => {},
        Err(e) => {
            return Err(e);
        },
    }
    if !payload.amount.is_positive() {
        return Err(ApiError::MalformedRequest);
    }
    match ledger.refusal(principal, payload.sender, payload.recipient, &payload.amount) {
        Some(refusal) => {
            return Err(refusal.to_api());
        },
        None => {},
    }
    let ghost before = ledger@;
    let record_id = match Uuid::now_v7() {
        Some(id) => id,
        None => {
            return Err(ApiError::ServerError);
        },
    };
    let now = match crate::clock::record_time_now() {
        Some(now) => now,
        None => {
            return Err(ApiError::ServerError);
        },
    };
    let outcome = ledger.transfer_with(
        principal,
        payload.sender,
        payload.recipient,
        &payload.amount,
        record_id,
        now,
    );
    let r = match outcome {
        Ok(record) => Ok(PostTransactionResponse::from_record(record)),
        Err(e) => Err(e.to_api()),
    };
    assert(transaction_outcome(
        r,
        before,
        ledger@,
        principal.subject@,
        payload.sender@,
        payload.recipient@,
        payload.amount@,
        record_id@,
        now,
    ));
    r
}

/// What the owner of the account `user_id` is shown of the row found for it:
/// refused to anyone else; a server error where there is no row.
pub open spec fn spec_show_user(row: Option<UserView>, principal: u128, user_id: u128) -> Result<
    UserView,
    ApiError,
> {
    if principal != user_id {
        Err(ApiError::PermissionDenied)
    } else {
        match row {
            Some(user) => Ok(user),
            None => Err(ApiError::ServerError),
        }
    }
}

/// Whether an account is shown as the model says.
pub open spec fn shown_is(r: Result<GetUserResponse, ApiError>, model: Result<UserView, ApiError>) -> bool {
    match r {
        Err(e) => model == Err::<UserView, ApiError>(e),
        Ok(shown) => {
            &&& model is Ok
            &&& shown.id@ == model->Ok_0.id
            &&& shown.username@ == model->Ok_0.username
            &&& shown.balance@ == model->Ok_0.balance
        },
    }
}

/// Lets pass the owner of the account `user_id` and no one else.
pub fn must_own(principal: &AuthenticatedUser, user_id: Uuid) -> (r: Result<(), ApiError>)
    ensures
        r == (if principal.subject@ == user_id@ {
            Ok::<(), ApiError>(())
        } else {
            Err::<(), ApiError>(ApiError::PermissionDenied)
        }),
{
    if principal.subject != user_id {
        Err(ApiError::PermissionDenied)
    } else {
        Ok(())
    }
}

/// Shows to its owner the row found for an account.
pub fn show_user(row: Option<&User>, principal: &AuthenticatedUser, user_id: Uuid) -> (r: Result<
    GetUserResponse,
    ApiError,
>)
    ensures
        shown_is(r, spec_show_user(row_view(row), principal.subject@, user_id@)),
{
    match must_own(principal, user_id) {
        Ok(()) => {},
        Err(e) => {
            return Err(e);
        },
    }
    match row {
        Some(user) => Ok(
            GetUserResponse {
                id: user.id,
                username: user.username.clone(),
                balance: user.balance.duplicate(),
            },
        ),
        None => Err(ApiError::ServerError),
    }
}

/// Shows an account of a ledger to its owner.
pub fn get_user(ledger: &Ledger, principal: &AuthenticatedUser, user_id: Uuid) -> (r: Result<
    GetUserResponse,
    ApiError,
>)
    requires
        ledger.wf(),
    ensures
        shown_is(r, spec_show_user(ledger@.user(user_id@), principal.subject@, user_id@)),
        r matches Ok(shown) ==> shown.balance@ >= 0real,
{
    show_user(ledger.user(user_id), principal, user_id)
}

/// Lists to its owner the records that involve the account `user_id`, the
/// most recent first.
pub fn get_transactions(ledger: &Ledger, principal: &AuthenticatedUser, user_id: Uuid) -> (r:
    Result<GetTransactionsResponse, ApiError>)
    requires
        ledger.wf(),
    ensures
        principal.subject@ != user_id@ ==> r == Err::<GetTransactionsResponse, ApiError>(
            ApiError::PermissionDenied,
        ),
        principal.subject@ == user_id@ ==> r is Ok && responses_view(r.unwrap().transactions@)
            == history_of(ledger@.transactions, user_id@),
        r matches Ok(listed) ==> forall|g: int, h: int|
            0 <= g < h < listed.transactions@.len() ==> (#[trigger] listed.transactions@[g]).timestamp
                >= (#[trigger] listed.transactions@[h]).timestamp,
{
    proof {
        lemma_history_newest_first(ledger@.transactions, user_id@);
    }
    match must_own(principal, user_id) {
        Ok(()) => {},
        Err(e) => {
            return Err(e);
        },
    }
    let records = ledger.history(user_id);
    let ghost all = transactions_view(records@);
    let mut shown: Vec<TransactionResponse> = Vec::new();
    let mut k: usize = 0;
    while k < records.len()
        invariant
            k <= records.len(),
            transactions_view(records@) == all,
            responses_view(shown@) =~= all.take(k as int),
        decreases records.len() - k,
    {
        let record = records[k].duplicate();
        assert(all[k as int] == records@[k as int]@);
        let ghost before = responses_view(shown@);
        shown.push(TransactionResponse::from_record(record));
        assert(responses_view(shown@) =~= before.push(all[k as int]));
        k += 1;
    }
    assert(all.take(k as int) =~= all);
    assert forall|g: int, h: int| 0 <= g < h < shown@.len() implies (#[trigger] shown@[g]).timestamp
        >= (#[trigger] shown@[h]).timestamp by {
        assert(shown@[g]@ == responses_view(shown@)[g]);
        assert(shown@[h]@ == responses_view(shown@)[h]);
    }
    Ok(GetTransactionsResponse { transactions: shown })
}

/// Whether a ledger holds everything that another held, in the same places,
/// and the same records.
pub open spec fn extends(after: LedgerView, before: LedgerView) -> bool {
    &&& before.users.len() <= after.users.len()
    &&& after.users.take(before.users.len() as int) == before.users
    &&& after.transactions == before.transactions
}

/// Makes an account with a verifier for the password, a fresh identifier and
/// a whole opening balance. Nothing is stored.
pub fn make_user(username: &str, password: &str, opening: u64) -> (r: Result<User, ApiError>)
    ensures
        r matches Err(e) ==> e == ApiError::ServerError,
        r matches Ok(user) ==> {
            &&& user.username@ == username@
            &&& password_verifies(password@, user.password_hash@)
            &&& user.balance@ == opening as real
            &&& version_of(user.id@) == 7
            &&& has_standard_variant(user.id@)
        },
{
    let hash = match generate_hash(password) {
        Some(hash) => hash,
        None => {
            return Err(ApiError::ServerError);
        },
    };
    let id = match Uuid::now_v7() {
        Some(id) => id,
        None => {
            return Err(ApiError::ServerError);
        },
    };
    Ok(
        User {
            id,
            username: username.to_owned(),
            password_hash: SecretString::new(hash),
            balance: Decimal::from_u64(opening),
        },
    )
}

/// The two accounts that every installation starts with, freshly made:
/// `john_doe` with the password `abc123` and 12345, `mary_jane` with the
/// password `password` and 45678.
pub fn fixture_accounts() -> (r: Result<Vec<User>, ApiError>)
    ensures
        r matches Err(e) ==> e == ApiError::ServerError,
        r matches Ok(users) ==> {
            &&& users@.len() == 2
            &&& users@[0].username@ == "john_doe"@
            &&& password_verifies("abc123"@, users@[0].password_hash@)
            &&& users@[0].balance@ == 12_345real
            &&& users@[1].username@ == "mary_jane"@
            &&& password_verifies("password"@, users@[1].password_hash@)
            &&& users@[1].balance@ == 45_678real
            &&& forall|i: int|
                0 <= i < 2 ==> version_of((#[trigger] users@[i]).id@) == 7 && has_standard_variant(
                    users@[i].id@,
                )
        },
{
    let john = match make_user("john_doe", "abc123", 12_345) {
        Ok(user) => user,
        Err(e) => {
            return Err(e);
        },
    };
    let mary = match make_user("mary_jane", "password", 45_678) {
        Ok(user) => user,
        Err(e) => {
            return Err(e);
        },
    };
    let mut users: Vec<User> = Vec::new();
    users.push(john);
    users.push(mary);
    Ok(users)
}

/// Whether the account of the name `name` is, after a ledger was seeded, the
/// one that the ledger held before, or else a new one with the opening
/// balance `opening` and a verifier for `password`.
pub open spec fn seeded(
    before: LedgerView,
    after: LedgerView,
    name: Seq<char>,
    password: Seq<char>,
    opening: real,
) -> bool {
    &&& after.user_named(name) is Some
    &&& if before.has_username(name) {
        after.user_named(name) == before.user_named(name)
    } else {
        let user = after.user_named(name).unwrap();
        user.balance == opening && password_verifies(password, user.password_hash)
    }
}

/// Adds an account to a ledger unless its name is taken, in which case
/// nothing happens.
pub fn ensure_user(ledger: &mut Ledger, user: User) -> (r: Result<(), ApiError>)
    requires
        old(ledger).wf(),
        user.balance@ >= 0real,
    ensures
        final(ledger).wf(),
        extends(final(ledger)@, old(ledger)@),
        old(ledger)@.has_username(user.username@) ==> r is Ok && *final(ledger) == *old(ledger),
        !old(ledger)@.has_username(user.username@) && r is Ok ==> final(ledger)@ == old(
            ledger,
        )@.registered(user.username@, user.password_hash@, user.id@, user.balance@).0
            && final(ledger)@.user_named(user.username@) == Some(user@),
        r is Ok ==> final(ledger)@.has_username(user.username@),
        r is Ok <==> old(ledger)@.has_username(user.username@) || !old(ledger)@.has_user(user.id@),
        r matches Err(e) ==> e == ApiError::ServerError && *final(ledger) == *old(ledger),
{
    let ghost before = ledger@;
    let ghost name = user.username@;
    let ghost row = user@;
    assert(before.users.take(before.users.len() as int) =~= before.users);
    if ledger.user_named(&user.username).is_some() {
        return Ok(());
    }
    match ledger.register(user.username, user.password_hash, user.id, user.balance) {
        Ok(_) => {
            proof {
                let n = before.users.len() as int;
                assert(ledger@.users.take(n) =~= before.users);
                assert(ledger@.users[n] == row);
                lemma_username_index(ledger@, n);
            }
            Ok(())
        },
        Err(_) => Err(ApiError::ServerError),
    }
}

/// An account keeps its place and its values in a ledger that extends the
/// one which holds it.
proof fn lemma_extension_keeps_named(before: LedgerView, after: LedgerView, name: Seq<char>)
    requires
        before.wf(),
        after.wf(),
        extends(after, before),
        before.has_username(name),
    ensures
        after.has_username(name),
        after.user_named(name) == before.user_named(name),
{
    let i = before.username_index(name);
    assert(0 <= i < before.users.len() && before.users[i].username == name);
    assert(after.users.take(before.users.len() as int)[i] == after.users[i]);
    lemma_username_index(after, i);
}

/// Makes sure that a ledger holds an account of the name `username`: one
/// that it holds stays as it is, and nothing is made; else an account is made
/// with a verifier for `password` and the whole opening balance `opening`.
pub fn ensure_fixture(ledger: &mut Ledger, username: &str, password: &str, opening: u64) -> (r:
    Result<(), ApiError>)
    requires
        old(ledger).wf(),
    ensures
        final(ledger).wf(),
        extends(final(ledger)@, old(ledger)@),
        old(ledger)@.has_username(username@) ==> r is Ok && *final(ledger) == *old(ledger),
        r is Ok ==> seeded(old(ledger)@, final(ledger)@, username@, password@, opening as real),
        forall|i: int|
            old(ledger)@.users.len() <= i < final(ledger)@.users.len() ==> (
            #[trigger] final(ledger)@.users[i]).username == username@,
        r matches Err(e) ==> e == ApiError::ServerError && *final(ledger) == *old(ledger),
{
    let ghost before = ledger@;
    assert(before.users.take(before.users.len() as int) =~= before.users);
    let name = username.to_owned();
    if ledger.user_named(&name).is_some() {
        return Ok(());
    }
    let user = match make_user(username, password, opening) {
        Ok(user) => user,
        Err(e) => {
            return Err(e);
        },
    };
    ensure_user(ledger, user)
}

/// Makes sure that a ledger holds the two accounts which every installation
/// starts with: `john_doe` with the password `abc123` and 12345, `mary_jane`
/// with the password `password` and 45678. Accounts that exist stay as they
/// are, whatever their password and balance; where both exist nothing is
/// made, nothing changes and nothing fails.
pub fn create_user_fixtures(ledger: &mut Ledger) -> (r: Result<(), ApiError>)
    requires
        old(ledger).wf(),
    ensures
        final(ledger).wf(),
        extends(final(ledger)@, old(ledger)@),
        old(ledger)@.has_username("john_doe"@) && old(ledger)@.has_username("mary_jane"@) ==> r
            is Ok && *final(ledger) == *old(ledger),
        r is Ok ==> seeded(old(ledger)@, final(ledger)@, "john_doe"@, "abc123"@, 12_345real),
        r is Ok ==> seeded(old(ledger)@, final(ledger)@, "mary_jane"@, "password"@, 45_678real),
        r matches Err(e) ==> e == ApiError::ServerError,
{
    let ghost before = ledger@;
    assert(before.users.take(before.users.len() as int) =~= before.users);
    match ensure_fixture(ledger, "john_doe", "abc123", 12_345) {
        Ok(()) => {},
        Err(e) => {
            return Err(e);
        },
    }
    let ghost between = ledger@;
    let r = ensure_fixture(ledger, "mary_jane", "password", 45_678);
    proof {
        let n = before.users.len() as int;
        let m = between.users.len() as int;
        assert(ledger@.users.take(n) =~= ledger@.users.take(m).take(n));
        if before.has_username("mary_jane"@) {
            lemma_extension_keeps_named(before, between, "mary_jane"@);
        }
        if r is Ok {
            reveal_strlit("john_doe");
            reveal_strlit("mary_jane");
            assert("john_doe"@.len() != "mary_jane"@.len());
            lemma_extension_keeps_named(between, ledger@, "john_doe"@);
            if before.has_username("john_doe"@) {
                lemma_extension_keeps_named(before, between, "john_doe"@);
            }
            if before.has_username("mary_jane"@) {
                lemma_extension_keeps_named(between, ledger@, "mary_jane"@);
            } else {
                if between.has_username("mary_jane"@) {
                    let i = between.username_index("mary_jane"@);
                    assert(0 <= i < m && between.users[i].username == "mary_jane"@);
                    if i < n {
                        assert(between.users.take(n)[i] == between.users[i]);
                        assert(before.users[i].username == "mary_jane"@);
                    } else {
                        assert(between.users[i].username == "john_doe"@);
                    }
                }
                assert(!between.has_username("mary_jane"@));
            }
        }
    }
    r
}

} // verus!
