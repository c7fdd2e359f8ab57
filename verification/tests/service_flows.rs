use bank_core::claims::AuthenticatedUser;
use bank_core::decimal::Decimal;
use bank_core::error::ApiError;
use bank_core::ident::Uuid;
use bank_core::ledger::Ledger;
use bank_core::secret::SecretString;
use bank_core::service::{
    answer_login, check_credentials, create_user_fixtures, ensure_fixture, ensure_user,
    fixture_accounts, get_transactions, get_user, login_at, login_with, make_user, must_own,
    new_account, post_login, post_signup, post_transaction, show_user, PostLoginPayload,
    PostSignupPayload, PostTranscactionPayload, RawRequestBody, DECOY_VERIFIER,
};
use bank_core::state::AuthState;
use bank_core::token::{authenticate_at, authenticate_with_jwt_access_token, bearer_header_value};

fn config() -> AuthState {
    AuthState::new(
        vec![9u8; 64],
        "https://issuer.example/".to_string(),
        "https://audience.example/".to_string(),
        Uuid::from_u128(77),
        900,
    )
    .unwrap()
}

fn signup(name: &str, password: &str) -> PostSignupPayload {
    PostSignupPayload { username: name.to_string(), password: SecretString::new(password.to_string()) }
}

fn login(name: &str, password: &str) -> PostLoginPayload {
    PostLoginPayload { username: name.to_string(), password: SecretString::new(password.to_string()) }
}

#[test]
fn signup_with_a_taken_name_is_refused_and_the_accounts_stay() {
    let mut ledger = Ledger::new();
    let first = post_signup(&mut ledger, signup("alice", "pw-1")).unwrap();
    assert_eq!(ledger.user_count(), 1);
    let before = ledger.user(first.id).unwrap().balance.to_text();
    assert_eq!(post_signup(&mut ledger, signup("alice", "pw-2")).unwrap_err(), ApiError::UsernameTaken);
    assert_eq!(ledger.user_count(), 1);
    assert_eq!(ledger.user_named(&"alice".to_string()).unwrap().id, first.id);
    assert_eq!(ledger.user(first.id).unwrap().balance.to_text(), before);
    assert_eq!(ApiError::UsernameTaken.status_code(), 400);
    let cfg = config();
    assert!(login_at(&ledger, &cfg, &login("alice", "pw-1"), 1000, Uuid::from_u128(1)).is_ok());
    assert!(login_at(&ledger, &cfg, &login("alice", "pw-2"), 1000, Uuid::from_u128(1)).is_err());
}

#[test]
fn signup_opens_an_account_with_a_whole_balance_that_is_not_negative() {
    let mut ledger = Ledger::new();
    let a = post_signup(&mut ledger, signup("alice", "pw-1")).unwrap();
    let b = post_signup(&mut ledger, signup("bob", "pw-2")).unwrap();
    assert_ne!(a.id, b.id);
    assert_eq!(ledger.user_count(), 2);
    let user = ledger.user(a.id).unwrap();
    assert_eq!(user.username, "alice");
    assert!(!user.balance.is_negative());
    assert!(!Decimal::from_u64(65_535).lt(&user.balance));
    assert!(user.balance.to_text().chars().all(|c| c.is_ascii_digit()));
    assert_ne!(user.password_hash.expose_secret(), "pw-1");
}

#[test]
fn login_answers_with_a_token_for_the_account() {
    let mut ledger = Ledger::new();
    let cfg = config();
    let made = post_signup(&mut ledger, signup("alice", "correct horse")).unwrap();
    let answer =
        login_at(&ledger, &cfg, &login("alice", "correct horse"), 5_000, Uuid::from_u128(3)).unwrap();
    assert_eq!(answer.id, made.id);
    let header = bearer_header_value(&answer.access_token);
    assert_eq!(
        authenticate_at(Some(&header), &cfg, 5_000),
        Ok(AuthenticatedUser { subject: made.id })
    );
    assert_eq!(
        authenticate_at(Some(&header), &cfg, 5_900),
        Ok(AuthenticatedUser { subject: made.id })
    );
    assert!(authenticate_at(Some(&header), &cfg, 5_901).is_err());
    let answer = post_login(&ledger, &cfg, &login("alice", "correct horse")).unwrap();
    assert_eq!(answer.id, made.id);
    assert_eq!(
        authenticate_with_jwt_access_token(&cfg, Some(&bearer_header_value(&answer.access_token))),
        Ok(AuthenticatedUser { subject: made.id })
    );
}

#[test]
fn unknown_name_and_wrong_password_are_refused_alike() {
    let mut ledger = Ledger::new();
    let cfg = config();
    post_signup(&mut ledger, signup("alice", "correct horse")).unwrap();
    let wrong = post_login(&ledger, &cfg, &login("alice", "battery staple")).unwrap_err();
    let unknown = post_login(&ledger, &cfg, &login("mallory", "correct horse")).unwrap_err();
    assert_eq!(wrong, ApiError::InvalidUsernameOrPassword);
    assert_eq!(unknown, wrong);
    assert_eq!(unknown.status_code(), 403);
    assert_eq!(unknown.title(), wrong.title());
    assert_eq!(
        post_login(&ledger, &cfg, &login("alice", "")).unwrap_err(),
        ApiError::InvalidUsernameOrPassword
    );
}

#[test]
fn login_fails_as_a_server_error_where_the_expiry_is_no_time() {
    let mut ledger = Ledger::new();
    let cfg = config();
    post_signup(&mut ledger, signup("alice", "pw")).unwrap();
    assert_eq!(
        login_at(&ledger, &cfg, &login("alice", "pw"), i64::MAX, Uuid::from_u128(3)).unwrap_err(),
        ApiError::ServerError
    );
    assert_eq!(
        login_at(&ledger, &cfg, &login("alice", "no"), i64::MAX, Uuid::from_u128(3)).unwrap_err(),
        ApiError::InvalidUsernameOrPassword
    );
}

#[test]
fn credentials_in_the_clear_are_taken_into_keeping() {
    let body = RawRequestBody { username: "alice".to_string(), password: "pw".to_string() };
    let payload = body.into_login();
    assert_eq!(payload.username, "alice");
    assert_eq!(payload.password.expose_secret(), "pw");
    let body = RawRequestBody { username: "bob".to_string(), password: "pw2".to_string() };
    let payload = body.into_signup();
    assert_eq!(payload.username, "bob");
    assert_eq!(payload.password.expose_secret(), "pw2");
    assert!(!format!("{:?}", payload).contains("pw2"));
}

fn funded() -> (Ledger, Uuid, Uuid) {
    let mut ledger = Ledger::new();
    let a = Uuid::from_u128(1);
    let b = Uuid::from_u128(2);
    ledger
        .register("alice".to_string(), SecretString::new("h".to_string()), a, Decimal::parse("100.00").unwrap())
        .unwrap();
    ledger
        .register("bob".to_string(), SecretString::new("h".to_string()), b, Decimal::parse("10.00").unwrap())
        .unwrap();
    (ledger, a, b)
}

fn order(amount: &str, sender: Uuid, recipient: Uuid) -> PostTranscactionPayload {
    PostTranscactionPayload { amount: Decimal::parse(amount).unwrap(), recipient, sender }
}

#[test]
fn transaction_request_moves_the_amount_and_answers_with_the_record() {
    let (mut ledger, a, b) = funded();
    let who = AuthenticatedUser { subject: a };
    let answer = post_transaction(&mut ledger, &who, &order("40.00", a, b)).unwrap();
    assert_eq!(answer.amount.to_text(), "40.00");
    assert_eq!(answer.sender, a);
    assert_eq!(answer.recipient, b);
    assert_eq!(ledger.user(a).unwrap().balance.to_text(), "60.00");
    assert_eq!(ledger.user(b).unwrap().balance.to_text(), "50.00");
    assert_eq!(ledger.transaction_count(), 1);
    assert_eq!(ledger.history(a)[0].id, answer.id);
    assert_eq!(ledger.history(a)[0].timestamp, answer.timestamp);
}

#[test]
fn transaction_request_is_refused_as_the_taxonomy_says() {
    let (mut ledger, a, b) = funded();
    let who = AuthenticatedUser { subject: a };
    let stranger = Uuid::from_u128(3);
    assert_eq!(
        post_transaction(&mut ledger, &who, &order("100.01", a, b)).unwrap_err(),
        ApiError::InsufficientBalance
    );
    assert_eq!(
        post_transaction(&mut ledger, &who, &order("1", b, a)).unwrap_err(),
        ApiError::PermissionDenied
    );
    assert_eq!(
        post_transaction(&mut ledger, &who, &order("1", a, stranger)).unwrap_err(),
        ApiError::InvalidRecipient
    );
    assert_eq!(
        post_transaction(&mut ledger, &AuthenticatedUser { subject: stranger }, &order("1", stranger, a))
            .unwrap_err(),
        ApiError::ServerError
    );
    assert_eq!(ledger.user(a).unwrap().balance.to_text(), "100.00");
    assert_eq!(ledger.user(b).unwrap().balance.to_text(), "10.00");
    assert_eq!(ledger.transaction_count(), 0);
}

#[test]
fn amount_that_is_not_positive_is_a_malformed_request() {
    let (mut ledger, a, b) = funded();
    let who = AuthenticatedUser { subject: a };
    for amount in ["0", "0.00", "-1", "-0.01"] {
        assert_eq!(
            post_transaction(&mut ledger, &who, &order(amount, a, b)).unwrap_err(),
            ApiError::MalformedRequest
        );
    }
    assert_eq!(
        post_transaction(&mut ledger, &AuthenticatedUser { subject: b }, &order("-5", b, a))
            .unwrap_err(),
        ApiError::MalformedRequest
    );
    assert_eq!(ledger.user(a).unwrap().balance.to_text(), "100.00");
    assert_eq!(ledger.user(b).unwrap().balance.to_text(), "10.00");
    assert_eq!(ledger.transaction_count(), 0);
}

#[test]
fn account_is_shown_to_its_owner_only() {
    let (ledger, a, b) = funded();
    let shown = get_user(&ledger, &AuthenticatedUser { subject: a }, a).unwrap();
    assert_eq!(shown.id, a);
    assert_eq!(shown.username, "alice");
    assert_eq!(shown.balance.to_text(), "100.00");
    assert_eq!(
        get_user(&ledger, &AuthenticatedUser { subject: b }, a).unwrap_err(),
        ApiError::PermissionDenied
    );
    let ghost = Uuid::from_u128(5);
    assert_eq!(
        get_user(&ledger, &AuthenticatedUser { subject: ghost }, ghost).unwrap_err(),
        ApiError::ServerError
    );
}

#[test]
fn records_are_listed_to_the_owner_most_recent_first() {
    let (mut ledger, a, b) = funded();
    let alice = AuthenticatedUser { subject: a };
    let bob = AuthenticatedUser { subject: b };
    ledger.transfer_with(&alice, a, b, &Decimal::parse("1").unwrap(), Uuid::from_u128(10), 100).unwrap();
    ledger.transfer_with(&bob, b, a, &Decimal::parse("2").unwrap(), Uuid::from_u128(11), 200).unwrap();
    ledger.transfer_with(&alice, a, a, &Decimal::parse("3").unwrap(), Uuid::from_u128(12), 300).unwrap();
    let listed = get_transactions(&ledger, &bob, b).unwrap().transactions;
    assert_eq!(listed.len(), 2);
    assert_eq!(listed[0].id, Uuid::from_u128(11));
    assert_eq!(listed[0].amount.to_text(), "2");
    assert_eq!(listed[0].sender, b);
    assert_eq!(listed[0].recipient, a);
    assert_eq!(listed[0].timestamp, 200);
    assert_eq!(listed[1].id, Uuid::from_u128(10));
    assert_eq!(listed[1].timestamp, 100);
    let listed = get_transactions(&ledger, &alice, a).unwrap().transactions;
    let ids: Vec<u128> = listed.iter().map(|t| t.id.as_u128()).collect();
    assert_eq!(ids, vec![12, 11, 10]);
    assert_eq!(get_transactions(&ledger, &alice, b).unwrap_err(), ApiError::PermissionDenied);
    let nobody = Uuid::from_u128(99);
    assert!(get_transactions(&ledger, &AuthenticatedUser { subject: nobody }, nobody)
        .unwrap()
        .transactions
        .is_empty());
}

#[test]
fn fixtures_are_made_once() {
    let mut ledger = Ledger::new();
    create_user_fixtures(&mut ledger).unwrap();
    assert_eq!(ledger.user_count(), 2);
    let john = ledger.user_named(&"john_doe".to_string()).unwrap().id;
    let mary = ledger.user_named(&"mary_jane".to_string()).unwrap().id;
    assert_eq!(ledger.user(john).unwrap().balance.to_text(), "12345");
    assert_eq!(ledger.user(mary).unwrap().balance.to_text(), "45678");
    create_user_fixtures(&mut ledger).unwrap();
    assert_eq!(ledger.user_count(), 2);
    assert_eq!(ledger.user_named(&"john_doe".to_string()).unwrap().id, john);
    assert_eq!(ledger.user_named(&"mary_jane".to_string()).unwrap().id, mary);
    let cfg = config();
    assert!(login_at(&ledger, &cfg, &login("john_doe", "abc123"), 0, Uuid::from_u128(1)).is_ok());
    assert!(login_at(&ledger, &cfg, &login("mary_jane", "password"), 0, Uuid::from_u128(1)).is_ok());
    assert!(login_at(&ledger, &cfg, &login("john_doe", "password"), 0, Uuid::from_u128(1)).is_err());
}

#[test]
fn user_is_added_unless_the_name_is_taken() {
    let mut ledger = Ledger::new();
    ensure_user(&mut ledger, make_user("eve", "pw", 5).unwrap()).unwrap();
    let id = ledger.user_named(&"eve".to_string()).unwrap().id;
    ensure_user(&mut ledger, make_user("eve", "other", 500).unwrap()).unwrap();
    assert_eq!(ledger.user_count(), 1);
    assert_eq!(ledger.user(id).unwrap().balance.to_text(), "5");
    let cfg = config();
    assert!(login_at(&ledger, &cfg, &login("eve", "pw"), 0, Uuid::from_u128(1)).is_ok());
    assert!(login_at(&ledger, &cfg, &login("eve", "other"), 0, Uuid::from_u128(1)).is_err());
}

#[test]
fn fixture_accounts_are_john_and_mary() {
    let accounts = fixture_accounts().unwrap();
    assert_eq!(accounts.len(), 2);
    assert_eq!(accounts[0].username, "john_doe");
    assert_eq!(accounts[0].balance.to_text(), "12345");
    assert_eq!(accounts[1].username, "mary_jane");
    assert_eq!(accounts[1].balance.to_text(), "45678");
    assert_ne!(accounts[0].id, accounts[1].id);
    let cfg = config();
    let secret = |text: &str| SecretString::new(text.to_string());
    assert!(login_with(Some(&accounts[0]), &cfg, &secret("abc123"), 0, Uuid::from_u128(1)).is_ok());
    assert!(login_with(Some(&accounts[1]), &cfg, &secret("password"), 0, Uuid::from_u128(1)).is_ok());
    assert_eq!(
        login_with(Some(&accounts[1]), &cfg, &secret("abc123"), 0, Uuid::from_u128(1)).unwrap_err(),
        ApiError::InvalidUsernameOrPassword
    );
    assert_eq!(
        login_with(None, &cfg, &secret("abc123"), 0, Uuid::from_u128(1)).unwrap_err(),
        ApiError::InvalidUsernameOrPassword
    );
}

#[test]
fn new_account_is_made_unless_the_name_is_taken() {
    assert_eq!(new_account(true, signup("alice", "pw")).unwrap_err(), ApiError::UsernameTaken);
    let user = new_account(false, signup("alice", "pw")).unwrap();
    assert_eq!(user.username, "alice");
    assert!(!user.balance.is_negative());
    assert!(!Decimal::from_u64(65_535).lt(&user.balance));
    let cfg = config();
    assert!(login_with(
        Some(&user),
        &cfg,
        &SecretString::new("pw".to_string()),
        0,
        Uuid::from_u128(1)
    )
    .is_ok());
}

#[test]
fn row_is_shown_to_its_owner_only() {
    let user = make_user("alice", "pw", 7).unwrap();
    let owner = AuthenticatedUser { subject: user.id };
    let other = AuthenticatedUser { subject: Uuid::from_u128(1) };
    assert_eq!(must_own(&owner, user.id), Ok(()));
    assert_eq!(must_own(&other, user.id), Err(ApiError::PermissionDenied));
    let shown = show_user(Some(&user), &owner, user.id).unwrap();
    assert_eq!(shown.id, user.id);
    assert_eq!(shown.username, "alice");
    assert_eq!(shown.balance.to_text(), "7");
    assert_eq!(show_user(Some(&user), &other, user.id).unwrap_err(), ApiError::PermissionDenied);
    assert_eq!(show_user(None, &other, user.id).unwrap_err(), ApiError::PermissionDenied);
    assert_eq!(show_user(None, &owner, user.id).unwrap_err(), ApiError::ServerError);
}

#[test]
fn transfer_by_another_than_the_sender_is_denied_whatever_the_amount() {
    let (mut ledger, a, b) = funded();
    let bob = AuthenticatedUser { subject: b };
    let stranger = AuthenticatedUser { subject: Uuid::from_u128(9) };
    for amount in ["-5", "0", "0.00", "1", "1000"] {
        assert_eq!(
            post_transaction(&mut ledger, &bob, &order(amount, a, b)).unwrap_err(),
            ApiError::PermissionDenied,
            "{}",
            amount
        );
        assert_eq!(
            post_transaction(&mut ledger, &stranger, &order(amount, a, Uuid::from_u128(8)))
                .unwrap_err(),
            ApiError::PermissionDenied
        );
        assert_eq!(
            post_transaction(&mut ledger, &stranger, &order(amount, Uuid::from_u128(7), b))
                .unwrap_err(),
            ApiError::PermissionDenied
        );
    }
    assert_eq!(ApiError::PermissionDenied.status_code(), 403);
    assert_eq!(ledger.user(a).unwrap().balance.to_text(), "100.00");
    assert_eq!(ledger.user(b).unwrap().balance.to_text(), "10.00");
    assert_eq!(ledger.transaction_count(), 0);
}

#[test]
fn refusals_of_a_transaction_come_in_order() {
    let (mut ledger, a, b) = funded();
    let ghost = Uuid::from_u128(5);
    let nobody = Uuid::from_u128(6);
    let alice = AuthenticatedUser { subject: a };
    let spirit = AuthenticatedUser { subject: ghost };
    assert_eq!(
        post_transaction(&mut ledger, &spirit, &order("0", ghost, nobody)).unwrap_err(),
        ApiError::MalformedRequest
    );
    assert_eq!(
        post_transaction(&mut ledger, &spirit, &order("1", ghost, nobody)).unwrap_err(),
        ApiError::ServerError
    );
    assert_eq!(
        post_transaction(&mut ledger, &alice, &order("1000", a, nobody)).unwrap_err(),
        ApiError::InvalidRecipient
    );
    assert_eq!(
        post_transaction(&mut ledger, &alice, &order("1000", a, b)).unwrap_err(),
        ApiError::InsufficientBalance
    );
    assert!(post_transaction(&mut ledger, &alice, &order("100", a, b)).is_ok());
    assert_eq!(ledger.transaction_count(), 1);
}

#[test]
fn credentials_are_checked_against_the_row() {
    let user = make_user("alice", "pw", 7).unwrap();
    let secret = |text: &str| SecretString::new(text.to_string());
    assert_eq!(check_credentials(Some(&user), &secret("pw")), Ok(user.id));
    assert_eq!(
        check_credentials(Some(&user), &secret("pW")),
        Err(ApiError::InvalidUsernameOrPassword)
    );
    assert_eq!(check_credentials(None, &secret("pw")), Err(ApiError::InvalidUsernameOrPassword));
    assert_eq!(
        check_credentials(None, &secret("no account has this password")),
        Err(ApiError::InvalidUsernameOrPassword)
    );
}

#[test]
fn decoy_is_a_verifier_of_the_kind_that_accounts_have() {
    let made = bank_core::password::generate_hash("x").unwrap();
    let parameters = |text: &str| text.split('$').take(4).map(str::to_owned).collect::<Vec<_>>();
    assert_eq!(parameters(DECOY_VERIFIER), parameters(&made));
    assert!(bank_core::password::verify_password("no account has this password", DECOY_VERIFIER));
    assert!(!bank_core::password::verify_password("pw", DECOY_VERIFIER));
    assert_eq!(password_auth::is_hash_obsolete(DECOY_VERIFIER), Ok(false));
}

#[test]
fn login_is_answered_with_a_token_for_the_account() {
    let cfg = config();
    let id = Uuid::from_u128(77);
    let answer = answer_login(id, &cfg, 1_000, Uuid::from_u128(3)).unwrap();
    assert_eq!(answer.id, id);
    assert_eq!(
        authenticate_at(Some(&bearer_header_value(&answer.access_token)), &cfg, 1_900),
        Ok(AuthenticatedUser { subject: id })
    );
    assert_eq!(
        answer_login(id, &cfg, i64::MAX, Uuid::from_u128(3)).unwrap_err(),
        ApiError::ServerError
    );
}

#[test]
fn fixture_is_made_only_where_the_name_is_free() {
    let mut ledger = Ledger::new();
    ensure_fixture(&mut ledger, "eve", "pw", 5).unwrap();
    let id = ledger.user_named(&"eve".to_string()).unwrap().id;
    let hash = ledger.user(id).unwrap().password_hash.expose_secret().to_owned();
    ensure_fixture(&mut ledger, "eve", "other", 500).unwrap();
    assert_eq!(ledger.user_count(), 1);
    assert_eq!(ledger.user(id).unwrap().balance.to_text(), "5");
    assert_eq!(ledger.user(id).unwrap().password_hash.expose_secret(), hash);
}

#[test]
fn user_with_a_taken_identifier_is_not_added() {
    let mut ledger = Ledger::new();
    let eve = make_user("eve", "pw", 5).unwrap();
    let id = eve.id;
    ensure_user(&mut ledger, eve).unwrap();
    let mut twin = make_user("mallory", "pw", 5).unwrap();
    twin.id = id;
    assert_eq!(ensure_user(&mut ledger, twin).unwrap_err(), ApiError::ServerError);
    assert_eq!(ledger.user_count(), 1);
    let mut namesake = make_user("eve", "pw", 9).unwrap();
    namesake.id = id;
    assert_eq!(ensure_user(&mut ledger, namesake), Ok(()));
    assert_eq!(ledger.user_count(), 1);
    assert_eq!(ledger.user(id).unwrap().balance.to_text(), "5");
}

#[test]
fn fixtures_made_again_change_nothing() {
    let mut ledger = Ledger::new();
    create_user_fixtures(&mut ledger).unwrap();
    let john = ledger.user_named(&"john_doe".to_string()).unwrap();
    let mary = ledger.user_named(&"mary_jane".to_string()).unwrap();
    let before = (
        john.id,
        john.password_hash.expose_secret().to_owned(),
        john.balance.to_text(),
        mary.id,
        mary.password_hash.expose_secret().to_owned(),
        mary.balance.to_text(),
    );
    for _ in 0..3 {
        assert_eq!(create_user_fixtures(&mut ledger), Ok(()));
    }
    let john = ledger.user_named(&"john_doe".to_string()).unwrap();
    let mary = ledger.user_named(&"mary_jane".to_string()).unwrap();
    let after = (
        john.id,
        john.password_hash.expose_secret().to_owned(),
        john.balance.to_text(),
        mary.id,
        mary.password_hash.expose_secret().to_owned(),
        mary.balance.to_text(),
    );
    assert_eq!(before, after);
    assert_eq!(ledger.user_count(), 2);
}

#[test]
fn made_accounts_have_identifiers_of_version_seven() {
    let made = [
        make_user("alice", "pw", 7).unwrap().id,
        new_account(false, signup("bob", "pw")).unwrap().id,
        fixture_accounts().unwrap()[0].id,
        fixture_accounts().unwrap()[1].id,
    ];
    for id in made {
        assert_eq!((id.as_u128() >> 76) & 0xf, 7);
        assert!((8..=11).contains(&((id.as_u128() >> 60) & 0xf)));
    }
}
