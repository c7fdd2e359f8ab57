use bank_core::clock::{
    fetch_unix_time, record_time_now, token_time_now, token_time_of, unix_time_of,
    MAX_RECORD_TIME, MIN_RECORD_TIME,
};
use bank_core::error::{ApiError, AppError, TokenFault};
use bank_core::password::{generate_hash, verify_password};
use bank_core::secret::SecretString;

#[test]
fn each_outcome_has_its_status_and_title() {
    let table = [
        (ApiError::Unauthenticated, 401, "Unauthenticated"),
        (ApiError::MalformedRequest, 400, "MalformedRequest"),
        (ApiError::InvalidToken(TokenFault::Expired), 401, "InvalidToken"),
        (ApiError::PermissionDenied, 403, "PermissionDenied"),
        (ApiError::InvalidUsernameOrPassword, 403, "InvalidUsernameOrPassword"),
        (ApiError::UsernameTaken, 400, "UsernameTaken"),
        (ApiError::InvalidRecipient, 400, "InvalidRecipient"),
        (ApiError::InsufficientBalance, 403, "InsufficientBalance"),
        (ApiError::ServerError, 500, "ServerError"),
        (ApiError::ServiceUnavailable, 503, "ServiceUnavailable"),
    ];
    for (error, status, title) in table {
        assert_eq!(error.status_code(), status);
        assert_eq!(error.title(), title);
    }
}

#[test]
fn only_credential_failures_carry_a_challenge() {
    assert!(ApiError::Unauthenticated.is_challenge());
    assert!(ApiError::MalformedRequest.is_challenge());
    assert!(ApiError::InvalidToken(TokenFault::BadSignature).is_challenge());
    assert!(!ApiError::PermissionDenied.is_challenge());
    assert!(!ApiError::ServerError.is_challenge());
    assert!(!ApiError::InsufficientBalance.is_challenge());
    assert_eq!(
        ApiError::InvalidToken(TokenFault::BadSubject).token_fault(),
        Some(TokenFault::BadSubject)
    );
    assert_eq!(ApiError::Unauthenticated.token_fault(), None);
}

#[test]
fn each_token_fault_has_its_reason() {
    let table = [
        (TokenFault::BadSignature, "bad signature"),
        (TokenFault::Malformed, "malformed token"),
        (TokenFault::WrongType, "wrong token type"),
        (TokenFault::MissingClaim, "missing claim"),
        (TokenFault::WrongIssuer, "wrong issuer"),
        (TokenFault::WrongAudience, "wrong audience"),
        (TokenFault::Expired, "expired"),
        (TokenFault::NotYetValid, "not yet valid"),
        (TokenFault::WrongClient, "wrong client"),
        (TokenFault::BadSubject, "bad subject"),
    ];
    for (fault, reason) in table {
        assert_eq!(fault.reason(), reason);
    }
}

#[test]
fn server_error_withholds_its_context() {
    let error = AppError::new("failed to query users: disk full".to_string());
    assert_eq!(error.context(), "failed to query users: disk full");
    assert_eq!(error.public_error(), ApiError::ServerError);
    assert_eq!(error.public_detail(), "Something went wrong");
    assert_eq!(error.public_error().status_code(), 500);
}

#[test]
fn unix_time_is_of_this_century() {
    let now = fetch_unix_time().unwrap();
    assert!(now > 1_700_000_000);
    assert!(now < 4_102_444_800);
}

#[test]
fn clocks_agree_on_the_second() {
    let before = fetch_unix_time().unwrap();
    let token_time = token_time_now().unwrap();
    let record_time = record_time_now().unwrap();
    let after = fetch_unix_time().unwrap();
    assert!(before <= token_time as u128 && token_time as u128 <= after);
    let seconds = (record_time / 1_000_000_000) as u128;
    assert!(before <= seconds && seconds <= after);
}

#[test]
fn verifier_accepts_its_password_and_no_other() {
    let hash = generate_hash("correct horse").unwrap();
    assert_ne!(hash, "correct horse");
    assert!(verify_password("correct horse", &hash));
    assert!(!verify_password("correct horsf", &hash));
    assert!(!verify_password("", &hash));
    let again = generate_hash("correct horse").unwrap();
    assert_ne!(hash, again);
    assert!(verify_password("correct horse", &again));
}

#[test]
fn text_that_is_no_verifier_accepts_nothing() {
    assert!(!verify_password("pw", "pw"));
    assert!(!verify_password("", ""));
    assert!(!verify_password("pw", "$argon2id$garbage"));
}

#[test]
fn secret_is_exposed_on_demand_and_not_printed() {
    let secret = SecretString::new("hunter2".to_string());
    assert_eq!(secret.expose_secret(), "hunter2");
    assert!(!format!("{:?}", secret).contains("hunter2"));
}

#[test]
fn challenge_names_the_error_and_the_reason() {
    assert_eq!(ApiError::Unauthenticated.challenge().as_deref(), Some("Bearer"));
    assert_eq!(
        ApiError::MalformedRequest.challenge().as_deref(),
        Some(
            "Bearer error=\"invalid_request\",error_description=\"The Authorization header value \
             contains invalid ASCII\""
        )
    );
    assert_eq!(
        ApiError::InvalidToken(TokenFault::Expired).challenge().as_deref(),
        Some("Bearer error=\"invalid_token\",error_description=\"expired\"")
    );
    assert_eq!(
        ApiError::InvalidToken(TokenFault::BadSignature).challenge().as_deref(),
        Some("Bearer error=\"invalid_token\",error_description=\"bad signature\"")
    );
    assert_eq!(ApiError::PermissionDenied.challenge(), None);
    assert_eq!(ApiError::ServerError.challenge(), None);
}

#[test]
fn uncaught_failure_is_unavailable_only_where_time_ran_out() {
    assert_eq!(ApiError::unhandled(true), ApiError::ServiceUnavailable);
    assert_eq!(ApiError::unhandled(false), ApiError::ServerError);
    assert_eq!(ApiError::unhandled(true).status_code(), 503);
}

#[test]
fn clock_reading_gives_its_seconds() {
    assert_eq!(unix_time_of(Some((5, 7))), Some(5));
    assert_eq!(unix_time_of(Some((0, 999_999_999))), Some(0));
    assert_eq!(unix_time_of(Some((u64::MAX, 0))), Some(u64::MAX as u128));
    assert_eq!(unix_time_of(None), None);
}

#[test]
fn clock_reading_gives_a_time_for_tokens_as_far_as_it_can_be_counted() {
    assert_eq!(token_time_of(Some((5, 7))), Some(5));
    assert_eq!(token_time_of(Some((0, 0))), Some(0));
    assert_eq!(token_time_of(Some((i64::MAX as u64, 1))), Some(i64::MAX));
    assert_eq!(token_time_of(Some((i64::MAX as u64 + 1, 0))), None);
    assert_eq!(token_time_of(Some((u64::MAX, 0))), None);
    assert_eq!(token_time_of(None), None);
}

#[test]
fn record_time_lies_within_the_times_that_stand_for_dates() {
    let now = record_time_now().unwrap();
    assert!(MIN_RECORD_TIME <= now && now <= MAX_RECORD_TIME);
    assert_eq!(jiff::Timestamp::MIN.as_nanosecond(), MIN_RECORD_TIME);
    assert_eq!(jiff::Timestamp::MAX.as_nanosecond(), MAX_RECORD_TIME);
    assert!(jiff::Timestamp::from_nanosecond(MIN_RECORD_TIME).is_ok());
    assert!(jiff::Timestamp::from_nanosecond(MAX_RECORD_TIME).is_ok());
    assert_eq!(jiff::Timestamp::from_nanosecond(MIN_RECORD_TIME).unwrap(), jiff::Timestamp::MIN);
    assert_eq!(jiff::Timestamp::from_nanosecond(MAX_RECORD_TIME).unwrap(), jiff::Timestamp::MAX);
    assert_eq!(jiff::Timestamp::from_nanosecond(now).unwrap().as_nanosecond(), now);
}
