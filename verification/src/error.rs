//! The closed set of outcomes that a caller can be refused with, and what the
//! transport layer shows of each.

use vstd::prelude::*;
use vstd::string::StringExecFns;

verus! {

/// Why a bearer token was not accepted.
#[derive(Clone, Copy, Debug, PartialEq, Eq, Structural)]
pub enum TokenFault {
    /// The signature does not belong to the signed part under the configured key.
    BadSignature,
    /// The token is not three well-formed segments with a readable header and claims.
    Malformed,
    /// The header's media type is not that of an access token.
    WrongType,
    /// A required claim is absent.
    MissingClaim,
    /// The issuer is not the configured one.
    WrongIssuer,
    /// The configured audience is not among the token's audiences.
    WrongAudience,
    /// The expiry has passed, or the token is older than the configured lifetime.
    Expired,
    /// The token claims to have been issued in the future.
    NotYetValid,
    /// The client identifier is not the configured one.
    WrongClient,
    /// The subject is no well-formed account identifier.
    BadSubject,
}

impl TokenFault {
    pub open spec fn spec_reason(&self) -> Seq<char> {
        match self {
            TokenFault::BadSignature => "bad signature"@,
            TokenFault::Malformed => "malformed token"@,
            TokenFault::WrongType => "wrong token type"@,
            TokenFault::MissingClaim => "missing claim"@,
            TokenFault::WrongIssuer => "wrong issuer"@,
            TokenFault::WrongAudience => "wrong audience"@,
            TokenFault::Expired => "expired"@,
            TokenFault::NotYetValid => "not yet valid"@,
            TokenFault::WrongClient => "wrong client"@,
            TokenFault::BadSubject => "bad subject"@,
        }
    }

    /// The machine-readable reason.
    pub fn reason(&self) -> (r: &'static str)
        ensures
            r@ == self.spec_reason(),
    {
        match self {
            TokenFault::BadSignature => "bad signature",
            TokenFault::Malformed => "malformed token",
            TokenFault::WrongType => "wrong token type",
            TokenFault::MissingClaim => "missing claim",
            TokenFault::WrongIssuer => "wrong issuer",
            TokenFault::WrongAudience => "wrong audience",
            TokenFault::Expired => "expired",
            TokenFault::NotYetValid => "not yet valid",
            TokenFault::WrongClient => "wrong client",
            TokenFault::BadSubject => "bad subject",
        }
    }
}

/// Every way in which a request can be refused.
#[derive(Clone, Copy, Debug, PartialEq, Eq, Structural)]
pub enum ApiError {
    /// No usable credential was presented; no detail is given.
    Unauthenticated,
    /// The request itself is malformed.
    MalformedRequest,
    /// A bearer token was presented and rejected.
    InvalidToken(TokenFault),
    /// The principal may not act on the named account.
    PermissionDenied,
    /// Unknown user or wrong password; the two are not told apart.
    InvalidUsernameOrPassword,
    /// The username is in use.
    UsernameTaken,
    /// The recipient account does not exist.
    InvalidRecipient,
    /// The sender's balance is below the amount.
    InsufficientBalance,
    /// Something failed inside; the detail is withheld.
    ServerError,
    /// The work was not finished in time and may be tried again.
    ServiceUnavailable,
}

impl ApiError {
    pub open spec fn spec_status_code(&self) -> u16 {
        match self {
            ApiError::Unauthenticated => 401,
            ApiError::MalformedRequest => 400,
            ApiError::InvalidToken(_) => 401,
            ApiError::PermissionDenied => 403,
            ApiError::InvalidUsernameOrPassword => 403,
            ApiError::UsernameTaken => 400,
            ApiError::InvalidRecipient => 400,
            ApiError::InsufficientBalance => 403,
            ApiError::ServerError => 500,
            ApiError::ServiceUnavailable => 503,
        }
    }

    pub open spec fn spec_title(&self) -> Seq<char> {
        match self {
            ApiError::Unauthenticated => "Unauthenticated"@,
            ApiError::MalformedRequest => "MalformedRequest"@,
            ApiError::InvalidToken(_) => "InvalidToken"@,
            ApiError::PermissionDenied => "PermissionDenied"@,
            ApiError::InvalidUsernameOrPassword => "InvalidUsernameOrPassword"@,
            ApiError::UsernameTaken => "UsernameTaken"@,
            ApiError::InvalidRecipient => "InvalidRecipient"@,
            ApiError::InsufficientBalance => "InsufficientBalance"@,
            ApiError::ServerError => "ServerError"@,
            ApiError::ServiceUnavailable => "ServiceUnavailable"@,
        }
    }

    /// Whether the response asks the caller to authenticate again.
    pub open spec fn spec_is_challenge(&self) -> bool {
        self is Unauthenticated || self is MalformedRequest || self is InvalidToken
    }

    /// The bearer challenge that goes with a credential failure: bare where
    /// nothing was presented, with an error code and a description otherwise.
    pub open spec fn spec_challenge(&self) -> Option<Seq<char>> {
        match self {
            ApiError::Unauthenticated => Some("Bearer"@),
            ApiError::MalformedRequest => Some(
                "Bearer error=\"invalid_request\",error_description=\"The Authorization header value contains invalid ASCII\""@,
            ),
            ApiError::InvalidToken(fault) => Some(
                "Bearer error=\"invalid_token\",error_description=\""@ + fault.spec_reason()
                    + "\""@,
            ),
            _ => None,
        }
    }

    /// The value of the challenge header, for the outcomes that carry one.
    pub fn challenge(&self) -> (r: Option<String>)
        ensures
            r.is_some() == self.spec_is_challenge(),
            r.is_some() == self.spec_challenge().is_some(),
            r matches Some(text) ==> self.spec_challenge() == Some(text@),
    {
        match self {
            ApiError::Unauthenticated => Some("Bearer".to_owned()),
            ApiError::MalformedRequest => Some(
                "Bearer error=\"invalid_request\",error_description=\"The Authorization header value contains invalid ASCII\"".to_owned(),
            ),
            ApiError::InvalidToken(fault) => {
                let mut text = "Bearer error=\"invalid_token\",error_description=\"".to_owned();
                text.append(fault.reason());
                text.append("\"");
                Some(text)
            },
            _ => None,
        }
    }

    /// What a failure that no handler caught is shown as: work that ran past
    /// its deadline may be tried again; anything else is a server error.
    pub fn unhandled(timed_out: bool) -> (r: ApiError)
        ensures
            r == (if timed_out {
                ApiError::ServiceUnavailable
            } else {
                ApiError::ServerError
            }),
    {
        if timed_out {
            ApiError::ServiceUnavailable
        } else {
            ApiError::ServerError
        }
    }

    /// The transport status code.
    pub fn status_code(&self) -> (r: u16)
        ensures
            r == self.spec_status_code(),
            400 <= r < 600,
    {
        match self {
            ApiError::Unauthenticated => 401,
            ApiError::MalformedRequest => 400,
            ApiError::InvalidToken(_) => 401,
            ApiError::PermissionDenied => 403,
            ApiError::InvalidUsernameOrPassword => 403,
            ApiError::UsernameTaken => 400,
            ApiError::InvalidRecipient => 400,
            ApiError::InsufficientBalance => 403,
            ApiError::ServerError => 500,
            ApiError::ServiceUnavailable => 503,
        }
    }

    /// The title shown to the caller.
    pub fn title(&self) -> (r: &'static str)
        ensures
            r@ == self.spec_title(),
    {
        match self {
            ApiError::Unauthenticated => "Unauthenticated",
            ApiError::MalformedRequest => "MalformedRequest",
            ApiError::InvalidToken(_) => "InvalidToken",
            ApiError::PermissionDenied => "PermissionDenied",
            ApiError::InvalidUsernameOrPassword => "InvalidUsernameOrPassword",
            ApiError::UsernameTaken => "UsernameTaken",
            ApiError::InvalidRecipient => "InvalidRecipient",
            ApiError::InsufficientBalance => "InsufficientBalance",
            ApiError::ServerError => "ServerError",
            ApiError::ServiceUnavailable => "ServiceUnavailable",
        }
    }

    /// The reason given with a rejected token, and with nothing else.
    pub fn token_fault(&self) -> (r: Option<TokenFault>)
        ensures
            r == (match *self {
                ApiError::InvalidToken(fault) => Some(fault),
                _ => None,
            }),
    {
        match self {
            ApiError::InvalidToken(fault) => Some(*fault),
            _ => None,
        }
    }

    /// Whether the response carries a bearer challenge.
    pub fn is_challenge(&self) -> (r: bool)
        ensures
            r == self.spec_is_challenge(),
    {
        match self {
            ApiError::Unauthenticated => true,
            ApiError::MalformedRequest => true,
            ApiError::InvalidToken(_) => true,
            _ => false,
        }
    }
}

/// A failure inside the service. What caused it stays on the server: the
/// caller is shown a fixed title and detail.
pub struct AppError {
    context: String,
}

impl AppError {
    /// The context that was recorded, for the server's log.
    pub closed spec fn spec_context(&self) -> Seq<char> {
        self.context@
    }

    /// Records `context` for the server's log.
    pub fn new(context: String) -> (r: AppError)
        ensures
            r.spec_context() == context@,
    {
        AppError { context }
    }

    /// The recorded context.
    pub fn context(&self) -> (r: &str)
        ensures
            r@ == self.spec_context(),
    {
        self.context.as_str()
    }

    /// What the caller is told: always a server error.
    pub fn public_error(&self) -> (r: ApiError)
        ensures
            r == ApiError::ServerError,
    {
        ApiError::ServerError
    }

    /// The detail shown to the caller, which is the same for every failure.
    pub fn public_detail(&self) -> (r: &'static str)
        ensures
            r@ == "Something went wrong"@,
    {
        "Something went wrong"
    }
}

/// No error maps to a success status, and only credential failures carry a
/// challenge.
pub proof fn lemma_status_codes(e: ApiError)
    ensures
        400 <= e.spec_status_code() < 600,
        e.spec_is_challenge() ==> e.spec_status_code() == 401 || e.spec_status_code() == 400,
        e.spec_status_code() == 500 <==> e == ApiError::ServerError,
{
}

} // verus!
