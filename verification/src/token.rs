//! Issuing access tokens and authenticating the requests that bear them.

use crate::bearer::{bearer_token, is_printable, printable, spec_bearer_token};
use crate::claims::{
    principal_of, read_claims, spec_principal, spec_read_claims, spec_validate_untimed,
    validate_untimed, AuthenticatedUser, DecodedToken, DecodedTokenView,
};
use crate::error::{ApiError, TokenFault};
use crate::ident::{hyphenated, Uuid};
use crate::json::{
    integer_names_free, json_members, json_object_bytes, json_parse, member_of,
    named_integers_view, named_texts_view, object_members, parsed_json, reserved_name,
    text_names_free, MemberView,
};
use crate::jws::{
    ascii_bytes, dots, hs256_opened, jws_open, jws_seal, token_char, token_text, DecodeFault,
    SignedContent, SignedContentView,
};
use crate::state::{AuthState, AuthStateView, JwsSigningSecret};
use vstd::prelude::*;
use vstd::string::StringSliceAdditionalSpecFns;

verus! {

/// The claims in a checked payload, or the reason why there are none.
pub open spec fn spec_read_payload(content: SignedContentView) -> Result<
    DecodedTokenView,
    TokenFault,
> {
    match parsed_json(content.payload) {
        None => Err(TokenFault::Malformed),
        Some(value) => match spec_read_claims(content.media_type, json_members(value)) {
            None => Err(TokenFault::Malformed),
            Some(token) => Ok(token),
        },
    }
}

/// What a token decodes to under a key, or the reason why it does not.
pub open spec fn spec_decode(token: Seq<u8>, key: Seq<u8>) -> Result<DecodedTokenView, TokenFault> {
    match hs256_opened(token, key) {
        Err(DecodeFault::BadSignature) => Err(TokenFault::BadSignature),
        Err(DecodeFault::Malformed) => Err(TokenFault::Malformed),
        Ok(content) => spec_read_payload(content),
    }
}

/// The outcome of authenticating a request by its `Authorization` header
/// value, at the time `now`. Each step ends the sequence where it fails:
/// presence of the header, printable text, the scheme, the signature and
/// structure of the token, then the rules on its claims.
pub open spec fn spec_authenticate(header: Option<Seq<u8>>, cfg: AuthStateView, now: i64) -> Result<
    u128,
    ApiError,
> {
    match header {
        None => Err(ApiError::Unauthenticated),
        Some(value) => if !printable(value) {
            Err(ApiError::MalformedRequest)
        } else {
            match spec_bearer_token(value) {
                None => Err(ApiError::Unauthenticated),
                Some(token) => match spec_decode(token, cfg.key) {
                    Err(fault) => Err(ApiError::InvalidToken(fault)),
                    Ok(decoded) => match spec_principal(decoded, cfg, now) {
                        Err(fault) => Err(ApiError::InvalidToken(fault)),
                        Ok(subject) => Ok(subject),
                    },
                },
            }
        },
    }
}

/// A header value by its bytes.
pub open spec fn header_view(header: Option<&[u8]>) -> Option<Seq<u8>> {
    match header {
        Some(value) => Some(value@),
        None => None,
    }
}

/// Whether an executable outcome is the one that the model gives.
pub open spec fn outcome_is<E>(r: Result<AuthenticatedUser, E>, model: Result<u128, E>) -> bool {
    match r {
        Ok(user) => model == Ok::<u128, E>(user.subject@),
        Err(e) => model == Err::<u128, E>(e),
    }
}

/// Whether an executable decoding is the one that the model gives.
pub open spec fn decoded_is(
    r: Result<DecodedToken, TokenFault>,
    model: Result<DecodedTokenView, TokenFault>,
) -> bool {
    match r {
        Ok(token) => model == Ok::<DecodedTokenView, TokenFault>(token@),
        Err(fault) => model == Err::<DecodedTokenView, TokenFault>(fault),
    }
}

/// Reads the claims out of a payload whose signature has been checked.
pub fn read_payload(content: SignedContent) -> (r: Result<DecodedToken, TokenFault>)
    ensures
        decoded_is(r, spec_read_payload(content@)),
{
    let value = match json_parse(content.payload.as_slice()) {
        Some(value) => value,
        None => {
            return Err(TokenFault::Malformed);
        },
    };
    match read_claims(content.media_type, &value) {
        Some(token) => Ok(token),
        None => Err(TokenFault::Malformed),
    }
}

/// Checks a token's signature under the configured key and reads its claims.
pub fn decode_access_token(token: &[u8], secret: &JwsSigningSecret) -> (r: Result<
    DecodedToken,
    TokenFault,
>)
    ensures
        decoded_is(r, spec_decode(token@, secret@)),
{
    match jws_open(token, secret.expose()) {
        Err(DecodeFault::BadSignature) => Err(TokenFault::BadSignature),
        Err(DecodeFault::Malformed) => Err(TokenFault::Malformed),
        Ok(content) => read_payload(content),
    }
}

/// The refusal of a request that no time has a part in, if there is one:
/// for want of a header, of printable text, of the scheme and a token, of a
/// token that decodes, or for a rule broken that stands before the rules on
/// times.
pub open spec fn spec_untimed_refusal(header: Option<Seq<u8>>, cfg: AuthStateView) -> Option<
    ApiError,
> {
    match header {
        None => Some(ApiError::Unauthenticated),
        Some(value) => if !printable(value) {
            Some(ApiError::MalformedRequest)
        } else {
            match spec_bearer_token(value) {
                None => Some(ApiError::Unauthenticated),
                Some(token) => match spec_decode(token, cfg.key) {
                    Err(fault) => Some(ApiError::InvalidToken(fault)),
                    Ok(decoded) => match spec_validate_untimed(decoded, cfg) {
                        Err(fault) => Some(ApiError::InvalidToken(fault)),
                        Ok(_) => None,
                    },
                },
            }
        },
    }
}

/// A request that is refused whatever the time is refused so at every time.
pub proof fn lemma_untimed_refusal_holds_at_every_time(
    header: Option<Seq<u8>>,
    cfg: AuthStateView,
    now: i64,
)
    ensures
        spec_untimed_refusal(header, cfg) matches Some(refusal) ==> spec_authenticate(
            header,
            cfg,
            now,
        ) == Err::<u128, ApiError>(refusal),
{
}

/// Whether a token read from a request is the one that the model gives, or
/// the refusal is.
pub open spec fn request_is(
    r: Result<DecodedToken, ApiError>,
    header: Option<Seq<u8>>,
    cfg: AuthStateView,
) -> bool {
    match r {
        Err(refusal) => spec_untimed_refusal(header, cfg) == Some(refusal),
        Ok(token) => {
            &&& spec_untimed_refusal(header, cfg) is None
            &&& header is Some
            &&& spec_bearer_token(header.unwrap()) is Some
            &&& spec_decode(spec_bearer_token(header.unwrap()).unwrap(), cfg.key) == Ok::<
                DecodedTokenView,
                TokenFault,
            >(token@)
        },
    }
}

/// Reads the token that a request bears, as far as no time has a part in
/// it: the header, the scheme, signature and structure of the token, and the
/// rules on media type, presence, issuer and audience.
pub fn request_token(header: Option<&[u8]>, cfg: &AuthState) -> (r: Result<DecodedToken, ApiError>)
    ensures
        request_is(r, header_view(header), cfg@),
{
    let value = match header {
        Some(value) => value,
        None => {
            return Err(ApiError::Unauthenticated);
        },
    };
    if !is_printable(value) {
        return Err(ApiError::MalformedRequest);
    }
    let token = match bearer_token(value) {
        Some(token) => token,
        None => {
            return Err(ApiError::Unauthenticated);
        },
    };
    let decoded = match decode_access_token(token, &cfg.jws_signing_secret) {
        Ok(decoded) => decoded,
        Err(fault) => {
            return Err(ApiError::InvalidToken(fault));
        },
    };
    match validate_untimed(&decoded, cfg) {
        Ok(()) => Ok(decoded),
        Err(fault) => Err(ApiError::InvalidToken(fault)),
    }
}

/// Authenticates a request by its `Authorization` header value, at the time
/// `now` in seconds since the epoch.
pub fn authenticate_at(header: Option<&[u8]>, cfg: &AuthState, now: i64) -> (r: Result<
    AuthenticatedUser,
    ApiError,
>)
    ensures
        outcome_is(r, spec_authenticate(header_view(header), cfg@, now)),
{
    let decoded = match request_token(header, cfg) {
        Ok(decoded) => decoded,
        Err(refusal) => {
            return Err(refusal);
        },
    };
    match principal_of(&decoded, cfg, now) {
        Ok(user) => Ok(user),
        Err(fault) => Err(ApiError::InvalidToken(fault)),
    }
}

/// Authenticates a request by its `Authorization` header value, at the time
/// that the clock shows. The clock is read only for a request that is not
/// refused whatever the time; then, whatever the time, the outcome is the
/// one that the model gives for it, and a clock that shows no time is a
/// server error.
pub fn authenticate_with_jwt_access_token(cfg: &AuthState, header: Option<&[u8]>) -> (r: Result<
    AuthenticatedUser,
    ApiError,
>)
    ensures
        spec_untimed_refusal(header_view(header), cfg@) matches Some(refusal) ==> r == Err::<
            AuthenticatedUser,
            ApiError,
        >(refusal),
        spec_untimed_refusal(header_view(header), cfg@) is None ==> r == Err::<
            AuthenticatedUser,
            ApiError,
        >(ApiError::ServerError) || exists|now: i64|
            outcome_is(r, spec_authenticate(header_view(header), cfg@, now)),
{
    let decoded = match request_token(header, cfg) {
        Ok(decoded) => decoded,
        Err(refusal) => {
            return Err(refusal);
        },
    };
    let now = match crate::clock::token_time_now() {
        Some(now) => now,
        None => {
            return Err(ApiError::ServerError);
        },
    };
    let r = match principal_of(&decoded, cfg, now) {
        Ok(user) => Ok(user),
        Err(fault) => Err(ApiError::InvalidToken(fault)),
    };
    assert(outcome_is(r, spec_authenticate(header_view(header), cfg@, now)));
    r
}

/// The scheme as issued headers write it, with the space that ends it: `Bearer `.
pub open spec fn scheme_text() -> Seq<u8> {
    seq![66u8, 101u8, 97u8, 114u8, 101u8, 114u8, 32u8]
}

/// The `Authorization` header value that bears a token.
pub open spec fn bearer_header(token: Seq<u8>) -> Seq<u8> {
    scheme_text() + token
}

/// The token that is issued to `subject` at the time `now` under the
/// identifier `token_id`, as it decodes.
pub open spec fn issued_token(cfg: AuthStateView, subject: u128, now: i64, token_id: u128) -> DecodedTokenView {
    DecodedTokenView {
        media_type: Some("at+jwt"@),
        issuer: Some(cfg.issuer),
        subject: Some(hyphenated(subject)),
        audience: Some(seq![cfg.audience]),
        expiry: Some((now + cfg.lifetime) as i64),
        not_before: None,
        issued_at: Some(now),
        id: Some(hyphenated(token_id)),
        client_id: hyphenated(cfg.client_id),
    }
}

/// The names of the claims differ from one another.
proof fn lemma_claim_names_differ()
    ensures
        "iss"@[0] == 'i' && "iss"@[1] == 's',
        "sub"@[0] == 's',
        "aud"@[0] == 'a',
        "exp"@[0] == 'e',
        "nbf"@[0] == 'n',
        "iat"@[0] == 'i' && "iat"@[1] == 'a',
        "jti"@[0] == 'j',
        "client_id"@[0] == 'c',
{
    reveal_strlit("iss");
    reveal_strlit("sub");
    reveal_strlit("aud");
    reveal_strlit("exp");
    reveal_strlit("nbf");
    reveal_strlit("iat");
    reveal_strlit("jti");
    reveal_strlit("client_id");
}

/// None of the names of the claims is one that `serde_json` keeps for
/// itself.
proof fn lemma_claim_names_are_free()
    ensures
        !reserved_name("iss"@),
        !reserved_name("sub"@),
        !reserved_name("aud"@),
        !reserved_name("jti"@),
        !reserved_name("client_id"@),
        !reserved_name("exp"@),
        !reserved_name("iat"@),
{
    reveal_strlit("iss");
    reveal_strlit("sub");
    reveal_strlit("aud");
    reveal_strlit("jti");
    reveal_strlit("client_id");
    reveal_strlit("exp");
    reveal_strlit("iat");
    reveal_strlit("$serde_json::private::Number");
    reveal_strlit("$serde_json::private::RawValue");
    assert("$serde_json::private::Number"@.len() == 28);
    assert("$serde_json::private::RawValue"@.len() == 30);
}

/// The object written from an issued token's claims reads back as these claims.
proof fn lemma_issued_members(
    media_type: Option<Seq<char>>,
    iss: Seq<char>,
    sub: Seq<char>,
    aud: Seq<char>,
    jti: Seq<char>,
    client: Seq<char>,
    exp: i64,
    iat: i64,
)
    ensures
        spec_read_claims(
            media_type,
            object_members(
                seq![("iss"@, iss), ("sub"@, sub), ("aud"@, aud), ("jti"@, jti), ("client_id"@, client)],
                seq![("exp"@, exp), ("iat"@, iat)],
            ),
        ) == Some(
            DecodedTokenView {
                media_type,
                issuer: Some(iss),
                subject: Some(sub),
                audience: Some(seq![aud]),
                expiry: Some(exp),
                not_before: None,
                issued_at: Some(iat),
                id: Some(jti),
                client_id: client,
            },
        ),
{
    lemma_claim_names_differ();
    let t5 = seq![("iss"@, iss), ("sub"@, sub), ("aud"@, aud), ("jti"@, jti), ("client_id"@, client)];
    let t4 = seq![("iss"@, iss), ("sub"@, sub), ("aud"@, aud), ("jti"@, jti)];
    let t3 = seq![("iss"@, iss), ("sub"@, sub), ("aud"@, aud)];
    let t2 = seq![("iss"@, iss), ("sub"@, sub)];
    let t1 = seq![("iss"@, iss)];
    let t0 = Seq::<(Seq<char>, Seq<char>)>::empty();
    let i2 = seq![("exp"@, exp), ("iat"@, iat)];
    let i1 = seq![("exp"@, exp)];
    let i0 = Seq::<(Seq<char>, i64)>::empty();
    assert(i2.drop_last() =~= i1);
    assert(i1.drop_last() =~= i0);
    assert(t5.drop_last() =~= t4);
    assert(t4.drop_last() =~= t3);
    assert(t3.drop_last() =~= t2);
    assert(t2.drop_last() =~= t1);
    assert(t1.drop_last() =~= t0);
    let m0 = object_members(t0, i0);
    let m1 = object_members(t1, i0);
    let m2 = object_members(t2, i0);
    let m3 = object_members(t3, i0);
    let m4 = object_members(t4, i0);
    let m5 = object_members(t5, i0);
    let m6 = object_members(t5, i1);
    let m7 = object_members(t5, i2);
    assert(m0 == Map::<Seq<char>, MemberView>::empty());
    assert(m1 == m0.insert("iss"@, MemberView::Text(iss)));
    assert(m2 == m1.insert("sub"@, MemberView::Text(sub)));
    assert(m3 == m2.insert("aud"@, MemberView::Text(aud)));
    assert(m4 == m3.insert("jti"@, MemberView::Text(jti)));
    assert(m5 == m4.insert("client_id"@, MemberView::Text(client)));
    assert(m6 == m5.insert("exp"@, MemberView::Integer(exp)));
    assert(m7 == m6.insert("iat"@, MemberView::Integer(iat)));
    assert(member_of(m7, "iss"@) == MemberView::Text(iss));
    assert(member_of(m7, "sub"@) == MemberView::Text(sub));
    assert(member_of(m7, "aud"@) == MemberView::Text(aud));
    assert(member_of(m7, "jti"@) == MemberView::Text(jti));
    assert(member_of(m7, "client_id"@) == MemberView::Text(client));
    assert(member_of(m7, "exp"@) == MemberView::Integer(exp));
    assert(member_of(m7, "iat"@) == MemberView::Integer(iat));
    assert(member_of(m7, "nbf"@) == MemberView::Absent);
}

/// A header made of the scheme and a token is printable and bears that token.
pub proof fn lemma_bearer_header_bears(token: Seq<char>)
    requires
        token_text(token),
        token.len() > 0,
    ensures
        printable(bearer_header(ascii_bytes(token))),
        spec_bearer_token(bearer_header(ascii_bytes(token))) == Some(ascii_bytes(token)),
{
    let bytes = ascii_bytes(token);
    let header = bearer_header(bytes);
    assert forall|i: int| 0 <= i < bytes.len() implies crate::bearer::visible_ascii(
        #[trigger] bytes[i],
    ) && bytes[i] != 32 by {
        assert(token_char(token[i]));
    }
    assert forall|i: int| 0 <= i < header.len() implies crate::bearer::visible_ascii(
        #[trigger] header[i],
    ) by {
        if i >= 7 {
            assert(header[i] == bytes[i - 7]);
        }
    }
    assert(crate::bearer::scheme() =~= seq![98u8, 101u8, 97u8, 114u8, 101u8, 114u8, 32u8]);
    assert(crate::bearer::has_scheme(header));
    let rest = header.skip(7);
    assert(rest =~= bytes);
    crate::bearer::lemma_leading_spaces_is(rest, 0);
    assert(rest.skip(0) =~= rest);
}

/// A token that decodes as the one issued to `subject` at `now` authenticates
/// as `subject` at every time from `now` until its lifetime has passed.
pub proof fn lemma_issued_token_authenticates(
    cfg: AuthStateView,
    subject: u128,
    now: i64,
    token_id: u128,
    token: Seq<char>,
    at: i64,
)
    requires
        cfg.wf(),
        now + cfg.lifetime <= i64::MAX,
        token_text(token),
        token.len() > 0,
        spec_decode(ascii_bytes(token), cfg.key) == Ok::<DecodedTokenView, TokenFault>(
            issued_token(cfg, subject, now, token_id),
        ),
        Uuid::spec_parse(hyphenated(subject)) == Some(subject),
        now <= at <= now + cfg.lifetime,
    ensures
        spec_authenticate(Some(bearer_header(ascii_bytes(token))), cfg, at) == Ok::<
            u128,
            ApiError,
        >(subject),
{
    lemma_bearer_header_bears(token);
    let issued = issued_token(cfg, subject, now, token_id);
    assert(seq![cfg.audience][0] == cfg.audience);
    assert(issued.audience.unwrap().contains(cfg.audience));
}

/// Issues an access token to `subject` at the time `now`, in seconds since
/// the epoch, under the identifier `token_id`.
///
/// It fails, as a server error, only where the expiry would lie beyond the
/// range of times. The token decodes under the configured key as
/// `issued_token` says, and it authenticates as `subject` at every time from
/// `now` until the configured lifetime has passed.
pub fn issue_access_token(cfg: &AuthState, subject: Uuid, now: i64, token_id: Uuid) -> (r: Result<
    String,
    ApiError,
>)
    ensures
        r.is_ok() == (now + cfg@.lifetime <= i64::MAX),
        r matches Err(e) ==> e == ApiError::ServerError,
        r matches Ok(token) ==> {
            &&& token_text(token@)
            &&& dots(token@) == 2
            &&& token@.len() > 0
            &&& spec_decode(ascii_bytes(token@), cfg@.key) == Ok::<DecodedTokenView, TokenFault>(
                issued_token(cfg@, subject@, now, token_id@),
            )
            &&& forall|at: i64|
                now <= at <= now + cfg@.lifetime ==> #[trigger] spec_authenticate(
                    Some(bearer_header(ascii_bytes(token@))),
                    cfg@,
                    at,
                ) == Ok::<u128, ApiError>(subject@)
        },
{
    cfg.confirm_bounds();
    let lifetime = cfg.access_token_expiration.seconds();
    let expiry = match now.checked_add(lifetime) {
        Some(expiry) => expiry,
        None => {
            return Err(ApiError::ServerError);
        },
    };
    let subject_text = subject.to_text();
    let token_id_text = token_id.to_text();
    let client_text = cfg.access_token_client_id.0.to_text();
    let issuer = cfg.access_token_issuer.0.clone();
    let audience = cfg.access_token_audience.0.clone();
    let mut texts: Vec<(String, String)> = Vec::new();
    texts.push(("iss".to_owned(), issuer));
    texts.push(("sub".to_owned(), subject_text));
    texts.push(("aud".to_owned(), audience));
    texts.push(("jti".to_owned(), token_id_text));
    texts.push(("client_id".to_owned(), client_text));
    let mut integers: Vec<(String, i64)> = Vec::new();
    integers.push(("exp".to_owned(), expiry));
    integers.push(("iat".to_owned(), now));
    proof {
        assert(named_texts_view(texts@) =~= seq![
            ("iss"@, cfg@.issuer),
            ("sub"@, hyphenated(subject@)),
            ("aud"@, cfg@.audience),
            ("jti"@, hyphenated(token_id@)),
            ("client_id"@, hyphenated(cfg@.client_id)),
        ]);
        assert(named_integers_view(integers@) =~= seq![("exp"@, expiry), ("iat"@, now)]);
        lemma_claim_names_are_free();
        assert(text_names_free(named_texts_view(texts@)));
        assert(integer_names_free(named_integers_view(integers@)));
        lemma_issued_members(
            Some("at+jwt"@),
            cfg@.issuer,
            hyphenated(subject@),
            cfg@.audience,
            hyphenated(token_id@),
            hyphenated(cfg@.client_id),
            expiry,
            now,
        );
    }
    let payload = match json_object_bytes(&texts, &integers) {
        Some(payload) => payload,
        None => {
            return Err(ApiError::ServerError);
        },
    };
    let token = match jws_seal("at+jwt", payload.as_slice(), cfg.jws_signing_secret.expose()) {
        Some(token) => token,
        None => {
            return Err(ApiError::ServerError);
        },
    };
    proof {
        assert(spec_decode(ascii_bytes(token@), cfg@.key) == Ok::<DecodedTokenView, TokenFault>(
            issued_token(cfg@, subject@, now, token_id@),
        ));
        assert forall|at: i64| now <= at <= now + cfg@.lifetime implies #[trigger] spec_authenticate(
            Some(bearer_header(ascii_bytes(token@))),
            cfg@,
            at,
        ) == Ok::<u128, ApiError>(subject@) by {
            lemma_issued_token_authenticates(cfg@, subject@, now, token_id@, token@, at);
        }
    }
    Ok(token)
}

/// The `Authorization` header value that bears `token`.
pub fn bearer_header_value(token: &str) -> (r: Vec<u8>)
    ensures
        r@ == bearer_header(token.spec_bytes()),
        token.is_ascii() ==> r@ == bearer_header(ascii_bytes(token@)),
{
    broadcast use vstd::string::is_ascii_spec_bytes;

    let mut value: Vec<u8> = Vec::new();
    value.push(66);
    value.push(101);
    value.push(97);
    value.push(114);
    value.push(101);
    value.push(114);
    value.push(32);
    assert(value@ =~= scheme_text());
    let bytes = token.as_bytes();
    let mut i: usize = 0;
    while i < bytes.len()
        invariant
            i <= bytes.len(),
            value@ =~= scheme_text() + bytes@.subrange(0, i as int),
        decreases bytes.len() - i,
    {
        value.push(bytes[i]);
        i += 1;
    }
    assert(bytes@.subrange(0, bytes@.len() as int) =~= bytes@);
    proof {
        if token.is_ascii() {
            assert(token.spec_bytes() =~= ascii_bytes(token@));
        }
    }
    value
}

} // verus!
