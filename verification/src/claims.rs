//! The claims of an access token and the rules that they are held to.

use crate::error::TokenFault;
use crate::ident::{hyphenated, Uuid};
use crate::json::{all_texts, array_of, as_read, member_of, texts_of, texts_view, Member, MemberView};
use crate::state::{AuthState, AuthStateView};
use vstd::prelude::*;

verus! {

/// The private claim of an access token: the client that asked for it.
#[derive(Debug)]
pub struct JwtAccessTokenClaims {
    pub client_id: String,
}

/// The registered claims that a token may carry; times in seconds since the epoch.
#[derive(Debug)]
pub struct RegisteredClaims {
    pub issuer: Option<String>,
    pub subject: Option<String>,
    pub audience: Option<Vec<String>>,
    pub expiry: Option<i64>,
    pub not_before: Option<i64>,
    pub issued_at: Option<i64>,
    pub id: Option<String>,
}

/// A token whose signature has been checked and whose claims have been read.
#[derive(Debug)]
pub struct DecodedToken {
    /// The media type that the header declares.
    pub media_type: Option<String>,
    pub registered: RegisteredClaims,
    pub private: JwtAccessTokenClaims,
}

/// A decoded token by its values.
pub struct DecodedTokenView {
    pub media_type: Option<Seq<char>>,
    pub issuer: Option<Seq<char>>,
    pub subject: Option<Seq<char>>,
    pub audience: Option<Seq<Seq<char>>>,
    pub expiry: Option<i64>,
    pub not_before: Option<i64>,
    pub issued_at: Option<i64>,
    pub id: Option<Seq<char>>,
    pub client_id: Seq<char>,
}

pub open spec fn text_view(text: Option<String>) -> Option<Seq<char>> {
    match text {
        Some(s) => Some(s@),
        None => None,
    }
}

pub open spec fn list_view(list: Option<Vec<String>>) -> Option<Seq<Seq<char>>> {
    match list {
        Some(l) => Some(texts_view(l@)),
        None => None,
    }
}

impl View for DecodedToken {
    type V = DecodedTokenView;

    open spec fn view(&self) -> DecodedTokenView {
        DecodedTokenView {
            media_type: text_view(self.media_type),
            issuer: text_view(self.registered.issuer),
            subject: text_view(self.registered.subject),
            audience: list_view(self.registered.audience),
            expiry: self.registered.expiry,
            not_before: self.registered.not_before,
            issued_at: self.registered.issued_at,
            id: text_view(self.registered.id),
            client_id: self.private.client_id@,
        }
    }
}

/// The principal that a request acts as: the account whose token it bears.
#[derive(Clone, Copy, Debug, PartialEq, Eq, Structural)]
pub struct AuthenticatedUser {
    pub subject: Uuid,
}

/// An optional text claim: absent, a string, or of the wrong kind.
pub open spec fn text_claim(member: MemberView) -> Option<Option<Seq<char>>> {
    match member {
        MemberView::Absent => Some(None),
        MemberView::Text(s) => Some(Some(s)),
        _ => None,
    }
}

/// An optional time claim: absent, a whole number, or of the wrong kind.
pub open spec fn time_claim(member: MemberView) -> Option<Option<i64>> {
    match member {
        MemberView::Absent => Some(None),
        MemberView::Integer(n) => Some(Some(n)),
        _ => None,
    }
}

/// An optional audience claim: absent, one string, a list of strings, or of
/// the wrong kind.
pub open spec fn audience_claim(member: MemberView) -> Option<Option<Seq<Seq<char>>>> {
    match member {
        MemberView::Absent => Some(None),
        MemberView::Text(s) => Some(Some(seq![s])),
        MemberView::Array(items) => if all_texts(items) {
            Some(Some(texts_of(items)))
        } else {
            None
        },
        _ => None,
    }
}

/// The claims that a payload's members give under a header's media type;
/// `None` where a claim is of the wrong kind or the client identifier is no
/// string.
pub open spec fn spec_read_claims(
    media_type: Option<Seq<char>>,
    members: Map<Seq<char>, MemberView>,
) -> Option<DecodedTokenView> {
    let issuer = text_claim(as_read(member_of(members, "iss"@)));
    let subject = text_claim(as_read(member_of(members, "sub"@)));
    let audience = audience_claim(as_read(member_of(members, "aud"@)));
    let expiry = time_claim(as_read(member_of(members, "exp"@)));
    let not_before = time_claim(as_read(member_of(members, "nbf"@)));
    let issued_at = time_claim(as_read(member_of(members, "iat"@)));
    let id = text_claim(as_read(member_of(members, "jti"@)));
    let client_id = as_read(member_of(members, "client_id"@));
    if issuer.is_some() && subject.is_some() && audience.is_some() && expiry.is_some()
        && not_before.is_some() && issued_at.is_some() && id.is_some() && client_id is Text {
        Some(
            DecodedTokenView {
                media_type,
                issuer: issuer.unwrap(),
                subject: subject.unwrap(),
                audience: audience.unwrap(),
                expiry: expiry.unwrap(),
                not_before: not_before.unwrap(),
                issued_at: issued_at.unwrap(),
                id: id.unwrap(),
                client_id: client_id->Text_0,
            },
        )
    } else {
        None
    }
}

/// Whether a header's media type marks an access token.
pub open spec fn access_token_type(media_type: Option<Seq<char>>) -> bool {
    media_type == Some("at+jwt"@) || media_type == Some("application/at+jwt"@)
}

/// Whether every required claim is there: issuer, expiry, audience, subject,
/// issued-at and token identifier.
pub open spec fn required_present(t: DecodedTokenView) -> bool {
    &&& t.issuer.is_some()
    &&& t.expiry.is_some()
    &&& t.audience.is_some()
    &&& t.subject.is_some()
    &&& t.issued_at.is_some()
    &&& t.id.is_some()
}

/// The first rule that a decoded token breaks among those that no time has
/// a part in, in this order: media type, presence, issuer, audience.
pub open spec fn spec_validate_untimed(t: DecodedTokenView, cfg: AuthStateView) -> Result<
    (),
    TokenFault,
> {
    if !access_token_type(t.media_type) {
        Err(TokenFault::WrongType)
    } else if !required_present(t) {
        Err(TokenFault::MissingClaim)
    } else if t.issuer.unwrap() != cfg.issuer {
        Err(TokenFault::WrongIssuer)
    } else if !t.audience.unwrap().contains(cfg.audience) {
        Err(TokenFault::WrongAudience)
    } else {
        Ok(())
    }
}

/// The first rule that a decoded token breaks at the time `now`, in this
/// order: media type, presence, issuer, audience, expiry, not-before,
/// issued-at, client.
pub open spec fn spec_validate(t: DecodedTokenView, cfg: AuthStateView, now: i64) -> Result<
    (),
    TokenFault,
> {
    if spec_validate_untimed(t, cfg) is Err {
        spec_validate_untimed(t, cfg)
    } else if now > t.expiry.unwrap() {
        Err(TokenFault::Expired)
    } else if t.not_before.is_some() && t.not_before.unwrap() > now {
        Err(TokenFault::NotYetValid)
    } else if t.issued_at.unwrap() > now {
        Err(TokenFault::NotYetValid)
    } else if now - t.issued_at.unwrap() > cfg.lifetime {
        Err(TokenFault::Expired)
    } else if t.client_id != hyphenated(cfg.client_id) {
        Err(TokenFault::WrongClient)
    } else {
        Ok(())
    }
}

/// The principal of a decoded token at the time `now`: its subject, read as
/// an account identifier, where the token breaks no rule.
pub open spec fn spec_principal(t: DecodedTokenView, cfg: AuthStateView, now: i64) -> Result<
    u128,
    TokenFault,
> {
    match spec_validate(t, cfg, now) {
        Err(fault) => Err(fault),
        Ok(_) => match Uuid::spec_parse(t.subject.unwrap()) {
            Some(subject) => Ok(subject),
            None => Err(TokenFault::BadSubject),
        },
    }
}

fn read_text(member: Member) -> (r: Option<Option<String>>)
    ensures
        r.is_some() == text_claim(member@).is_some(),
        r matches Some(t) ==> text_claim(member@) == Some(text_view(t)),
{
    match member {
        Member::Absent => Some(None),
        Member::Text(s) => Some(Some(s)),
        _ => None,
    }
}

fn read_time(member: Member) -> (r: Option<Option<i64>>)
    ensures
        r == time_claim(member@),
{
    match member {
        Member::Absent => Some(None),
        Member::Integer(n) => Some(Some(n)),
        _ => None,
    }
}

fn read_audience(member: Member) -> (r: Option<Option<Vec<String>>>)
    ensures
        r.is_some() == audience_claim(member@).is_some(),
        r matches Some(l) ==> audience_claim(member@) == Some(list_view(l)),
{
    match member {
        Member::Absent => Some(None),
        Member::Text(s) => {
            let mut list: Vec<String> = Vec::new();
            let ghost text = s@;
            list.push(s);
            assert(texts_view(list@) =~= seq![text]);
            Some(Some(list))
        },
        Member::Texts(l) => {
            assert(all_texts(array_of(texts_view(l@))));
            assert(texts_of(array_of(texts_view(l@))) =~= texts_view(l@));
            Some(Some(l))
        },
        _ => None,
    }
}

/// Reads the claims out of a payload's JSON value. `None` where a claim is of
/// the wrong kind or the client identifier is no string.
pub(crate) fn read_claims(media_type: Option<String>, value: &serde_json::Value) -> (r: Option<
    DecodedToken,
>)
    ensures
        r.is_some() == spec_read_claims(
            text_view(media_type),
            crate::json::json_members(*value),
        ).is_some(),
        r matches Some(t) ==> spec_read_claims(
            text_view(media_type),
            crate::json::json_members(*value),
        ) == Some(t@),
{
    let issuer = read_text(crate::json::json_member(value, "iss"));
    let subject = read_text(crate::json::json_member(value, "sub"));
    let audience = read_audience(crate::json::json_member(value, "aud"));
    let expiry = read_time(crate::json::json_member(value, "exp"));
    let not_before = read_time(crate::json::json_member(value, "nbf"));
    let issued_at = read_time(crate::json::json_member(value, "iat"));
    let id = read_text(crate::json::json_member(value, "jti"));
    let client_id = crate::json::json_member(value, "client_id");
    match (issuer, subject, audience, expiry, not_before, issued_at, id, client_id) {
        (
            Some(issuer),
            Some(subject),
            Some(audience),
            Some(expiry),
            Some(not_before),
            Some(issued_at),
            Some(id),
            Member::Text(client_id),
        ) => Some(
            DecodedToken {
                media_type,
                registered: RegisteredClaims {
                    issuer,
                    subject,
                    audience,
                    expiry,
                    not_before,
                    issued_at,
                    id,
                },
                private: JwtAccessTokenClaims { client_id },
            },
        ),
        _ => None,
    }
}

/// Whether `list` holds `text`.
pub fn holds_text(list: &Vec<String>, text: &String) -> (r: bool)
    ensures
        r == texts_view(list@).contains(text@),
{
    let mut i: usize = 0;
    while i < list.len()
        invariant
            i <= list.len(),
            forall|j: int| 0 <= j < i ==> texts_view(list@)[j] != text@,
        decreases list.len() - i,
    {
        if list[i] == *text {
            assert(texts_view(list@)[i as int] == text@);
            return true;
        }
        i += 1;
    }
    false
}

/// Whether a header's media type marks an access token.
pub fn is_access_token_type(media_type: &Option<String>) -> (r: bool)
    ensures
        r == access_token_type(text_view(*media_type)),
{
    match media_type {
        Some(t) => {
            let plain = "at+jwt".to_owned();
            let qualified = "application/at+jwt".to_owned();
            *t == plain || *t == qualified
        },
        None => false,
    }
}

/// Holds a decoded token to the rules that no time has a part in, and names
/// the first that it breaks.
pub fn validate_untimed(token: &DecodedToken, cfg: &AuthState) -> (r: Result<(), TokenFault>)
    ensures
        r == spec_validate_untimed(token@, cfg@),
{
    if !is_access_token_type(&token.media_type) {
        return Err(TokenFault::WrongType);
    }
    let claims = &token.registered;
    match (
        &claims.issuer,
        &claims.expiry,
        &claims.audience,
        &claims.subject,
        &claims.issued_at,
        &claims.id,
    ) {
        (Some(issuer), Some(_), Some(audience), Some(_), Some(_), Some(_)) => {
            if *issuer != cfg.access_token_issuer.0 {
                return Err(TokenFault::WrongIssuer);
            }
            if !holds_text(audience, &cfg.access_token_audience.0) {
                return Err(TokenFault::WrongAudience);
            }
            Ok(())
        },
        _ => Err(TokenFault::MissingClaim),
    }
}

/// Holds a decoded token to the rules, at the time `now` in seconds since
/// the epoch, and names the first rule that it breaks.
pub fn validate_access_token(token: &DecodedToken, cfg: &AuthState, now: i64) -> (r: Result<
    (),
    TokenFault,
>)
    ensures
        r == spec_validate(token@, cfg@, now),
{
    match validate_untimed(token, cfg) {
        Ok(()) => {},
        Err(fault) => {
            return Err(fault);
        },
    }
    let claims = &token.registered;
    match (&claims.expiry, &claims.issued_at) {
        (Some(expiry), Some(issued_at)) => {
            if now > *expiry {
                return Err(TokenFault::Expired);
            }
            match claims.not_before {
                Some(not_before) => {
                    if not_before > now {
                        return Err(TokenFault::NotYetValid);
                    }
                },
                None => {},
            }
            if *issued_at > now {
                return Err(TokenFault::NotYetValid);
            }
            let lifetime = cfg.access_token_expiration.seconds();
            if now as i128 - *issued_at as i128 > lifetime as i128 {
                return Err(TokenFault::Expired);
            }
            let client = cfg.access_token_client_id.0.to_text();
            if token.private.client_id != client {
                return Err(TokenFault::WrongClient);
            }
            Ok(())
        },
        _ => Err(TokenFault::MissingClaim),
    }
}

/// The principal of a decoded token at the time `now`: its subject, where the
/// token breaks no rule and the subject is an account identifier.
pub fn principal_of(token: &DecodedToken, cfg: &AuthState, now: i64) -> (r: Result<
    AuthenticatedUser,
    TokenFault,
>)
    ensures
        r.is_ok() == spec_principal(token@, cfg@, now).is_ok(),
        r matches Ok(user) ==> spec_principal(token@, cfg@, now) == Ok::<u128, TokenFault>(
            user.subject@,
        ),
        r matches Err(fault) ==> spec_principal(token@, cfg@, now) == Err::<u128, TokenFault>(fault),
{
    match validate_access_token(token, cfg, now) {
        Err(fault) => Err(fault),
        Ok(()) => {
            match &token.registered.subject {
                Some(subject) => match Uuid::try_parse(subject.as_str()) {
                    Some(subject) => Ok(AuthenticatedUser { subject }),
                    None => Err(TokenFault::BadSubject),
                },
                None => Err(TokenFault::MissingClaim),
            }
        },
    }
}

} // verus!
