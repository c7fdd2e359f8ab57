//! What the token issuer and validator are configured with.

use crate::ident::Uuid;
use vstd::prelude::*;

verus! {

/// Least number of bytes of an HMAC-SHA256 signing key: the size of the hash output.
pub const HS256_SECRET_KEY_MIN_LEN: usize = 32;

/// Greatest number of bytes of a signing key: the block size of the hash.
pub const HS256_SECRET_KEY_LEN: usize = 64;

/// Longest token lifetime, in seconds.
pub const MAX_LIFETIME_SECS: i64 = 9_223_372_036_854_775;

/// Why a configuration was rejected.
#[derive(Clone, Copy, Debug, PartialEq, Eq, Structural)]
pub enum ConfigError {
    /// The signing key has fewer bytes than `HS256_SECRET_KEY_MIN_LEN`.
    KeyTooShort,
    /// The signing key has more bytes than `HS256_SECRET_KEY_LEN`.
    KeyTooLong,
    /// The token lifetime is negative.
    NegativeLifetime,
    /// The token lifetime exceeds `MAX_LIFETIME_SECS`.
    LifetimeOverflow,
    /// The signing key is no padded Base64 text.
    KeyNotBase64,
    /// The issuer is no URL.
    IssuerNotUrl,
    /// The audience is no URL.
    AudienceNotUrl,
    /// The client is no identifier.
    ClientNotUuid,
    /// The token lifetime is no span of time, or one with units above weeks.
    LifetimeNotSpan,
}

/// The bytes that `base64ct` reads from a padded Base64 text, where it reads any.
pub uninterp spec fn base64_decoded(text: Seq<char>) -> Option<Seq<u8>>;

/// The text that `url` writes for a URL that it reads from a text, where it reads one.
pub uninterp spec fn normalized_url(text: Seq<char>) -> Option<Seq<char>>;

/// The whole seconds and the nanoseconds beyond them of the span that `jiff`
/// reads from a text, with days of 24 hours, where it reads one.
pub uninterp spec fn span_duration(text: Seq<char>) -> Option<(i64, i32)>;

/// `<base64ct::Base64 as base64ct::Encoding>::decode_vec`: the result is a
/// function of the text alone.
#[verifier::external_body]
fn base64_decode(text: &str) -> (r: Option<Vec<u8>>)
    ensures
        r.is_some() == base64_decoded(text@).is_some(),
        r.is_some() ==> r.unwrap()@ == base64_decoded(text@).unwrap(),
{
    <base64ct::Base64 as base64ct::Encoding>::decode_vec(text).ok()
}

/// `url::Url::parse`, then `as_str`: the result is a function of the text alone.
#[verifier::external_body]
fn url_normalize(text: &str) -> (r: Option<String>)
    ensures
        r.is_some() == normalized_url(text@).is_some(),
        r.is_some() ==> r.unwrap()@ == normalized_url(text@).unwrap(),
{
    url::Url::parse(text).ok().map(|u| u.as_str().to_owned())
}

/// `<jiff::Span as FromStr>::from_str`, then `to_duration` with
/// `SpanRelativeTo::days_are_24_hours`, then `as_secs` and `subsec_nanos`:
/// the result is a function of the text alone.
#[verifier::external_body]
fn span_parse(text: &str) -> (r: Option<(i64, i32)>)
    ensures
        r == span_duration(text@),
{
    let span = text.parse::<jiff::Span>().ok()?;
    let duration = span.to_duration(jiff::SpanRelativeTo::days_are_24_hours()).ok()?;
    Some((duration.as_secs(), duration.subsec_nanos()))
}

/// The symmetric key that tokens are signed with.
pub struct JwsSigningSecret {
    bytes: Vec<u8>,
}

impl View for JwsSigningSecret {
    type V = Seq<u8>;

    closed spec fn view(&self) -> Seq<u8> {
        self.bytes@
    }
}

pub open spec fn key_len_ok(len: nat) -> bool {
    HS256_SECRET_KEY_MIN_LEN <= len <= HS256_SECRET_KEY_LEN
}

impl JwsSigningSecret {
    #[verifier::type_invariant]
    spec fn len_in_bounds(&self) -> bool {
        key_len_ok(self.bytes@.len())
    }

    pub open spec fn spec_new(bytes: Seq<u8>) -> Result<Seq<u8>, ConfigError> {
        if bytes.len() < HS256_SECRET_KEY_MIN_LEN {
            Err(ConfigError::KeyTooShort)
        } else if bytes.len() > HS256_SECRET_KEY_LEN {
            Err(ConfigError::KeyTooLong)
        } else {
            Ok(bytes)
        }
    }

    /// Accepts a key of 32 to 64 bytes.
    pub fn new(bytes: Vec<u8>) -> (r: Result<JwsSigningSecret, ConfigError>)
        ensures
            r.is_ok() == Self::spec_new(bytes@).is_ok(),
            r matches Ok(secret) ==> Self::spec_new(bytes@) == Ok::<Seq<u8>, ConfigError>(secret@),
            r matches Err(e) ==> Self::spec_new(bytes@) == Err::<Seq<u8>, ConfigError>(e),
    {
        if bytes.len() < HS256_SECRET_KEY_MIN_LEN {
            Err(ConfigError::KeyTooShort)
        } else if bytes.len() > HS256_SECRET_KEY_LEN {
            Err(ConfigError::KeyTooLong)
        } else {
            Ok(JwsSigningSecret { bytes })
        }
    }

    /// The key's bytes, of which there are 32 to 64.
    pub fn expose(&self) -> (r: &[u8])
        ensures
            r@ == self@,
            key_len_ok(r@.len()),
    {
        proof {
            use_type_invariant(self);
        }
        self.bytes.as_slice()
    }
}

/// The issuer that tokens name and must name.
pub struct AccessTokenIssuer(pub String);

/// The audience that tokens name and must name.
pub struct AccessTokenAudience(pub String);

/// The client on whose behalf tokens are issued.
#[derive(Clone, Copy, Debug, PartialEq, Eq, Structural)]
pub struct AccessTokenClientId(pub Uuid);

/// How long a token is valid, in seconds.
#[derive(Clone, Copy, Debug)]
pub struct AccessTokenExpiration {
    seconds: i64,
}

impl View for AccessTokenExpiration {
    type V = int;

    closed spec fn view(&self) -> int {
        self.seconds as int
    }
}

impl AccessTokenExpiration {
    #[verifier::type_invariant]
    spec fn in_bounds(&self) -> bool {
        0 <= self.seconds <= MAX_LIFETIME_SECS
    }

    pub open spec fn spec_new(seconds: i64) -> Result<int, ConfigError> {
        if seconds < 0 {
            Err(ConfigError::NegativeLifetime)
        } else if seconds > MAX_LIFETIME_SECS {
            Err(ConfigError::LifetimeOverflow)
        } else {
            Ok(seconds as int)
        }
    }

    /// Accepts a lifetime from zero to `MAX_LIFETIME_SECS` seconds.
    pub fn new(seconds: i64) -> (r: Result<AccessTokenExpiration, ConfigError>)
        ensures
            r.is_ok() == Self::spec_new(seconds).is_ok(),
            r matches Ok(lifetime) ==> Self::spec_new(seconds) == Ok::<int, ConfigError>(lifetime@),
            r matches Err(e) ==> Self::spec_new(seconds) == Err::<int, ConfigError>(e),
    {
        if seconds < 0 {
            Err(ConfigError::NegativeLifetime)
        } else if seconds > MAX_LIFETIME_SECS {
            Err(ConfigError::LifetimeOverflow)
        } else {
            Ok(AccessTokenExpiration { seconds })
        }
    }

    pub open spec fn spec_from_duration(seconds: i64, nanoseconds: i32) -> Result<int, ConfigError> {
        if seconds < 0 || nanoseconds < 0 {
            Err(ConfigError::NegativeLifetime)
        } else {
            Self::spec_new(seconds)
        }
    }

    /// Accepts a duration that is not negative, of at most
    /// `MAX_LIFETIME_SECS` seconds. A fraction of a second is dropped.
    pub fn from_duration(seconds: i64, nanoseconds: i32) -> (r: Result<
        AccessTokenExpiration,
        ConfigError,
    >)
        ensures
            r.is_ok() == Self::spec_from_duration(seconds, nanoseconds).is_ok(),
            r matches Ok(lifetime) ==> Self::spec_from_duration(seconds, nanoseconds) == Ok::<
                int,
                ConfigError,
            >(lifetime@),
            r matches Err(e) ==> Self::spec_from_duration(seconds, nanoseconds) == Err::<
                int,
                ConfigError,
            >(e),
    {
        if seconds < 0 || nanoseconds < 0 {
            Err(ConfigError::NegativeLifetime)
        } else {
            Self::new(seconds)
        }
    }

    /// The lifetime in seconds, from zero to `MAX_LIFETIME_SECS`.
    pub fn seconds(&self) -> (r: i64)
        ensures
            r == self@,
            0 <= r <= MAX_LIFETIME_SECS,
    {
        proof {
            use_type_invariant(self);
        }
        self.seconds
    }
}

/// Everything that issuing and validating tokens depends on.
pub struct AuthState {
    pub jws_signing_secret: JwsSigningSecret,
    pub access_token_issuer: AccessTokenIssuer,
    pub access_token_expiration: AccessTokenExpiration,
    pub access_token_audience: AccessTokenAudience,
    pub access_token_client_id: AccessTokenClientId,
}

/// A configuration by its values.
pub struct AuthStateView {
    pub key: Seq<u8>,
    pub issuer: Seq<char>,
    pub lifetime: int,
    pub audience: Seq<char>,
    pub client_id: u128,
}

impl View for AuthState {
    type V = AuthStateView;

    open spec fn view(&self) -> AuthStateView {
        AuthStateView {
            key: self.jws_signing_secret@,
            issuer: self.access_token_issuer.0@,
            lifetime: self.access_token_expiration@,
            audience: self.access_token_audience.0@,
            client_id: self.access_token_client_id.0@,
        }
    }
}

impl AuthStateView {
    /// What every configuration in use satisfies.
    pub open spec fn wf(&self) -> bool {
        &&& key_len_ok(self.key.len())
        &&& 0 <= self.lifetime <= MAX_LIFETIME_SECS
    }
}

impl AuthState {
    pub open spec fn spec_new(key: Seq<u8>, lifetime: i64) -> Result<(), ConfigError> {
        match JwsSigningSecret::spec_new(key) {
            Err(e) => Err(e),
            Ok(_) => match AccessTokenExpiration::spec_new(lifetime) {
                Err(e) => Err(e),
                Ok(_) => Ok(()),
            },
        }
    }

    /// Builds a configuration, rejecting a key of fewer than 32 or more than
    /// 64 bytes and a lifetime that is negative or too long.
    pub fn new(
        key: Vec<u8>,
        issuer: String,
        audience: String,
        client_id: Uuid,
        lifetime_seconds: i64,
    ) -> (r: Result<AuthState, ConfigError>)
        ensures
            r.is_ok() == Self::spec_new(key@, lifetime_seconds).is_ok(),
            r matches Err(e) ==> Self::spec_new(key@, lifetime_seconds) == Err::<(), ConfigError>(e),
            r matches Ok(state) ==> state@ == (AuthStateView {
                key: key@,
                issuer: issuer@,
                lifetime: lifetime_seconds as int,
                audience: audience@,
                client_id: client_id@,
            }) && state@.wf(),
    {
        let secret = match JwsSigningSecret::new(key) {
            Ok(secret) => secret,
            Err(e) => {
                return Err(e);
            },
        };
        let lifetime = match AccessTokenExpiration::new(lifetime_seconds) {
            Ok(lifetime) => lifetime,
            Err(e) => {
                return Err(e);
            },
        };
        Ok(
            AuthState {
                jws_signing_secret: secret,
                access_token_issuer: AccessTokenIssuer(issuer),
                access_token_expiration: lifetime,
                access_token_audience: AccessTokenAudience(audience),
                access_token_client_id: AccessTokenClientId(client_id),
            },
        )
    }

    /// The configuration that the five settings give, or the first of them
    /// that is refused, in this order: key, issuer, lifetime, audience, client.
    pub open spec fn spec_from_settings(
        key: Seq<char>,
        issuer: Seq<char>,
        lifetime: Seq<char>,
        audience: Seq<char>,
        client_id: Seq<char>,
    ) -> Result<AuthStateView, ConfigError> {
        if base64_decoded(key) is None {
            Err(ConfigError::KeyNotBase64)
        } else if JwsSigningSecret::spec_new(base64_decoded(key).unwrap()) is Err {
            Err(JwsSigningSecret::spec_new(base64_decoded(key).unwrap())->Err_0)
        } else if normalized_url(issuer) is None {
            Err(ConfigError::IssuerNotUrl)
        } else if span_duration(lifetime) is None {
            Err(ConfigError::LifetimeNotSpan)
        } else if AccessTokenExpiration::spec_from_duration(
            span_duration(lifetime).unwrap().0,
            span_duration(lifetime).unwrap().1,
        ) is Err {
            Err(
                AccessTokenExpiration::spec_from_duration(
                    span_duration(lifetime).unwrap().0,
                    span_duration(lifetime).unwrap().1,
                )->Err_0,
            )
        } else if normalized_url(audience) is None {
            Err(ConfigError::AudienceNotUrl)
        } else if Uuid::spec_parse(client_id) is None {
            Err(ConfigError::ClientNotUuid)
        } else {
            Ok(
                AuthStateView {
                    key: base64_decoded(key).unwrap(),
                    issuer: normalized_url(issuer).unwrap(),
                    lifetime: span_duration(lifetime).unwrap().0 as int,
                    audience: normalized_url(audience).unwrap(),
                    client_id: Uuid::spec_parse(client_id).unwrap(),
                },
            )
        }
    }

    /// Reads a configuration from its five settings as they are written: the
    /// key in padded Base64, issuer and audience as URLs, the lifetime as a
    /// span of time (`1h`, `PT30M`), the client as an identifier.
    pub fn from_settings(
        key: &str,
        issuer: &str,
        lifetime: &str,
        audience: &str,
        client_id: &str,
    ) -> (r: Result<AuthState, ConfigError>)
        ensures
            r.is_ok() == Self::spec_from_settings(
                key@,
                issuer@,
                lifetime@,
                audience@,
                client_id@,
            ).is_ok(),
            r matches Ok(state) ==> Self::spec_from_settings(
                key@,
                issuer@,
                lifetime@,
                audience@,
                client_id@,
            ) == Ok::<AuthStateView, ConfigError>(state@) && state@.wf(),
            r matches Err(e) ==> Self::spec_from_settings(
                key@,
                issuer@,
                lifetime@,
                audience@,
                client_id@,
            ) == Err::<AuthStateView, ConfigError>(e),
    {
        let secret = match base64_decode(key) {
            Some(bytes) => match JwsSigningSecret::new(bytes) {
                Ok(secret) => secret,
                Err(e) => {
                    return Err(e);
                },
            },
            None => {
                return Err(ConfigError::KeyNotBase64);
            },
        };
        let issuer = match url_normalize(issuer) {
            Some(issuer) => issuer,
            None => {
                return Err(ConfigError::IssuerNotUrl);
            },
        };
        let expiration = match span_parse(lifetime) {
            Some((seconds, nanoseconds)) => match AccessTokenExpiration::from_duration(
                seconds,
                nanoseconds,
            ) {
                Ok(expiration) => expiration,
                Err(e) => {
                    return Err(e);
                },
            },
            None => {
                return Err(ConfigError::LifetimeNotSpan);
            },
        };
        let audience = match url_normalize(audience) {
            Some(audience) => audience,
            None => {
                return Err(ConfigError::AudienceNotUrl);
            },
        };
        let client = match Uuid::try_parse(client_id) {
            Some(client) => client,
            None => {
                return Err(ConfigError::ClientNotUuid);
            },
        };
        let state = AuthState {
            jws_signing_secret: secret,
            access_token_issuer: AccessTokenIssuer(issuer),
            access_token_expiration: expiration,
            access_token_audience: AccessTokenAudience(audience),
            access_token_client_id: AccessTokenClientId(client),
        };
        state.confirm_bounds();
        Ok(state)
    }

    /// Every configuration has a key of 32 to 64 bytes and a lifetime within bounds.
    pub fn confirm_bounds(&self)
        ensures
            self@.wf(),
    {
        let _key = self.jws_signing_secret.expose();
        let _lifetime = self.access_token_expiration.seconds();
    }
}

} // verus!
