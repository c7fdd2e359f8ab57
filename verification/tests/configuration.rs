use bank_core::ident::Uuid;
use bank_core::state::{
    AccessTokenExpiration, AuthState, ConfigError, JwsSigningSecret, HS256_SECRET_KEY_LEN,
    HS256_SECRET_KEY_MIN_LEN, MAX_LIFETIME_SECS,
};

fn state(key_len: usize, lifetime: i64) -> Result<AuthState, ConfigError> {
    AuthState::new(
        vec![1u8; key_len],
        "https://issuer.example/".to_string(),
        "https://audience.example/".to_string(),
        Uuid::from_u128(5),
        lifetime,
    )
}

#[test]
fn key_must_have_thirty_two_to_sixty_four_bytes() {
    assert_eq!(HS256_SECRET_KEY_MIN_LEN, 32);
    assert_eq!(HS256_SECRET_KEY_LEN, 64);
    assert_eq!(state(0, 60).err(), Some(ConfigError::KeyTooShort));
    assert_eq!(state(31, 60).err(), Some(ConfigError::KeyTooShort));
    assert!(state(32, 60).is_ok());
    assert!(state(48, 60).is_ok());
    assert!(state(64, 60).is_ok());
    assert_eq!(state(65, 60).err(), Some(ConfigError::KeyTooLong));
    assert_eq!(JwsSigningSecret::new(vec![0u8; 31]).err(), Some(ConfigError::KeyTooShort));
    assert_eq!(JwsSigningSecret::new(vec![0u8; 65]).err(), Some(ConfigError::KeyTooLong));
    let secret = JwsSigningSecret::new(vec![3u8; 40]).ok().unwrap();
    assert_eq!(secret.expose().to_vec(), vec![3u8; 40]);
}

#[test]
fn lifetime_must_be_a_duration_within_bounds() {
    assert_eq!(state(32, -1).err(), Some(ConfigError::NegativeLifetime));
    assert!(state(32, 0).is_ok());
    assert!(state(32, MAX_LIFETIME_SECS).is_ok());
    assert_eq!(state(32, MAX_LIFETIME_SECS + 1).err(), Some(ConfigError::LifetimeOverflow));
    assert_eq!(state(32, i64::MAX).err(), Some(ConfigError::LifetimeOverflow));
    assert_eq!(state(31, -1).err(), Some(ConfigError::KeyTooShort));
    assert_eq!(AccessTokenExpiration::new(90).ok().unwrap().seconds(), 90);
    assert_eq!(AccessTokenExpiration::from_duration(90, 500_000_000).ok().unwrap().seconds(), 90);
    assert_eq!(
        AccessTokenExpiration::from_duration(0, -1).err(),
        Some(ConfigError::NegativeLifetime)
    );
    assert_eq!(
        AccessTokenExpiration::from_duration(-1, 0).err(),
        Some(ConfigError::NegativeLifetime)
    );
}

#[test]
fn configuration_keeps_what_it_was_given() {
    let cfg = state(32, 3600).ok().unwrap();
    assert_eq!(cfg.jws_signing_secret.expose().to_vec(), vec![1u8; 32]);
    assert_eq!(cfg.access_token_issuer.0, "https://issuer.example/");
    assert_eq!(cfg.access_token_audience.0, "https://audience.example/");
    assert_eq!(cfg.access_token_client_id.0, Uuid::from_u128(5));
    assert_eq!(cfg.access_token_expiration.seconds(), 3600);
    cfg.confirm_bounds();
}

const KEY_32: &str = "AAECAwQFBgcICQoLDA0ODxAREhMUFRYXGBkaGxwdHh8=";
const CLIENT: &str = "01234567-89ab-cdef-0123-456789abcdef";

fn settings(
    key: &str,
    issuer: &str,
    lifetime: &str,
    audience: &str,
    client: &str,
) -> Result<AuthState, ConfigError> {
    AuthState::from_settings(key, issuer, lifetime, audience, client)
}

#[test]
fn configuration_is_read_from_its_settings() {
    let cfg = settings(KEY_32, "https://issuer.example", "1h 30m", "https://AUDIENCE.example/x", CLIENT)
        .ok()
        .unwrap();
    let expected: Vec<u8> = (0u8..32).collect();
    assert_eq!(cfg.jws_signing_secret.expose().to_vec(), expected);
    assert_eq!(cfg.access_token_issuer.0, "https://issuer.example/");
    assert_eq!(cfg.access_token_audience.0, "https://audience.example/x");
    assert_eq!(cfg.access_token_expiration.seconds(), 5400);
    assert_eq!(cfg.access_token_client_id.0, Uuid::from_u128(0x0123456789abcdef0123456789abcdef));
    let cfg = settings(KEY_32, "urn:issuer", "PT15M", "urn:audience", CLIENT).ok().unwrap();
    assert_eq!(cfg.access_token_expiration.seconds(), 900);
    let cfg = settings(KEY_32, "urn:issuer", "1w 1d", "urn:audience", CLIENT).ok().unwrap();
    assert_eq!(cfg.access_token_expiration.seconds(), 8 * 86_400);
    let cfg = settings(KEY_32, "urn:issuer", "1500ms", "urn:audience", CLIENT).ok().unwrap();
    assert_eq!(cfg.access_token_expiration.seconds(), 1);
}

#[test]
fn each_setting_is_refused_for_its_own_reason() {
    let good = |k: &str, i: &str, l: &str, a: &str, c: &str| settings(k, i, l, a, c).err();
    assert_eq!(good("not base64!", "urn:i", "1h", "urn:a", CLIENT), Some(ConfigError::KeyNotBase64));
    assert_eq!(good("AAECAwQ=", "urn:i", "1h", "urn:a", CLIENT), Some(ConfigError::KeyTooShort));
    let long = "A".repeat(88);
    assert_eq!(good(&long, "urn:i", "1h", "urn:a", CLIENT), Some(ConfigError::KeyTooLong));
    assert_eq!(good(KEY_32, "no url", "1h", "urn:a", CLIENT), Some(ConfigError::IssuerNotUrl));
    assert_eq!(good(KEY_32, "urn:i", "soon", "urn:a", CLIENT), Some(ConfigError::LifetimeNotSpan));
    assert_eq!(good(KEY_32, "urn:i", "1 month", "urn:a", CLIENT), Some(ConfigError::LifetimeNotSpan));
    assert_eq!(good(KEY_32, "urn:i", "-1h", "urn:a", CLIENT), Some(ConfigError::NegativeLifetime));
    assert_eq!(good(KEY_32, "urn:i", "-1ms", "urn:a", CLIENT), Some(ConfigError::NegativeLifetime));
    assert_eq!(good(KEY_32, "urn:i", "1h", "", CLIENT), Some(ConfigError::AudienceNotUrl));
    assert_eq!(good(KEY_32, "urn:i", "1h", "urn:a", "client"), Some(ConfigError::ClientNotUuid));
    assert_eq!(good("?", "?", "?", "?", "?"), Some(ConfigError::KeyNotBase64));
    assert_eq!(good(KEY_32, "?", "?", "?", "?"), Some(ConfigError::IssuerNotUrl));
    assert_eq!(good(KEY_32, "urn:i", "?", "?", "?"), Some(ConfigError::LifetimeNotSpan));
    assert_eq!(good(KEY_32, "urn:i", "1h", "?", "?"), Some(ConfigError::AudienceNotUrl));
}
