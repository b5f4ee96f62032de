use poke_collection::config::{
    expiry_from, Config, DEFAULT_ACCESS_EXPIRY_SECS, DEFAULT_REFRESH_EXPIRY_SECS,
};

fn s(text: &str) -> Option<String> {
    Some(text.to_string())
}

#[test]
fn unset_expiries_take_their_defaults() {
    let config = Config::from_env("access".to_string(), "refresh".to_string(), None, None);
    assert_eq!(config.access_secret, "access");
    assert_eq!(config.refresh_secret, "refresh");
    assert_eq!(config.access_token_expiry_secs, 900);
    assert_eq!(config.refresh_token_expiry_secs, 604800);
    assert_eq!(DEFAULT_ACCESS_EXPIRY_SECS, 900);
    assert_eq!(DEFAULT_REFRESH_EXPIRY_SECS, 604800);
}

#[test]
fn set_expiries_are_read() {
    let config = Config::from_env("a".to_string(), "b".to_string(), s("60"), s("-3"));
    assert_eq!(config.access_token_expiry_secs, 60);
    assert_eq!(config.refresh_token_expiry_secs, -3);
}

#[test]
fn expiry_from_default_and_value() {
    assert_eq!(expiry_from(None, 5), Some(5));
    assert_eq!(expiry_from(s("17"), 5), Some(17));
}

#[test]
fn unreadable_expiries_are_told_apart() {
    assert_eq!(expiry_from(s("15m"), 900), None);
    assert_eq!(expiry_from(s(""), 900), None);
    assert_eq!(expiry_from(s(" 900"), 900), None);
}
