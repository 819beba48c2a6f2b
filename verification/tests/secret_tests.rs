use me_rpc::errors::MeError;
use me_rpc::secret::{cached_secret_usable, key_selector, secret_long_enough, validate_proxy_secret};

#[test]
fn cache_freshness_and_length_bounds() {
    assert!(cached_secret_usable(0, 32));
    assert!(cached_secret_usable(86399, 32));
    assert!(!cached_secret_usable(86400, 32));
    assert!(!cached_secret_usable(0, 31));
    assert!(cached_secret_usable(3600, 512));
}

#[test]
fn downloaded_secret_must_be_long_enough() {
    assert_eq!(validate_proxy_secret(&vec![0u8; 32]), Ok(()));
    assert_eq!(validate_proxy_secret(&vec![0u8; 512]), Ok(()));
    assert_eq!(
        validate_proxy_secret(&vec![0u8; 31]),
        Err(MeError::ProxySecret)
    );
    assert_eq!(validate_proxy_secret(&Vec::new()), Err(MeError::ProxySecret));
}

#[test]
fn key_selector_is_first_word_or_zero() {
    assert_eq!(key_selector(&vec![0x78, 0x56, 0x34, 0x12, 0xFF]), 0x1234_5678);
    assert_eq!(key_selector(&vec![1, 2, 3]), 0);
    assert_eq!(key_selector(&Vec::new()), 0);
}

#[test]
fn auth_needs_a_full_secret() {
    assert!(secret_long_enough(&vec![0u8; 32]));
    assert!(!secret_long_enough(&vec![0u8; 16]));
}
