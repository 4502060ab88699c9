use rust_api::jwks::{Jwk, Jwks};
use rust_api::key_cache::{FetchError, KeyCache};

fn rsa_jwk(kid: &str, n: Option<&str>, e: Option<&str>) -> Jwk {
    Jwk {
        kid: kid.to_string(),
        kty: "RSA".to_string(),
        alg: Some("RS256".to_string()),
        n: n.map(|s| s.to_string()),
        e: e.map(|s| s.to_string()),
    }
}

#[test]
fn new_cache_holds_no_key() {
    let cache = KeyCache::new();
    assert!(cache.get("k1").is_none());
}

#[test]
fn refresh_keeps_the_keys_with_both_components() {
    let mut cache = KeyCache::new();
    let jwks = Jwks {
        keys: vec![
            rsa_jwk("k1", Some("AQAB"), Some("AQAB")),
            rsa_jwk("no-exponent", Some("AQAB"), None),
            rsa_jwk("no-modulus", None, Some("AQAB")),
            rsa_jwk("neither", None, None),
        ],
    };
    assert_eq!(cache.refresh(Ok(jwks)), Ok(()));
    let key = cache.get("k1").unwrap();
    assert_eq!(key.modulus, "AQAB");
    assert_eq!(key.exponent, "AQAB");
    assert!(cache.get("no-exponent").is_none());
    assert!(cache.get("no-modulus").is_none());
    assert!(cache.get("neither").is_none());
}

#[test]
fn refresh_skips_components_that_are_not_base64url() {
    let mut cache = KeyCache::new();
    let jwks = Jwks {
        keys: vec![rsa_jwk("bad", Some("not base64!"), Some("AQAB")), rsa_jwk("good", Some("AQAB"), Some("AQAB"))],
    };
    assert_eq!(cache.refresh(Ok(jwks)), Ok(()));
    assert!(cache.get("bad").is_none());
    assert!(cache.get("good").is_some());
}

#[test]
fn refresh_replaces_the_whole_cache() {
    let mut cache = KeyCache::new();
    assert_eq!(cache.refresh(Ok(Jwks { keys: vec![rsa_jwk("old", Some("AQAB"), Some("AQAB"))] })), Ok(()));
    assert!(cache.get("old").is_some());
    assert_eq!(cache.refresh(Ok(Jwks { keys: vec![rsa_jwk("new", Some("AQAB"), Some("AQAB"))] })), Ok(()));
    assert!(cache.get("old").is_none());
    assert!(cache.get("new").is_some());
}

#[test]
fn later_descriptor_with_the_same_kid_counts() {
    let mut cache = KeyCache::new();
    let jwks = Jwks {
        keys: vec![
            rsa_jwk("k1", Some("AAAA"), Some("AQAB")),
            rsa_jwk("k2", Some("BBBB"), Some("AQAB")),
            rsa_jwk("k1", Some("CCCC"), Some("AQAB")),
        ],
    };
    assert_eq!(cache.refresh(Ok(jwks)), Ok(()));
    assert_eq!(cache.get("k1").unwrap().modulus, "CCCC");
    assert_eq!(cache.get("k2").unwrap().modulus, "BBBB");
}

#[test]
fn failed_refresh_keeps_the_cached_keys() {
    let mut cache = KeyCache::new();
    assert_eq!(cache.refresh(Ok(Jwks { keys: vec![rsa_jwk("k1", Some("AQAB"), Some("AQAB"))] })), Ok(()));
    assert_eq!(cache.refresh(Err(FetchError::BadStatus)), Err(FetchError::BadStatus));
    assert_eq!(cache.refresh(Err(FetchError::Unreachable)), Err(FetchError::Unreachable));
    assert_eq!(cache.refresh(Err(FetchError::TimedOut)), Err(FetchError::TimedOut));
    assert_eq!(cache.refresh(Err(FetchError::Malformed)), Err(FetchError::Malformed));
    assert_eq!(cache.get("k1").unwrap().modulus, "AQAB");
}

#[test]
fn empty_key_set_empties_the_cache() {
    let mut cache = KeyCache::new();
    assert_eq!(cache.refresh(Ok(Jwks { keys: vec![rsa_jwk("k1", Some("AQAB"), Some("AQAB"))] })), Ok(()));
    assert_eq!(cache.refresh(Ok(Jwks { keys: vec![] })), Ok(()));
    assert!(cache.get("k1").is_none());
}

#[test]
fn lookup_after_refresh_takes_the_fetch_in_and_looks_once_more() {
    let mut cache = KeyCache::new();
    assert!(cache.get_after_refresh("k1", Err(FetchError::TimedOut)).is_none());
    let fetched = Jwks { keys: vec![rsa_jwk("k1", Some("AQAB"), Some("AQAB"))] };
    assert_eq!(cache.get_after_refresh("k1", Ok(fetched)).unwrap().modulus, "AQAB");
    assert_eq!(cache.get_after_refresh("k1", Err(FetchError::BadStatus)).unwrap().modulus, "AQAB");
    let other = Jwks { keys: vec![rsa_jwk("k2", Some("AAAA"), Some("AQAB"))] };
    assert!(cache.get_after_refresh("k1", Ok(other)).is_none());
    assert_eq!(cache.get("k2").unwrap().modulus, "AAAA");
}
