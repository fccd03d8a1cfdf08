use muswitch::auth::AuthError;
use muswitch::auth::Credential;
use muswitch::auth::SpotifyAuthResponse;
use muswitch::auth::Token;
use muswitch::auth::TokenCacheEntry;
use muswitch::auth::token_request_params;

const TOKEN_BODY: &str = "{\"access_token\":\"fresh-bearer\",\"token_type\":\"Bearer\",\"expires_in\":3600}";

#[test]
fn empty_cache_serves_nothing() {
    let entry = TokenCacheEntry::new();
    assert!(entry.get_cached(0).is_none());
    assert!(entry.get_cached(u64::MAX).is_none());
}

#[test]
fn refresh_installs_and_serves_token() {
    let mut entry = TokenCacheEntry::new();
    let got = entry.apply_refresh_response(1_000, 200, TOKEN_BODY);
    assert_eq!(got, Ok(String::from("fresh-bearer")));
    assert_eq!(entry.get_cached(1_000), Some(String::from("fresh-bearer")));
}

#[test]
fn expiry_boundary_serves_until_lifetime_elapses() {
    // A token with lifetime L is served at issued_at + L - 1 and refreshed
    // from issued_at + L on.
    let mut entry = TokenCacheEntry::new();
    entry
        .apply_refresh_response(1_000, 200, TOKEN_BODY)
        .unwrap();
    assert_eq!(entry.get_cached(1_000 + 3599), Some(String::from("fresh-bearer")));
    assert_eq!(entry.get_cached(1_000 + 3600), None);
    assert_eq!(entry.get_cached(1_000 + 3601), None);
}

#[test]
fn zero_lifetime_means_already_expired() {
    let mut entry = TokenCacheEntry::new();
    let body = "{\"access_token\":\"t\",\"expires_in\":0}";
    assert_eq!(entry.apply_refresh_response(500, 200, body), Ok(String::from("t")));
    assert_eq!(entry.get_cached(500), None);
}

#[test]
fn negative_lifetime_means_already_expired() {
    let mut entry = TokenCacheEntry::new();
    let body = "{\"access_token\":\"t\",\"expires_in\":-5}";
    assert_eq!(entry.apply_refresh_response(500, 200, body), Ok(String::from("t")));
    assert_eq!(entry.get_cached(500), None);
}

#[test]
fn single_flight_refresh_under_serialized_callers() {
    // Five callers arrive while the cache is empty; the lock serializes
    // them. Only the first misses and performs the one acquisition call;
    // the remaining four observe the same installed bearer.
    let mut entry = TokenCacheEntry::new();
    let now = 42;
    let mut acquisition_calls = 0;
    let mut observed: Vec<String> = Vec::new();
    for _ in 0..5 {
        match entry.get_cached(now) {
            Some(bearer) => observed.push(bearer),
            None => {
                acquisition_calls += 1;
                let bearer = entry.apply_refresh_response(now, 200, TOKEN_BODY).unwrap();
                observed.push(bearer);
            }
        }
    }
    assert_eq!(acquisition_calls, 1);
    assert_eq!(observed.len(), 5);
    for bearer in &observed {
        assert_eq!(bearer, "fresh-bearer");
    }
}

#[test]
fn auth_failure_returns_fetch_failed() {
    let mut entry = TokenCacheEntry::new();
    let got = entry.apply_refresh_response(0, 400, "{\"error\":\"invalid_client\"}");
    assert!(matches!(got, Err(AuthError::FetchFailed(_))));
    assert_eq!(entry.get_cached(0), None);
}

#[test]
fn auth_failure_leaves_cached_token_untouched() {
    // A token endpoint replying 400 surfaces FetchFailed and leaves the
    // previously cached valid token exactly as it was.
    let mut entry = TokenCacheEntry::new();
    entry
        .apply_refresh_response(1_000, 200, TOKEN_BODY)
        .unwrap();
    let got = entry.apply_refresh_response(1_001, 400, "{}");
    assert!(matches!(got, Err(AuthError::FetchFailed(_))));
    assert_eq!(entry.get_cached(1_001), Some(String::from("fresh-bearer")));
}

#[test]
fn non_json_reply_is_fetch_failed() {
    let mut entry = TokenCacheEntry::new();
    let got = entry.apply_refresh_response(0, 200, "not json at all");
    assert!(matches!(got, Err(AuthError::FetchFailed(_))));
    assert_eq!(entry.get_cached(0), None);
}

#[test]
fn reply_missing_access_token_is_fetch_failed() {
    let mut entry = TokenCacheEntry::new();
    let got = entry.apply_refresh_response(0, 200, "{\"expires_in\":3600}");
    assert!(matches!(got, Err(AuthError::FetchFailed(_))));
}

#[test]
fn reply_missing_expires_in_is_fetch_failed() {
    let mut entry = TokenCacheEntry::new();
    let got = entry.apply_refresh_response(0, 200, "{\"access_token\":\"t\"}");
    assert!(matches!(got, Err(AuthError::FetchFailed(_))));
}

#[test]
fn token_validity_is_an_absolute_instant() {
    let token = Token { bearer_value: String::from("b"), issued_at: 100, lifetime: 50 };
    assert!(token.valid_at(100));
    assert!(token.valid_at(149));
    assert!(!token.valid_at(150));
    assert!(!token.valid_at(151));
}

#[test]
fn install_replaces_previous_token_wholesale() {
    let mut entry = TokenCacheEntry::new();
    entry.install(String::from("old"), 0, 1_000);
    entry.install(String::from("new"), 10, 1_000);
    assert_eq!(entry.get_cached(10), Some(String::from("new")));
}

#[test]
fn invalidate_discards_a_live_token() {
    // After a provider rejects the bearer, the entry is cleared, so the
    // next call cannot reuse the stale token and must refresh.
    let mut entry = TokenCacheEntry::new();
    entry
        .apply_refresh_response(1_000, 200, TOKEN_BODY)
        .unwrap();
    assert_eq!(entry.get_cached(1_000), Some(String::from("fresh-bearer")));
    entry.invalidate();
    assert_eq!(entry.get_cached(1_000), None);
}

#[test]
fn request_params_carry_the_three_form_fields() {
    let cred = Credential {
        client_id: String::from("id-123"),
        client_secret: String::from("hush-456"),
    };
    let params = token_request_params(&cred);
    assert_eq!(params.len(), 3);
    assert_eq!(params[0], (String::from("grant_type"), String::from("client_credentials")));
    assert_eq!(params[1], (String::from("client_id"), String::from("id-123")));
    assert_eq!(params[2], (String::from("client_secret"), String::from("hush-456")));
}

#[test]
fn wire_reply_stage_keeps_fields_optional() {
    let empty = SpotifyAuthResponse::new();
    assert_eq!(empty.access_token, Some(String::new()));
    assert_eq!(empty.expires_in, Some(0));
    assert_eq!(empty.reply(), Some((String::new(), 0)));

    let partial = SpotifyAuthResponse { access_token: None, expires_in: Some(60) };
    assert_eq!(partial.reply(), None);
}
