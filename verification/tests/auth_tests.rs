use spotify_sync::auth::{
    begin_login, build_auth_url, complete_login, extract_code_from_request, redirect_uri, scopes,
};
use spotify_sync::errors::SyncError;
use spotify_sync::models::Tokens;

#[test]
fn callback_code_is_extracted() {
    let code = extract_code_from_request("/callback?code=AQDxyz-123").unwrap();
    assert_eq!(code, b"AQDxyz-123".to_vec());
}

#[test]
fn callback_code_is_found_among_other_parameters() {
    let code = extract_code_from_request("/callback?state=abc&code=thecode&foo=bar").unwrap();
    assert_eq!(code, b"thecode".to_vec());
}

#[test]
fn callback_without_query_string_is_missing_auth_code() {
    let err = extract_code_from_request("/callback").unwrap_err();
    assert_eq!(err, SyncError::MissingAuthCode);
}

#[test]
fn callback_without_code_parameter_is_missing_auth_code() {
    let err = extract_code_from_request("/callback?state=abc&error=access_denied").unwrap_err();
    assert_eq!(err, SyncError::MissingAuthCode);
    // A parameter whose key merely starts with `code` does not count.
    let err = extract_code_from_request("/callback?codex=1").unwrap_err();
    assert_eq!(err, SyncError::MissingAuthCode);
    // A parameter without `=` does not count either.
    let err = extract_code_from_request("/callback?code").unwrap_err();
    assert_eq!(err, SyncError::MissingAuthCode);
}

#[test]
fn callback_with_empty_code_yields_the_empty_code() {
    let code = extract_code_from_request("/callback?code=").unwrap();
    assert_eq!(code, Vec::<u8>::new());
}

#[test]
fn auth_url_carries_the_encoded_redirect_and_scopes() {
    let url = build_auth_url("my-client-id");
    let expected = format!(
        "https://accounts.spotify.com/authorize?client_id=my-client-id&response_type=code&redirect_uri={}&scope={}",
        urlencoding::encode(redirect_uri()),
        urlencoding::encode(scopes()),
    );
    assert_eq!(url, expected);
    // The redirect address really is percent-encoded in place, not
    // spliced in unchanged.
    assert!(url.contains("redirect_uri=http%3A%2F%2Flocalhost%3A8888%2Fcallback"));
    assert!(!url.contains("redirect_uri=http://localhost"));
}

#[test]
fn login_without_credentials_fails_fast() {
    let err = begin_login(None, Some("secret".to_string())).unwrap_err();
    assert_eq!(err, SyncError::MissingCredentials);
    let err = begin_login(Some("id".to_string()), None).unwrap_err();
    assert_eq!(err, SyncError::MissingCredentials);
    let err = begin_login(None, None).unwrap_err();
    assert_eq!(err, SyncError::MissingCredentials);
}

#[test]
fn login_with_credentials_builds_the_authorization_url() {
    let req = begin_login(Some("id".to_string()), Some("secret".to_string())).unwrap();
    assert_eq!(req.client_id, "id");
    assert_eq!(req.client_secret, "secret");
    assert_eq!(req.auth_url, build_auth_url("id"));
}

#[test]
fn successful_exchange_sets_the_absolute_expiry() {
    let raw = Tokens {
        access_token: "acc".to_string(),
        refresh_token: "ref".to_string(),
        expires_in: 3600,
        expires_at: None,
    };
    let now: u64 = 1_700_000_000;
    let done = complete_login(200, Some(raw), "".to_string(), now).unwrap();
    assert_eq!(done.access_token, "acc");
    assert_eq!(done.refresh_token, "ref");
    assert_eq!(done.expires_in, 3600);
    assert_eq!(done.expires_at, Some(1_700_000_000 + 3600));
}

#[test]
fn failed_exchange_carries_the_server_message() {
    let raw = Tokens {
        access_token: "acc".to_string(),
        refresh_token: "ref".to_string(),
        expires_in: 3600,
        expires_at: None,
    };
    let err = complete_login(400, Some(raw), "invalid_grant".to_string(), 0).unwrap_err();
    assert_eq!(err, SyncError::TokenExchangeFailed { message: "invalid_grant".to_string() });
}

#[test]
fn successful_status_without_a_token_record_fails() {
    let err = complete_login(200, None, "not json".to_string(), 0).unwrap_err();
    assert_eq!(err, SyncError::TokenExchangeFailed { message: "not json".to_string() });
}
