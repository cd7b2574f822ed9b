use reddit_youtube_bot::error::ApiError;
use reddit_youtube_bot::forms::{FormType, RedditAuthorization, RedditAuthorizeDuration};
use reddit_youtube_bot::reddit::RedditCallback;
use reddit_youtube_bot::oauth::{
    authorize_url, begin_authorization, check_identity_scope, exchange_form, expiry_after,
    identity_url, pending_authorization, refresh_form, refresh_token_due, token_url, user_name,
    RedditCredentials, RedditOAuthToken,
};

fn pair(a: &str, b: &str) -> (String, String) {
    (a.to_string(), b.to_string())
}

fn token(refresh: Option<&str>, scope: &str) -> RedditOAuthToken {
    RedditOAuthToken {
        access_token: "access".to_string(),
        token_type: "bearer".to_string(),
        expires_in: 86_400,
        scope: scope.to_string(),
        refresh_token: refresh.map(|s| s.to_string()),
    }
}

fn authorization() -> RedditAuthorization {
    RedditAuthorization {
        form_type: FormType::Reddit,
        duration: RedditAuthorizeDuration::Permanent,
        scopes: "identity,submit".to_string(),
    }
}

#[test]
fn expired_token_with_refresh_token_is_due() {
    let t = token(Some("refresh"), "identity");
    assert_eq!(refresh_token_due(&t, 1000, 1000), Some(&"refresh".to_string()));
    assert_eq!(refresh_token_due(&t, 1000, 1001), Some(&"refresh".to_string()));
    assert_eq!(refresh_token_due(&t, i64::MIN, i64::MAX), Some(&"refresh".to_string()));
}

#[test]
fn valid_token_is_not_due() {
    let t = token(Some("refresh"), "identity");
    assert_eq!(refresh_token_due(&t, 1000, 999), None);
    assert_eq!(refresh_token_due(&t, i64::MAX, 0), None);
}

#[test]
fn token_without_refresh_token_is_never_due() {
    let t = token(None, "identity");
    assert_eq!(refresh_token_due(&t, 1000, 2000), None);
    assert_eq!(refresh_token_due(&t, 1000, 0), None);
}

#[test]
fn new_expiry_is_now_plus_lease() {
    assert_eq!(expiry_after(1_700_000_000, 86_400), 1_700_086_400);
    assert_eq!(expiry_after(10, -20), -10);
    assert_eq!(expiry_after(i64::MAX, 1), i64::MAX);
    assert_eq!(expiry_after(i64::MIN, -1), i64::MIN);
}

#[test]
fn refresh_and_exchange_forms() {
    assert_eq!(
        refresh_form("r-1"),
        vec![pair("grant_type", "refresh_token"), pair("refresh_token", "r-1")]
    );
    assert_eq!(
        exchange_form("c-1", "https://bot.example"),
        vec![
            pair("grant_type", "authorization_code"),
            pair("code", "c-1"),
            pair("redirect_uri", "https://bot.example/reddit/callback"),
        ]
    );
}

#[test]
fn authorize_url_names_every_parameter() {
    assert_eq!(
        authorize_url("cid", "https://bot.example/reddit/callback", "st", &authorization()),
        "https://www.reddit.com/api/v1/authorize?client_id=cid&response_type=code&state=st&redirect_uri=https://bot.example/reddit/callback&duration=permanent&scope=identity,submit"
    );
}

#[test]
fn authorization_begins_under_a_fresh_state() {
    let credentials =
        RedditCredentials { client_id: "cid".to_string(), client_secret: "shh".to_string() };
    let (state_a, url_a) = begin_authorization(&credentials, "https://r", &authorization());
    let (state_b, url_b) = begin_authorization(&credentials, "https://r", &authorization());
    assert_ne!(state_a, state_b);
    assert_eq!(state_a.len(), 36);
    assert_eq!(url_a, authorize_url("cid", "https://r", &state_a, &authorization()));
    assert_eq!(url_b, authorize_url("cid", "https://r", &state_b, &authorization()));
}

#[test]
fn state_of_an_authorization_comes_back_accepted_unchanged() {
    let credentials =
        RedditCredentials { client_id: "cid".to_string(), client_secret: "shh".to_string() };
    for _ in 0..20 {
        let (state, _) = begin_authorization(&credentials, "https://r", &authorization());
        assert_eq!(RedditCallback::validate(&state, &None), Ok(state.clone()));
    }
}

#[test]
fn endpoints_of_the_token_and_of_the_identity() {
    assert_eq!(token_url(), "https://www.reddit.com/api/v1/access_token");
    assert_eq!(identity_url(), "https://oauth.reddit.com/api/v1/me");
}

#[test]
fn token_must_carry_the_identity_scope() {
    assert_eq!(check_identity_scope(&token(None, "identity submit")), Ok(()));
    assert_eq!(check_identity_scope(&token(None, "submit identity")), Ok(()));
    assert_eq!(
        check_identity_scope(&token(None, "submit read")),
        Err(ApiError::BadRequest("'identity' Reddit API scope needed for to get username".to_string()))
    );
    assert!(check_identity_scope(&token(None, "")).is_err());
}

#[test]
fn callback_under_an_unknown_state_is_not_found() {
    assert_eq!(pending_authorization("st", Some(authorization())), Ok(authorization()));
    let e = pending_authorization("st", None).unwrap_err();
    assert_eq!(e, ApiError::NotFound("No authorization was begun under the state st".to_string()));
    assert_eq!(e.status_code(), 404);
}

#[test]
fn answer_without_a_name_is_a_failure() {
    assert_eq!(user_name(Some("spez".to_string())), Ok("spez".to_string()));
    assert_eq!(
        user_name(None),
        Err(ApiError::InternalError(
            "'name' property missing from https://oauth.reddit.com/api/v1/me response.".to_string()
        ))
    );
}
