//! The credentials of a Reddit account: when a stored token is refreshed,
//! what the token endpoint is sent, and the address that starts an
//! authorisation.

use vstd::prelude::*;
use vstd::string::*;
use crate::error::{ApiError, ApiErrorView};
use crate::forms::{RedditAuthorization, RedditAuthorizationView};
use crate::ids::{random_id, uuid_canonical};
use crate::text::{contains, includes};

verus! {

/// The credentials of the application itself.
#[derive(Clone, Debug, PartialEq, Eq)]
pub struct RedditCredentials {
    pub client_id: String,
    pub client_secret: String,
}

/// The mathematical value of a [`RedditCredentials`].
pub struct RedditCredentialsView {
    pub client_id: Seq<char>,
    pub client_secret: Seq<char>,
}

impl View for RedditCredentials {
    type V = RedditCredentialsView;

    open spec fn view(&self) -> RedditCredentialsView {
        RedditCredentialsView { client_id: self.client_id@, client_secret: self.client_secret@ }
    }
}

/// An OAuth token as the token endpoint returns it.
#[derive(Clone, Debug, PartialEq, Eq)]
pub struct RedditOAuthToken {
    pub access_token: String,
    pub token_type: String,
    pub expires_in: i64,
    pub scope: String,
    pub refresh_token: Option<String>,
}

/// The mathematical value of a [`RedditOAuthToken`].
pub struct RedditOAuthTokenView {
    pub access_token: Seq<char>,
    pub token_type: Seq<char>,
    pub expires_in: i64,
    pub scope: Seq<char>,
    pub refresh_token: Option<Seq<char>>,
}

impl View for RedditOAuthToken {
    type V = RedditOAuthTokenView;

    open spec fn view(&self) -> RedditOAuthTokenView {
        RedditOAuthTokenView {
            access_token: self.access_token@,
            token_type: self.token_type@,
            expires_in: self.expires_in,
            scope: self.scope@,
            refresh_token: self.refresh_token.deep_view(),
        }
    }
}

impl DeepView for RedditOAuthToken {
    type V = RedditOAuthTokenView;

    open spec fn deep_view(&self) -> RedditOAuthTokenView {
        self@
    }
}

/// An account as the store holds it: the token is kept as text, beside the
/// time at which it expires.
#[derive(Clone, Debug, PartialEq, Eq)]
pub struct RedditAccountDTO {
    pub id: i64,
    pub username: String,
    pub moderate_submissions: bool,
    pub oauth_token: String,
    pub expires_at: i64,
}

/// The mathematical value of a [`RedditAccountDTO`].
pub struct RedditAccountDTOView {
    pub id: i64,
    pub username: Seq<char>,
    pub moderate_submissions: bool,
    pub oauth_token: Seq<char>,
    pub expires_at: i64,
}

impl View for RedditAccountDTO {
    type V = RedditAccountDTOView;

    open spec fn view(&self) -> RedditAccountDTOView {
        RedditAccountDTOView {
            id: self.id,
            username: self.username@,
            moderate_submissions: self.moderate_submissions,
            oauth_token: self.oauth_token@,
            expires_at: self.expires_at,
        }
    }
}

/// An account with the token that its requests are made with.
#[derive(Clone, Debug, PartialEq, Eq)]
pub struct RedditAccount {
    pub id: i64,
    pub username: String,
    pub oauth_token: RedditOAuthToken,
    pub moderate_submissions: bool,
}

/// The mathematical value of a [`RedditAccount`].
pub struct RedditAccountView {
    pub id: i64,
    pub username: Seq<char>,
    pub oauth_token: RedditOAuthTokenView,
    pub moderate_submissions: bool,
}

impl View for RedditAccount {
    type V = RedditAccountView;

    open spec fn view(&self) -> RedditAccountView {
        RedditAccountView {
            id: self.id,
            username: self.username@,
            oauth_token: self.oauth_token@,
            moderate_submissions: self.moderate_submissions,
        }
    }
}

impl DeepView for RedditAccount {
    type V = RedditAccountView;

    open spec fn deep_view(&self) -> RedditAccountView {
        self@
    }
}

/// A stored token is refreshed before use exactly where it carries a refresh
/// token and its time has come: `expires_at` is at or before `now`.
pub open spec fn refresh_due(token: RedditOAuthTokenView, expires_at: i64, now: i64) -> bool {
    token.refresh_token is Some && expires_at <= now
}

/// The refresh token to exchange, where the stored token is due for a
/// refresh; `None` where the stored token is used as it is.
pub fn refresh_token_due(token: &RedditOAuthToken, expires_at: i64, now: i64) -> (r: Option<
    &String,
>)
    ensures
        r is Some == refresh_due(token@, expires_at, now),
        r matches Some(t) ==> token@.refresh_token == Some(t@),
{
    match &token.refresh_token {
        Some(refresh_token) => {
            if now >= expires_at {
                Some(refresh_token)
            } else {
                None
            }
        },
        None => None,
    }
}

/// The time at which a token expires that was issued at `now` for
/// `expires_in` seconds, held to the range of a time.
pub open spec fn expiry_of(now: i64, expires_in: i64) -> i64 {
    if now + expires_in > i64::MAX {
        i64::MAX
    } else if now + expires_in < i64::MIN {
        i64::MIN
    } else {
        (now + expires_in) as i64
    }
}

/// Computes the time at which a token expires that was issued at `now`.
pub fn expiry_after(now: i64, expires_in: i64) -> (at: i64)
    ensures
        at == expiry_of(now, expires_in),
{
    let sum: i128 = now as i128 + expires_in as i128;
    if sum > i64::MAX as i128 {
        i64::MAX
    } else if sum < i64::MIN as i128 {
        i64::MIN
    } else {
        sum as i64
    }
}

/// A token that has just been issued at `now` is not due for a refresh
/// before its lease has run: not at any time before `now + expires_in`.
pub proof fn law_fresh_token_not_due(token: RedditOAuthTokenView, now: i64, later: i64)
    requires
        later < expiry_of(now, token.expires_in),
    ensures
        !refresh_due(token, expiry_of(now, token.expires_in), later),
{
}

/// The token endpoint.
pub open spec fn token_endpoint() -> Seq<char> {
    "https://www.reddit.com/api/v1/access_token"@
}

/// Gives the address of the token endpoint.
pub fn token_url() -> (url: &'static str)
    ensures
        url@ == token_endpoint(),
{
    "https://www.reddit.com/api/v1/access_token"
}

/// The endpoint that names the user behind a token.
pub open spec fn identity_endpoint() -> Seq<char> {
    "https://oauth.reddit.com/api/v1/me"@
}

/// Gives the address of the endpoint that names the user behind a token.
pub fn identity_url() -> (url: &'static str)
    ensures
        url@ == identity_endpoint(),
{
    "https://oauth.reddit.com/api/v1/me"
}

/// The fields that exchange a refresh token for a new token.
pub open spec fn refresh_fields(refresh_token: Seq<char>) -> Seq<(Seq<char>, Seq<char>)> {
    seq![("grant_type"@, "refresh_token"@), ("refresh_token"@, refresh_token)]
}

/// The fields that exchange an authorisation code for a token.
pub open spec fn exchange_fields(code: Seq<char>, base_url: Seq<char>) -> Seq<
    (Seq<char>, Seq<char>),
> {
    seq![
        ("grant_type"@, "authorization_code"@),
        ("code"@, code),
        ("redirect_uri"@, base_url + "/reddit/callback"@),
    ]
}

/// Builds the form that exchanges a refresh token for a new token.
pub fn refresh_form(refresh_token: &str) -> (form: Vec<(String, String)>)
    ensures
        form.deep_view() == refresh_fields(refresh_token@),
{
    let mut form: Vec<(String, String)> = Vec::new();
    form.push((String::from_str("grant_type"), String::from_str("refresh_token")));
    form.push((String::from_str("refresh_token"), String::from_str(refresh_token)));
    assert(form.deep_view() =~= refresh_fields(refresh_token@));
    form
}

/// Builds the form that exchanges an authorisation code for a token.
pub fn exchange_form(code: &str, base_url: &str) -> (form: Vec<(String, String)>)
    ensures
        form.deep_view() == exchange_fields(code@, base_url@),
{
    let mut form: Vec<(String, String)> = Vec::new();
    form.push((String::from_str("grant_type"), String::from_str("authorization_code")));
    form.push((String::from_str("code"), String::from_str(code)));
    form.push(
        (String::from_str("redirect_uri"), String::from_str(base_url).concat("/reddit/callback")),
    );
    assert(form.deep_view() =~= exchange_fields(code@, base_url@));
    form
}

/// The address that asks a user to authorise the application.
pub open spec fn authorize_address(
    client_id: Seq<char>,
    redirect_url: Seq<char>,
    state: Seq<char>,
    authorization: RedditAuthorizationView,
) -> Seq<char> {
    "https://www.reddit.com/api/v1/authorize?client_id="@ + client_id
        + "&response_type=code&state="@ + state + "&redirect_uri="@ + redirect_url + "&duration="@
        + authorization.duration.word() + "&scope="@ + authorization.scopes
}

/// Builds the address that asks a user to authorise the application.
pub fn authorize_url(
    client_id: &str,
    redirect_url: &str,
    state: &str,
    authorization: &RedditAuthorization,
) -> (url: String)
    ensures
        url@ == authorize_address(client_id@, redirect_url@, state@, authorization@),
{
    String::from_str("https://www.reddit.com/api/v1/authorize?client_id=").concat(
        client_id,
    ).concat("&response_type=code&state=").concat(state).concat("&redirect_uri=").concat(
        redirect_url,
    ).concat("&duration=").concat(authorization.duration.as_str()).concat("&scope=").concat(
        authorization.scopes.as_str(),
    )
}

/// Starts an authorisation under a fresh random state: gives the state,
/// under which the validated form is to be kept, and the address to send the
/// user to. Whatever state is drawn, the address is that of
/// [`authorize_url`] for it, and the state is the canonical spelling of a
/// UUID: a callback that brings it back has it accepted unchanged.
pub fn begin_authorization(
    credentials: &RedditCredentials,
    redirect_url: &str,
    authorization: &RedditAuthorization,
) -> (r: (String, String))
    ensures
        r.1@ == authorize_address(credentials@.client_id, redirect_url@, r.0@, authorization@),
        uuid_canonical(r.0@) == Some(r.0@),
{
    let state = random_id();
    let url = authorize_url(
        credentials.client_id.as_str(),
        redirect_url,
        state.as_str(),
        authorization,
    );
    (state, url)
}

/// The explanation given for a callback whose state no authorisation was
/// begun under.
pub open spec fn unknown_state_error(state: Seq<char>) -> Seq<char> {
    "No authorization was begun under the state "@ + state
}

/// The authorisation that a callback belongs to, where the store holds one
/// under the callback's state; a callback under another state is refused as
/// not found.
pub fn pending_authorization(state: &str, found: Option<RedditAuthorization>) -> (r: Result<
    RedditAuthorization,
    ApiError,
>)
    ensures
        r is Ok == found is Some,
        r matches Ok(a) ==> found == Some(a),
        r matches Err(e) ==> e@ == ApiErrorView::NotFound(unknown_state_error(state@)),
{
    match found {
        Some(authorization) => Ok(authorization),
        None => Err(
            ApiError::NotFound(
                String::from_str("No authorization was begun under the state ").concat(state),
            ),
        ),
    }
}

/// The explanation given for an answer that does not name the user.
pub open spec fn missing_name_error() -> Seq<char> {
    "'name' property missing from https://oauth.reddit.com/api/v1/me response."@
}

/// The name of the user behind a token, as the identity endpoint gave it;
/// an answer without a name is a failure.
pub fn user_name(name: Option<String>) -> (r: Result<String, ApiError>)
    ensures
        r is Ok == name is Some,
        r matches Ok(n) ==> name == Some(n),
        r matches Err(e) ==> e@ == ApiErrorView::InternalError(missing_name_error()),
{
    match name {
        Some(n) => Ok(n),
        None => Err(
            ApiError::InternalError(
                String::from_str(
                    "'name' property missing from https://oauth.reddit.com/api/v1/me response.",
                ),
            ),
        ),
    }
}

/// The explanation given for a token that does not let the user be named.
pub open spec fn identity_error() -> Seq<char> {
    "'identity' Reddit API scope needed for to get username"@
}

/// A new token must carry the `identity` scope, or the account behind it
/// cannot be named.
pub fn check_identity_scope(token: &RedditOAuthToken) -> (r: Result<(), ApiError>)
    ensures
        r is Ok == contains(token@.scope, "identity"@),
        r matches Err(e) ==> e@ == ApiErrorView::BadRequest(identity_error()),
{
    if includes(token.scope.as_str(), "identity") {
        Ok(())
    } else {
        Err(
            ApiError::BadRequest(
                String::from_str("'identity' Reddit API scope needed for to get username"),
            ),
        )
    }
}

} // verus!
