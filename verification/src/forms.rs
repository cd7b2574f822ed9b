//! The two forms that start a workflow: the authorisation of a Reddit
//! account and the subscription to a YouTube channel.

use vstd::prelude::*;
use vstd::string::*;
use crate::error::{ApiError, ApiErrorView};
use crate::hub::{channel_id_of, extract_channel_id_from_topic_url, topic_error, topic_prefix};
use crate::ids::{time_ordered_id, uuid_canonical};
use crate::text::{
    lowercase,
    lowercase_of,
    same_text,
    split,
    split_on,
    starts_with,
    trim,
    trim_matches,
    trimmed,
    trimmed_of,
};

verus! {

/// How long an authorisation lasts.
#[derive(Clone, Copy, Debug, PartialEq, Eq, Structural)]
pub enum RedditAuthorizeDuration {
    Permanent,
    Temporary,
}

impl RedditAuthorizeDuration {
    /// The word that stands for the duration in an authorisation address.
    pub open spec fn word(self) -> Seq<char> {
        match self {
            RedditAuthorizeDuration::Permanent => "permanent"@,
            RedditAuthorizeDuration::Temporary => "temporary"@,
        }
    }

    /// The word that stands for the duration in an authorisation address.
    pub fn as_str(&self) -> (w: &'static str)
        ensures
            w@ == self.word(),
    {
        match self {
            RedditAuthorizeDuration::Permanent => "permanent",
            RedditAuthorizeDuration::Temporary => "temporary",
        }
    }
}

/// Which form a stored record came from.
#[derive(Clone, Copy, Debug, PartialEq, Eq, Structural)]
pub enum FormType {
    Reddit,
    Youtube,
}

/// A validated request to authorise a Reddit account.
#[derive(Clone, Debug, PartialEq, Eq)]
pub struct RedditAuthorization {
    pub form_type: FormType,
    pub duration: RedditAuthorizeDuration,
    pub scopes: String,
}

/// The mathematical value of a [`RedditAuthorization`].
pub struct RedditAuthorizationView {
    pub form_type: FormType,
    pub duration: RedditAuthorizeDuration,
    pub scopes: Seq<char>,
}

impl View for RedditAuthorization {
    type V = RedditAuthorizationView;

    open spec fn view(&self) -> RedditAuthorizationView {
        RedditAuthorizationView {
            form_type: self.form_type,
            duration: self.duration,
            scopes: self.scopes@,
        }
    }
}

/// What the authorisation form submits.
#[derive(Clone, Debug, PartialEq, Eq)]
pub struct RedditAuthorizeForm {
    pub duration: RedditAuthorizeDuration,
    pub scopes: String,
}

/// The scopes that Reddit knows.
pub open spec fn is_reddit_scope(s: Seq<char>) -> bool {
    ||| s == "edit"@
    ||| s == "flair"@
    ||| s == "history"@
    ||| s == "identity"@
    ||| s == "modconfig"@
    ||| s == "modflair"@
    ||| s == "modlog"@
    ||| s == "modposts"@
    ||| s == "modwiki"@
    ||| s == "mysubreddits"@
    ||| s == "privatemessages"@
    ||| s == "read"@
    ||| s == "report"@
    ||| s == "save"@
    ||| s == "submit"@
    ||| s == "subscribe"@
    ||| s == "vote"@
    ||| s == "wikiedit"@
    ||| s == "wikiread"@
}

/// Whether `s` is one of the scopes that Reddit knows.
pub fn reddit_scope_known(s: &str) -> (r: bool)
    ensures
        r == is_reddit_scope(s@),
{
    same_text(s, "edit") || same_text(s, "flair") || same_text(s, "history") || same_text(
        s,
        "identity",
    ) || same_text(s, "modconfig") || same_text(s, "modflair") || same_text(s, "modlog")
        || same_text(s, "modposts") || same_text(s, "modwiki") || same_text(s, "mysubreddits")
        || same_text(s, "privatemessages") || same_text(s, "read") || same_text(s, "report")
        || same_text(s, "save") || same_text(s, "submit") || same_text(s, "subscribe") || same_text(
        s,
        "vote",
    ) || same_text(s, "wikiedit") || same_text(s, "wikiread")
}

/// The scope at position `i` is unknown, or repeats an earlier one.
pub open spec fn rejected_at(scopes: Seq<Seq<char>>, i: int) -> bool {
    !is_reddit_scope(scopes[i]) || scopes.take(i).contains(scopes[i])
}

/// The first position at or after `i` whose scope is rejected; the length of
/// `scopes` where there is none.
pub open spec fn first_rejected_from(scopes: Seq<Seq<char>>, i: int) -> int
    decreases scopes.len() - i,
{
    if i < 0 || i >= scopes.len() {
        scopes.len() as int
    } else if rejected_at(scopes, i) {
        i
    } else {
        first_rejected_from(scopes, i + 1)
    }
}

/// Why a list of requested scopes is refused, if it is: the first scope that
/// is unknown or repeated decides; then an empty list; then a list without
/// `identity`.
pub open spec fn scope_verdict(scopes: Seq<Seq<char>>) -> Option<ApiErrorView> {
    let i = first_rejected_from(scopes, 0);
    if i < scopes.len() {
        if !is_reddit_scope(scopes[i]) {
            Some(ApiErrorView::BadRequest("Invalid scope: "@ + scopes[i]))
        } else {
            Some(ApiErrorView::BadRequest("Duplicate scope: "@ + scopes[i]))
        }
    } else if scopes.len() == 0 {
        Some(ApiErrorView::BadRequest("No scopes provided"@))
    } else if !scopes.contains("identity"@) {
        Some(ApiErrorView::BadRequest("'identity' scope needed"@))
    } else {
        None
    }
}

/// One more element is found in a longer prefix exactly where it is the new
/// element or was found before.
pub proof fn lemma_take_contains(s: Seq<Seq<char>>, i: int, x: Seq<char>)
    requires
        0 <= i < s.len(),
    ensures
        s.take(i + 1).contains(x) == (s.take(i).contains(x) || s[i] == x),
{
    let short = s.take(i);
    let long = s.take(i + 1);
    if short.contains(x) {
        let k = choose|k: int| 0 <= k < short.len() && short[k] == x;
        assert(long[k] == x);
    }
    if s[i] == x {
        assert(long[i] == x);
    }
    if long.contains(x) {
        let k = choose|k: int| 0 <= k < long.len() && long[k] == x;
        if k < i {
            assert(short[k] == x);
        }
    }
}

/// Checks a list of requested scopes, already in lower case: each must be
/// known to Reddit and occur once, and `identity` must be among them.
pub fn check_scopes(scopes: &Vec<String>) -> (r: Result<(), ApiError>)
    ensures
        r is Ok == scope_verdict(scopes.deep_view()) is None,
        r matches Err(e) ==> scope_verdict(scopes.deep_view()) == Some(e@),
{
    let ghost all = scopes.deep_view();
    let mut has_identity = false;
    let mut i: usize = 0;
    while i < scopes.len()
        invariant
            all == scopes.deep_view(),
            i <= scopes.len(),
            first_rejected_from(all, 0) == first_rejected_from(all, i as int),
            has_identity == all.take(i as int).contains("identity"@),
        decreases scopes.len() - i,
    {
        let scope = &scopes[i];
        assert(all[i as int] == scope@);
        if !reddit_scope_known(scope.as_str()) {
            return Err(
                ApiError::BadRequest(String::from_str("Invalid scope: ").concat(scope.as_str())),
            );
        }
        let mut j: usize = 0;
        while j < i
            invariant
                all == scopes.deep_view(),
                j <= i < scopes.len(),
                scope@ == all[i as int],
                is_reddit_scope(scope@),
                first_rejected_from(all, 0) == first_rejected_from(all, i as int),
                !all.take(j as int).contains(scope@),
            decreases i - j,
        {
            assert(all[j as int] == scopes[j as int]@);
            if scopes[j] == *scope {
                assert(all.take(i as int)[j as int] == scope@);
                return Err(
                    ApiError::BadRequest(
                        String::from_str("Duplicate scope: ").concat(scope.as_str()),
                    ),
                );
            }
            proof {
                lemma_take_contains(all, j as int, scope@);
            }
            j += 1;
        }
        if same_text(scope.as_str(), "identity") {
            has_identity = true;
        }
        proof {
            lemma_take_contains(all, i as int, "identity"@);
        }
        i += 1;
    }
    assert(all.take(i as int) =~= all);
    if scopes.len() == 0 {
        return Err(ApiError::BadRequest(String::from_str("No scopes provided")));
    }
    if !has_identity {
        return Err(ApiError::BadRequest(String::from_str("'identity' scope needed")));
    }
    Ok(())
}

/// The mathematical value of a [`RedditAuthorizeForm`].
pub struct RedditAuthorizeFormView {
    pub duration: RedditAuthorizeDuration,
    pub scopes: Seq<char>,
}

impl View for RedditAuthorizeForm {
    type V = RedditAuthorizeFormView;

    open spec fn view(&self) -> RedditAuthorizeFormView {
        RedditAuthorizeFormView { duration: self.duration, scopes: self.scopes@ }
    }
}

/// The scope input without surrounding whitespace and commas.
pub open spec fn normalized_scopes(input: Seq<char>) -> Seq<char> {
    trimmed(trimmed_of(trimmed(input), ','))
}

/// The scopes that a list of pieces asks for: the pieces that are not empty,
/// in order, each in lower case.
pub open spec fn requested_scopes(pieces: Seq<Seq<char>>) -> Seq<Seq<char>>
    decreases pieces.len(),
{
    if pieces.len() == 0 {
        Seq::empty()
    } else if pieces.last().len() > 0 {
        requested_scopes(pieces.drop_last()).push(lowercase_of(pieces.last()))
    } else {
        requested_scopes(pieces.drop_last())
    }
}

/// What validating an authorisation form gives.
pub open spec fn authorization_of(form: RedditAuthorizeFormView) -> Result<
    RedditAuthorizationView,
    ApiErrorView,
> {
    let scopes = normalized_scopes(form.scopes);
    if scopes.len() == 0 {
        Err(ApiErrorView::BadRequest("client_id, redirect_url or scope input was empty"@))
    } else {
        match scope_verdict(requested_scopes(split_on(scopes, ','))) {
            Some(e) => Err(e),
            None => Ok(
                RedditAuthorizationView {
                    form_type: FormType::Reddit,
                    duration: form.duration,
                    scopes,
                },
            ),
        }
    }
}

impl RedditAuthorizeForm {
    /// Validates the form. The scope input is stripped of surrounding
    /// whitespace and commas and must not be empty; its comma-separated
    /// pieces, empty ones left out and the rest taken in lower case, must pass
    /// [`check_scopes`]. The authorisation keeps the stripped input.
    pub fn validate(authorize_form_data: &Self) -> (r: Result<RedditAuthorization, ApiError>)
        ensures
            r is Ok == authorization_of(authorize_form_data@) is Ok,
            r matches Ok(a) ==> authorization_of(authorize_form_data@) == Ok::<
                RedditAuthorizationView,
                ApiErrorView,
            >(a@),
            r matches Err(e) ==> authorization_of(authorize_form_data@) == Err::<
                RedditAuthorizationView,
                ApiErrorView,
            >(e@),
    {
        let scopes = trim(trim_matches(trim(authorize_form_data.scopes.as_str()), ','));
        if scopes.is_empty() {
            return Err(
                ApiError::BadRequest(
                    String::from_str("client_id, redirect_url or scope input was empty"),
                ),
            );
        }
        let pieces = split(scopes, ',');
        let ghost all = pieces.deep_view();
        let mut requested: Vec<String> = Vec::new();
        let mut i: usize = 0;
        assert(all.take(0) =~= Seq::<Seq<char>>::empty());
        assert(requested.deep_view() =~= Seq::<Seq<char>>::empty());
        while i < pieces.len()
            invariant
                all == pieces.deep_view(),
                i <= pieces.len(),
                requested.deep_view() == requested_scopes(all.take(i as int)),
            decreases pieces.len() - i,
        {
            let piece = pieces[i];
            let ghost before = requested.deep_view();
            assert(all.take(i + 1).drop_last() =~= all.take(i as int));
            assert(all.take(i + 1).last() == piece@);
            if !piece.is_empty() {
                requested.push(lowercase(piece));
                assert(requested.deep_view() =~= before.push(lowercase_of(piece@)));
            }
            i += 1;
        }
        assert(all.take(i as int) =~= all);
        match check_scopes(&requested) {
            Err(e) => Err(e),
            Ok(()) => Ok(
                RedditAuthorization {
                    form_type: FormType::Reddit,
                    duration: authorize_form_data.duration,
                    scopes: String::from_str(scopes),
                },
            ),
        }
    }
}

/// A validated request to subscribe to a channel.
#[derive(Clone, Debug, PartialEq, Eq)]
pub struct YouTubeSubscription {
    pub form_type: FormType,
    pub topic_url: String,
    pub channel_id: String,
    pub hmac_secret: String,
    pub post_shorts: bool,
    pub callback_url: String,
}

/// The mathematical value of a [`YouTubeSubscription`].
pub struct YouTubeSubscriptionView {
    pub form_type: FormType,
    pub topic_url: Seq<char>,
    pub channel_id: Seq<char>,
    pub hmac_secret: Seq<char>,
    pub post_shorts: bool,
    pub callback_url: Seq<char>,
}

impl View for YouTubeSubscription {
    type V = YouTubeSubscriptionView;

    open spec fn view(&self) -> YouTubeSubscriptionView {
        YouTubeSubscriptionView {
            form_type: self.form_type,
            topic_url: self.topic_url@,
            channel_id: self.channel_id@,
            hmac_secret: self.hmac_secret@,
            post_shorts: self.post_shorts,
            callback_url: self.callback_url@,
        }
    }
}

/// What the subscription form submits.
#[derive(Clone, Debug, PartialEq, Eq)]
pub struct YouTubeSubscribeForm {
    pub topic_url: String,
    pub hmac_secret: String,
    pub post_shorts: bool,
    pub callback_url: String,
}

/// The mathematical value of a [`YouTubeSubscribeForm`].
pub struct YouTubeSubscribeFormView {
    pub topic_url: Seq<char>,
    pub hmac_secret: Seq<char>,
    pub post_shorts: bool,
    pub callback_url: Seq<char>,
}

impl View for YouTubeSubscribeForm {
    type V = YouTubeSubscribeFormView;

    open spec fn view(&self) -> YouTubeSubscribeFormView {
        YouTubeSubscribeFormView {
            topic_url: self.topic_url@,
            hmac_secret: self.hmac_secret@,
            post_shorts: self.post_shorts,
            callback_url: self.callback_url@,
        }
    }
}

/// The origin that a form names for callbacks: its input without surrounding
/// whitespace and slashes.
pub open spec fn callback_origin(input: Seq<char>) -> Seq<char> {
    trimmed(trimmed_of(trimmed(input), '/'))
}

/// The explanation given for a subscription form with an empty input.
pub open spec fn empty_input_error(
    topic_url: Seq<char>,
    hmac_secret: Seq<char>,
    callback_url: Seq<char>,
    channel_id: Seq<char>,
) -> Seq<char> {
    "Topic URL, HMAC secret, callback url or channel id input was empty. Inputted Topic URL: '"@
        + topic_url + "' HMAC secret: '"@ + hmac_secret + "' callback url: '"@ + callback_url
        + "' channel id '"@ + channel_id + "'"@
}

/// What validating a subscription form gives, with `id` as the new
/// subscription's identifier.
pub open spec fn subscription_of(form: YouTubeSubscribeFormView, id: Seq<char>) -> Result<
    (YouTubeSubscriptionView, Seq<char>),
    ApiErrorView,
> {
    let topic_url = trimmed(form.topic_url);
    let hmac_secret = trimmed(form.hmac_secret);
    let origin = callback_origin(form.callback_url);
    let channel_id = channel_id_of(form.topic_url);
    if !starts_with(form.topic_url, topic_prefix()) {
        Err(ApiErrorView::BadRequest(topic_error(form.topic_url)))
    } else if topic_url.len() == 0 || hmac_secret.len() == 0 || origin.len() == 0
        || channel_id.len() == 0 {
        Err(
            ApiErrorView::BadRequest(
                empty_input_error(topic_url, hmac_secret, origin, channel_id),
            ),
        )
    } else {
        Ok(
            (
                YouTubeSubscriptionView {
                    form_type: FormType::Youtube,
                    topic_url,
                    channel_id,
                    hmac_secret,
                    post_shorts: form.post_shorts,
                    callback_url: crate::hub::callback_address(origin, id),
                },
                id,
            ),
        )
    }
}

impl YouTubeSubscribeForm {
    /// The origin that the form names for callbacks.
    pub fn origin(&self) -> (r: &str)
        ensures
            r@ == callback_origin(self@.callback_url),
    {
        trim(trim_matches(trim(self.callback_url.as_str()), '/'))
    }

    /// Validates the form for a subscription that will be known as `id`. The
    /// topic address must name a channel feed as it stands; the secret, the
    /// callback origin and the channel identifier must not be empty once
    /// stripped. The subscription's callback address is unique to `id`.
    pub fn validate_with_id(subscription: &Self, id: String) -> (r: Result<
        (YouTubeSubscription, String),
        ApiError,
    >)
        ensures
            r is Ok == subscription_of(subscription@, id@) is Ok,
            r matches Ok(p) ==> subscription_of(subscription@, id@) == Ok::<
                (YouTubeSubscriptionView, Seq<char>),
                ApiErrorView,
            >((p.0@, p.1@)),
            r matches Err(e) ==> subscription_of(subscription@, id@) == Err::<
                (YouTubeSubscriptionView, Seq<char>),
                ApiErrorView,
            >(e@),
    {
        let topic_url = trim(subscription.topic_url.as_str());
        let hmac_secret = trim(subscription.hmac_secret.as_str());
        let origin = subscription.origin();
        let channel_id = match extract_channel_id_from_topic_url(&subscription.topic_url) {
            Ok(channel_id) => channel_id,
            Err(e) => {
                return Err(e);
            },
        };
        if topic_url.is_empty() || hmac_secret.is_empty() || origin.is_empty()
            || channel_id.is_empty() {
            return Err(
                ApiError::BadRequest(
                    String::from_str(
                        "Topic URL, HMAC secret, callback url or channel id input was empty. Inputted Topic URL: '",
                    ).concat(topic_url).concat("' HMAC secret: '").concat(hmac_secret).concat(
                        "' callback url: '",
                    ).concat(origin).concat("' channel id '").concat(channel_id).concat("'"),
                ),
            );
        }
        let callback_url = crate::hub::callback_url(origin, id.as_str());
        Ok(
            (
                YouTubeSubscription {
                    form_type: FormType::Youtube,
                    topic_url: String::from_str(topic_url),
                    channel_id: String::from_str(channel_id),
                    hmac_secret: String::from_str(hmac_secret),
                    post_shorts: subscription.post_shorts,
                    callback_url,
                },
                id,
            ),
        )
    }

    /// Validates the form under a fresh time-ordered identifier. Whatever
    /// identifier is drawn, the result is that of [`Self::validate_with_id`]
    /// for it, and the identifier handed out is the canonical spelling of a
    /// UUID.
    pub fn validate(subscription: &Self) -> (r: Result<(YouTubeSubscription, String), ApiError>)
        ensures
            r matches Ok(p) ==> uuid_canonical(p.1@) == Some(p.1@),
            exists|id: Seq<char>|
                {
                    &&& r is Ok == #[trigger] subscription_of(subscription@, id) is Ok
                    &&& r matches Ok(p) ==> subscription_of(subscription@, id) == Ok::<
                        (YouTubeSubscriptionView, Seq<char>),
                        ApiErrorView,
                    >((p.0@, p.1@))
                    &&& r matches Err(e) ==> subscription_of(subscription@, id) == Err::<
                        (YouTubeSubscriptionView, Seq<char>),
                        ApiErrorView,
                    >(e@)
                },
    {
        let id = time_ordered_id();
        let ghost chosen = id@;
        let r = Self::validate_with_id(subscription, id);
        assert(subscription_of(subscription@, chosen) is Ok == r is Ok);
        r
    }
}

} // verus!
