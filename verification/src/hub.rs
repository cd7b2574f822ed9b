//! The push-notification hub protocol: topic and callback addresses, the
//! outbound subscribe request, and what a lease means for the end of a
//! subscription and for its renewal.

use vstd::prelude::*;
use vstd::string::*;
use crate::error::{ApiError, ApiErrorView};
use crate::text::{
    first_index_of,
    lemma_first_index_is,
    lemma_first_index_of,
    starts_with,
    strip_prefix,
    trim,
    trimmed,
};
use crate::scheduler::{delay_for_lease, renewal_delay, SubCommand, SubCommandView};

verus! {

/// The address of a channel's feed, up to and including `channel_id=`.
pub open spec fn topic_prefix() -> Seq<char> {
    "https://www.youtube.com/xml/feeds/videos.xml?channel_id="@
}

/// The explanation given for a topic address that does not name a channel feed.
pub open spec fn topic_error(topic_url: Seq<char>) -> Seq<char> {
    "The topic URL has to contain 'https://www.youtube.com/xml/feeds/videos.xml?channel_id=', the input was: "@
        + topic_url
}

/// The channel that a topic address names: what follows `channel_id=`,
/// without surrounding whitespace.
pub open spec fn channel_id_of(topic_url: Seq<char>) -> Seq<char> {
    trimmed(topic_url.skip(topic_prefix().len() as int))
}

/// Reads the channel identifier out of a topic address. The address must
/// begin with the feed address of a channel; anything else is a bad request.
pub fn extract_channel_id_from_topic_url(topic_url: &String) -> (r: Result<&str, ApiError>)
    ensures
        r is Ok == starts_with(topic_url@, topic_prefix()),
        r matches Ok(id) ==> id@ == channel_id_of(topic_url@),
        r matches Err(e) ==> e@ == ApiErrorView::BadRequest(topic_error(topic_url@)),
{
    match strip_prefix(
        topic_url.as_str(),
        "https://www.youtube.com/xml/feeds/videos.xml?channel_id=",
    ) {
        Some(rest) => Ok(trim(rest)),
        None => Err(
            ApiError::BadRequest(
                String::from_str(
                    "The topic URL has to contain 'https://www.youtube.com/xml/feeds/videos.xml?channel_id=', the input was: ",
                ).concat(topic_url.as_str()),
            ),
        ),
    }
}

/// A topic address names a channel feed exactly where what precedes its
/// first equals sign is the feed address up to `channel_id`; the channel is
/// then what follows that equals sign.
pub proof fn law_topic_splits_at_first_equals(url: Seq<char>)
    ensures
        starts_with(url, topic_prefix()) <==> first_index_of(url, '=') < url.len() && url.take(
            first_index_of(url, '=') as int,
        ) == "https://www.youtube.com/xml/feeds/videos.xml?channel_id"@,
        starts_with(url, topic_prefix()) ==> url.skip(topic_prefix().len() as int) == url.skip(
            first_index_of(url, '=') as int + 1,
        ),
{
    reveal_strlit("https://www.youtube.com/xml/feeds/videos.xml?channel_id=");
    reveal_strlit("https://www.youtube.com/xml/feeds/videos.xml?channel_id");
    let whole = topic_prefix();
    let head = "https://www.youtube.com/xml/feeds/videos.xml?channel_id"@;
    let k = first_index_of(url, '=') as int;
    lemma_first_index_of(url, '=');
    assert(whole =~= head.push('='));
    assert(forall|i: int| 0 <= i < head.len() ==> head[i] != '=');
    if starts_with(url, whole) {
        assert forall|i: int| 0 <= i < 55 implies #[trigger] url[i] != '=' by {
            assert(url[i] == url.subrange(0, 56)[i]);
        }
        assert(url[55] == url.subrange(0, 56)[55]);
        lemma_first_index_is(url, '=', 55);
        assert(url.take(55) =~= head);
    }
    if k < url.len() && url.take(k) == head {
        assert(url.take(k).len() == 55);
        assert(url.subrange(0, 56) =~= whole) by {
            assert forall|i: int| 0 <= i < 55 implies url[i] == whole[i] by {
                assert(url.take(k)[i] == head[i]);
            }
        }
    }
}

/// The address at which the hub reaches one subscription: the origin, the
/// path of the subscription endpoint, and the subscription's identifier.
pub open spec fn callback_address(origin: Seq<char>, id: Seq<char>) -> Seq<char> {
    origin + "/google/subscription/"@ + id
}

/// Builds the address at which the hub reaches the subscription `id`.
pub fn callback_url(origin: &str, id: &str) -> (url: String)
    ensures
        url@ == callback_address(origin@, id@),
{
    String::from_str(origin).concat("/google/subscription/").concat(id)
}

/// Under one origin, two subscriptions never share a callback address.
pub proof fn law_callback_address_unique(origin: Seq<char>, a: Seq<char>, b: Seq<char>)
    requires
        callback_address(origin, a) == callback_address(origin, b),
    ensures
        a == b,
{
    let head = origin + "/google/subscription/"@;
    assert((head + a).skip(head.len() as int) =~= a);
    assert((head + b).skip(head.len() as int) =~= b);
}

/// What the hub asks to have confirmed.
#[derive(Clone, Copy, Debug, PartialEq, Eq, Structural)]
pub enum VerificationMode {
    Subscribe,
    Unsubscribe,
}

/// The parameters of a verification request of the hub.
#[derive(Clone, Debug, PartialEq, Eq)]
pub struct Verification {
    pub mode: VerificationMode,
    pub topic: String,
    pub challenge: String,
    pub lease_seconds: Option<i64>,
}

/// The mathematical value of a [`Verification`].
pub struct VerificationView {
    pub mode: VerificationMode,
    pub topic: Seq<char>,
    pub challenge: Seq<char>,
    pub lease_seconds: Option<i64>,
}

impl View for Verification {
    type V = VerificationView;

    open spec fn view(&self) -> VerificationView {
        VerificationView {
            mode: self.mode,
            topic: self.topic@,
            challenge: self.challenge@,
            lease_seconds: self.lease_seconds,
        }
    }
}

/// A subscription as the store holds it.
#[derive(Clone, Debug, PartialEq, Eq)]
pub struct Subscription {
    pub id: String,
    pub channel_id: String,
    pub channel_name: String,
    pub hmac_secret: String,
    pub callback_url: String,
    pub expires: Option<i64>,
    pub post_shorts: bool,
}

/// The mathematical value of a [`Subscription`].
pub struct SubscriptionView {
    pub id: Seq<char>,
    pub channel_id: Seq<char>,
    pub channel_name: Seq<char>,
    pub hmac_secret: Seq<char>,
    pub callback_url: Seq<char>,
    pub expires: Option<i64>,
    pub post_shorts: bool,
}

impl View for Subscription {
    type V = SubscriptionView;

    open spec fn view(&self) -> SubscriptionView {
        SubscriptionView {
            id: self.id@,
            channel_id: self.channel_id@,
            channel_name: self.channel_name@,
            hmac_secret: self.hmac_secret@,
            callback_url: self.callback_url@,
            expires: self.expires,
            post_shorts: self.post_shorts,
        }
    }
}

impl DeepView for Subscription {
    type V = SubscriptionView;

    open spec fn deep_view(&self) -> SubscriptionView {
        self@
    }
}

/// The address of the feed of a channel.
pub open spec fn topic_address(channel_id: Seq<char>) -> Seq<char> {
    topic_prefix() + channel_id
}

/// Builds the address of the feed of a channel.
pub fn topic_url(channel_id: &str) -> (url: String)
    ensures
        url@ == topic_address(channel_id@),
{
    String::from_str("https://www.youtube.com/xml/feeds/videos.xml?channel_id=").concat(
        channel_id,
    )
}

/// The address of the hub's subscribe endpoint.
pub open spec fn hub_endpoint() -> Seq<char> {
    "https://pubsubhubbub.appspot.com/subscribe"@
}

/// Gives the address of the hub's subscribe endpoint.
pub fn hub_url() -> (url: &'static str)
    ensures
        url@ == hub_endpoint(),
{
    "https://pubsubhubbub.appspot.com/subscribe"
}

/// The fields of a subscribe request: the callback address, the mode, the
/// topic address of the channel and the shared secret.
pub open spec fn subscribe_fields(
    callback_url: Seq<char>,
    channel_id: Seq<char>,
    hmac_secret: Seq<char>,
) -> Seq<(Seq<char>, Seq<char>)> {
    seq![
        ("hub.callback"@, callback_url),
        ("hub.mode"@, "subscribe"@),
        ("hub.topic"@, topic_address(channel_id)),
        ("hub.secret"@, hmac_secret),
    ]
}

/// Builds the form of a subscribe request.
pub fn subscribe_form(callback_url: &str, channel_id: &str, hmac_secret: &str) -> (form: Vec<
    (String, String),
>)
    ensures
        form.deep_view() == subscribe_fields(callback_url@, channel_id@, hmac_secret@),
{
    let mut form: Vec<(String, String)> = Vec::new();
    form.push((String::from_str("hub.callback"), String::from_str(callback_url)));
    form.push((String::from_str("hub.mode"), String::from_str("subscribe")));
    form.push((String::from_str("hub.topic"), topic_url(channel_id)));
    form.push((String::from_str("hub.secret"), String::from_str(hmac_secret)));
    assert(form.deep_view() =~= subscribe_fields(callback_url@, channel_id@, hmac_secret@));
    form
}

/// The explanation given for a subscribe request that the hub refused.
pub open spec fn refused_error() -> Seq<char> {
    "Web request failed: the hub answered the subscribe request with a status outside 200 to 299"@
}

/// Judges the hub's answer to a subscribe request by its status: any status
/// outside 200 to 299 is a failure.
pub fn subscribe_outcome(status: u16) -> (r: Result<(), ApiError>)
    ensures
        r is Ok == (200 <= status <= 299),
        r matches Err(e) ==> e@ == ApiErrorView::InternalError(refused_error()),
{
    if 200 <= status && status <= 299 {
        Ok(())
    } else {
        Err(
            ApiError::InternalError(
                String::from_str(
                    "Web request failed: the hub answered the subscribe request with a status outside 200 to 299",
                ),
            ),
        )
    }
}

/// The explanation given for a renewal of a subscription that is not known.
pub open spec fn unknown_subscription_error(id: Seq<char>) -> Seq<char> {
    "No subscription for id: "@ + id
}

/// The form of the subscribe request that renews a subscription, built from
/// the subscription's own record. A subscription that the store does not
/// know is not found, and there is nothing to send.
pub fn renewal_form(subscription_id: &str, found: Option<&Subscription>) -> (r: Result<
    Vec<(String, String)>,
    ApiError,
>)
    ensures
        r is Ok == found is Some,
        r matches Ok(form) ==> form.deep_view() == subscribe_fields(
            found->0@.callback_url,
            found->0@.channel_id,
            found->0@.hmac_secret,
        ),
        r matches Err(e) ==> e@ == ApiErrorView::NotFound(
            unknown_subscription_error(subscription_id@),
        ),
{
    match found {
        Some(subscription) => Ok(
            subscribe_form(
                subscription.callback_url.as_str(),
                subscription.channel_id.as_str(),
                subscription.hmac_secret.as_str(),
            ),
        ),
        None => Err(
            ApiError::NotFound(
                String::from_str("No subscription for id: ").concat(subscription_id),
            ),
        ),
    }
}

/// The explanation given for a notification of a subscription that is not known.
pub open spec fn not_found_error(id: Seq<char>) -> Seq<char> {
    "No subscription found for id: "@ + id
}

/// The subscription that a notification is for, where the store knows it;
/// a notification for an unknown subscription is refused as not found.
pub fn known_subscription(subscription_id: &str, found: Option<Subscription>) -> (r: Result<
    Subscription,
    ApiError,
>)
    ensures
        r is Ok == found is Some,
        r matches Ok(s) ==> found == Some(s),
        r matches Err(e) ==> e@ == ApiErrorView::NotFound(not_found_error(subscription_id@)),
{
    match found {
        Some(subscription) => Ok(subscription),
        None => Err(
            ApiError::NotFound(
                String::from_str("No subscription found for id: ").concat(subscription_id),
            ),
        ),
    }
}

/// The end of a lease that the hub granted at `now`; `None` where the hub
/// named no lease.
pub open spec fn lease_end(now: i64, lease_seconds: Option<i64>) -> Option<i64> {
    match lease_seconds {
        Some(lease) => Some(crate::oauth::expiry_of(now, lease)),
        None => None,
    }
}

/// The command that renews a subscription in time; `None` where the hub
/// named no lease.
pub open spec fn renewal_command(id: Seq<char>, lease_seconds: Option<i64>) -> Option<
    SubCommandView,
> {
    match lease_seconds {
        Some(lease) => Some(
            SubCommandView::Schedule {
                subscription_id: id,
                wait_secs: renewal_delay(lease as int),
            },
        ),
        None => None,
    }
}

/// Computes the end of a lease that the hub granted at `now`.
pub fn expiry_for(now: i64, lease_seconds: Option<i64>) -> (expires: Option<i64>)
    ensures
        expires == lease_end(now, lease_seconds),
{
    match lease_seconds {
        Some(lease) => Some(crate::oauth::expiry_after(now, lease)),
        None => None,
    }
}

/// Builds the command that renews a subscription in time.
pub fn schedule_for(id: &str, lease_seconds: Option<i64>) -> (command: Option<SubCommand>)
    ensures
        command.deep_view() == renewal_command(id@, lease_seconds),
{
    match lease_seconds {
        Some(lease) => Some(
            SubCommand::Schedule {
                subscription_id: String::from_str(id),
                wait_secs: delay_for_lease(lease),
            },
        ),
        None => None,
    }
}

} // verus!
