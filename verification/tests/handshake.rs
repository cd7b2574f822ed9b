use reddit_youtube_bot::error::ApiError;
use reddit_youtube_bot::forms::{FormType, YouTubeSubscription};
use reddit_youtube_bot::handshake::{Handshake, HandshakeEvent, HandshakePhase, HandshakeStep};
use reddit_youtube_bot::hub::{Subscription, Verification, VerificationMode};
use reddit_youtube_bot::scheduler::SubCommand;

const TOPIC: &str = "https://www.youtube.com/xml/feeds/videos.xml?channel_id=UCabc";
const NOW: i64 = 1_700_000_000;

fn verification(mode: VerificationMode, lease: Option<i64>) -> Verification {
    Verification {
        mode,
        topic: TOPIC.to_string(),
        challenge: "14828210609622910347".to_string(),
        lease_seconds: lease,
    }
}

fn known() -> Subscription {
    Subscription {
        id: "id-1".to_string(),
        channel_id: "UCabc".to_string(),
        channel_name: "Channel".to_string(),
        hmac_secret: "secret".to_string(),
        callback_url: "https://bot.example/google/subscription/id-1".to_string(),
        expires: Some(5),
        post_shorts: false,
    }
}

fn pending() -> YouTubeSubscription {
    YouTubeSubscription {
        form_type: FormType::Youtube,
        topic_url: TOPIC.to_string(),
        channel_id: "UCabc".to_string(),
        hmac_secret: "secret".to_string(),
        post_shorts: true,
        callback_url: "https://bot.example/google/subscription/id-1".to_string(),
    }
}

fn reply(schedule: Option<i64>) -> HandshakeStep {
    HandshakeStep::Reply {
        challenge: "14828210609622910347".to_string(),
        schedule: schedule.map(|wait_secs| SubCommand::Schedule {
            subscription_id: "id-1".to_string(),
            wait_secs,
        }),
    }
}

fn begin(mode: VerificationMode, lease: Option<i64>) -> (Handshake, HandshakeStep) {
    Handshake::begin(verification(mode, lease), "id-1".to_string(), NOW).unwrap()
}

#[test]
fn new_subscription_is_created_and_its_renewal_scheduled() {
    let (mut h, step) = begin(VerificationMode::Subscribe, Some(432_000));
    assert_eq!(step, HandshakeStep::FindSubscription { id: "id-1".to_string() });
    assert_eq!(h.step(HandshakeEvent::Found(None)), HandshakeStep::FindPending { id: "id-1".to_string() });
    assert_eq!(
        h.step(HandshakeEvent::Pending(Some(pending()))),
        HandshakeStep::FetchChannelName { channel_id: "UCabc".to_string() }
    );
    assert_eq!(
        h.step(HandshakeEvent::ChannelName("Channel".to_string())),
        HandshakeStep::CreateSubscription {
            subscription: Subscription {
                id: "id-1".to_string(),
                channel_id: "UCabc".to_string(),
                channel_name: "Channel".to_string(),
                hmac_secret: "secret".to_string(),
                callback_url: "https://bot.example/google/subscription/id-1".to_string(),
                expires: Some(NOW + 432_000),
                post_shorts: true,
            }
        }
    );
    assert_eq!(h.step(HandshakeEvent::Done), reply(Some(428_400)));
    assert_eq!(h.phase, HandshakePhase::Finished);
}

#[test]
fn known_subscription_has_only_its_expiry_renewed() {
    let (mut h, _) = begin(VerificationMode::Subscribe, Some(432_000));
    assert_eq!(
        h.step(HandshakeEvent::Found(Some(known()))),
        HandshakeStep::UpdateExpiry { id: "id-1".to_string(), expires: Some(NOW + 432_000) }
    );
    assert_eq!(h.step(HandshakeEvent::Done), reply(Some(428_400)));
}

#[test]
fn without_a_lease_nothing_is_scheduled() {
    let (mut h, _) = begin(VerificationMode::Subscribe, None);
    assert_eq!(
        h.step(HandshakeEvent::Found(Some(known()))),
        HandshakeStep::UpdateExpiry { id: "id-1".to_string(), expires: None }
    );
    assert_eq!(h.step(HandshakeEvent::Done), reply(None));
}

#[test]
fn short_lease_is_renewed_after_the_minimum_delay_of_five_seconds() {
    let (mut h, _) = begin(VerificationMode::Subscribe, Some(60));
    h.step(HandshakeEvent::Found(Some(known())));
    assert_eq!(h.step(HandshakeEvent::Done), reply(Some(5)));
}

#[test]
fn unsubscription_drops_the_channel_and_echoes_the_challenge() {
    let (mut h, step) = begin(VerificationMode::Unsubscribe, Some(432_000));
    assert_eq!(step, HandshakeStep::DeleteSubscription { channel_id: "UCabc".to_string() });
    assert_eq!(h.step(HandshakeEvent::Done), reply(None));
}

#[test]
fn challenge_is_echoed_whatever_fails() {
    let failure = || HandshakeEvent::Failed(ApiError::InternalError("store down".to_string()));
    let (mut a, _) = begin(VerificationMode::Subscribe, Some(432_000));
    assert_eq!(a.step(failure()), reply(None));
    let (mut b, _) = begin(VerificationMode::Subscribe, Some(432_000));
    b.step(HandshakeEvent::Found(None));
    assert_eq!(b.step(failure()), reply(None));
    let (mut c, _) = begin(VerificationMode::Subscribe, Some(432_000));
    c.step(HandshakeEvent::Found(None));
    c.step(HandshakeEvent::Pending(Some(pending())));
    assert_eq!(c.step(failure()), reply(None));
    let (mut d, _) = begin(VerificationMode::Subscribe, Some(432_000));
    d.step(HandshakeEvent::Found(None));
    d.step(HandshakeEvent::Pending(Some(pending())));
    d.step(HandshakeEvent::ChannelName("Channel".to_string()));
    assert_eq!(d.step(failure()), reply(None));
    let (mut e, _) = begin(VerificationMode::Subscribe, Some(432_000));
    e.step(HandshakeEvent::Found(Some(known())));
    assert_eq!(e.step(failure()), reply(None));
    let (mut f, _) = begin(VerificationMode::Unsubscribe, None);
    assert_eq!(f.step(failure()), reply(None));
}

#[test]
fn unknown_pending_form_ends_with_the_bare_reply() {
    let (mut h, _) = begin(VerificationMode::Subscribe, Some(432_000));
    h.step(HandshakeEvent::Found(None));
    assert_eq!(h.step(HandshakeEvent::Pending(None)), reply(None));
}

#[test]
fn event_out_of_place_ends_with_the_bare_reply() {
    let (mut h, _) = begin(VerificationMode::Subscribe, Some(432_000));
    assert_eq!(h.step(HandshakeEvent::Done), reply(None));
    assert_eq!(h.step(HandshakeEvent::Found(None)), reply(None));
    assert_eq!(h.step(HandshakeEvent::Done), reply(None));
}

#[test]
fn malformed_topic_is_refused_before_anything_is_done() {
    let mut v = verification(VerificationMode::Subscribe, Some(1));
    v.topic = "https://example.org/feed".to_string();
    assert_eq!(
        Handshake::begin(v, "id-1".to_string(), NOW),
        Err(ApiError::BadRequest(
            "The topic URL has to contain 'https://www.youtube.com/xml/feeds/videos.xml?channel_id=', the input was: https://example.org/feed".to_string()
        ))
    );
}

#[test]
fn handshake_at_the_current_time_starts_like_any_other() {
    let (h, step) =
        Handshake::begin_now(verification(VerificationMode::Subscribe, Some(10)), "id-1".to_string())
            .unwrap();
    assert_eq!(step, HandshakeStep::FindSubscription { id: "id-1".to_string() });
    assert_eq!(h.phase, HandshakePhase::Finding);
    assert!(h.now > 1_700_000_000);
}
