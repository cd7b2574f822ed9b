use reddit_youtube_bot::error::ApiError;
use reddit_youtube_bot::hub::{
    callback_url, expiry_for, extract_channel_id_from_topic_url, hub_url, known_subscription,
    renewal_form, schedule_for, subscribe_form, subscribe_outcome, topic_url, Subscription,
};
use reddit_youtube_bot::scheduler::SubCommand;

fn pair(a: &str, b: &str) -> (String, String) {
    (a.to_string(), b.to_string())
}

fn subscription() -> Subscription {
    Subscription {
        id: "0195-id".to_string(),
        channel_id: "UCabc".to_string(),
        channel_name: "Channel".to_string(),
        hmac_secret: "secret".to_string(),
        callback_url: "https://bot.example/google/subscription/0195-id".to_string(),
        expires: Some(1000),
        post_shorts: false,
    }
}

#[test]
fn channel_id_is_what_follows_the_prefix() {
    let url = "https://www.youtube.com/xml/feeds/videos.xml?channel_id=UCBR8-60-B28hp2BmDPdntcQ"
        .to_string();
    assert_eq!(extract_channel_id_from_topic_url(&url), Ok("UCBR8-60-B28hp2BmDPdntcQ"));
}

#[test]
fn channel_id_is_trimmed_and_may_hold_equals_signs() {
    let url = "https://www.youtube.com/xml/feeds/videos.xml?channel_id= UC=a=b \n".to_string();
    assert_eq!(extract_channel_id_from_topic_url(&url), Ok("UC=a=b"));
    let empty = "https://www.youtube.com/xml/feeds/videos.xml?channel_id=".to_string();
    assert_eq!(extract_channel_id_from_topic_url(&empty), Ok(""));
}

#[test]
fn other_topic_is_a_bad_request() {
    for url in [
        "",
        "https://www.youtube.com/xml/feeds/videos.xml?channel_id",
        " https://www.youtube.com/xml/feeds/videos.xml?channel_id=UC",
        "https://www.youtube.com/xml/feeds/videos.xml?user=x&channel_id=UC",
        "http://www.youtube.com/xml/feeds/videos.xml?channel_id=UC",
    ] {
        let input = url.to_string();
        let expected = ApiError::BadRequest(format!(
            "The topic URL has to contain 'https://www.youtube.com/xml/feeds/videos.xml?channel_id=', the input was: {:}",
            url
        ));
        assert_eq!(extract_channel_id_from_topic_url(&input), Err(expected));
    }
}

#[test]
fn channel_id_agrees_with_splitting_at_the_first_equals_sign() {
    for url in [
        "https://www.youtube.com/xml/feeds/videos.xml?channel_id=UC1",
        "https://www.youtube.com/xml/feeds/videos.xml?channel_id=UC1=2",
        "https://www.youtube.com/xml/feeds/videos.xml?channel_id",
        "x=https://www.youtube.com/xml/feeds/videos.xml?channel_id=UC1",
        "=",
        "",
    ] {
        let expected = match url.split_once('=') {
            Some(("https://www.youtube.com/xml/feeds/videos.xml?channel_id", id)) => Some(id.trim()),
            _ => None,
        };
        let input = url.to_string();
        assert_eq!(extract_channel_id_from_topic_url(&input).ok(), expected, "{:?}", url);
    }
}

#[test]
fn callback_url_is_unique_to_the_subscription() {
    assert_eq!(
        callback_url("https://bot.example", "0195-id"),
        "https://bot.example/google/subscription/0195-id"
    );
    assert_ne!(callback_url("https://bot.example", "a"), callback_url("https://bot.example", "b"));
}

#[test]
fn subscribe_form_names_callback_mode_topic_and_secret() {
    assert_eq!(
        subscribe_form("https://bot.example/cb", "UCabc", "s3cret"),
        vec![
            pair("hub.callback", "https://bot.example/cb"),
            pair("hub.mode", "subscribe"),
            pair("hub.topic", "https://www.youtube.com/xml/feeds/videos.xml?channel_id=UCabc"),
            pair("hub.secret", "s3cret"),
        ]
    );
    assert_eq!(hub_url(), "https://pubsubhubbub.appspot.com/subscribe");
    assert_eq!(topic_url("UCabc"), "https://www.youtube.com/xml/feeds/videos.xml?channel_id=UCabc");
}

#[test]
fn topic_url_round_trips_through_extraction() {
    let url = topic_url("UCabc");
    assert_eq!(extract_channel_id_from_topic_url(&url), Ok("UCabc"));
}

#[test]
fn only_a_2xx_status_accepts_a_subscribe_request() {
    assert!(subscribe_outcome(200).is_ok());
    assert!(subscribe_outcome(202).is_ok());
    assert!(subscribe_outcome(299).is_ok());
    for status in [0u16, 100, 199, 300, 302, 400, 404, 500, 65535] {
        match subscribe_outcome(status) {
            Err(ApiError::InternalError(m)) => assert!(m.starts_with("Web request failed")),
            other => panic!("status {} gave {:?}", status, other),
        }
    }
}

#[test]
fn renewal_of_a_known_subscription_repeats_its_request() {
    let s = subscription();
    assert_eq!(
        renewal_form("0195-id", Some(&s)),
        Ok(subscribe_form(&s.callback_url, &s.channel_id, &s.hmac_secret))
    );
}

#[test]
fn renewal_of_an_unknown_subscription_fails() {
    assert_eq!(
        renewal_form("0195-id", None),
        Err(ApiError::NotFound("No subscription for id: 0195-id".to_string()))
    );
    assert_eq!(renewal_form("0195-id", None).unwrap_err().status_code(), 404);
}

#[test]
fn notification_for_an_unknown_subscription_is_not_found() {
    assert_eq!(known_subscription("x", Some(subscription())), Ok(subscription()));
    let e = known_subscription("x", None).unwrap_err();
    assert_eq!(e, ApiError::NotFound("No subscription found for id: x".to_string()));
    assert_eq!(e.status_code(), 404);
}

#[test]
fn lease_end_is_now_plus_lease() {
    assert_eq!(expiry_for(1_700_000_000, Some(432_000)), Some(1_700_432_000));
    assert_eq!(expiry_for(1_700_000_000, None), None);
    assert_eq!(expiry_for(i64::MAX, Some(1)), Some(i64::MAX));
}

#[test]
fn subscribe_verification_schedules_renewal_before_lease_end() {
    assert_eq!(
        schedule_for("id", Some(432_000)),
        Some(SubCommand::Schedule { subscription_id: "id".to_string(), wait_secs: 428_400 })
    );
    assert_eq!(
        schedule_for("id", Some(100)),
        Some(SubCommand::Schedule { subscription_id: "id".to_string(), wait_secs: 5 })
    );
    assert_eq!(schedule_for("id", None), None);
}
