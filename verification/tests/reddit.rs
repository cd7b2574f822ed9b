use reddit_youtube_bot::error::ApiError;
use reddit_youtube_bot::feed::{Author, Entry, Link, Timestamp};
use reddit_youtube_bot::reddit::{
    compose_title, list_errors, sticky_form, sticky_outcome, sticky_url, submit_form,
    submit_outcome, submit_url,
    youtube_url_to_video_id, RedditCallback, RedditCallbackErrors, RedditSubmissionData,
    SubmitResponse, Subreddit,
};

fn pair(a: &str, b: &str) -> (String, String) {
    (a.to_string(), b.to_string())
}

fn video_id(url: &str) -> Option<String> {
    youtube_url_to_video_id(&url.to_string())
}

fn video_id_by_splitting(url: &str) -> Option<String> {
    if let Some(("https://www.youtube.com/watch?v", id)) = url.split_once('=') {
        return Some(id.to_string());
    }
    if let Some(("https://www.youtube.com/", id)) = url.split_once("shorts/") {
        return Some(id.to_string());
    }
    if let Some(("https://youtu.", id)) = url.split_once("be/") {
        return match id.split_once('?') {
            Some((id, _)) => Some(id.to_string()),
            None => Some(id.to_string()),
        };
    }
    None
}

fn subreddit(prefix: Option<&str>, suffix: Option<&str>, flair: Option<&str>) -> Subreddit {
    Subreddit {
        id: 7,
        name: "videos".to_string(),
        title_prefix: prefix.map(|s| s.to_string()),
        title_suffix: suffix.map(|s| s.to_string()),
        flair_id: flair.map(|s| s.to_string()),
    }
}

fn entry() -> Entry {
    Entry {
        id: "yt:video:abc".to_string(),
        yt_video_id: "abc".to_string(),
        yt_channel_id: "UCabc".to_string(),
        title: "A video".to_string(),
        link: Link { rel: "alternate".to_string(), href: "https://www.youtube.com/watch?v=abc".to_string() },
        author: Author { name: "Channel".to_string(), uri: "https://www.youtube.com/channel/UCabc".to_string() },
        published: Timestamp { seconds: 100, nanos: 0 },
        updated: Timestamp { seconds: 100, nanos: 0 },
    }
}

#[test]
fn video_id_of_each_kind_of_address() {
    assert_eq!(video_id("https://www.youtube.com/watch?v=dQw4w9WgXcQ"), Some("dQw4w9WgXcQ".to_string()));
    assert_eq!(video_id("https://www.youtube.com/watch?v=abc&t=10"), Some("abc&t=10".to_string()));
    assert_eq!(video_id("https://www.youtube.com/shorts/xyz"), Some("xyz".to_string()));
    assert_eq!(video_id("https://youtu.be/abc"), Some("abc".to_string()));
    assert_eq!(video_id("https://youtu.be/abc?si=track"), Some("abc".to_string()));
    assert_eq!(video_id("https://youtu.be/abc?x?y"), Some("abc".to_string()));
    assert_eq!(video_id("https://youtu.be/"), Some("".to_string()));
}

#[test]
fn other_addresses_name_no_video() {
    for url in [
        "",
        "https://www.youtube.com/",
        "https://www.youtube.com/channel/UCabc",
        "http://www.youtube.com/watch?v=abc",
        "https://m.youtube.com/watch?v=abc",
        "https://www.youtube.com/watch?list=1&v=abc",
        "https://example.org/shorts/x",
        "https://youtu.bee/x",
    ] {
        assert_eq!(video_id(url), None, "{:?}", url);
    }
}

#[test]
fn video_id_agrees_with_splitting() {
    for url in [
        "https://www.youtube.com/watch?v=a=b",
        "https://www.youtube.com/watch?v=",
        "https://www.youtube.com/shorts/a?b=c",
        "https://www.youtube.com/shorts/shorts/x",
        "https://youtu.be/a=b",
        "https://youtu.be/be/x",
        "https://youtu.be/a?b",
        "x=https://www.youtube.com/watch?v=abc",
        "https://www.youtube.com/watch?v",
        "shorts/",
        "be/",
        "=",
    ] {
        assert_eq!(video_id(url), video_id_by_splitting(url), "{:?}", url);
    }
}

#[test]
fn callback_with_a_valid_state_gives_its_canonical_spelling() {
    let canonical = "550e8400-e29b-41d4-a716-446655440000".to_string();
    assert_eq!(RedditCallback::validate(&canonical, &None), Ok(canonical.clone()));
    let upper = "550E8400E29B41D4A716446655440000".to_string();
    assert_eq!(RedditCallback::validate(&upper, &None), Ok(canonical.clone()));
    let braced = "{550e8400-e29b-41d4-a716-446655440000}".to_string();
    assert_eq!(RedditCallback::validate(&braced, &None), Ok(canonical));
}

#[test]
fn callback_with_another_state_is_a_bad_request() {
    match RedditCallback::validate(&"not-a-uuid".to_string(), &None) {
        Err(ApiError::BadRequest(m)) => {
            assert!(m.starts_with("The state string from the Reddit authorize callback was not a valid UUID: "));
            assert!(m.len() > "The state string from the Reddit authorize callback was not a valid UUID: ".len());
        }
        other => panic!("{:?}", other),
    }
}

#[test]
fn refused_callback_is_a_bad_request_whatever_the_state() {
    let state = "550e8400-e29b-41d4-a716-446655440000".to_string();
    assert_eq!(
        RedditCallback::validate(&state, &Some(RedditCallbackErrors::AccessDenied)),
        Err(ApiError::BadRequest("The user denied access to their account.".to_string()))
    );
    assert_eq!(
        RedditCallback::validate(&"x".to_string(), &Some(RedditCallbackErrors::InvalidScope)),
        Err(ApiError::BadRequest("Reddit callback had following error: invalid_scope".to_string()))
    );
    assert_eq!(
        RedditCallback::validate(&state, &Some(RedditCallbackErrors::UnsupportedResponseType)),
        Err(ApiError::BadRequest(
            "Reddit callback had following error: unsupported_response_type".to_string()
        ))
    );
    assert_eq!(
        RedditCallback::validate(&state, &Some(RedditCallbackErrors::InvalidRequest)),
        Err(ApiError::BadRequest("Reddit callback had following error: invalid_request".to_string()))
    );
}

#[test]
fn verdict_takes_the_parsed_state_as_it_is() {
    assert_eq!(RedditCallback::verdict(Ok("s".to_string()), &None), Ok("s".to_string()));
    assert_eq!(
        RedditCallback::verdict(Err("cause".to_string()), &None),
        Err(ApiError::BadRequest(
            "The state string from the Reddit authorize callback was not a valid UUID: cause".to_string()
        ))
    );
    assert_eq!(
        RedditCallback::verdict(Ok("s".to_string()), &Some(RedditCallbackErrors::AccessDenied)),
        Err(ApiError::BadRequest("The user denied access to their account.".to_string()))
    );
}

#[test]
fn title_is_prefix_title_suffix() {
    assert_eq!(compose_title(&subreddit(Some("[New] "), Some(" (video)"), None), "A video"), "[New] A video (video)");
    assert_eq!(compose_title(&subreddit(None, None, None), "A video"), "A video");
    assert_eq!(compose_title(&subreddit(Some("> "), None, None), "A video"), "> A video");
    assert_eq!(compose_title(&subreddit(None, Some("!"), None), ""), "!");
}

#[test]
fn submit_form_names_community_title_and_link() {
    let fixed = vec![
        pair("api_type", "json"),
        pair("extension", "json"),
        pair("kind", "link"),
        pair("resubmit", "true"),
        pair("sendreplies", "false"),
        pair("sr", "videos"),
        pair("title", "T"),
        pair("url", "https://youtu.be/abc"),
    ];
    assert_eq!(submit_form(&subreddit(None, None, None), "T", "https://youtu.be/abc"), fixed);
    let mut with_flair = fixed.clone();
    with_flair.push(pair("flair_id", "f-1"));
    assert_eq!(submit_form(&subreddit(None, None, Some("f-1")), "T", "https://youtu.be/abc"), with_flair);
}

#[test]
fn submit_answer_with_errors_is_a_refusal() {
    let response = SubmitResponse {
        errors: vec!["RATELIMIT".to_string(), "BAD_SR_NAME".to_string()],
        data: Some(RedditSubmissionData { url: "u".to_string(), id: "t3_1".to_string() }),
    };
    assert_eq!(
        submit_outcome(response, "A video", &entry()),
        Err(ApiError::BadRequest(
            "The video (title: 'A video' link: https://www.youtube.com/watch?v=abc) from 'Channel' (link: https://www.youtube.com/channel/UCabc) could not be submitted, got following errors: RATELIMIT; BAD_SR_NAME; ".to_string()
        ))
    );
}

#[test]
fn submit_answer_without_errors_reports_the_post() {
    let data = RedditSubmissionData { url: "https://redd.it/1".to_string(), id: "t3_1".to_string() };
    let response = SubmitResponse { errors: vec![], data: Some(data.clone()) };
    assert_eq!(submit_outcome(response, "A video", &entry()), Ok(data));
}

#[test]
fn submit_answer_without_errors_or_post_is_a_failure() {
    let response = SubmitResponse { errors: vec![], data: None };
    assert_eq!(
        submit_outcome(response, "A video", &entry()),
        Err(ApiError::InternalError(
            "Error deserializing/serializing JSON data: the response holds no submission".to_string()
        ))
    );
}

#[test]
fn sticky_form_and_outcome() {
    assert_eq!(
        sticky_form("t3_1", true),
        vec![pair("api_type", "json"), pair("id", "t3_1"), pair("state", "true")]
    );
    assert_eq!(
        sticky_form("t3_2", false),
        vec![pair("api_type", "json"), pair("id", "t3_2"), pair("state", "false")]
    );
    assert_eq!(sticky_outcome(&vec![], "t3_1", true), Ok(()));
    assert_eq!(
        sticky_outcome(&vec!["NOT_MOD".to_string()], "t3_1", false),
        Err(ApiError::BadRequest(
            "Got following errors while trying to change the sticky state of the submission t3_1 to false: NOT_MOD; ".to_string()
        ))
    );
}

#[test]
fn endpoints_of_submission_and_pinning() {
    assert_eq!(submit_url(), "https://oauth.reddit.com/api/submit");
    assert_eq!(sticky_url(), "https://oauth.reddit.com/api/set_subreddit_sticky");
}

#[test]
fn errors_are_listed_in_order() {
    assert_eq!(list_errors(&vec![]), "");
    assert_eq!(list_errors(&vec!["a".to_string(), "b".to_string()]), "a; b; ");
}

#[test]
fn callback_error_codes() {
    assert_eq!(RedditCallbackErrors::AccessDenied.as_str(), "access_denied");
    assert_eq!(RedditCallbackErrors::UnsupportedResponseType.as_str(), "unsupported_response_type");
    assert_eq!(RedditCallbackErrors::InvalidScope.as_str(), "invalid_scope");
    assert_eq!(RedditCallbackErrors::InvalidRequest.as_str(), "invalid_request");
}
