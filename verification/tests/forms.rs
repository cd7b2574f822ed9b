use reddit_youtube_bot::error::ApiError;
use reddit_youtube_bot::reddit::RedditCallback;
use reddit_youtube_bot::forms::{
    check_scopes, reddit_scope_known, FormType, RedditAuthorization, RedditAuthorizeDuration,
    RedditAuthorizeForm, YouTubeSubscribeForm, YouTubeSubscription,
};

fn authorize(scopes: &str) -> Result<RedditAuthorization, ApiError> {
    RedditAuthorizeForm::validate(&RedditAuthorizeForm {
        duration: RedditAuthorizeDuration::Permanent,
        scopes: scopes.to_string(),
    })
}

fn bad(message: &str) -> ApiError {
    ApiError::BadRequest(message.to_string())
}

fn scopes(list: &[&str]) -> Vec<String> {
    list.iter().map(|s| s.to_string()).collect()
}

fn form() -> YouTubeSubscribeForm {
    YouTubeSubscribeForm {
        topic_url: "https://www.youtube.com/xml/feeds/videos.xml?channel_id=UCabc".to_string(),
        hmac_secret: " s3cret ".to_string(),
        post_shorts: true,
        callback_url: " https://bot.example/ ".to_string(),
    }
}

#[test]
fn valid_scopes_are_kept_as_entered_without_the_edges() {
    assert_eq!(
        authorize(" ,identity,submit, "),
        Ok(RedditAuthorization {
            form_type: FormType::Reddit,
            duration: RedditAuthorizeDuration::Permanent,
            scopes: "identity,submit".to_string(),
        })
    );
}

#[test]
fn scopes_are_compared_in_lower_case() {
    let ok = authorize("IDENTITY,Submit,modWIKI").unwrap();
    assert_eq!(ok.scopes, "IDENTITY,Submit,modWIKI");
    assert_eq!(authorize("identity,IDENTITY"), Err(bad("Duplicate scope: identity")));
    assert_eq!(authorize("Identity,Nope"), Err(bad("Invalid scope: nope")));
}

#[test]
fn unicode_lower_casing_is_that_of_the_standard_library() {
    // The Kelvin sign lower-cases to the letter k.
    assert!(authorize("identity,modwi\u{212A}i").is_ok());
}

#[test]
fn empty_pieces_between_commas_are_left_out() {
    assert!(authorize("identity,,read").is_ok());
}

#[test]
fn empty_scope_input_is_refused() {
    for input in ["", "  ", ",", " , ,", ",,,"] {
        let r = authorize(input);
        if input.trim().trim_matches(',').trim().is_empty() {
            assert_eq!(r, Err(bad("client_id, redirect_url or scope input was empty")), "{:?}", input);
        }
    }
    assert_eq!(authorize(""), Err(bad("client_id, redirect_url or scope input was empty")));
    assert_eq!(authorize(" , "), Err(bad("client_id, redirect_url or scope input was empty")));
}

#[test]
fn pieces_are_not_trimmed_one_by_one() {
    assert_eq!(authorize("identity, read"), Err(bad("Invalid scope:  read")));
}

#[test]
fn first_offending_scope_decides() {
    assert_eq!(authorize("read,read,nope"), Err(bad("Duplicate scope: read")));
    assert_eq!(authorize("read,nope,read"), Err(bad("Invalid scope: nope")));
}

#[test]
fn identity_scope_is_needed() {
    assert_eq!(authorize("read,submit"), Err(bad("'identity' scope needed")));
}

#[test]
fn temporary_duration_is_kept() {
    let r = RedditAuthorizeForm::validate(&RedditAuthorizeForm {
        duration: RedditAuthorizeDuration::Temporary,
        scopes: "identity".to_string(),
    })
    .unwrap();
    assert_eq!(r.duration, RedditAuthorizeDuration::Temporary);
    assert_eq!(RedditAuthorizeDuration::Temporary.as_str(), "temporary");
    assert_eq!(RedditAuthorizeDuration::Permanent.as_str(), "permanent");
}

#[test]
fn check_scopes_names_each_failure() {
    assert_eq!(check_scopes(&scopes(&["identity", "read"])), Ok(()));
    assert_eq!(check_scopes(&scopes(&[])), Err(bad("No scopes provided")));
    assert_eq!(check_scopes(&scopes(&["read"])), Err(bad("'identity' scope needed")));
    assert_eq!(check_scopes(&scopes(&["Identity"])), Err(bad("Invalid scope: Identity")));
    assert_eq!(check_scopes(&scopes(&["identity", "identity"])), Err(bad("Duplicate scope: identity")));
    assert_eq!(check_scopes(&scopes(&[""])), Err(bad("Invalid scope: ")));
}

#[test]
fn all_nineteen_scopes_are_known() {
    let known = [
        "edit", "flair", "history", "identity", "modconfig", "modflair", "modlog", "modposts",
        "modwiki", "mysubreddits", "privatemessages", "read", "report", "save", "submit",
        "subscribe", "vote", "wikiedit", "wikiread",
    ];
    for s in known {
        assert!(reddit_scope_known(s), "{}", s);
    }
    assert_eq!(check_scopes(&scopes(&known)), Ok(()));
    for s in ["", "Edit", "edit ", "account", "creddits"] {
        assert!(!reddit_scope_known(s), "{:?}", s);
    }
}

#[test]
fn subscription_form_is_stripped_and_given_its_callback() {
    let (subscription, id) = YouTubeSubscribeForm::validate_with_id(&form(), "0195".to_string()).unwrap();
    assert_eq!(id, "0195");
    assert_eq!(
        subscription,
        YouTubeSubscription {
            form_type: FormType::Youtube,
            topic_url: "https://www.youtube.com/xml/feeds/videos.xml?channel_id=UCabc".to_string(),
            channel_id: "UCabc".to_string(),
            hmac_secret: "s3cret".to_string(),
            post_shorts: true,
            callback_url: "https://bot.example/google/subscription/0195".to_string(),
        }
    );
}

#[test]
fn subscription_form_with_other_topic_is_refused() {
    let mut f = form();
    f.topic_url = " https://www.youtube.com/xml/feeds/videos.xml?channel_id=UCabc".to_string();
    assert_eq!(
        YouTubeSubscribeForm::validate_with_id(&f, "0195".to_string()),
        Err(bad(
            "The topic URL has to contain 'https://www.youtube.com/xml/feeds/videos.xml?channel_id=', the input was:  https://www.youtube.com/xml/feeds/videos.xml?channel_id=UCabc"
        ))
    );
}

#[test]
fn subscription_form_with_an_empty_input_is_refused() {
    let mut f = form();
    f.hmac_secret = "  ".to_string();
    assert_eq!(
        YouTubeSubscribeForm::validate_with_id(&f, "0195".to_string()),
        Err(bad(
            "Topic URL, HMAC secret, callback url or channel id input was empty. Inputted Topic URL: 'https://www.youtube.com/xml/feeds/videos.xml?channel_id=UCabc' HMAC secret: '' callback url: 'https://bot.example' channel id 'UCabc'"
        ))
    );
    let mut g = form();
    g.callback_url = " / ".to_string();
    assert!(YouTubeSubscribeForm::validate_with_id(&g, "0195".to_string()).is_err());
    let mut h = form();
    h.topic_url = "https://www.youtube.com/xml/feeds/videos.xml?channel_id= ".to_string();
    assert!(YouTubeSubscribeForm::validate_with_id(&h, "0195".to_string()).is_err());
}

#[test]
fn origin_is_the_callback_input_without_its_edges() {
    assert_eq!(form().origin(), "https://bot.example");
    let mut f = form();
    f.callback_url = "/ https://bot.example/app// ".to_string();
    assert_eq!(f.origin(), "https://bot.example/app");
    f.callback_url = " / ".to_string();
    assert_eq!(f.origin(), "");
}

#[test]
fn subscription_form_draws_a_fresh_identifier() {
    let (a, id_a) = YouTubeSubscribeForm::validate(&form()).unwrap();
    let (b, id_b) = YouTubeSubscribeForm::validate(&form()).unwrap();
    assert_ne!(id_a, id_b);
    assert_eq!(id_a.len(), 36);
    assert_eq!(a.callback_url, format!("https://bot.example/google/subscription/{}", id_a));
    assert_eq!(b.callback_url, format!("https://bot.example/google/subscription/{}", id_b));
    assert_eq!(a.channel_id, "UCabc");
}

#[test]
fn identifier_of_a_subscription_is_a_canonical_uuid() {
    for _ in 0..20 {
        let (_, id) = YouTubeSubscribeForm::validate(&form()).unwrap();
        assert_eq!(RedditCallback::validate(&id, &None), Ok(id.clone()));
    }
}
