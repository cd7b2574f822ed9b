use reddit_youtube_bot::moderation::Submission;
use reddit_youtube_bot::backfill::{
    backfill_items, listing_url, Backfill, BackfillItem, BackfillStep, RedditSubmissionJson,
    SubmissionJsonData,
};

fn post(id: &str, url: &str) -> SubmissionJsonData {
    SubmissionJsonData {
        id: id.to_string(),
        url: url.to_string(),
        subreddit_name: "videos".to_string(),
        flair_id: Some("f".to_string()),
        created_utc: 1_700_000_000,
        stickied: id == "t3_2",
    }
}

fn item(id: &str, video_id: Option<&str>) -> BackfillItem {
    BackfillItem {
        submission_id: id.to_string(),
        subreddit_name: "videos".to_string(),
        flair_id: Some("f".to_string()),
        created: 1_700_000_000,
        pinned: id == "t3_2",
        video_id: video_id.map(|s| s.to_string()),
    }
}

#[test]
fn only_video_links_are_prepared() {
    let posts = vec![
        post("t3_1", "https://www.youtube.com/watch?v=abc"),
        post("t3_2", "https://youtu.be/xyz?si=1"),
        post("t3_3", "https://example.org/article"),
        post("t3_4", "https://www.youtube.com/channel/UCabc"),
        post("t3_5", "https://m.youtube.com/watch?v=abc"),
    ];
    assert_eq!(
        backfill_items(&posts),
        vec![
            item("t3_1", Some("abc")),
            item("t3_2", Some("xyz")),
            item("t3_4", None),
            item("t3_5", None),
        ]
    );
    assert_eq!(backfill_items(&vec![]), vec![]);
}

#[test]
fn only_a_post_with_a_known_video_becomes_a_row() {
    assert_eq!(
        item("t3_2", Some("xyz")).into_row(4, 7),
        Some(Submission {
            id: "t3_2".to_string(),
            video_id: "xyz".to_string(),
            account_id: 4,
            subreddit_id: 7,
            created: 1_700_000_000,
            pinned: true,
        })
    );
    assert_eq!(item("t3_4", None).into_row(4, 7), None);
}

#[test]
fn listing_address_of_first_and_later_pages() {
    assert_eq!(listing_url("spez", &None), "https://www.reddit.com/user/spez/submitted.json");
    assert_eq!(
        listing_url("spez", &Some("t3_9".to_string())),
        "https://www.reddit.com/user/spez/submitted.json?after=t3_9"
    );
}

#[test]
fn pages_are_read_until_none_follows() {
    let (mut backfill, step) = Backfill::begin("spez".to_string());
    assert_eq!(
        step,
        BackfillStep::Fetch { url: "https://www.reddit.com/user/spez/submitted.json".to_string() }
    );
    let first = RedditSubmissionJson {
        next_page_token: Some("t3_1".to_string()),
        data: vec![post("t3_1", "https://youtu.be/a")],
    };
    assert_eq!(
        backfill.page(first),
        BackfillStep::Fetch {
            url: "https://www.reddit.com/user/spez/submitted.json?after=t3_1".to_string()
        }
    );
    let second = RedditSubmissionJson {
        next_page_token: Some("t3_2".to_string()),
        data: vec![post("t3_2", "https://example.org")],
    };
    backfill.page(second);
    let last = RedditSubmissionJson {
        next_page_token: None,
        data: vec![post("t3_3", "https://www.youtube.com/shorts/c")],
    };
    assert_eq!(
        backfill.page(last),
        BackfillStep::Store { items: vec![item("t3_1", Some("a")), item("t3_3", Some("c"))] }
    );
    assert_eq!(backfill.posts.len(), 3);
}

#[test]
fn single_empty_page_stores_nothing() {
    let (mut backfill, _) = Backfill::begin("spez".to_string());
    let page = RedditSubmissionJson { next_page_token: None, data: vec![] };
    assert_eq!(backfill.page(page), BackfillStep::Store { items: vec![] });
}
