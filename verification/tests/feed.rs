use reddit_youtube_bot::feed::{screen, Author, Entry, Link, Screening, Timestamp};

fn entry(href: &str, published: (i64, u32), updated: (i64, u32)) -> Entry {
    Entry {
        id: "yt:video:abc".to_string(),
        yt_video_id: "abc".to_string(),
        yt_channel_id: "UCabc".to_string(),
        title: "A video".to_string(),
        link: Link { rel: "alternate".to_string(), href: href.to_string() },
        author: Author { name: "Channel".to_string(), uri: "https://www.youtube.com/channel/UCabc".to_string() },
        published: Timestamp { seconds: published.0, nanos: published.1 },
        updated: Timestamp { seconds: updated.0, nanos: updated.1 },
    }
}

const WATCH: &str = "https://www.youtube.com/watch?v=abc";
const SHORT: &str = "https://www.youtube.com/shorts/abc";

#[test]
fn new_video_is_accepted() {
    assert_eq!(screen(&entry(WATCH, (1000, 0), (1000, 0)), false), Screening::Accepted);
    assert_eq!(screen(&entry(WATCH, (1000, 0), (1030, 5)), true), Screening::Accepted);
}

#[test]
fn update_sixty_seconds_after_publication_is_still_new() {
    assert_eq!(screen(&entry(WATCH, (1000, 0), (1060, 0)), false), Screening::Accepted);
    assert_eq!(screen(&entry(WATCH, (1000, 500), (1060, 500)), false), Screening::Accepted);
}

#[test]
fn update_more_than_sixty_seconds_after_publication_is_an_edit() {
    assert_eq!(screen(&entry(WATCH, (1000, 0), (1060, 1)), false), Screening::MetadataEdit);
    assert_eq!(screen(&entry(WATCH, (1000, 0), (1061, 0)), true), Screening::MetadataEdit);
    assert_eq!(screen(&entry(WATCH, (1000, 999_999_999), (1061, 0)), true), Screening::MetadataEdit);
    assert_eq!(screen(&entry(WATCH, (0, 0), (86_400, 0)), true), Screening::MetadataEdit);
}

#[test]
fn update_before_publication_is_no_edit() {
    assert_eq!(screen(&entry(WATCH, (1000, 0), (900, 0)), false), Screening::Accepted);
}

#[test]
fn extreme_times_do_not_overflow() {
    assert_eq!(screen(&entry(WATCH, (i64::MIN, 0), (i64::MAX, u32::MAX)), false), Screening::MetadataEdit);
    assert_eq!(screen(&entry(WATCH, (i64::MAX, u32::MAX), (i64::MIN, 0)), false), Screening::Accepted);
}

#[test]
fn short_is_dropped_unless_the_subscription_takes_shorts() {
    assert_eq!(screen(&entry(SHORT, (1000, 0), (1000, 0)), false), Screening::ShortsNotWanted);
    assert_eq!(screen(&entry(SHORT, (1000, 0), (1000, 0)), true), Screening::Accepted);
}

#[test]
fn edit_of_a_short_is_an_edit() {
    assert_eq!(screen(&entry(SHORT, (1000, 0), (2000, 0)), false), Screening::MetadataEdit);
    assert_eq!(screen(&entry(SHORT, (1000, 0), (2000, 0)), true), Screening::MetadataEdit);
}
