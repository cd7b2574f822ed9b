use reddit_youtube_bot::dispatch::{
    DispatchEvent, DispatchStep, Dispatcher, Outcome, StoredAccount,
};
use reddit_youtube_bot::error::ApiError;
use reddit_youtube_bot::feed::{Author, Entry, Link, Timestamp};
use reddit_youtube_bot::hub::Subscription;
use reddit_youtube_bot::moderation::Submission;
use reddit_youtube_bot::oauth::{RedditAccountDTO, RedditOAuthToken};
use reddit_youtube_bot::reddit::{RedditSubmissionData, SubmitResponse, Subreddit};

const NOW: i64 = 1_700_000_000;

/// A store and a Reddit that live in memory and answer the dispatcher's steps.
struct World {
    accounts: Vec<StoredAccount>,
    communities: Vec<(i64, Vec<Subreddit>)>,
    rows: Vec<Submission>,
    refused_communities: Vec<String>,
    failing_refresh: bool,
    failing_lists: Vec<i64>,
    refused_pins: bool,
    steps: Vec<String>,
    submitted_with: Vec<(String, String)>,
    posted: u32,
}

impl World {
    fn new() -> World {
        World {
            accounts: vec![],
            communities: vec![],
            rows: vec![],
            refused_communities: vec![],
            failing_refresh: false,
            failing_lists: vec![],
            refused_pins: false,
            steps: vec![],
            submitted_with: vec![],
            posted: 0,
        }
    }

    fn answer(&mut self, step: DispatchStep) -> DispatchEvent {
        match step {
            DispatchStep::ListAccounts { .. } => {
                self.steps.push("accounts".to_string());
                DispatchEvent::Accounts(self.accounts.clone())
            }
            DispatchStep::RefreshToken { account_id, refresh_token } => {
                self.steps.push(format!("refresh {} {}", account_id, refresh_token));
                if self.failing_refresh {
                    DispatchEvent::Failed(ApiError::InternalError("Web request failed: 503".to_string()))
                } else {
                    DispatchEvent::Token(token(&format!("fresh-{}", account_id), Some("r2"), 3600))
                }
            }
            DispatchStep::StoreToken { account_id, token, expires_at } => {
                self.steps.push(format!("store-token {} {}", account_id, expires_at));
                for a in self.accounts.iter_mut() {
                    if a.id == account_id {
                        a.oauth_token = token.clone();
                        a.expires_at = expires_at;
                    }
                }
                DispatchEvent::Done
            }
            DispatchStep::ListCommunities { account_id } => {
                self.steps.push(format!("communities {}", account_id));
                if self.failing_lists.contains(&account_id) {
                    return DispatchEvent::Failed(ApiError::InternalError("SQL query error".to_string()));
                }
                let list = self
                    .communities
                    .iter()
                    .find(|(id, _)| *id == account_id)
                    .map(|(_, list)| list.clone())
                    .unwrap_or_default();
                DispatchEvent::Communities(list)
            }
            DispatchStep::CheckSubmitted { subreddit_id, video_id } => {
                self.steps.push(format!("check {}", subreddit_id));
                DispatchEvent::Exists(
                    self.rows.iter().any(|r| r.subreddit_id == subreddit_id && r.video_id == video_id),
                )
            }
            DispatchStep::Submit { access_token, form } => {
                let sr = form.iter().find(|(k, _)| k == "sr").unwrap().1.clone();
                let title = form.iter().find(|(k, _)| k == "title").unwrap().1.clone();
                self.steps.push(format!("submit {} {}", sr, title));
                self.submitted_with.push((access_token, sr.clone()));
                if self.refused_communities.contains(&sr) {
                    DispatchEvent::Submitted(SubmitResponse {
                        errors: vec!["SUBREDDIT_NOTALLOWED".to_string()],
                        data: None,
                    })
                } else {
                    self.posted += 1;
                    DispatchEvent::Submitted(SubmitResponse {
                        errors: vec![],
                        data: Some(RedditSubmissionData {
                            url: format!("https://redd.it/{}", self.posted),
                            id: format!("t3_new{}", self.posted),
                        }),
                    })
                }
            }
            DispatchStep::RecordSubmission { submission } => {
                self.steps.push(format!("record {}", submission.id));
                self.rows.push(submission);
                DispatchEvent::Done
            }
            DispatchStep::ListSubmissions { subreddit_id } => {
                self.steps.push(format!("submissions {}", subreddit_id));
                let mut list: Vec<Submission> =
                    self.rows.iter().filter(|r| r.subreddit_id == subreddit_id).cloned().collect();
                list.sort_by_key(|r| r.created);
                DispatchEvent::Submissions(list)
            }
            DispatchStep::SetSticky { submission_id, state, .. } => {
                self.steps.push(format!("set-sticky {} {}", submission_id, state));
                if self.refused_pins {
                    DispatchEvent::StickyChanged(vec!["NOT_MODERATOR".to_string()])
                } else {
                    DispatchEvent::StickyChanged(vec![])
                }
            }
            DispatchStep::StoreSticky { submission_id, state } => {
                self.steps.push(format!("store-sticky {} {}", submission_id, state));
                for r in self.rows.iter_mut() {
                    if r.id == submission_id {
                        r.pinned = state;
                    }
                }
                DispatchEvent::Done
            }
            DispatchStep::Finish { .. } => unreachable!(),
        }
    }

    fn dispatch(&mut self, post_shorts: bool, entry: Entry) -> (Vec<Outcome>, Option<ApiError>) {
        let (mut dispatcher, mut step) = Dispatcher::begin(&subscription(post_shorts), entry, NOW);
        for _ in 0..10_000 {
            if let DispatchStep::Finish { failure } = step {
                assert!(dispatcher.is_finished());
                return (dispatcher.outcomes().clone(), failure);
            }
            let event = self.answer(step);
            step = dispatcher.step(event);
        }
        panic!("the dispatch did not end");
    }

    fn count(&self, prefix: &str) -> usize {
        self.steps.iter().filter(|s| s.starts_with(prefix)).count()
    }

    fn position(&self, prefix: &str) -> Option<usize> {
        self.steps.iter().position(|s| s.starts_with(prefix))
    }
}

fn token(access: &str, refresh: Option<&str>, expires_in: i64) -> RedditOAuthToken {
    RedditOAuthToken {
        access_token: access.to_string(),
        token_type: "bearer".to_string(),
        expires_in,
        scope: "identity submit".to_string(),
        refresh_token: refresh.map(|s| s.to_string()),
    }
}

fn account(id: i64, moderate: bool, refresh: Option<&str>, expires_at: i64) -> StoredAccount {
    StoredAccount {
        id,
        username: format!("user{}", id),
        moderate_submissions: moderate,
        oauth_token: token(&format!("stored-{}", id), refresh, 3600),
        expires_at,
    }
}

fn community(id: i64, name: &str) -> Subreddit {
    Subreddit {
        id,
        name: name.to_string(),
        title_prefix: Some("[YT] ".to_string()),
        title_suffix: None,
        flair_id: None,
    }
}

fn subscription(post_shorts: bool) -> Subscription {
    Subscription {
        id: "sub-1".to_string(),
        channel_id: "UCabc".to_string(),
        channel_name: "Channel".to_string(),
        hmac_secret: "secret".to_string(),
        callback_url: "https://bot.example/google/subscription/sub-1".to_string(),
        expires: None,
        post_shorts,
    }
}

fn entry(video: &str, href: &str, published: i64, updated: i64) -> Entry {
    Entry {
        id: format!("yt:video:{}", video),
        yt_video_id: video.to_string(),
        yt_channel_id: "UCabc".to_string(),
        title: "A video".to_string(),
        link: Link { rel: "alternate".to_string(), href: href.to_string() },
        author: Author { name: "Channel".to_string(), uri: "https://www.youtube.com/channel/UCabc".to_string() },
        published: Timestamp { seconds: published, nanos: 0 },
        updated: Timestamp { seconds: updated, nanos: 0 },
    }
}

fn new_video(video: &str) -> Entry {
    entry(video, &format!("https://www.youtube.com/watch?v={}", video), NOW - 10, NOW - 5)
}

fn row(id: &str, video: &str, subreddit_id: i64, created: i64, pinned: bool) -> Submission {
    Submission {
        id: id.to_string(),
        video_id: video.to_string(),
        account_id: 1,
        subreddit_id,
        created,
        pinned,
    }
}

fn simple_world() -> World {
    let mut world = World::new();
    world.accounts = vec![account(1, false, Some("r1"), NOW + 1000)];
    world.communities = vec![(1, vec![community(7, "videos"), community(8, "music")])];
    world
}

#[test]
fn new_video_is_posted_to_every_community() {
    let mut world = simple_world();
    let (outcomes, failure) = world.dispatch(false, new_video("abc"));
    assert_eq!(failure, None);
    assert_eq!(
        outcomes,
        vec![
            Outcome::Posted { account_id: 1, subreddit_id: 7, submission_id: "t3_new1".to_string() },
            Outcome::Posted { account_id: 1, subreddit_id: 8, submission_id: "t3_new2".to_string() },
        ]
    );
    assert_eq!(
        world.rows,
        vec![
            Submission {
                id: "t3_new1".to_string(),
                video_id: "abc".to_string(),
                account_id: 1,
                subreddit_id: 7,
                created: NOW,
                pinned: false,
            },
            Submission {
                id: "t3_new2".to_string(),
                video_id: "abc".to_string(),
                account_id: 1,
                subreddit_id: 8,
                created: NOW,
                pinned: false,
            },
        ]
    );
    assert_eq!(
        world.steps,
        vec![
            "accounts",
            "communities 1",
            "check 7",
            "submit videos [YT] A video",
            "record t3_new1",
            "check 8",
            "submit music [YT] A video",
            "record t3_new2",
        ]
    );
}

#[test]
fn metadata_edit_is_a_no_op() {
    let mut world = simple_world();
    let edited = entry("abc", "https://www.youtube.com/watch?v=abc", NOW - 1000, NOW - 939);
    let (outcomes, failure) = world.dispatch(true, edited);
    assert_eq!(failure, None);
    assert!(outcomes.is_empty());
    assert!(world.steps.is_empty());
    assert!(world.rows.is_empty());
}

#[test]
fn update_within_sixty_seconds_is_dispatched() {
    let mut world = simple_world();
    let fresh = entry("abc", "https://www.youtube.com/watch?v=abc", NOW - 1000, NOW - 940);
    let (outcomes, _) = world.dispatch(false, fresh);
    assert_eq!(outcomes.len(), 2);
    assert_eq!(world.rows.len(), 2);
}

#[test]
fn short_is_posted_only_where_shorts_are_wanted() {
    let short = || entry("abc", "https://www.youtube.com/shorts/abc", NOW - 10, NOW - 5);
    let mut unwanted = simple_world();
    let (outcomes, failure) = unwanted.dispatch(false, short());
    assert_eq!(failure, None);
    assert!(outcomes.is_empty());
    assert!(unwanted.steps.is_empty());
    assert!(unwanted.rows.is_empty());
    let mut wanted = simple_world();
    let (outcomes, _) = wanted.dispatch(true, short());
    assert_eq!(outcomes.len(), 2);
    assert_eq!(wanted.rows.len(), 2);
}

#[test]
fn finished_dispatcher_stays_finished() {
    let edited = entry("abc", "https://www.youtube.com/watch?v=abc", 0, 1000);
    let (mut dispatcher, step) = Dispatcher::begin(&subscription(true), edited, NOW);
    assert_eq!(step, DispatchStep::Finish { failure: None });
    assert!(dispatcher.is_finished());
    assert_eq!(dispatcher.step(DispatchEvent::Exists(false)), DispatchStep::Finish { failure: None });
    assert_eq!(dispatcher.step(DispatchEvent::Accounts(vec![])), DispatchStep::Finish { failure: None });
    assert!(dispatcher.outcomes().is_empty());
}

#[test]
fn same_pair_submitted_twice_gives_one_row() {
    let mut world = simple_world();
    world.dispatch(false, new_video("abc"));
    assert_eq!(world.rows.len(), 2);
    let (outcomes, failure) = world.dispatch(false, new_video("abc"));
    assert_eq!(failure, None);
    assert_eq!(
        outcomes,
        vec![
            Outcome::Duplicate { account_id: 1, subreddit_id: 7 },
            Outcome::Duplicate { account_id: 1, subreddit_id: 8 },
        ]
    );
    assert_eq!(world.rows.len(), 2);
    assert_eq!(world.count("submit"), 2);
    assert_eq!(world.rows.iter().filter(|r| r.subreddit_id == 7 && r.video_id == "abc").count(), 1);
}

#[test]
fn duplicate_in_one_community_does_not_stop_the_next() {
    let mut world = simple_world();
    world.rows.push(row("t3_old", "abc", 7, NOW - 50, false));
    let (outcomes, _) = world.dispatch(false, new_video("abc"));
    assert_eq!(
        outcomes,
        vec![
            Outcome::Duplicate { account_id: 1, subreddit_id: 7 },
            Outcome::Posted { account_id: 1, subreddit_id: 8, submission_id: "t3_new1".to_string() },
        ]
    );
}

#[test]
fn two_accounts_sharing_a_community_post_once() {
    let mut world = World::new();
    world.accounts = vec![account(1, false, None, 0), account(2, false, None, 0)];
    world.communities = vec![(1, vec![community(7, "videos")]), (2, vec![community(7, "videos")])];
    let (outcomes, _) = world.dispatch(false, new_video("abc"));
    assert_eq!(
        outcomes,
        vec![
            Outcome::Posted { account_id: 1, subreddit_id: 7, submission_id: "t3_new1".to_string() },
            Outcome::Duplicate { account_id: 2, subreddit_id: 7 },
        ]
    );
    assert_eq!(world.rows.len(), 1);
}

#[test]
fn refused_post_does_not_stop_sibling_targets() {
    let mut world = World::new();
    world.accounts = vec![account(1, false, None, 0), account(2, false, None, 0)];
    world.communities = vec![
        (1, vec![community(7, "closed"), community(8, "music")]),
        (2, vec![community(9, "videos")]),
    ];
    world.refused_communities = vec!["closed".to_string()];
    let (outcomes, failure) = world.dispatch(false, new_video("abc"));
    assert_eq!(failure, None);
    assert_eq!(outcomes.len(), 3);
    match &outcomes[0] {
        Outcome::Failed { account_id: 1, subreddit_id: 7, error: ApiError::BadRequest(m) } => {
            assert!(m.ends_with("got following errors: SUBREDDIT_NOTALLOWED; "));
        }
        other => panic!("{:?}", other),
    }
    assert_eq!(
        outcomes[1],
        Outcome::Posted { account_id: 1, subreddit_id: 8, submission_id: "t3_new1".to_string() }
    );
    assert_eq!(
        outcomes[2],
        Outcome::Posted { account_id: 2, subreddit_id: 9, submission_id: "t3_new2".to_string() }
    );
    assert_eq!(world.rows.len(), 2);
}

#[test]
fn account_whose_communities_cannot_be_listed_is_passed_over() {
    let mut world = World::new();
    world.accounts = vec![account(1, false, None, 0), account(2, false, None, 0)];
    world.communities = vec![(1, vec![community(7, "a")]), (2, vec![community(8, "b")])];
    world.failing_lists = vec![1];
    let (outcomes, failure) = world.dispatch(false, new_video("abc"));
    assert_eq!(failure, None);
    assert_eq!(
        outcomes,
        vec![
            Outcome::AccountFailed {
                account_id: 1,
                error: ApiError::InternalError("SQL query error".to_string()),
            },
            Outcome::Posted { account_id: 2, subreddit_id: 8, submission_id: "t3_new1".to_string() },
        ]
    );
}

#[test]
fn fan_out_is_account_major() {
    let mut world = World::new();
    world.accounts = vec![account(1, false, None, 0), account(2, false, None, 0)];
    world.communities = vec![
        (1, vec![community(7, "a"), community(8, "b")]),
        (2, vec![community(9, "c"), community(10, "d")]),
    ];
    world.dispatch(false, new_video("abc"));
    let checks: Vec<&String> = world.steps.iter().filter(|s| s.starts_with("check")).collect();
    assert_eq!(checks, vec!["check 7", "check 8", "check 9", "check 10"]);
}

#[test]
fn expired_credential_is_refreshed_once_before_any_submission() {
    let mut world = World::new();
    world.accounts = vec![account(1, false, Some("r1"), NOW)];
    world.communities = vec![(1, vec![community(7, "a"), community(8, "b"), community(9, "c")])];
    let (outcomes, failure) = world.dispatch(false, new_video("abc"));
    assert_eq!(failure, None);
    assert_eq!(outcomes.len(), 3);
    assert_eq!(world.count("refresh"), 1);
    assert_eq!(world.steps[1], "refresh 1 r1");
    assert_eq!(world.steps[2], format!("store-token 1 {}", NOW + 3600));
    assert!(world.position("refresh").unwrap() < world.position("submit").unwrap());
    for (access_token, _) in &world.submitted_with {
        assert_eq!(access_token, "fresh-1");
    }
    assert_eq!(world.accounts[0].oauth_token.access_token, "fresh-1");
    assert_eq!(world.accounts[0].expires_at, NOW + 3600);
}

#[test]
fn valid_credential_is_not_refreshed() {
    let mut world = World::new();
    world.accounts = vec![account(1, false, Some("r1"), NOW + 1)];
    world.communities = vec![(1, vec![community(7, "a")])];
    world.dispatch(false, new_video("abc"));
    assert_eq!(world.count("refresh"), 0);
    assert_eq!(world.count("store-token"), 0);
    assert_eq!(world.submitted_with, vec![("stored-1".to_string(), "a".to_string())]);
}

#[test]
fn credential_without_refresh_token_is_used_as_it_is() {
    let mut world = World::new();
    world.accounts = vec![account(1, false, None, NOW - 1000)];
    world.communities = vec![(1, vec![community(7, "a")])];
    world.dispatch(false, new_video("abc"));
    assert_eq!(world.count("refresh"), 0);
    assert_eq!(world.submitted_with, vec![("stored-1".to_string(), "a".to_string())]);
}

#[test]
fn only_due_credentials_are_refreshed_each_once_and_in_order() {
    let mut world = World::new();
    world.accounts = vec![
        account(1, false, Some("r1"), NOW - 1),
        account(2, false, Some("r2"), NOW + 1),
        account(3, false, None, NOW - 1),
        account(4, false, Some("r4"), NOW),
    ];
    world.communities = vec![
        (1, vec![community(7, "a")]),
        (2, vec![community(8, "b")]),
        (3, vec![community(9, "c")]),
        (4, vec![community(10, "d")]),
    ];
    let (outcomes, _) = world.dispatch(false, new_video("abc"));
    assert_eq!(outcomes.len(), 4);
    let refreshes: Vec<&String> = world.steps.iter().filter(|s| s.starts_with("refresh")).collect();
    assert_eq!(refreshes, vec!["refresh 1 r1", "refresh 4 r4"]);
    let last_refresh = world.steps.iter().rposition(|s| s.starts_with("refresh")).unwrap();
    assert!(last_refresh < world.position("communities").unwrap());
    assert_eq!(
        world.submitted_with,
        vec![
            ("fresh-1".to_string(), "a".to_string()),
            ("stored-2".to_string(), "b".to_string()),
            ("stored-3".to_string(), "c".to_string()),
            ("fresh-4".to_string(), "d".to_string()),
        ]
    );
}

#[test]
fn failed_refresh_ends_the_dispatch_before_the_fan_out() {
    let mut world = World::new();
    world.accounts = vec![account(1, false, Some("r1"), NOW - 1)];
    world.communities = vec![(1, vec![community(7, "a")])];
    world.failing_refresh = true;
    let (outcomes, failure) = world.dispatch(false, new_video("abc"));
    assert_eq!(failure, Some(ApiError::InternalError("Web request failed: 503".to_string())));
    assert!(outcomes.is_empty());
    assert_eq!(world.count("submit"), 0);
    assert!(world.rows.is_empty());
}

#[test]
fn no_accounts_means_nothing_to_do() {
    let mut world = World::new();
    let (outcomes, failure) = world.dispatch(false, new_video("abc"));
    assert_eq!(failure, None);
    assert!(outcomes.is_empty());
    assert_eq!(world.steps, vec!["accounts"]);
}

#[test]
fn moderating_account_rotates_the_pin_after_posting() {
    let mut world = World::new();
    world.accounts = vec![account(1, true, None, 0)];
    world.communities = vec![(1, vec![community(7, "videos")])];
    world.rows = vec![
        row("A", "va", 7, 1, false),
        row("B", "vb", 7, 2, true),
        row("C", "vc", 7, 3, false),
        row("X", "vx", 8, 2, true),
    ];
    let (outcomes, failure) = world.dispatch(false, new_video("vd"));
    assert_eq!(failure, None);
    assert_eq!(
        outcomes,
        vec![Outcome::Posted { account_id: 1, subreddit_id: 7, submission_id: "t3_new1".to_string() }]
    );
    let state: Vec<(String, bool)> = world
        .rows
        .iter()
        .filter(|r| r.subreddit_id == 7)
        .map(|r| (r.id.clone(), r.pinned))
        .collect();
    assert_eq!(
        state,
        vec![
            ("A".to_string(), false),
            ("B".to_string(), false),
            ("C".to_string(), true),
            ("t3_new1".to_string(), false),
        ]
    );
    assert!(world.rows.iter().find(|r| r.id == "X").unwrap().pinned);
    let tail: Vec<&str> = world.steps.iter().skip(5).map(|s| s.as_str()).collect();
    assert_eq!(
        tail,
        vec![
            "submissions 7",
            "set-sticky B false",
            "store-sticky B false",
            "set-sticky C true",
            "store-sticky C true",
        ]
    );
}

#[test]
fn account_that_does_not_moderate_leaves_pins_alone() {
    let mut world = World::new();
    world.accounts = vec![account(1, false, None, 0)];
    world.communities = vec![(1, vec![community(7, "videos")])];
    world.rows = vec![row("A", "va", 7, 1, false), row("B", "vb", 7, 2, true), row("C", "vc", 7, 3, false)];
    world.dispatch(false, new_video("vd"));
    assert_eq!(world.count("submissions"), 0);
    assert_eq!(world.count("set-sticky"), 0);
    assert!(world.rows[1].pinned);
}

#[test]
fn refused_unpin_is_not_stored_and_ends_the_rotation() {
    let mut world = World::new();
    world.accounts = vec![account(1, true, None, 0)];
    world.communities = vec![(1, vec![community(7, "videos"), community(8, "music")])];
    world.rows = vec![row("A", "va", 7, 1, false), row("B", "vb", 7, 2, true), row("C", "vc", 7, 3, false)];
    world.refused_pins = true;
    let (outcomes, failure) = world.dispatch(false, new_video("vd"));
    assert_eq!(failure, None);
    assert_eq!(outcomes.len(), 3);
    assert_eq!(
        outcomes[0],
        Outcome::Posted { account_id: 1, subreddit_id: 7, submission_id: "t3_new1".to_string() }
    );
    match &outcomes[1] {
        Outcome::ModerationFailed { account_id: 1, subreddit_id: 7, error: ApiError::BadRequest(m) } => {
            assert_eq!(
                m,
                "Got following errors while trying to change the sticky state of the submission B to false: NOT_MODERATOR; "
            );
        }
        other => panic!("{:?}", other),
    }
    assert_eq!(
        outcomes[2],
        Outcome::Posted { account_id: 1, subreddit_id: 8, submission_id: "t3_new2".to_string() }
    );
    assert_eq!(world.count("store-sticky"), 0);
    assert_eq!(world.count("set-sticky"), 1);
    assert!(world.rows[1].pinned);
    assert!(!world.rows[2].pinned);
}

#[test]
fn event_out_of_place_counts_as_a_failure_of_the_target() {
    let mut world = simple_world();
    let (mut dispatcher, step) = Dispatcher::begin(&subscription(false), new_video("abc"), NOW);
    let event = world.answer(step);
    let step = dispatcher.step(event);
    let event = world.answer(step);
    let step = dispatcher.step(event);
    assert_eq!(step, DispatchStep::CheckSubmitted { subreddit_id: 7, video_id: "abc".to_string() });
    let step = dispatcher.step(DispatchEvent::Done);
    assert_eq!(step, DispatchStep::CheckSubmitted { subreddit_id: 8, video_id: "abc".to_string() });
    assert_eq!(
        dispatcher.outcomes(),
        &vec![Outcome::Failed {
            account_id: 1,
            subreddit_id: 7,
            error: ApiError::InternalError(
                "The event does not answer the step that was asked for".to_string()
            ),
        }]
    );
}

#[test]
fn dispatch_at_the_current_time_begins_like_any_other() {
    let (dispatcher, step) = Dispatcher::begin_now(&subscription(false), new_video("abc"));
    assert_eq!(step, DispatchStep::ListAccounts { subscription_id: "sub-1".to_string() });
    assert!(!dispatcher.is_finished());
}

#[test]
fn stored_account_joins_row_and_token() {
    let row = RedditAccountDTO {
        id: 3,
        username: "user3".to_string(),
        moderate_submissions: true,
        oauth_token: "{\"access_token\":\"x\"}".to_string(),
        expires_at: 99,
    };
    let joined = StoredAccount::from_row(row, token("x", Some("r"), 60));
    assert_eq!(
        joined,
        StoredAccount {
            id: 3,
            username: "user3".to_string(),
            moderate_submissions: true,
            oauth_token: token("x", Some("r"), 60),
            expires_at: 99,
        }
    );
}
