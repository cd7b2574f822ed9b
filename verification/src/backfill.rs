//! The backfill of an account's earlier posts: when an account is
//! authorised, the posts it has made of videos are read page by page and
//! prepared for the store.

use vstd::prelude::*;
use vstd::string::*;
use crate::moderation::{Submission, SubmissionView};
use crate::reddit::{video_id_of, youtube_url_to_video_id};
use crate::text::{contains, includes};

verus! {

/// A post as an account's listing holds it. The time of creation is in
/// whole seconds since the Unix epoch.
#[derive(Clone, Debug, PartialEq, Eq)]
pub struct SubmissionJsonData {
    pub id: String,
    pub url: String,
    pub subreddit_name: String,
    pub flair_id: Option<String>,
    pub created_utc: i64,
    pub stickied: bool,
}

/// The mathematical value of a [`SubmissionJsonData`].
pub struct SubmissionJsonDataView {
    pub id: Seq<char>,
    pub url: Seq<char>,
    pub subreddit_name: Seq<char>,
    pub flair_id: Option<Seq<char>>,
    pub created_utc: i64,
    pub stickied: bool,
}

impl View for SubmissionJsonData {
    type V = SubmissionJsonDataView;

    open spec fn view(&self) -> SubmissionJsonDataView {
        SubmissionJsonDataView {
            id: self.id@,
            url: self.url@,
            subreddit_name: self.subreddit_name@,
            flair_id: self.flair_id.deep_view(),
            created_utc: self.created_utc,
            stickied: self.stickied,
        }
    }
}

impl DeepView for SubmissionJsonData {
    type V = SubmissionJsonDataView;

    open spec fn deep_view(&self) -> SubmissionJsonDataView {
        self@
    }
}

/// One page of an account's listing.
#[derive(Clone, Debug, PartialEq, Eq)]
pub struct RedditSubmissionJson {
    pub next_page_token: Option<String>,
    pub data: Vec<SubmissionJsonData>,
}

/// The mathematical value of a [`RedditSubmissionJson`].
pub struct RedditSubmissionJsonView {
    pub next_page_token: Option<Seq<char>>,
    pub data: Seq<SubmissionJsonDataView>,
}

impl View for RedditSubmissionJson {
    type V = RedditSubmissionJsonView;

    open spec fn view(&self) -> RedditSubmissionJsonView {
        RedditSubmissionJsonView {
            next_page_token: self.next_page_token.deep_view(),
            data: self.data.deep_view(),
        }
    }
}

/// An earlier post, prepared for the store. The video is named where the
/// post's address gives it away; a post without one is not stored.
#[derive(Clone, Debug, PartialEq, Eq)]
pub struct BackfillItem {
    pub submission_id: String,
    pub subreddit_name: String,
    pub flair_id: Option<String>,
    pub created: i64,
    pub pinned: bool,
    pub video_id: Option<String>,
}

/// The mathematical value of a [`BackfillItem`].
pub struct BackfillItemView {
    pub submission_id: Seq<char>,
    pub subreddit_name: Seq<char>,
    pub flair_id: Option<Seq<char>>,
    pub created: i64,
    pub pinned: bool,
    pub video_id: Option<Seq<char>>,
}

impl View for BackfillItem {
    type V = BackfillItemView;

    open spec fn view(&self) -> BackfillItemView {
        BackfillItemView {
            submission_id: self.submission_id@,
            subreddit_name: self.subreddit_name@,
            flair_id: self.flair_id.deep_view(),
            created: self.created,
            pinned: self.pinned,
            video_id: self.video_id.deep_view(),
        }
    }
}

impl DeepView for BackfillItem {
    type V = BackfillItemView;

    open spec fn deep_view(&self) -> BackfillItemView {
        self@
    }
}

/// The row that is stored for a prepared post, made by the given account in
/// the given community: a post whose video is not known is not stored.
pub open spec fn row_of(item: BackfillItemView, account_id: i64, subreddit_id: i64) -> Option<
    SubmissionView,
> {
    match item.video_id {
        Some(video_id) => Some(
            SubmissionView {
                id: item.submission_id,
                video_id,
                account_id,
                subreddit_id,
                created: item.created,
                pinned: item.pinned,
            },
        ),
        None => None,
    }
}

impl BackfillItem {
    /// Turns the prepared post into the row to store for it, or into
    /// nothing where its video is not known.
    pub fn into_row(self, account_id: i64, subreddit_id: i64) -> (row: Option<Submission>)
        ensures
            row.deep_view() == row_of(self@, account_id, subreddit_id),
    {
        match self.video_id {
            Some(video_id) => Some(
                Submission {
                    id: self.submission_id,
                    video_id,
                    account_id,
                    subreddit_id,
                    created: self.created,
                    pinned: self.pinned,
                },
            ),
            None => None,
        }
    }
}

/// An address that leads to YouTube.
pub open spec fn is_video_link(url: Seq<char>) -> bool {
    contains(url, "youtube.com"@) || contains(url, "youtu.be"@)
}

/// What a post is prepared as.
pub open spec fn item_of(post: SubmissionJsonDataView) -> BackfillItemView {
    BackfillItemView {
        submission_id: post.id,
        subreddit_name: post.subreddit_name,
        flair_id: post.flair_id,
        created: post.created_utc,
        pinned: post.stickied,
        video_id: video_id_of(post.url),
    }
}

/// The posts that link to YouTube, in order, each prepared for the store.
pub open spec fn items_of(posts: Seq<SubmissionJsonDataView>) -> Seq<BackfillItemView>
    decreases posts.len(),
{
    if posts.len() == 0 {
        Seq::empty()
    } else if is_video_link(posts.last().url) {
        items_of(posts.drop_last()).push(item_of(posts.last()))
    } else {
        items_of(posts.drop_last())
    }
}

/// Copies an optional text.
fn copy_text(text: &Option<String>) -> (r: Option<String>)
    ensures
        r.deep_view() == text.deep_view(),
{
    match text {
        Some(t) => Some(t.clone()),
        None => None,
    }
}

/// Picks the posts that link to YouTube and prepares them for the store.
pub fn backfill_items(posts: &Vec<SubmissionJsonData>) -> (items: Vec<BackfillItem>)
    ensures
        items.deep_view() == items_of(posts.deep_view()),
{
    let ghost all = posts.deep_view();
    let mut items: Vec<BackfillItem> = Vec::new();
    let mut i: usize = 0;
    assert(all.take(0) =~= Seq::<SubmissionJsonDataView>::empty());
    assert(items.deep_view() =~= Seq::<BackfillItemView>::empty());
    while i < posts.len()
        invariant
            all == posts.deep_view(),
            i <= posts.len(),
            items.deep_view() == items_of(all.take(i as int)),
        decreases posts.len() - i,
    {
        let post = &posts[i];
        let ghost before = items.deep_view();
        assert(all.take(i + 1).drop_last() =~= all.take(i as int));
        assert(all.take(i + 1).last() == post@);
        if includes(post.url.as_str(), "youtube.com") || includes(post.url.as_str(), "youtu.be") {
            let item = BackfillItem {
                submission_id: post.id.clone(),
                subreddit_name: post.subreddit_name.clone(),
                flair_id: copy_text(&post.flair_id),
                created: post.created_utc,
                pinned: post.stickied,
                video_id: youtube_url_to_video_id(&post.url),
            };
            items.push(item);
            assert(items.deep_view() =~= before.push(item@));
        }
        i += 1;
    }
    assert(all.take(i as int) =~= all);
    items
}

/// The address of a page of an account's listing: the first page, or the
/// page after a token.
pub open spec fn listing_address(user_name: Seq<char>, after: Option<Seq<char>>) -> Seq<char> {
    let first = "https://www.reddit.com/user/"@ + user_name + "/submitted.json"@;
    match after {
        Some(token) => first + "?after="@ + token,
        None => first,
    }
}

/// Builds the address of a page of an account's listing.
pub fn listing_url(user_name: &str, after: &Option<String>) -> (url: String)
    ensures
        url@ == listing_address(user_name@, after.deep_view()),
{
    let first = String::from_str("https://www.reddit.com/user/").concat(user_name).concat(
        "/submitted.json",
    );
    match after {
        Some(token) => first.concat("?after=").concat(token.as_str()),
        None => first,
    }
}

/// What the backfill does next.
#[derive(Clone, Debug, PartialEq, Eq)]
pub enum BackfillStep {
    /// Read the page at the address.
    Fetch { url: String },
    /// All pages are read: store these posts.
    Store { items: Vec<BackfillItem> },
}

/// The mathematical value of a [`BackfillStep`].
pub enum BackfillStepView {
    Fetch { url: Seq<char> },
    Store { items: Seq<BackfillItemView> },
}

impl View for BackfillStep {
    type V = BackfillStepView;

    open spec fn view(&self) -> BackfillStepView {
        match self {
            BackfillStep::Fetch { url } => BackfillStepView::Fetch { url: url@ },
            BackfillStep::Store { items } => BackfillStepView::Store { items: items.deep_view() },
        }
    }
}

/// A backfill in progress: the account, and the posts read so far.
#[derive(Clone, Debug, PartialEq, Eq)]
pub struct Backfill {
    pub user_name: String,
    pub posts: Vec<SubmissionJsonData>,
}

/// The mathematical value of a [`Backfill`].
pub struct BackfillView {
    pub user_name: Seq<char>,
    pub posts: Seq<SubmissionJsonDataView>,
}

impl View for Backfill {
    type V = BackfillView;

    open spec fn view(&self) -> BackfillView {
        BackfillView { user_name: self.user_name@, posts: self.posts.deep_view() }
    }
}

impl Backfill {
    /// Begins the backfill of an account with the first page of its listing.
    pub fn begin(user_name: String) -> (r: (Backfill, BackfillStep))
        ensures
            r.0@ == (BackfillView { user_name: user_name@, posts: Seq::empty() }),
            r.1@ == (BackfillStepView::Fetch { url: listing_address(user_name@, None) }),
    {
        let url = listing_url(user_name.as_str(), &None);
        let backfill = Backfill { user_name, posts: Vec::new() };
        assert(backfill.posts.deep_view() =~= Seq::<SubmissionJsonDataView>::empty());
        (backfill, BackfillStep::Fetch { url })
    }

    /// Takes a page that was read. Its posts join those read before. Where
    /// the page names a next page, that one is read; after the last page the
    /// posts that link to YouTube are handed over to be stored.
    pub fn page(&mut self, page: RedditSubmissionJson) -> (step: BackfillStep)
        ensures
            final(self)@ == (BackfillView {
                user_name: old(self)@.user_name,
                posts: old(self)@.posts + page@.data,
            }),
            step@ == match page@.next_page_token {
                Some(token) => BackfillStepView::Fetch {
                    url: listing_address(old(self)@.user_name, Some(token)),
                },
                None => BackfillStepView::Store {
                    items: items_of(old(self)@.posts + page@.data),
                },
            },
    {
        let RedditSubmissionJson { next_page_token, data } = page;
        let ghost before = self.posts.deep_view();
        let ghost added = data.deep_view();
        let mut data = data;
        self.posts.append(&mut data);
        assert(self.posts.deep_view() =~= before + added);
        match next_page_token {
            Some(token) => BackfillStep::Fetch {
                url: listing_url(self.user_name.as_str(), &Some(token)),
            },
            None => BackfillStep::Store { items: backfill_items(&self.posts) },
        }
    }
}

} // verus!
