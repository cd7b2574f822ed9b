//! The content of a notification, and the rules that decide whether a
//! notification announces a new video that is to be posted.

use vstd::prelude::*;
use crate::text::{contains, includes};

verus! {

/// A point in time: whole seconds since the Unix epoch and the nanoseconds
/// that follow them.
#[derive(Clone, Copy, Debug, PartialEq, Eq, Structural)]
pub struct Timestamp {
    pub seconds: i64,
    pub nanos: u32,
}

impl Timestamp {
    /// The point in time in nanoseconds since the Unix epoch.
    pub open spec fn total_nanos(self) -> int {
        self.seconds * 1_000_000_000 + self.nanos
    }
}

/// A link of a feed or of an entry.
#[derive(Clone, Debug, PartialEq, Eq)]
pub struct Link {
    pub rel: String,
    pub href: String,
}

/// The mathematical value of a [`Link`].
pub struct LinkView {
    pub rel: Seq<char>,
    pub href: Seq<char>,
}

impl View for Link {
    type V = LinkView;

    open spec fn view(&self) -> LinkView {
        LinkView { rel: self.rel@, href: self.href@ }
    }
}

impl DeepView for Link {
    type V = LinkView;

    open spec fn deep_view(&self) -> LinkView {
        self@
    }
}

/// The channel that published an entry.
#[derive(Clone, Debug, PartialEq, Eq)]
pub struct Author {
    pub name: String,
    pub uri: String,
}

/// The mathematical value of an [`Author`].
pub struct AuthorView {
    pub name: Seq<char>,
    pub uri: Seq<char>,
}

impl View for Author {
    type V = AuthorView;

    open spec fn view(&self) -> AuthorView {
        AuthorView { name: self.name@, uri: self.uri@ }
    }
}

/// The one entry of a notification: a video.
#[derive(Clone, Debug, PartialEq, Eq)]
pub struct Entry {
    pub id: String,
    pub yt_video_id: String,
    pub yt_channel_id: String,
    pub title: String,
    pub link: Link,
    pub author: Author,
    pub published: Timestamp,
    pub updated: Timestamp,
}

/// The mathematical value of an [`Entry`].
pub struct EntryView {
    pub id: Seq<char>,
    pub yt_video_id: Seq<char>,
    pub yt_channel_id: Seq<char>,
    pub title: Seq<char>,
    pub link: LinkView,
    pub author: AuthorView,
    pub published: Timestamp,
    pub updated: Timestamp,
}

impl View for Entry {
    type V = EntryView;

    open spec fn view(&self) -> EntryView {
        EntryView {
            id: self.id@,
            yt_video_id: self.yt_video_id@,
            yt_channel_id: self.yt_channel_id@,
            title: self.title@,
            link: self.link@,
            author: self.author@,
            published: self.published,
            updated: self.updated,
        }
    }
}

/// A notification as the hub delivers it.
#[derive(Clone, Debug, PartialEq, Eq)]
pub struct Feed {
    pub links: Vec<Link>,
    pub title: String,
    pub updated: Timestamp,
    pub entry: Entry,
}

/// The mathematical value of a [`Feed`].
pub struct FeedView {
    pub links: Seq<LinkView>,
    pub title: Seq<char>,
    pub updated: Timestamp,
    pub entry: EntryView,
}

impl View for Feed {
    type V = FeedView;

    open spec fn view(&self) -> FeedView {
        FeedView {
            links: self.links.deep_view(),
            title: self.title@,
            updated: self.updated,
            entry: self.entry@,
        }
    }
}

/// The longest time, in nanoseconds, that an entry's update may follow its
/// publication while the entry still counts as new.
pub open spec fn edit_threshold_nanos() -> int {
    60_000_000_000
}

/// An entry that was updated more than sixty seconds after it was published
/// reports an edit of an old video, not a new one.
pub open spec fn is_metadata_edit(entry: EntryView) -> bool {
    entry.updated.total_nanos() - entry.published.total_nanos() > edit_threshold_nanos()
}

/// An entry whose link holds `shorts` is short-form content.
pub open spec fn is_short(entry: EntryView) -> bool {
    contains(entry.link.href, "shorts"@)
}

/// What the content rules say of a notification.
#[derive(Clone, Copy, Debug, PartialEq, Eq, Structural)]
pub enum Screening {
    /// The entry announces a new video that the subscription wants.
    Accepted,
    /// The entry reports an edit of an old video.
    MetadataEdit,
    /// The entry is short-form content and the subscription takes none.
    ShortsNotWanted,
}

/// The content rules: an edit is dropped first; then short-form content,
/// unless the subscription allows it.
pub open spec fn screening_of(entry: EntryView, post_shorts: bool) -> Screening {
    if is_metadata_edit(entry) {
        Screening::MetadataEdit
    } else if is_short(entry) && !post_shorts {
        Screening::ShortsNotWanted
    } else {
        Screening::Accepted
    }
}

/// Applies the content rules to the entry of an authentic notification.
pub fn screen(entry: &Entry, post_shorts: bool) -> (s: Screening)
    ensures
        s == screening_of(entry@, post_shorts),
{
    let published: i128 = entry.published.seconds as i128 * 1_000_000_000 + entry.published.nanos as i128;
    let updated: i128 = entry.updated.seconds as i128 * 1_000_000_000 + entry.updated.nanos as i128;
    if updated - published > 60_000_000_000 {
        Screening::MetadataEdit
    } else if !post_shorts && includes(entry.link.href.as_str(), "shorts") {
        Screening::ShortsNotWanted
    } else {
        Screening::Accepted
    }
}

} // verus!
