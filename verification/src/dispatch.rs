//! The cross-post dispatcher, as a machine. For one accepted notification it
//! resolves the accounts of the subscription, refreshing the tokens that are
//! due, and then visits every community of every account: it checks that
//! the video has not been posted there, posts it, records the post and, for
//! an account that moderates, rotates the pin. Each step names the one thing
//! to do next, and each event reports how that went.

use vstd::prelude::*;
use vstd::string::*;
use crate::error::{ApiError, ApiErrorView};
use crate::clock::unix_now;
use crate::feed::{screen, screening_of, Entry, EntryView, Screening};
use crate::hub::Subscription;
use crate::moderation::{pins, rotation, swap_of, Submission, SubmissionView};
use crate::oauth::{
    expiry_after,
    expiry_of,
    refresh_due,
    refresh_token_due,
    RedditAccount,
    RedditAccountDTO,
    RedditAccountView,
    RedditOAuthToken,
    RedditOAuthTokenView,
};
use crate::reddit::{
    compose_title,
    post_title,
    refused_sticky_error,
    sticky_outcome,
    submit_fields,
    submit_form,
    submit_outcome,
    submit_verdict,
    SubmitResponse,
    SubmitResponseView,
    Subreddit,
    SubredditView,
};

verus! {

/// An account as the store holds it, with its token read out of the text it
/// is kept in.
#[derive(Clone, Debug, PartialEq, Eq)]
pub struct StoredAccount {
    pub id: i64,
    pub username: String,
    pub moderate_submissions: bool,
    pub oauth_token: RedditOAuthToken,
    pub expires_at: i64,
}

/// The mathematical value of a [`StoredAccount`].
pub struct StoredAccountView {
    pub id: i64,
    pub username: Seq<char>,
    pub moderate_submissions: bool,
    pub oauth_token: RedditOAuthTokenView,
    pub expires_at: i64,
}

impl View for StoredAccount {
    type V = StoredAccountView;

    open spec fn view(&self) -> StoredAccountView {
        StoredAccountView {
            id: self.id,
            username: self.username@,
            moderate_submissions: self.moderate_submissions,
            oauth_token: self.oauth_token@,
            expires_at: self.expires_at,
        }
    }
}

impl DeepView for StoredAccount {
    type V = StoredAccountView;

    open spec fn deep_view(&self) -> StoredAccountView {
        self@
    }
}

impl StoredAccount {
    /// Joins the row of an account with the token that was read out of the
    /// row's text.
    pub fn from_row(row: RedditAccountDTO, token: RedditOAuthToken) -> (account: StoredAccount)
        ensures
            account@ == (StoredAccountView {
                id: row@.id,
                username: row@.username,
                moderate_submissions: row@.moderate_submissions,
                oauth_token: token@,
                expires_at: row@.expires_at,
            }),
    {
        StoredAccount {
            id: row.id,
            username: row.username,
            moderate_submissions: row.moderate_submissions,
            oauth_token: token,
            expires_at: row.expires_at,
        }
    }
}

/// What became of one target of the fan-out.
#[derive(Clone, Debug, PartialEq, Eq)]
pub enum Outcome {
    /// The video was posted and the post recorded.
    Posted { account_id: i64, subreddit_id: i64, submission_id: String },
    /// The community has a post for the video already; nothing was posted.
    Duplicate { account_id: i64, subreddit_id: i64 },
    /// The target failed before a post was recorded.
    Failed { account_id: i64, subreddit_id: i64, error: ApiError },
    /// The post was recorded, but the pin rotation that followed failed.
    ModerationFailed { account_id: i64, subreddit_id: i64, error: ApiError },
    /// The communities of the account could not be listed.
    AccountFailed { account_id: i64, error: ApiError },
}

/// The mathematical value of an [`Outcome`].
pub enum OutcomeView {
    Posted { account_id: i64, subreddit_id: i64, submission_id: Seq<char> },
    Duplicate { account_id: i64, subreddit_id: i64 },
    Failed { account_id: i64, subreddit_id: i64, error: ApiErrorView },
    ModerationFailed { account_id: i64, subreddit_id: i64, error: ApiErrorView },
    AccountFailed { account_id: i64, error: ApiErrorView },
}

impl View for Outcome {
    type V = OutcomeView;

    open spec fn view(&self) -> OutcomeView {
        match self {
            Outcome::Posted { account_id, subreddit_id, submission_id } => OutcomeView::Posted {
                account_id: *account_id,
                subreddit_id: *subreddit_id,
                submission_id: submission_id@,
            },
            Outcome::Duplicate { account_id, subreddit_id } => OutcomeView::Duplicate {
                account_id: *account_id,
                subreddit_id: *subreddit_id,
            },
            Outcome::Failed { account_id, subreddit_id, error } => OutcomeView::Failed {
                account_id: *account_id,
                subreddit_id: *subreddit_id,
                error: error@,
            },
            Outcome::ModerationFailed { account_id, subreddit_id, error } =>
                OutcomeView::ModerationFailed {
                    account_id: *account_id,
                    subreddit_id: *subreddit_id,
                    error: error@,
                },
            Outcome::AccountFailed { account_id, error } => OutcomeView::AccountFailed {
                account_id: *account_id,
                error: error@,
            },
        }
    }
}

impl DeepView for Outcome {
    type V = OutcomeView;

    open spec fn deep_view(&self) -> OutcomeView {
        self@
    }
}

/// The one thing to do next.
#[derive(Clone, Debug, PartialEq, Eq)]
pub enum DispatchStep {
    /// Ask the store for the accounts that are linked to the subscription.
    ListAccounts { subscription_id: String },
    /// Exchange the refresh token of the account for a new token.
    RefreshToken { account_id: i64, refresh_token: String },
    /// Have the store keep the account's new token and the time it expires.
    StoreToken { account_id: i64, token: RedditOAuthToken, expires_at: i64 },
    /// Ask the store for the communities that are linked to the account.
    ListCommunities { account_id: i64 },
    /// Ask the store whether the community has a post for the video.
    CheckSubmitted { subreddit_id: i64, video_id: String },
    /// Submit the form to Reddit under the access token.
    Submit { access_token: String, form: Vec<(String, String)> },
    /// Have the store keep the post.
    RecordSubmission { submission: Submission },
    /// Ask the store for the posts of the community, oldest first.
    ListSubmissions { subreddit_id: i64 },
    /// Have Reddit pin or unpin the post, under the access token.
    SetSticky { access_token: String, submission_id: String, state: bool },
    /// Have the store keep the pinned state that Reddit has confirmed.
    StoreSticky { submission_id: String, state: bool },
    /// Nothing is left to do. A failure is named where the dispatch ended
    /// before the fan-out began.
    Finish { failure: Option<ApiError> },
}

/// The mathematical value of a [`DispatchStep`].
pub enum DispatchStepView {
    ListAccounts { subscription_id: Seq<char> },
    RefreshToken { account_id: i64, refresh_token: Seq<char> },
    StoreToken { account_id: i64, token: RedditOAuthTokenView, expires_at: i64 },
    ListCommunities { account_id: i64 },
    CheckSubmitted { subreddit_id: i64, video_id: Seq<char> },
    Submit { access_token: Seq<char>, form: Seq<(Seq<char>, Seq<char>)> },
    RecordSubmission { submission: SubmissionView },
    ListSubmissions { subreddit_id: i64 },
    SetSticky { access_token: Seq<char>, submission_id: Seq<char>, state: bool },
    StoreSticky { submission_id: Seq<char>, state: bool },
    Finish { failure: Option<ApiErrorView> },
}

impl View for DispatchStep {
    type V = DispatchStepView;

    open spec fn view(&self) -> DispatchStepView {
        match self {
            DispatchStep::ListAccounts { subscription_id } => DispatchStepView::ListAccounts {
                subscription_id: subscription_id@,
            },
            DispatchStep::RefreshToken { account_id, refresh_token } =>
                DispatchStepView::RefreshToken {
                    account_id: *account_id,
                    refresh_token: refresh_token@,
                },
            DispatchStep::StoreToken { account_id, token, expires_at } =>
                DispatchStepView::StoreToken {
                    account_id: *account_id,
                    token: token@,
                    expires_at: *expires_at,
                },
            DispatchStep::ListCommunities { account_id } => DispatchStepView::ListCommunities {
                account_id: *account_id,
            },
            DispatchStep::CheckSubmitted { subreddit_id, video_id } =>
                DispatchStepView::CheckSubmitted {
                    subreddit_id: *subreddit_id,
                    video_id: video_id@,
                },
            DispatchStep::Submit { access_token, form } => DispatchStepView::Submit {
                access_token: access_token@,
                form: form.deep_view(),
            },
            DispatchStep::RecordSubmission { submission } => DispatchStepView::RecordSubmission {
                submission: submission@,
            },
            DispatchStep::ListSubmissions { subreddit_id } => DispatchStepView::ListSubmissions {
                subreddit_id: *subreddit_id,
            },
            DispatchStep::SetSticky { access_token, submission_id, state } =>
                DispatchStepView::SetSticky {
                    access_token: access_token@,
                    submission_id: submission_id@,
                    state: *state,
                },
            DispatchStep::StoreSticky { submission_id, state } => DispatchStepView::StoreSticky {
                submission_id: submission_id@,
                state: *state,
            },
            DispatchStep::Finish { failure } => DispatchStepView::Finish {
                failure: failure.deep_view(),
            },
        }
    }
}

/// How the last step went.
#[derive(Clone, Debug, PartialEq, Eq)]
pub enum DispatchEvent {
    /// The store's answer to `ListAccounts`.
    Accounts(Vec<StoredAccount>),
    /// Reddit's answer to `RefreshToken`.
    Token(RedditOAuthToken),
    /// The store's answer to `ListCommunities`.
    Communities(Vec<Subreddit>),
    /// The store's answer to `CheckSubmitted`.
    Exists(bool),
    /// Reddit's answer to `Submit`.
    Submitted(SubmitResponse),
    /// The store's answer to `ListSubmissions`.
    Submissions(Vec<Submission>),
    /// Reddit's answer to `SetSticky`: the errors that it lists.
    StickyChanged(Vec<String>),
    /// The store did what it was asked.
    Done,
    /// The step failed.
    Failed(ApiError),
}

/// The mathematical value of a [`DispatchEvent`].
pub enum DispatchEventView {
    Accounts(Seq<StoredAccountView>),
    Token(RedditOAuthTokenView),
    Communities(Seq<SubredditView>),
    Exists(bool),
    Submitted(SubmitResponseView),
    Submissions(Seq<SubmissionView>),
    StickyChanged(Seq<Seq<char>>),
    Done,
    Failed(ApiErrorView),
}

impl View for DispatchEvent {
    type V = DispatchEventView;

    open spec fn view(&self) -> DispatchEventView {
        match self {
            DispatchEvent::Accounts(list) => DispatchEventView::Accounts(list.deep_view()),
            DispatchEvent::Token(token) => DispatchEventView::Token(token@),
            DispatchEvent::Communities(list) => DispatchEventView::Communities(list.deep_view()),
            DispatchEvent::Exists(b) => DispatchEventView::Exists(*b),
            DispatchEvent::Submitted(r) => DispatchEventView::Submitted(r@),
            DispatchEvent::Submissions(list) => DispatchEventView::Submissions(list.deep_view()),
            DispatchEvent::StickyChanged(errors) => DispatchEventView::StickyChanged(
                errors.deep_view(),
            ),
            DispatchEvent::Done => DispatchEventView::Done,
            DispatchEvent::Failed(e) => DispatchEventView::Failed(e@),
        }
    }
}

/// How far a dispatch has come.
#[derive(Clone, Copy, Debug, PartialEq, Eq, Structural)]
pub enum DispatchPhase {
    ListingAccounts,
    Refreshing,
    StoringToken,
    ListingCommunities,
    Checking,
    Submitting,
    Recording,
    ListingSubmissions,
    Unpinning,
    StoringUnpin,
    Pinning,
    StoringPin,
    Finished,
}

/// The mathematical value of a [`Dispatcher`].
pub struct DispatcherView {
    pub subscription_id: Seq<char>,
    pub entry: EntryView,
    pub now: i64,
    pub phase: DispatchPhase,
    /// The accounts as the store gave them.
    pub stored: Seq<StoredAccountView>,
    /// The accounts whose tokens are settled, in the order of `stored`.
    pub accounts: Seq<RedditAccountView>,
    /// The position of the account that is being served.
    pub account: int,
    /// The communities of that account.
    pub communities: Seq<SubredditView>,
    /// The position of the community that is being served.
    pub community: int,
    /// A new token that the store has not kept yet.
    pub fresh: Option<RedditOAuthTokenView>,
    /// The identifier of a post that the store has not kept yet.
    pub posted: Option<Seq<char>>,
    /// The posts that a rotation unpins and pins.
    pub swap: Option<(Seq<char>, Seq<char>)>,
    /// What became of the targets served so far.
    pub outcomes: Seq<OutcomeView>,
}

impl DispatcherView {
    /// An account and a community are being served.
    pub open spec fn in_target(self) -> bool {
        &&& 0 <= self.account < self.accounts.len()
        &&& 0 <= self.community < self.communities.len()
    }

    /// The state holds what its phase needs.
    pub open spec fn wf(self) -> bool {
        match self.phase {
            DispatchPhase::ListingAccounts => true,
            DispatchPhase::Refreshing => self.accounts.len() < self.stored.len(),
            DispatchPhase::StoringToken => self.accounts.len() < self.stored.len()
                && self.fresh is Some,
            DispatchPhase::ListingCommunities => 0 <= self.account < self.accounts.len(),
            DispatchPhase::Checking => self.in_target(),
            DispatchPhase::Submitting => self.in_target(),
            DispatchPhase::Recording => self.in_target() && self.posted is Some,
            DispatchPhase::ListingSubmissions => self.in_target(),
            DispatchPhase::Unpinning => self.in_target() && self.swap is Some,
            DispatchPhase::StoringUnpin => self.in_target() && self.swap is Some,
            DispatchPhase::Pinning => self.in_target() && self.swap is Some,
            DispatchPhase::StoringPin => self.in_target() && self.swap is Some,
            DispatchPhase::Finished => true,
        }
    }

    /// The posts that the rotation in progress unpins and pins.
    pub open spec fn swap_ids(self) -> (Seq<char>, Seq<char>) {
        match self.swap {
            Some(w) => w,
            None => (Seq::empty(), Seq::empty()),
        }
    }

    /// The account that is being served.
    pub open spec fn current_account(self) -> RedditAccountView {
        self.accounts[self.account]
    }

    /// The community that is being served.
    pub open spec fn current_community(self) -> SubredditView {
        self.communities[self.community]
    }

    /// The title under which the video is posted in the community that is
    /// being served.
    pub open spec fn current_title(self) -> Seq<char> {
        post_title(self.current_community(), self.entry.title)
    }
}

/// The explanation given for an event that does not answer the last step.
pub open spec fn unexpected_event_error() -> Seq<char> {
    "The event does not answer the step that was asked for"@
}

/// The failure that an event stands for where it is not the answer that the
/// phase waits for: the failure it reports, or that it is out of place.
pub open spec fn event_error(event: DispatchEventView) -> ApiErrorView {
    match event {
        DispatchEventView::Failed(e) => e,
        _ => ApiErrorView::InternalError(unexpected_event_error()),
    }
}

/// An account with the token that its requests are made with.
pub open spec fn account_of(stored: StoredAccountView, token: RedditOAuthTokenView) -> RedditAccountView {
    RedditAccountView {
        id: stored.id,
        username: stored.username,
        oauth_token: token,
        moderate_submissions: stored.moderate_submissions,
    }
}

/// The state with one more outcome.
pub open spec fn logged(s: DispatcherView, outcome: OutcomeView) -> DispatcherView {
    DispatcherView { outcomes: s.outcomes.push(outcome), ..s }
}

/// The end of a dispatch.
pub open spec fn finished(s: DispatcherView, failure: Option<ApiErrorView>) -> (
    DispatcherView,
    DispatchStepView,
) {
    (
        DispatcherView {
            phase: DispatchPhase::Finished,
            fresh: None,
            posted: None,
            swap: None,
            ..s
        },
        DispatchStepView::Finish { failure },
    )
}

/// Serving the account at the state's position begins with the list of its
/// communities; past the last account the dispatch ends.
pub open spec fn served_account(s: DispatcherView) -> (DispatcherView, DispatchStepView) {
    if 0 <= s.account < s.accounts.len() {
        (
            DispatcherView {
                phase: DispatchPhase::ListingCommunities,
                communities: Seq::empty(),
                community: 0,
                ..s
            },
            DispatchStepView::ListCommunities { account_id: s.current_account().id },
        )
    } else {
        finished(s, None)
    }
}

/// Serving the community at the state's position begins with the check for
/// an earlier post; past the last community the next account is served.
pub open spec fn served_target(s: DispatcherView) -> (DispatcherView, DispatchStepView) {
    if 0 <= s.community < s.communities.len() {
        (
            DispatcherView { phase: DispatchPhase::Checking, ..s },
            DispatchStepView::CheckSubmitted {
                subreddit_id: s.current_community().id,
                video_id: s.entry.yt_video_id,
            },
        )
    } else {
        served_account(DispatcherView { account: s.account + 1, ..s })
    }
}

/// The community that is being served is done with; the next one is served.
pub open spec fn moved_on(s: DispatcherView) -> (DispatcherView, DispatchStepView) {
    served_target(DispatcherView { community: s.community + 1, posted: None, swap: None, ..s })
}

/// The tokens of the accounts are settled in the order of the store's list.
/// A token that is not due is taken as it is; at the first token that is
/// due, its refresh is asked for. Once all are settled the fan-out begins
/// with the first account.
pub open spec fn resolved(s: DispatcherView) -> (DispatcherView, DispatchStepView)
    decreases s.stored.len() - s.accounts.len(),
{
    let i = s.accounts.len() as int;
    if i >= s.stored.len() {
        served_account(DispatcherView { account: 0, ..s })
    } else if refresh_due(s.stored[i].oauth_token, s.stored[i].expires_at, s.now) {
        (
            DispatcherView { phase: DispatchPhase::Refreshing, ..s },
            DispatchStepView::RefreshToken {
                account_id: s.stored[i].id,
                refresh_token: s.stored[i].oauth_token.refresh_token->0,
            },
        )
    } else {
        resolved(
            DispatcherView {
                accounts: s.accounts.push(account_of(s.stored[i], s.stored[i].oauth_token)),
                ..s
            },
        )
    }
}

/// The post that is recorded for what Reddit reported.
pub open spec fn new_post(s: DispatcherView, id: Seq<char>) -> SubmissionView {
    SubmissionView {
        id,
        video_id: s.entry.yt_video_id,
        account_id: s.current_account().id,
        subreddit_id: s.current_community().id,
        created: s.now,
        pinned: false,
    }
}

/// The target that is being served has failed before a post was recorded.
pub open spec fn target_failed(s: DispatcherView, error: ApiErrorView) -> (
    DispatcherView,
    DispatchStepView,
) {
    moved_on(
        logged(
            s,
            OutcomeView::Failed {
                account_id: s.current_account().id,
                subreddit_id: s.current_community().id,
                error,
            },
        ),
    )
}

/// The pin rotation of the target that is being served has failed.
pub open spec fn moderation_failed(s: DispatcherView, error: ApiErrorView) -> (
    DispatcherView,
    DispatchStepView,
) {
    moved_on(
        logged(
            s,
            OutcomeView::ModerationFailed {
                account_id: s.current_account().id,
                subreddit_id: s.current_community().id,
                error,
            },
        ),
    )
}

/// Reddit's answer to a change of a pinned state: a confirmed change is
/// handed to the store; a refused one ends the rotation.
pub open spec fn sticky_answered(
    s: DispatcherView,
    errors: Seq<Seq<char>>,
    submission_id: Seq<char>,
    state: bool,
    then: DispatchPhase,
) -> (DispatcherView, DispatchStepView) {
    if errors.len() == 0 {
        (
            DispatcherView { phase: then, ..s },
            DispatchStepView::StoreSticky { submission_id, state },
        )
    } else {
        moderation_failed(
            s,
            ApiErrorView::BadRequest(refused_sticky_error(submission_id, state, errors)),
        )
    }
}

/// The state and the step that follow an event.
///
/// Before the fan-out, any failure ends the dispatch and is named in the
/// last step. Within the fan-out a failure is logged for the target or the
/// account it occurred in, and the fan-out goes on with the next one. An
/// event that does not answer the last step counts as a failure.
pub open spec fn next(s: DispatcherView, event: DispatchEventView) -> (
    DispatcherView,
    DispatchStepView,
) {
    match s.phase {
        DispatchPhase::ListingAccounts => match event {
            DispatchEventView::Accounts(list) => resolved(
                DispatcherView { stored: list, accounts: Seq::empty(), ..s },
            ),
            _ => finished(s, Some(event_error(event))),
        },
        DispatchPhase::Refreshing => match event {
            DispatchEventView::Token(token) => (
                DispatcherView { phase: DispatchPhase::StoringToken, fresh: Some(token), ..s },
                DispatchStepView::StoreToken {
                    account_id: s.stored[s.accounts.len() as int].id,
                    token,
                    expires_at: expiry_of(s.now, token.expires_in),
                },
            ),
            _ => finished(s, Some(event_error(event))),
        },
        DispatchPhase::StoringToken => match event {
            DispatchEventView::Done => resolved(
                DispatcherView {
                    accounts: s.accounts.push(
                        account_of(s.stored[s.accounts.len() as int], s.fresh->0),
                    ),
                    fresh: None,
                    ..s
                },
            ),
            _ => finished(s, Some(event_error(event))),
        },
        DispatchPhase::ListingCommunities => match event {
            DispatchEventView::Communities(list) => served_target(
                DispatcherView { communities: list, community: 0, ..s },
            ),
            _ => served_account(
                DispatcherView {
                    account: s.account + 1,
                    ..logged(
                        s,
                        OutcomeView::AccountFailed {
                            account_id: s.current_account().id,
                            error: event_error(event),
                        },
                    )
                },
            ),
        },
        DispatchPhase::Checking => match event {
            DispatchEventView::Exists(true) => moved_on(
                logged(
                    s,
                    OutcomeView::Duplicate {
                        account_id: s.current_account().id,
                        subreddit_id: s.current_community().id,
                    },
                ),
            ),
            DispatchEventView::Exists(false) => (
                DispatcherView { phase: DispatchPhase::Submitting, ..s },
                DispatchStepView::Submit {
                    access_token: s.current_account().oauth_token.access_token,
                    form: submit_fields(
                        s.current_community(),
                        s.current_title(),
                        s.entry.link.href,
                    ),
                },
            ),
            _ => target_failed(s, event_error(event)),
        },
        DispatchPhase::Submitting => match event {
            DispatchEventView::Submitted(response) => match submit_verdict(
                response,
                s.current_title(),
                s.entry,
            ) {
                Ok(data) => (
                    DispatcherView { phase: DispatchPhase::Recording, posted: Some(data.id), ..s },
                    DispatchStepView::RecordSubmission { submission: new_post(s, data.id) },
                ),
                Err(e) => target_failed(s, e),
            },
            _ => target_failed(s, event_error(event)),
        },
        DispatchPhase::Recording => match event {
            DispatchEventView::Done => {
                let t = logged(
                    s,
                    OutcomeView::Posted {
                        account_id: s.current_account().id,
                        subreddit_id: s.current_community().id,
                        submission_id: s.posted->0,
                    },
                );
                if s.current_account().moderate_submissions {
                    (
                        DispatcherView { phase: DispatchPhase::ListingSubmissions, ..t },
                        DispatchStepView::ListSubmissions {
                            subreddit_id: s.current_community().id,
                        },
                    )
                } else {
                    moved_on(t)
                }
            },
            _ => target_failed(s, event_error(event)),
        },
        DispatchPhase::ListingSubmissions => match event {
            DispatchEventView::Submissions(list) => match swap_of(pins(list)) {
                Some(w) => (
                    DispatcherView {
                        phase: DispatchPhase::Unpinning,
                        swap: Some((list[w.0].id, list[w.1].id)),
                        ..s
                    },
                    DispatchStepView::SetSticky {
                        access_token: s.current_account().oauth_token.access_token,
                        submission_id: list[w.0].id,
                        state: false,
                    },
                ),
                None => moved_on(s),
            },
            _ => moderation_failed(s, event_error(event)),
        },
        DispatchPhase::Unpinning => match event {
            DispatchEventView::StickyChanged(errors) => sticky_answered(
                s,
                errors,
                s.swap_ids().0,
                false,
                DispatchPhase::StoringUnpin,
            ),
            _ => moderation_failed(s, event_error(event)),
        },
        DispatchPhase::StoringUnpin => match event {
            DispatchEventView::Done => (
                DispatcherView { phase: DispatchPhase::Pinning, ..s },
                DispatchStepView::SetSticky {
                    access_token: s.current_account().oauth_token.access_token,
                    submission_id: s.swap_ids().1,
                    state: true,
                },
            ),
            _ => moderation_failed(s, event_error(event)),
        },
        DispatchPhase::Pinning => match event {
            DispatchEventView::StickyChanged(errors) => sticky_answered(
                s,
                errors,
                s.swap_ids().1,
                true,
                DispatchPhase::StoringPin,
            ),
            _ => moderation_failed(s, event_error(event)),
        },
        DispatchPhase::StoringPin => match event {
            DispatchEventView::Done => moved_on(s),
            _ => moderation_failed(s, event_error(event)),
        },
        DispatchPhase::Finished => finished(s, None),
    }
}

/// What a dispatch begins with: a notification that the content rules drop
/// is finished at once, with nothing done; any other begins with the list
/// of the subscription's accounts.
pub open spec fn begun(
    subscription_id: Seq<char>,
    post_shorts: bool,
    entry: EntryView,
    now: i64,
) -> (DispatcherView, DispatchStepView) {
    let s = DispatcherView {
        subscription_id,
        entry,
        now,
        phase: DispatchPhase::ListingAccounts,
        stored: Seq::empty(),
        accounts: Seq::empty(),
        account: 0,
        communities: Seq::empty(),
        community: 0,
        fresh: None,
        posted: None,
        swap: None,
        outcomes: Seq::empty(),
    };
    if screening_of(entry, post_shorts) == Screening::Accepted {
        (s, DispatchStepView::ListAccounts { subscription_id })
    } else {
        finished(s, None)
    }
}

/// A dispatch in progress.
#[derive(Clone, Debug, PartialEq, Eq)]
pub struct Dispatcher {
    subscription_id: String,
    entry: Entry,
    now: i64,
    phase: DispatchPhase,
    stored: Vec<StoredAccount>,
    accounts: Vec<RedditAccount>,
    account: usize,
    communities: Vec<Subreddit>,
    community: usize,
    fresh: Option<RedditOAuthToken>,
    posted: Option<String>,
    swap: Option<(String, String)>,
    outcomes: Vec<Outcome>,
}

impl View for Dispatcher {
    type V = DispatcherView;

    closed spec fn view(&self) -> DispatcherView {
        DispatcherView {
            subscription_id: self.subscription_id@,
            entry: self.entry@,
            now: self.now,
            phase: self.phase,
            stored: self.stored.deep_view(),
            accounts: self.accounts.deep_view(),
            account: self.account as int,
            communities: self.communities.deep_view(),
            community: self.community as int,
            fresh: self.fresh.deep_view(),
            posted: self.posted.deep_view(),
            swap: self.swap.deep_view(),
            outcomes: self.outcomes.deep_view(),
        }
    }
}

/// Copies an optional text.
fn copy_text(text: &Option<String>) -> (r: Option<String>)
    ensures
        r.deep_view() == text.deep_view(),
{
    match text {
        Some(t) => Some(t.clone()),
        None => None,
    }
}

/// Copies a token.
fn copy_token(token: &RedditOAuthToken) -> (r: RedditOAuthToken)
    ensures
        r@ == token@,
{
    RedditOAuthToken {
        access_token: token.access_token.clone(),
        token_type: token.token_type.clone(),
        expires_in: token.expires_in,
        scope: token.scope.clone(),
        refresh_token: copy_text(&token.refresh_token),
    }
}

/// The failure that an event stands for where it is out of place.
fn error_of(event: DispatchEvent) -> (e: ApiError)
    ensures
        e@ == event_error(event@),
{
    match event {
        DispatchEvent::Failed(e) => e,
        _ => ApiError::InternalError(
            String::from_str("The event does not answer the step that was asked for"),
        ),
    }
}

impl Dispatcher {
    /// Begins the dispatch of the entry of an authentic notification for a
    /// subscription, at the time `now`.
    pub fn begin(subscription: &Subscription, entry: Entry, now: i64) -> (r: (
        Dispatcher,
        DispatchStep,
    ))
        ensures
            (r.0@, r.1@) == begun(subscription@.id, subscription@.post_shorts, entry@, now),
            r.0@.wf(),
    {
        let accepted = match screen(&entry, subscription.post_shorts) {
            Screening::Accepted => true,
            _ => false,
        };
        let mut dispatcher = Dispatcher {
            subscription_id: subscription.id.clone(),
            entry,
            now,
            phase: DispatchPhase::ListingAccounts,
            stored: Vec::new(),
            accounts: Vec::new(),
            account: 0,
            communities: Vec::new(),
            community: 0,
            fresh: None,
            posted: None,
            swap: None,
            outcomes: Vec::new(),
        };
        assert(dispatcher.stored.deep_view() =~= Seq::<StoredAccountView>::empty());
        assert(dispatcher.accounts.deep_view() =~= Seq::<RedditAccountView>::empty());
        assert(dispatcher.communities.deep_view() =~= Seq::<SubredditView>::empty());
        assert(dispatcher.outcomes.deep_view() =~= Seq::<OutcomeView>::empty());
        if accepted {
            let step = DispatchStep::ListAccounts { subscription_id: subscription.id.clone() };
            (dispatcher, step)
        } else {
            let step = dispatcher.finish(None);
            (dispatcher, step)
        }
    }

    /// Begins the dispatch at the current time. Whatever the clock shows,
    /// the dispatch begins as [`Self::begin`] has it for that time.
    pub fn begin_now(subscription: &Subscription, entry: Entry) -> (r: (Dispatcher, DispatchStep))
        ensures
            exists|now: i64|
                (r.0@, r.1@) == #[trigger] begun(
                    subscription@.id,
                    subscription@.post_shorts,
                    entry@,
                    now,
                ),
            r.0@.wf(),
    {
        let now = unix_now();
        Self::begin(subscription, entry, now)
    }

    /// What became of the targets served so far.
    pub fn outcomes(&self) -> (log: &Vec<Outcome>)
        ensures
            log.deep_view() == self@.outcomes,
    {
        &self.outcomes
    }

    /// Whether nothing is left to do.
    pub fn is_finished(&self) -> (done: bool)
        ensures
            done == (self@.phase == DispatchPhase::Finished),
    {
        match self.phase {
            DispatchPhase::Finished => true,
            _ => false,
        }
    }

    /// Ends the dispatch.

    fn finish(&mut self, failure: Option<ApiError>) -> (step: DispatchStep)
        ensures
            (final(self)@, step@) == finished(old(self)@, failure.deep_view()),
            final(self)@.wf(),
    {
        self.phase = DispatchPhase::Finished;
        self.fresh = None;
        self.posted = None;
        self.swap = None;
        DispatchStep::Finish { failure }
    }

    /// Adds an outcome to the log.

    fn log(&mut self, outcome: Outcome)
        ensures
            final(self)@ == logged(old(self)@, outcome@),
    {
        let ghost before = self.outcomes.deep_view();
        self.outcomes.push(outcome);
        assert(self.outcomes.deep_view() =~= before.push(outcome@));
    }

    /// Begins to serve the account at the current position, or ends the
    /// dispatch past the last account.

    fn serve_account(&mut self) -> (step: DispatchStep)
        ensures
            (final(self)@, step@) == served_account(old(self)@),
            final(self)@.wf(),
    {
        if self.account < self.accounts.len() {
            self.phase = DispatchPhase::ListingCommunities;
            self.communities = Vec::new();
            self.community = 0;
            assert(self.communities.deep_view() =~= Seq::<SubredditView>::empty());
            DispatchStep::ListCommunities { account_id: self.accounts[self.account].id }
        } else {
            self.finish(None)
        }
    }

    /// Begins to serve the community at the current position, or goes on
    /// to the next account past the last community.

    fn serve_target(&mut self) -> (step: DispatchStep)
        requires
            old(self)@.account < old(self)@.accounts.len(),
        ensures
            (final(self)@, step@) == served_target(old(self)@),
            final(self)@.wf(),
    {
        if self.community < self.communities.len() {
            self.phase = DispatchPhase::Checking;
            DispatchStep::CheckSubmitted {
                subreddit_id: self.communities[self.community].id,
                video_id: self.entry.yt_video_id.clone(),
            }
        } else {
            assert(self.account < self.accounts.len());
            self.account = self.account + 1;
            self.serve_account()
        }
    }

    /// Leaves the community that is being served for the next one.

    fn move_on(&mut self) -> (step: DispatchStep)
        requires
            old(self)@.in_target(),
        ensures
            (final(self)@, step@) == moved_on(old(self)@),
            final(self)@.wf(),
    {
        assert(self.community < self.communities.len());
        self.community = self.community + 1;
        self.posted = None;
        self.swap = None;
        self.serve_target()
    }

    /// Logs that the target failed and leaves it.

    fn target_fail(&mut self, error: ApiError) -> (step: DispatchStep)
        requires
            old(self)@.in_target(),
        ensures
            (final(self)@, step@) == target_failed(old(self)@, error@),
            final(self)@.wf(),
    {
        let outcome = Outcome::Failed {
            account_id: self.accounts[self.account].id,
            subreddit_id: self.communities[self.community].id,
            error,
        };
        self.log(outcome);
        self.move_on()
    }

    /// Logs that the pin rotation of the target failed and leaves it.

    fn moderation_fail(&mut self, error: ApiError) -> (step: DispatchStep)
        requires
            old(self)@.in_target(),
        ensures
            (final(self)@, step@) == moderation_failed(old(self)@, error@),
            final(self)@.wf(),
    {
        let outcome = Outcome::ModerationFailed {
            account_id: self.accounts[self.account].id,
            subreddit_id: self.communities[self.community].id,
            error,
        };
        self.log(outcome);
        self.move_on()
    }

    /// Settles the next account with the token that its requests are made
    /// with.

    fn settle(&mut self, token: RedditOAuthToken)
        requires
            old(self)@.accounts.len() < old(self)@.stored.len(),
        ensures
            final(self)@ == (DispatcherView {
                accounts: old(self)@.accounts.push(
                    account_of(old(self)@.stored[old(self)@.accounts.len() as int], token@),
                ),
                ..old(self)@
            }),
    {
        let i: usize = self.accounts.len();
        let ghost before = self.accounts.deep_view();
        let account = RedditAccount {
            id: self.stored[i].id,
            username: self.stored[i].username.clone(),
            oauth_token: token,
            moderate_submissions: self.stored[i].moderate_submissions,
        };
        self.accounts.push(account);
        assert(self.accounts.deep_view() =~= before.push(account@));
    }

    /// Settles the tokens of the accounts that are left, up to the first one
    /// that is due for a refresh.

    fn resolve(&mut self) -> (step: DispatchStep)
        requires
            old(self)@.accounts.len() <= old(self)@.stored.len(),
        ensures
            (final(self)@, step@) == resolved(old(self)@),
            final(self)@.wf(),
    {
        loop
            invariant
                self@.accounts.len() <= self@.stored.len(),
                resolved(self@) == resolved(old(self)@),
            decreases self@.stored.len() - self@.accounts.len(),
        {
            let i: usize = self.accounts.len();
            if i >= self.stored.len() {
                self.account = 0;
                return self.serve_account();
            }
            let due = match refresh_token_due(
                &self.stored[i].oauth_token,
                self.stored[i].expires_at,
                self.now,
            ) {
                Some(refresh_token) => Some(refresh_token.clone()),
                None => None,
            };
            match due {
                Some(refresh_token) => {
                    self.phase = DispatchPhase::Refreshing;
                    return DispatchStep::RefreshToken {
                        account_id: self.stored[i].id,
                        refresh_token,
                    };
                },
                None => {
                    let token = copy_token(&self.stored[i].oauth_token);
                    self.settle(token);
                },
            }
        }
    }

    /// Takes Reddit's answer to a change of a pinned state.

    fn sticky_answer(
        &mut self,
        errors: Vec<String>,
        submission_id: String,
        state: bool,
        then: DispatchPhase,
    ) -> (step: DispatchStep)
        requires
            old(self)@.in_target(),
            old(self)@.swap is Some,
            then == DispatchPhase::StoringUnpin || then == DispatchPhase::StoringPin,
        ensures
            (final(self)@, step@) == sticky_answered(
                old(self)@,
                errors.deep_view(),
                submission_id@,
                state,
                then,
            ),
            final(self)@.wf(),
    {
        match sticky_outcome(&errors, submission_id.as_str(), state) {
            Ok(()) => {
                self.phase = then;
                DispatchStep::StoreSticky { submission_id, state }
            },
            Err(e) => self.moderation_fail(e),
        }
    }

    /// The posts that the rotation in progress unpins and pins.

    fn swap_ids(&self) -> (ids: (String, String))
        ensures
            (ids.0@, ids.1@) == self@.swap_ids(),
    {
        match &self.swap {
            Some(w) => (w.0.clone(), w.1.clone()),
            None => (String::new(), String::new()),
        }
    }

    /// Takes the answer to the list of accounts.

    fn on_accounts(&mut self, event: DispatchEvent) -> (step: DispatchStep)
        requires
            old(self)@.wf(),
            old(self)@.phase == DispatchPhase::ListingAccounts,
        ensures
            (final(self)@, step@) == next(old(self)@, event@),
            final(self)@.wf(),
    {
        match event {
            DispatchEvent::Accounts(list) => {
                self.stored = list;
                self.accounts = Vec::new();
                assert(self.accounts.deep_view() =~= Seq::<RedditAccountView>::empty());
                self.resolve()
            },
            other => {
                let e = error_of(other);
                self.finish(Some(e))
            },
        }
    }

    /// Takes the answer to the refresh of a token.

    fn on_token(&mut self, event: DispatchEvent) -> (step: DispatchStep)
        requires
            old(self)@.wf(),
            old(self)@.phase == DispatchPhase::Refreshing,
        ensures
            (final(self)@, step@) == next(old(self)@, event@),
            final(self)@.wf(),
    {
        match event {
            DispatchEvent::Token(token) => {
                let step = DispatchStep::StoreToken {
                    account_id: self.stored[self.accounts.len()].id,
                    token: copy_token(&token),
                    expires_at: expiry_after(self.now, token.expires_in),
                };
                self.phase = DispatchPhase::StoringToken;
                self.fresh = Some(token);
                step
            },
            other => {
                let e = error_of(other);
                self.finish(Some(e))
            },
        }
    }

    /// Takes the answer to the storing of a new token.

    fn on_token_stored(&mut self, event: DispatchEvent) -> (step: DispatchStep)
        requires
            old(self)@.wf(),
            old(self)@.phase == DispatchPhase::StoringToken,
        ensures
            (final(self)@, step@) == next(old(self)@, event@),
            final(self)@.wf(),
    {
        match event {
            DispatchEvent::Done => {
                match self.fresh.take() {
                    Some(token) => {
                        self.settle(token);
                        self.resolve()
                    },
                    None => self.finish(None),
                }
            },
            other => {
                let e = error_of(other);
                self.finish(Some(e))
            },
        }
    }

    /// Takes the answer to the list of an account's communities.

    fn on_communities(&mut self, event: DispatchEvent) -> (step: DispatchStep)
        requires
            old(self)@.wf(),
            old(self)@.phase == DispatchPhase::ListingCommunities,
        ensures
            (final(self)@, step@) == next(old(self)@, event@),
            final(self)@.wf(),
    {
        match event {
            DispatchEvent::Communities(list) => {
                self.communities = list;
                self.community = 0;
                self.serve_target()
            },
            other => {
                let outcome = Outcome::AccountFailed {
                    account_id: self.accounts[self.account].id,
                    error: error_of(other),
                };
                self.log(outcome);
                assert(self.account < self.accounts.len());
                self.account = self.account + 1;
                self.serve_account()
            },
        }
    }

    /// Takes the answer to the check for an earlier post.

    fn on_check(&mut self, event: DispatchEvent) -> (step: DispatchStep)
        requires
            old(self)@.wf(),
            old(self)@.phase == DispatchPhase::Checking,
        ensures
            (final(self)@, step@) == next(old(self)@, event@),
            final(self)@.wf(),
    {
        match event {
            DispatchEvent::Exists(true) => {
                let outcome = Outcome::Duplicate {
                    account_id: self.accounts[self.account].id,
                    subreddit_id: self.communities[self.community].id,
                };
                self.log(outcome);
                self.move_on()
            },
            DispatchEvent::Exists(false) => {
                let title = compose_title(
                    &self.communities[self.community],
                    self.entry.title.as_str(),
                );
                let step = DispatchStep::Submit {
                    access_token: self.accounts[self.account].oauth_token.access_token.clone(),
                    form: submit_form(
                        &self.communities[self.community],
                        title.as_str(),
                        self.entry.link.href.as_str(),
                    ),
                };
                self.phase = DispatchPhase::Submitting;
                step
            },
            other => {
                let e = error_of(other);
                self.target_fail(e)
            },
        }
    }

    /// Takes Reddit's answer to a submission.

    fn on_submitted(&mut self, event: DispatchEvent) -> (step: DispatchStep)
        requires
            old(self)@.wf(),
            old(self)@.phase == DispatchPhase::Submitting,
        ensures
            (final(self)@, step@) == next(old(self)@, event@),
            final(self)@.wf(),
    {
        match event {
            DispatchEvent::Submitted(response) => {
                let title = compose_title(
                    &self.communities[self.community],
                    self.entry.title.as_str(),
                );
                match submit_outcome(response, title.as_str(), &self.entry) {
                    Ok(data) => {
                        let step = DispatchStep::RecordSubmission {
                            submission: Submission {
                                id: data.id.clone(),
                                video_id: self.entry.yt_video_id.clone(),
                                account_id: self.accounts[self.account].id,
                                subreddit_id: self.communities[self.community].id,
                                created: self.now,
                                pinned: false,
                            },
                        };
                        self.phase = DispatchPhase::Recording;
                        self.posted = Some(data.id);
                        step
                    },
                    Err(e) => self.target_fail(e),
                }
            },
            other => {
                let e = error_of(other);
                self.target_fail(e)
            },
        }
    }

    /// Takes the answer to the recording of a post.

    fn on_recorded(&mut self, event: DispatchEvent) -> (step: DispatchStep)
        requires
            old(self)@.wf(),
            old(self)@.phase == DispatchPhase::Recording,
        ensures
            (final(self)@, step@) == next(old(self)@, event@),
            final(self)@.wf(),
    {
        match event {
            DispatchEvent::Done => {
                let submission_id = match self.posted.take() {
                    Some(id) => id,
                    None => String::new(),
                };
                let outcome = Outcome::Posted {
                    account_id: self.accounts[self.account].id,
                    subreddit_id: self.communities[self.community].id,
                    submission_id: submission_id.clone(),
                };
                self.log(outcome);
                if self.accounts[self.account].moderate_submissions {
                    self.posted = Some(submission_id);
                    self.phase = DispatchPhase::ListingSubmissions;
                    DispatchStep::ListSubmissions {
                        subreddit_id: self.communities[self.community].id,
                    }
                } else {
                    self.move_on()
                }
            },
            other => {
                let e = error_of(other);
                self.target_fail(e)
            },
        }
    }

    /// Takes the answer to the list of a community's posts.

    fn on_submissions(&mut self, event: DispatchEvent) -> (step: DispatchStep)
        requires
            old(self)@.wf(),
            old(self)@.phase == DispatchPhase::ListingSubmissions,
        ensures
            (final(self)@, step@) == next(old(self)@, event@),
            final(self)@.wf(),
    {
        match event {
            DispatchEvent::Submissions(list) => match rotation(&list) {
                Some(w) => {
                    let unpin = list[w.unpin].id.clone();
                    let pin = list[w.pin].id.clone();
                    let step = DispatchStep::SetSticky {
                        access_token: self.accounts[self.account].oauth_token.access_token.clone(),
                        submission_id: unpin.clone(),
                        state: false,
                    };
                    self.phase = DispatchPhase::Unpinning;
                    self.swap = Some((unpin, pin));
                    step
                },
                None => self.move_on(),
            },
            other => {
                let e = error_of(other);
                self.moderation_fail(e)
            },
        }
    }

    /// Takes Reddit's answer to the request to unpin.

    fn on_unpinned(&mut self, event: DispatchEvent) -> (step: DispatchStep)
        requires
            old(self)@.wf(),
            old(self)@.phase == DispatchPhase::Unpinning,
        ensures
            (final(self)@, step@) == next(old(self)@, event@),
            final(self)@.wf(),
    {
        match event {
            DispatchEvent::StickyChanged(errors) => {
                let ids = self.swap_ids();
                self.sticky_answer(errors, ids.0, false, DispatchPhase::StoringUnpin)
            },
            other => {
                let e = error_of(other);
                self.moderation_fail(e)
            },
        }
    }

    /// Takes the answer to the storing of the unpinned state.

    fn on_unpin_stored(&mut self, event: DispatchEvent) -> (step: DispatchStep)
        requires
            old(self)@.wf(),
            old(self)@.phase == DispatchPhase::StoringUnpin,
        ensures
            (final(self)@, step@) == next(old(self)@, event@),
            final(self)@.wf(),
    {
        match event {
            DispatchEvent::Done => {
                let ids = self.swap_ids();
                self.phase = DispatchPhase::Pinning;
                DispatchStep::SetSticky {
                    access_token: self.accounts[self.account].oauth_token.access_token.clone(),
                    submission_id: ids.1,
                    state: true,
                }
            },
            other => {
                let e = error_of(other);
                self.moderation_fail(e)
            },
        }
    }

    /// Takes Reddit's answer to the request to pin.

    fn on_pinned(&mut self, event: DispatchEvent) -> (step: DispatchStep)
        requires
            old(self)@.wf(),
            old(self)@.phase == DispatchPhase::Pinning,
        ensures
            (final(self)@, step@) == next(old(self)@, event@),
            final(self)@.wf(),
    {
        match event {
            DispatchEvent::StickyChanged(errors) => {
                let ids = self.swap_ids();
                self.sticky_answer(errors, ids.1, true, DispatchPhase::StoringPin)
            },
            other => {
                let e = error_of(other);
                self.moderation_fail(e)
            },
        }
    }

    /// Takes the answer to the storing of the pinned state.

    fn on_pin_stored(&mut self, event: DispatchEvent) -> (step: DispatchStep)
        requires
            old(self)@.wf(),
            old(self)@.phase == DispatchPhase::StoringPin,
        ensures
            (final(self)@, step@) == next(old(self)@, event@),
            final(self)@.wf(),
    {
        match event {
            DispatchEvent::Done => self.move_on(),
            other => {
                let e = error_of(other);
                self.moderation_fail(e)
            },
        }
    }

    /// Takes the event that reports on the last step and names the next one.
    pub fn step(&mut self, event: DispatchEvent) -> (step: DispatchStep)
        requires
            old(self)@.wf(),
        ensures
            (final(self)@, step@) == next(old(self)@, event@),
            final(self)@.wf(),
    {
        match self.phase {
            DispatchPhase::ListingAccounts => self.on_accounts(event),
            DispatchPhase::Refreshing => self.on_token(event),
            DispatchPhase::StoringToken => self.on_token_stored(event),
            DispatchPhase::ListingCommunities => self.on_communities(event),
            DispatchPhase::Checking => self.on_check(event),
            DispatchPhase::Submitting => self.on_submitted(event),
            DispatchPhase::Recording => self.on_recorded(event),
            DispatchPhase::ListingSubmissions => self.on_submissions(event),
            DispatchPhase::Unpinning => self.on_unpinned(event),
            DispatchPhase::StoringUnpin => self.on_unpin_stored(event),
            DispatchPhase::Pinning => self.on_pinned(event),
            DispatchPhase::StoringPin => self.on_pin_stored(event),
            DispatchPhase::Finished => self.finish(None),
        }
    }
}

} // verus!
