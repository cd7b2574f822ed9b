//! What holds of every run of the dispatcher: notifications that the content
//! rules drop cause nothing; a video is posted to a community at most once;
//! a failure at one target does not stop the others; and the tokens that are
//! due are refreshed, once each, before anything is submitted.

use vstd::prelude::*;
use crate::dispatch::{
    account_of,
    begun,
    new_post,
    logged,
    moved_on,
    next,
    resolved,
    DispatchEventView,
    DispatchPhase,
    DispatchStepView,
    DispatcherView,
    OutcomeView,
    StoredAccountView,
};
use crate::error::ApiErrorView;
use crate::feed::{is_metadata_edit, is_short, EntryView};
use crate::moderation::{pins, swap_of, SubmissionView};
use crate::oauth::{expiry_of, refresh_due, RedditOAuthTokenView};
use crate::reddit::{submit_verdict, SubmitResponseView};

verus! {

/// The state that a dispatch is in after a run of events.
pub open spec fn state_after(s: DispatcherView, events: Seq<DispatchEventView>) -> DispatcherView
    decreases events.len(),
{
    if events.len() == 0 {
        s
    } else {
        next(state_after(s, events.drop_last()), events.last()).0
    }
}

/// The steps that a dispatch names in answer to a run of events, in order.
pub open spec fn steps_after(s: DispatcherView, events: Seq<DispatchEventView>) -> Seq<
    DispatchStepView,
>
    decreases events.len(),
{
    if events.len() == 0 {
        Seq::empty()
    } else {
        steps_after(s, events.drop_last()).push(
            next(state_after(s, events.drop_last()), events.last()).1,
        )
    }
}

/// The step asks for something to be done: it is not the end of a dispatch.
pub open spec fn is_work(step: DispatchStepView) -> bool {
    !(step is Finish)
}

/// A dispatch that is finished stays finished: whatever events follow, it
/// names no more work and logs nothing.
pub proof fn law_finished_is_final(s: DispatcherView, events: Seq<DispatchEventView>)
    requires
        s.phase == DispatchPhase::Finished,
    ensures
        state_after(s, events).phase == DispatchPhase::Finished,
        state_after(s, events).outcomes == s.outcomes,
        forall|i: int|
            0 <= i < steps_after(s, events).len() ==> !is_work(#[trigger] steps_after(s, events)[i]),
    decreases events.len(),
{
    if events.len() > 0 {
        law_finished_is_final(s, events.drop_last());
        let earlier = steps_after(s, events.drop_last());
        assert forall|i: int| 0 <= i < steps_after(s, events).len() implies !is_work(
            #[trigger] steps_after(s, events)[i],
        ) by {
            if i < earlier.len() {
                assert(steps_after(s, events)[i] == earlier[i]);
            }
        }
    }
}

/// Settling the tokens ends in the request for a refresh, in the list of the
/// first account's communities, or in the plain end of the dispatch.
pub proof fn lemma_resolved_step(s: DispatcherView)
    ensures
        resolved(s).1 is RefreshToken || resolved(s).1 is ListCommunities || resolved(s).1
            == (DispatchStepView::Finish { failure: None }),
    decreases s.stored.len() - s.accounts.len(),
{
    let i = s.accounts.len() as int;
    if i < s.stored.len() && !refresh_due(s.stored[i].oauth_token, s.stored[i].expires_at, s.now) {
        lemma_resolved_step(
            DispatcherView {
                accounts: s.accounts.push(
                    account_of(s.stored[i], s.stored[i].oauth_token),
                ),
                ..s
            },
        );
    }
}

/// The step that follows the settling of tokens, whatever event led to it.
proof fn lemma_resolving_step(s: DispatcherView, event: DispatchEventView)
    requires
        s.phase == DispatchPhase::ListingAccounts || s.phase == DispatchPhase::StoringToken,
    ensures
        next(s, event).1 is RefreshToken || next(s, event).1 is ListCommunities || next(
            s,
            event,
        ).1 is Finish,
{
    if s.phase == DispatchPhase::ListingAccounts {
        if let DispatchEventView::Accounts(list) = event {
            lemma_resolved_step(DispatcherView { stored: list, accounts: Seq::empty(), ..s });
        }
    } else {
        if event is Done {
            lemma_resolved_step(
                DispatcherView {
                    accounts: s.accounts.push(
                        account_of(
                            s.stored[s.accounts.len() as int],
                            s.fresh->0,
                        ),
                    ),
                    fresh: None,
                    ..s
                },
            );
        }
    }
}

/// A notification whose entry was updated more than sixty seconds after it
/// was published causes nothing: the dispatch is finished as it begins, and
/// whatever events follow, no step asks for work and nothing is logged.
pub proof fn law_edit_is_not_dispatched(
    subscription_id: Seq<char>,
    post_shorts: bool,
    entry: EntryView,
    now: i64,
    events: Seq<DispatchEventView>,
)
    requires
        is_metadata_edit(entry),
    ensures
        ({
            let start = begun(subscription_id, post_shorts, entry, now);
            &&& start.1 == DispatchStepView::Finish { failure: None }
            &&& start.0.outcomes.len() == 0
            &&& state_after(start.0, events).outcomes.len() == 0
            &&& forall|i: int|
                0 <= i < steps_after(start.0, events).len() ==> !is_work(
                    #[trigger] steps_after(start.0, events)[i],
                )
        }),
{
    let start = begun(subscription_id, post_shorts, entry, now);
    law_finished_is_final(start.0, events);
}

/// For a subscription that takes no short-form content, a notification
/// whose link holds `shorts` causes nothing.
pub proof fn law_unwanted_short_is_not_dispatched(
    subscription_id: Seq<char>,
    entry: EntryView,
    now: i64,
    events: Seq<DispatchEventView>,
)
    requires
        is_short(entry),
    ensures
        ({
            let start = begun(subscription_id, false, entry, now);
            &&& start.1 == DispatchStepView::Finish { failure: None }
            &&& start.0.outcomes.len() == 0
            &&& state_after(start.0, events).outcomes.len() == 0
            &&& forall|i: int|
                0 <= i < steps_after(start.0, events).len() ==> !is_work(
                    #[trigger] steps_after(start.0, events)[i],
                )
        }),
{
    let start = begun(subscription_id, false, entry, now);
    law_finished_is_final(start.0, events);
}

/// For a subscription that takes short-form content, a notification of a new
/// video is dispatched whether or not its link holds `shorts`.
pub proof fn law_wanted_short_is_dispatched(subscription_id: Seq<char>, entry: EntryView, now: i64)
    requires
        !is_metadata_edit(entry),
    ensures
        begun(subscription_id, true, entry, now).1 == (DispatchStepView::ListAccounts {
            subscription_id,
        }),
{
}

/// A community that has a post for the video already is skipped: nothing is
/// submitted or recorded for it, the target is logged as a duplicate, and
/// the fan-out goes on exactly as after any other target.
pub proof fn law_duplicate_is_skipped(s: DispatcherView)
    requires
        s.wf(),
        s.phase == DispatchPhase::Checking,
    ensures
        ({
            let after = next(s, DispatchEventView::Exists(true));
            &&& after == moved_on(
                logged(
                    s,
                    OutcomeView::Duplicate {
                        account_id: s.current_account().id,
                        subreddit_id: s.current_community().id,
                    },
                ),
            )
            &&& after.0.outcomes == s.outcomes.push(
                OutcomeView::Duplicate {
                    account_id: s.current_account().id,
                    subreddit_id: s.current_community().id,
                },
            )
            &&& after.1 is CheckSubmitted || after.1 is ListCommunities || after.1
                == (DispatchStepView::Finish { failure: None })
        }),
{
}

/// Nothing is submitted but for a target whose community was just found to
/// have no post for the video, and it is submitted under the token of the
/// account that is being served.
pub proof fn law_submit_follows_check(s: DispatcherView, event: DispatchEventView)
    requires
        s.wf(),
        next(s, event).1 is Submit,
    ensures
        s.phase == DispatchPhase::Checking,
        event == DispatchEventView::Exists(false),
        next(s, event).1 matches DispatchStepView::Submit { access_token, .. } && access_token
            == s.current_account().oauth_token.access_token,
{
    if s.phase == DispatchPhase::ListingAccounts || s.phase == DispatchPhase::StoringToken {
        lemma_resolving_step(s, event);
    }
}

/// Nothing is recorded but a post that Reddit has just reported for a
/// submission without errors.
pub proof fn law_record_follows_submit(s: DispatcherView, event: DispatchEventView)
    requires
        s.wf(),
        next(s, event).1 is RecordSubmission,
    ensures
        s.phase == DispatchPhase::Submitting,
        event matches DispatchEventView::Submitted(response) && submit_verdict(
            response,
            s.current_title(),
            s.entry,
        ) is Ok,
        next(s, event).1 matches DispatchStepView::RecordSubmission { submission } && {
            &&& submission.subreddit_id == s.current_community().id
            &&& submission.video_id == s.entry.yt_video_id
            &&& !submission.pinned
        },
{
    if s.phase == DispatchPhase::ListingAccounts || s.phase == DispatchPhase::StoringToken {
        lemma_resolving_step(s, event);
    }
}

/// Once the fan-out has begun, no failure ends the dispatch with an error:
/// whatever the event, the step that follows is work or the plain end.
pub proof fn law_fan_out_never_aborts(s: DispatcherView, event: DispatchEventView)
    requires
        s.wf(),
        s.phase != DispatchPhase::ListingAccounts,
        s.phase != DispatchPhase::Refreshing,
        s.phase != DispatchPhase::StoringToken,
    ensures
        next(s, event).1 is Finish ==> next(s, event).1 == (DispatchStepView::Finish {
            failure: None,
        }),
{
}

/// A target that fails is logged, and the next community of the same
/// account is served: where the account has one more community, the step
/// that follows a failure checks that community.
pub proof fn law_failure_moves_to_next_community(s: DispatcherView, error: ApiErrorView)
    requires
        s.wf(),
        s.in_target(),
        s.phase != DispatchPhase::ListingCommunities,
        s.phase != DispatchPhase::ListingAccounts,
        s.phase != DispatchPhase::Refreshing,
        s.phase != DispatchPhase::StoringToken,
        s.phase != DispatchPhase::Finished,
        s.community + 1 < s.communities.len(),
    ensures
        ({
            let after = next(s, DispatchEventView::Failed(error));
            &&& after.1 == (DispatchStepView::CheckSubmitted {
                subreddit_id: s.communities[s.community + 1].id,
                video_id: s.entry.yt_video_id,
            })
            &&& after.0.account == s.account
            &&& after.0.community == s.community + 1
            &&& after.0.outcomes.len() == s.outcomes.len() + 1
            &&& after.0.communities == s.communities
            &&& after.0.accounts == s.accounts
        }),
{
}

/// The stored token of the account is due for a refresh at `now`.
pub open spec fn is_due(account: StoredAccountView, now: i64) -> bool {
    refresh_due(account.oauth_token, account.expires_at, now)
}

/// The accounts whose stored tokens are due at `now`, by their identifiers
/// and in the order of the store's list.
pub open spec fn due_ids(stored: Seq<StoredAccountView>, now: i64) -> Seq<i64>
    decreases stored.len(),
{
    if stored.len() == 0 {
        Seq::empty()
    } else if is_due(stored.last(), now) {
        due_ids(stored.drop_last(), now).push(stored.last().id)
    } else {
        due_ids(stored.drop_last(), now)
    }
}

/// The accounts for which a run of steps asks for a refresh, by their
/// identifiers and in the order of the steps.
pub open spec fn refresh_ids(steps: Seq<DispatchStepView>) -> Seq<i64>
    decreases steps.len(),
{
    if steps.len() == 0 {
        Seq::empty()
    } else {
        match steps.last() {
            DispatchStepView::RefreshToken { account_id, .. } => refresh_ids(
                steps.drop_last(),
            ).push(account_id),
            _ => refresh_ids(steps.drop_last()),
        }
    }
}

/// The refreshes asked for so far, `ids`, are what the state calls for:
/// none while the accounts are listed; while tokens are settled, one for
/// each due account up to the one in hand; during the fan-out, one for each
/// due account; and never one that is not called for.
pub open spec fn refreshed_so_far(s: DispatcherView, ids: Seq<i64>) -> bool {
    let k = s.accounts.len() as int;
    match s.phase {
        DispatchPhase::ListingAccounts => ids == Seq::<i64>::empty(),
        DispatchPhase::Refreshing | DispatchPhase::StoringToken => {
            &&& k < s.stored.len()
            &&& is_due(s.stored[k], s.now)
            &&& ids == due_ids(s.stored.take(k), s.now).push(s.stored[k].id)
        },
        DispatchPhase::Finished => ids.is_prefix_of(due_ids(s.stored, s.now)),
        _ => k == s.stored.len() && ids == due_ids(s.stored, s.now),
    }
}

/// The refreshes asked for after one more step.
pub open spec fn with_step(ids: Seq<i64>, step: DispatchStepView) -> Seq<i64> {
    match step {
        DispatchStepView::RefreshToken { account_id, .. } => ids.push(account_id),
        _ => ids,
    }
}

/// One more account adds its identifier to the due ones exactly where its
/// token is due.

proof fn lemma_due_ids_step(stored: Seq<StoredAccountView>, now: i64, k: int)
    requires
        0 <= k < stored.len(),
    ensures
        due_ids(stored.take(k + 1), now) == if is_due(stored[k], now) {
            due_ids(stored.take(k), now).push(stored[k].id)
        } else {
            due_ids(stored.take(k), now)
        },
{
    assert(stored.take(k + 1).drop_last() =~= stored.take(k));
    assert(stored.take(k + 1).last() == stored[k]);
}

/// The due accounts among the first few are the first few of the due accounts.

proof fn lemma_due_ids_prefix(stored: Seq<StoredAccountView>, now: i64, k: int)
    requires
        0 <= k <= stored.len(),
    ensures
        due_ids(stored.take(k), now).is_prefix_of(due_ids(stored, now)),
    decreases stored.len() - k,
{
    if k == stored.len() {
        assert(stored.take(k) =~= stored);
    } else {
        lemma_due_ids_step(stored, now, k);
        lemma_due_ids_prefix(stored, now, k + 1);
        let a = due_ids(stored.take(k), now);
        let b = due_ids(stored.take(k + 1), now);
        let c = due_ids(stored, now);
        assert(a.is_prefix_of(b));
        assert(a =~= c.subrange(0, a.len() as int)) by {
            assert(b =~= c.subrange(0, b.len() as int));
        }
    }
}

/// Settling the tokens from a state that has asked for the refreshes of the
/// accounts settled so far asks for at most one more, for the next due
/// account, and otherwise leaves every account settled.
proof fn lemma_resolved_refreshes(s: DispatcherView, ids: Seq<i64>)
    requires
        s.accounts.len() <= s.stored.len(),
        ids == due_ids(s.stored.take(s.accounts.len() as int), s.now),
    ensures
        refreshed_so_far(resolved(s).0, with_step(ids, resolved(s).1)),
        resolved(s).0.wf(),
        resolved(s).0.stored == s.stored,
        resolved(s).0.now == s.now,
        resolved(s).0.phase != DispatchPhase::ListingAccounts,
    decreases s.stored.len() - s.accounts.len(),
{
    let k = s.accounts.len() as int;
    if k >= s.stored.len() {
        assert(s.stored.take(k) =~= s.stored);
    } else if is_due(s.stored[k], s.now) {
    } else {
        let t = DispatcherView {
            accounts: s.accounts.push(account_of(s.stored[k], s.stored[k].oauth_token)),
            ..s
        };
        lemma_due_ids_step(s.stored, s.now, k);
        lemma_resolved_refreshes(t, ids);
    }
}

/// One step keeps the account of refreshes, while the accounts are listed
/// and their tokens settled.
proof fn lemma_step_refreshes_settling(s: DispatcherView, ids: Seq<i64>, event: DispatchEventView)
    requires
        s.wf(),
        refreshed_so_far(s, ids),
        s.phase == DispatchPhase::ListingAccounts || s.phase == DispatchPhase::Refreshing
            || s.phase == DispatchPhase::StoringToken,
    ensures
        refreshed_so_far(next(s, event).0, with_step(ids, next(s, event).1)),
        next(s, event).0.wf(),
        next(s, event).0.now == s.now,
        next(s, event).0.phase != DispatchPhase::ListingAccounts,
{
    let k = s.accounts.len() as int;
    if s.phase == DispatchPhase::ListingAccounts {
        if let DispatchEventView::Accounts(list) = event {
            let t = DispatcherView { stored: list, accounts: Seq::empty(), ..s };
            assert(list.take(0) =~= Seq::<StoredAccountView>::empty());
            lemma_resolved_refreshes(t, ids);
        } else {
        }
    } else if s.phase == DispatchPhase::Refreshing {
        if event is Token {
        } else {
            lemma_due_ids_step(s.stored, s.now, k);
            lemma_due_ids_prefix(s.stored, s.now, k + 1);
        }
    } else {
        lemma_due_ids_step(s.stored, s.now, k);
        if event is Done {
            let t = DispatcherView {
                accounts: s.accounts.push(account_of(s.stored[k], s.fresh->0)),
                fresh: None,
                ..s
            };
            lemma_resolved_refreshes(t, ids);
        } else {
            lemma_due_ids_prefix(s.stored, s.now, k + 1);
        }
    }
}

/// One step keeps the account of refreshes during the fan-out and after it:
/// no refresh is asked for any more.
proof fn lemma_step_refreshes_fanning(s: DispatcherView, ids: Seq<i64>, event: DispatchEventView)
    requires
        s.wf(),
        refreshed_so_far(s, ids),
        s.phase != DispatchPhase::ListingAccounts,
        s.phase != DispatchPhase::Refreshing,
        s.phase != DispatchPhase::StoringToken,
    ensures
        refreshed_so_far(next(s, event).0, with_step(ids, next(s, event).1)),
        !(next(s, event).1 is RefreshToken),
        next(s, event).0.wf(),
        next(s, event).0.now == s.now,
        next(s, event).0.phase != DispatchPhase::ListingAccounts,
{
}

/// The tokens that are due are refreshed once each, in order, before
/// anything is submitted, and no other token is refreshed.
///
/// Take any dispatch from its beginning through any run of events. The
/// refreshes that its steps have asked for are always the first few of the
/// accounts whose stored tokens are due, in the order of the store's list.
/// From the moment the fan-out begins they are all of them: each due
/// account has had exactly one refresh asked for, and an account whose token
/// is not due has had none.
pub proof fn law_refresh_once_per_due_account(
    subscription_id: Seq<char>,
    post_shorts: bool,
    entry: EntryView,
    now: i64,
    events: Seq<DispatchEventView>,
)
    ensures
        ({
            let start = begun(subscription_id, post_shorts, entry, now).0;
            let s = state_after(start, events);
            let ids = refresh_ids(steps_after(start, events));
            &&& s.wf()
            &&& s.now == now
            &&& refreshed_so_far(s, ids)
            &&& s.phase != DispatchPhase::ListingAccounts ==> ids.is_prefix_of(
                due_ids(s.stored, now),
            )
        }),
    decreases events.len(),
{
    let start = begun(subscription_id, post_shorts, entry, now).0;
    if events.len() == 0 {
        assert(refresh_ids(steps_after(start, events)) =~= Seq::<i64>::empty());
        assert(due_ids(start.stored, now) =~= Seq::<i64>::empty());
    } else {
        law_refresh_once_per_due_account(subscription_id, post_shorts, entry, now, events.drop_last());
        let before = state_after(start, events.drop_last());
        let steps = steps_after(start, events.drop_last());
        let ids = refresh_ids(steps);
        let step = next(before, events.last()).1;
        assert(steps_after(start, events).drop_last() =~= steps);
        assert(refresh_ids(steps_after(start, events)) == with_step(ids, step));
        if before.phase == DispatchPhase::ListingAccounts || before.phase
            == DispatchPhase::Refreshing || before.phase == DispatchPhase::StoringToken {
            lemma_step_refreshes_settling(before, ids, events.last());
        } else {
            lemma_step_refreshes_fanning(before, ids, events.last());
        }
        let s = state_after(start, events);
        let k = s.accounts.len() as int;
        if s.phase == DispatchPhase::Refreshing || s.phase == DispatchPhase::StoringToken {
            lemma_due_ids_step(s.stored, now, k);
            lemma_due_ids_prefix(s.stored, now, k + 1);
        } else if s.phase != DispatchPhase::ListingAccounts && s.phase != DispatchPhase::Finished {
            assert(with_step(ids, step) =~= due_ids(s.stored, now));
        }
    }
}

/// When something is submitted, every due token has been refreshed: the
/// refreshes asked for before a submission are exactly those of the
/// accounts whose stored tokens are due, one each.
pub proof fn law_refreshes_precede_submission(
    subscription_id: Seq<char>,
    post_shorts: bool,
    entry: EntryView,
    now: i64,
    events: Seq<DispatchEventView>,
    event: DispatchEventView,
)
    requires
        next(
            state_after(begun(subscription_id, post_shorts, entry, now).0, events),
            event,
        ).1 is Submit,
    ensures
        ({
            let start = begun(subscription_id, post_shorts, entry, now).0;
            let s = state_after(start, events);
            refresh_ids(steps_after(start, events)) == due_ids(s.stored, now)
        }),
{
    let start = begun(subscription_id, post_shorts, entry, now).0;
    law_refresh_once_per_due_account(subscription_id, post_shorts, entry, now, events);
    law_submit_follows_check(state_after(start, events), event);
}

/// A token is due only where it can be refreshed and its time has come: an
/// account whose token expires after `now`, or that has no refresh token, is
/// not among the due.
pub proof fn law_valid_token_is_not_due(account: StoredAccountView, now: i64)
    requires
        account.expires_at > now || account.oauth_token.refresh_token is None,
    ensures
        !is_due(account, now),
{
}

/// The number of posts that a store holds for a video in a community.
pub open spec fn posts_for(rows: Seq<SubmissionView>, subreddit_id: i64, video_id: Seq<char>) -> nat
    decreases rows.len(),
{
    if rows.len() == 0 {
        0
    } else if rows.last().subreddit_id == subreddit_id && rows.last().video_id == video_id {
        posts_for(rows.drop_last(), subreddit_id, video_id) + 1
    } else {
        posts_for(rows.drop_last(), subreddit_id, video_id)
    }
}

/// The posts that a store holds once the dispatcher has served one target,
/// where the store answers the check for an earlier post truthfully and
/// keeps the post that it is asked to record, and Reddit answers the
/// submission, if there is one, with `response`.
pub open spec fn rows_after_target(
    rows: Seq<SubmissionView>,
    s: DispatcherView,
    response: SubmitResponseView,
) -> Seq<SubmissionView> {
    let exists = posts_for(rows, s.current_community().id, s.entry.yt_video_id) > 0;
    let checked = next(s, DispatchEventView::Exists(exists));
    if checked.1 is Submit {
        match next(checked.0, DispatchEventView::Submitted(response)).1 {
            DispatchStepView::RecordSubmission { submission } => rows.push(submission),
            _ => rows,
        }
    } else {
        rows
    }
}

/// A video is posted to a community at most once. Where the dispatcher
/// serves the same community for the same video twice, be it for another
/// account or for a notification that came again, the second time adds no
/// post to one that the first time recorded: the store holds exactly one.
/// The second target is skipped as a duplicate and the fan-out goes on.
pub proof fn law_same_video_posted_once(
    rows: Seq<SubmissionView>,
    first: DispatcherView,
    second: DispatcherView,
    first_response: SubmitResponseView,
    second_response: SubmitResponseView,
)
    requires
        first.wf(),
        second.wf(),
        first.phase == DispatchPhase::Checking,
        second.phase == DispatchPhase::Checking,
        second.current_community().id == first.current_community().id,
        second.entry.yt_video_id == first.entry.yt_video_id,
        posts_for(rows, first.current_community().id, first.entry.yt_video_id) == 0,
    ensures
        ({
            let community = first.current_community().id;
            let video = first.entry.yt_video_id;
            let once = rows_after_target(rows, first, first_response);
            let twice = rows_after_target(once, second, second_response);
            &&& posts_for(once, community, video) <= 1
            &&& posts_for(twice, community, video) <= 1
            &&& submit_verdict(first_response, first.current_title(), first.entry) is Ok ==> {
                &&& posts_for(once, community, video) == 1
                &&& twice == once
                &&& next(second, DispatchEventView::Exists(true)).0.outcomes.last()
                    == (OutcomeView::Duplicate {
                    account_id: second.current_account().id,
                    subreddit_id: community,
                })
            }
        }),
{
    let community = first.current_community().id;
    let video = first.entry.yt_video_id;
    let once = rows_after_target(rows, first, first_response);
    let checked = next(first, DispatchEventView::Exists(false));
    let submitted = next(checked.0, DispatchEventView::Submitted(first_response));
    if let DispatchStepView::RecordSubmission { submission } = submitted.1 {
        assert(once.drop_last() =~= rows);
        assert(once.last() == submission);
    }
    let twice = rows_after_target(once, second, second_response);
    if posts_for(once, community, video) == 0 {
        let checked2 = next(second, DispatchEventView::Exists(false));
        let submitted2 = next(checked2.0, DispatchEventView::Submitted(second_response));
        if let DispatchStepView::RecordSubmission { submission } = submitted2.1 {
            assert(twice.drop_last() =~= once);
            assert(twice.last() == submission);
        }
    }
}

/// The phase serves one community of one account.
pub open spec fn serves_target(phase: DispatchPhase) -> bool {
    &&& phase != DispatchPhase::ListingAccounts
    &&& phase != DispatchPhase::Refreshing
    &&& phase != DispatchPhase::StoringToken
    &&& phase != DispatchPhase::ListingCommunities
    &&& phase != DispatchPhase::Finished
}

/// Every community of an account is attempted, in order, whatever happens
/// at the ones before it. While a community is served, any event, a failure
/// too, leaves the dispatcher at the same community, or takes it to the
/// check of the very next community of the same account; only from the last
/// community of an account does it go on to the next account, and only from
/// the last community of the last account does it finish.
pub proof fn law_every_community_is_attempted(s: DispatcherView, event: DispatchEventView)
    requires
        s.wf(),
        serves_target(s.phase),
    ensures
        ({
            let after = next(s, event);
            let t = after.0;
            ||| {
                &&& serves_target(t.phase)
                &&& t.account == s.account
                &&& t.community == s.community
                &&& t.communities == s.communities
                &&& t.accounts == s.accounts
            }
            ||| {
                &&& t.phase == DispatchPhase::Checking
                &&& t.account == s.account
                &&& t.community == s.community + 1
                &&& t.communities == s.communities
                &&& t.accounts == s.accounts
                &&& after.1 == (DispatchStepView::CheckSubmitted {
                    subreddit_id: s.communities[s.community + 1].id,
                    video_id: s.entry.yt_video_id,
                })
            }
            ||| {
                &&& s.community + 1 == s.communities.len()
                &&& t.phase == DispatchPhase::ListingCommunities
                &&& t.account == s.account + 1
                &&& t.accounts == s.accounts
                &&& after.1 == (DispatchStepView::ListCommunities {
                    account_id: s.accounts[s.account + 1].id,
                })
            }
            ||| {
                &&& s.community + 1 == s.communities.len()
                &&& s.account + 1 == s.accounts.len()
                &&& t.phase == DispatchPhase::Finished
                &&& after.1 == (DispatchStepView::Finish { failure: None })
            }
        }),
{
}

/// Every account is attempted, in order. Once the communities of an account
/// are listed, its first community is checked; an account without
/// communities, or one whose communities cannot be listed, is followed by
/// the next account, and the last account by the end of the dispatch.
pub proof fn law_every_account_is_attempted(s: DispatcherView, event: DispatchEventView)
    requires
        s.wf(),
        s.phase == DispatchPhase::ListingCommunities,
    ensures
        ({
            let after = next(s, event);
            let t = after.0;
            ||| {
                &&& event matches DispatchEventView::Communities(list) && list.len() > 0
                    && t.communities == list && after.1 == (DispatchStepView::CheckSubmitted {
                    subreddit_id: list[0].id,
                    video_id: s.entry.yt_video_id,
                })
                &&& t.phase == DispatchPhase::Checking
                &&& t.account == s.account
                &&& t.community == 0
            }
            ||| {
                &&& t.phase == DispatchPhase::ListingCommunities
                &&& t.account == s.account + 1
                &&& t.accounts == s.accounts
                &&& after.1 == (DispatchStepView::ListCommunities {
                    account_id: s.accounts[s.account + 1].id,
                })
            }
            ||| {
                &&& s.account + 1 == s.accounts.len()
                &&& t.phase == DispatchPhase::Finished
                &&& after.1 == (DispatchStepView::Finish { failure: None })
            }
        }),
{
}

/// A change of a pinned state is handed to the store only once Reddit has
/// confirmed it: the step that stores one follows Reddit's answer without
/// errors to the request for that very change.
pub proof fn law_pin_is_stored_after_confirmation(s: DispatcherView, event: DispatchEventView)
    requires
        s.wf(),
        next(s, event).1 is StoreSticky,
    ensures
        event matches DispatchEventView::StickyChanged(errors) && errors.len() == 0,
        s.phase == DispatchPhase::Unpinning || s.phase == DispatchPhase::Pinning,
        next(s, event).1 == (DispatchStepView::StoreSticky {
            submission_id: if s.phase == DispatchPhase::Unpinning {
                s.swap_ids().0
            } else {
                s.swap_ids().1
            },
            state: s.phase == DispatchPhase::Pinning,
        }),
{
    if s.phase == DispatchPhase::ListingAccounts || s.phase == DispatchPhase::StoringToken {
        lemma_resolving_step(s, event);
    }
}

/// The rotation that follows a post unpins before it pins, and pins the
/// post that the rule picks: once the store has listed the community's
/// posts, the first request is to unpin the first pinned post, and after
/// that change is stored, the next is to pin the second-newest post that is
/// not pinned.
pub proof fn law_rotation_unpins_then_pins(s: DispatcherView, posts: Seq<SubmissionView>)
    requires
        s.wf(),
        s.phase == DispatchPhase::ListingSubmissions,
        swap_of(pins(posts)) is Some,
    ensures
        ({
            let swap = swap_of(pins(posts))->0;
            let token = s.current_account().oauth_token.access_token;
            let asked = next(s, DispatchEventView::Submissions(posts));
            let confirmed = next(asked.0, DispatchEventView::StickyChanged(Seq::empty()));
            let stored = next(confirmed.0, DispatchEventView::Done);
            &&& asked.1 == (DispatchStepView::SetSticky {
                access_token: token,
                submission_id: posts[swap.0].id,
                state: false,
            })
            &&& confirmed.1 == (DispatchStepView::StoreSticky {
                submission_id: posts[swap.0].id,
                state: false,
            })
            &&& stored.1 == (DispatchStepView::SetSticky {
                access_token: token,
                submission_id: posts[swap.1].id,
                state: true,
            })
        }),
{
}

/// A target goes through where nothing stands in its way: where the
/// community has no post for the video and Reddit answers the submission
/// without errors and with a post, the video is submitted, the post is
/// recorded as not pinned, and the target is logged as posted.
pub proof fn law_clear_target_is_posted(
    s: DispatcherView,
    response: SubmitResponseView,
)
    requires
        s.wf(),
        s.phase == DispatchPhase::Checking,
        submit_verdict(response, s.current_title(), s.entry) is Ok,
    ensures
        ({
            let id = submit_verdict(response, s.current_title(), s.entry)->Ok_0.id;
            let checked = next(s, DispatchEventView::Exists(false));
            let submitted = next(checked.0, DispatchEventView::Submitted(response));
            let recorded = next(submitted.0, DispatchEventView::Done);
            &&& checked.1 is Submit
            &&& submitted.1 == (DispatchStepView::RecordSubmission {
                submission: new_post(s, id),
            })
            &&& recorded.0.outcomes.len() == s.outcomes.len() + 1
            &&& recorded.0.outcomes[s.outcomes.len() as int] == (OutcomeView::Posted {
                account_id: s.current_account().id,
                subreddit_id: s.current_community().id,
                submission_id: id,
            })
        }),
{
}

/// Settling the tokens of further accounts leaves the accounts that are
/// settled as they are.
pub proof fn lemma_resolved_keeps_accounts(s: DispatcherView)
    requires
        s.accounts.len() <= s.stored.len(),
    ensures
        resolved(s).0.accounts.len() >= s.accounts.len(),
        forall|j: int| 0 <= j < s.accounts.len() ==> resolved(s).0.accounts[j] == s.accounts[j],
    decreases s.stored.len() - s.accounts.len(),
{
    let k = s.accounts.len() as int;
    if k < s.stored.len() && !refresh_due(s.stored[k].oauth_token, s.stored[k].expires_at, s.now) {
        let t = DispatcherView {
            accounts: s.accounts.push(account_of(s.stored[k], s.stored[k].oauth_token)),
            ..s
        };
        lemma_resolved_keeps_accounts(t);
        assert forall|j: int| 0 <= j < s.accounts.len() implies resolved(s).0.accounts[j]
            == s.accounts[j] by {
            assert(t.accounts[j] == s.accounts[j]);
        }
    }
}

/// A refreshed token is kept and used: the new token is handed to the store
/// with the time at which it expires, the time of the dispatch plus the
/// token's lease, and once the store has kept it, the account makes its
/// requests with the new token.
pub proof fn law_refreshed_token_is_kept_and_used(s: DispatcherView, token: RedditOAuthTokenView)
    requires
        s.wf(),
        s.phase == DispatchPhase::Refreshing,
    ensures
        ({
            let k = s.accounts.len() as int;
            let refreshed = next(s, DispatchEventView::Token(token));
            let kept = next(refreshed.0, DispatchEventView::Done);
            &&& refreshed.1 == (DispatchStepView::StoreToken {
                account_id: s.stored[k].id,
                token,
                expires_at: expiry_of(s.now, token.expires_in),
            })
            &&& kept.0.accounts.len() > k
            &&& kept.0.accounts[k] == account_of(s.stored[k], token)
        }),
{
    let k = s.accounts.len() as int;
    let refreshed = next(s, DispatchEventView::Token(token));
    let t = DispatcherView {
        accounts: s.accounts.push(account_of(s.stored[k], token)),
        fresh: None,
        ..refreshed.0
    };
    lemma_resolved_keeps_accounts(t);
    assert(t.accounts[k] == account_of(s.stored[k], token));
}

} // verus!
