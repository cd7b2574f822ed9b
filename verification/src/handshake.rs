//! The verification handshake of the hub, as a machine: each step names the
//! one thing to do next, and each event reports how that went. Whatever
//! happens, the handshake ends in a reply that echoes the hub's challenge.

use vstd::prelude::*;
use vstd::string::*;
use crate::clock::unix_now;
use crate::error::{ApiError, ApiErrorView};
use crate::forms::{YouTubeSubscription, YouTubeSubscriptionView};
use crate::hub::{
    channel_id_of,
    expiry_for,
    extract_channel_id_from_topic_url,
    lease_end,
    renewal_command,
    schedule_for,
    topic_error,
    topic_prefix,
    Subscription,
    SubscriptionView,
    Verification,
    VerificationMode,
};
use crate::scheduler::{SubCommand, SubCommandView};
use crate::text::starts_with;

verus! {

/// How far a handshake has come.
#[derive(Clone, Copy, Debug, PartialEq, Eq, Structural)]
pub enum HandshakePhase {
    /// The store is asked for the subscription.
    Finding,
    /// The store is asked for the form that the subscription was requested with.
    LoadingPending,
    /// The source platform is asked for the channel's name.
    Naming,
    /// The store is asked to keep the new subscription.
    Creating,
    /// The store is asked to keep the new end of the lease.
    Updating,
    /// The store is asked to drop the channel's subscription.
    Deleting,
    /// The reply has been given.
    Finished,
}

impl HandshakePhase {
    /// An upper bound on the events that a handshake in this phase still takes.
    pub open spec fn rank(self) -> nat {
        match self {
            HandshakePhase::Finding => 4,
            HandshakePhase::LoadingPending => 3,
            HandshakePhase::Naming => 2,
            HandshakePhase::Creating => 1,
            HandshakePhase::Updating => 1,
            HandshakePhase::Deleting => 1,
            HandshakePhase::Finished => 0,
        }
    }
}

/// A handshake in progress.
#[derive(Clone, Debug, PartialEq, Eq)]
pub struct Handshake {
    pub subscription_id: String,
    pub channel_id: String,
    pub challenge: String,
    pub lease_seconds: Option<i64>,
    pub now: i64,
    pub phase: HandshakePhase,
    pub pending: Option<YouTubeSubscription>,
}

/// The mathematical value of a [`Handshake`].
pub struct HandshakeView {
    pub subscription_id: Seq<char>,
    pub channel_id: Seq<char>,
    pub challenge: Seq<char>,
    pub lease_seconds: Option<i64>,
    pub now: i64,
    pub phase: HandshakePhase,
    pub pending: Option<YouTubeSubscriptionView>,
}

/// The mathematical value of an optional form.
pub open spec fn form_view(form: Option<YouTubeSubscription>) -> Option<YouTubeSubscriptionView> {
    match form {
        Some(f) => Some(f@),
        None => None,
    }
}

/// The mathematical value of an optional subscription.
pub open spec fn subscription_view(subscription: Option<Subscription>) -> Option<SubscriptionView> {
    match subscription {
        Some(s) => Some(s@),
        None => None,
    }
}

impl View for Handshake {
    type V = HandshakeView;

    open spec fn view(&self) -> HandshakeView {
        HandshakeView {
            subscription_id: self.subscription_id@,
            channel_id: self.channel_id@,
            challenge: self.challenge@,
            lease_seconds: self.lease_seconds,
            now: self.now,
            phase: self.phase,
            pending: form_view(self.pending),
        }
    }
}

/// The one thing to do next.
#[derive(Clone, Debug, PartialEq, Eq)]
pub enum HandshakeStep {
    /// Ask the store for the subscription with this identifier.
    FindSubscription { id: String },
    /// Ask the store for the form that was submitted under this identifier.
    FindPending { id: String },
    /// Ask the source platform for the name of the channel.
    FetchChannelName { channel_id: String },
    /// Have the store keep the new subscription.
    CreateSubscription { subscription: Subscription },
    /// Have the store keep the new end of the lease; nothing else changes.
    UpdateExpiry { id: String, expires: Option<i64> },
    /// Have the store drop the subscription of the channel, if it has one.
    DeleteSubscription { channel_id: String },
    /// Answer the hub with the challenge, and hand the command, where there
    /// is one, to the scheduler.
    Reply { challenge: String, schedule: Option<SubCommand> },
}

/// The mathematical value of a [`HandshakeStep`].
pub enum HandshakeStepView {
    FindSubscription { id: Seq<char> },
    FindPending { id: Seq<char> },
    FetchChannelName { channel_id: Seq<char> },
    CreateSubscription { subscription: SubscriptionView },
    UpdateExpiry { id: Seq<char>, expires: Option<i64> },
    DeleteSubscription { channel_id: Seq<char> },
    Reply { challenge: Seq<char>, schedule: Option<SubCommandView> },
}

impl View for HandshakeStep {
    type V = HandshakeStepView;

    open spec fn view(&self) -> HandshakeStepView {
        match self {
            HandshakeStep::FindSubscription { id } => HandshakeStepView::FindSubscription {
                id: id@,
            },
            HandshakeStep::FindPending { id } => HandshakeStepView::FindPending { id: id@ },
            HandshakeStep::FetchChannelName { channel_id } => HandshakeStepView::FetchChannelName {
                channel_id: channel_id@,
            },
            HandshakeStep::CreateSubscription { subscription } =>
                HandshakeStepView::CreateSubscription { subscription: subscription@ },
            HandshakeStep::UpdateExpiry { id, expires } => HandshakeStepView::UpdateExpiry {
                id: id@,
                expires: *expires,
            },
            HandshakeStep::DeleteSubscription { channel_id } =>
                HandshakeStepView::DeleteSubscription { channel_id: channel_id@ },
            HandshakeStep::Reply { challenge, schedule } => HandshakeStepView::Reply {
                challenge: challenge@,
                schedule: schedule.deep_view(),
            },
        }
    }
}

/// How the last step went.
#[derive(Clone, Debug, PartialEq, Eq)]
pub enum HandshakeEvent {
    /// The store's answer to `FindSubscription`.
    Found(Option<Subscription>),
    /// The store's answer to `FindPending`.
    Pending(Option<YouTubeSubscription>),
    /// The source platform's answer to `FetchChannelName`.
    ChannelName(String),
    /// The store did what it was asked.
    Done,
    /// The step failed.
    Failed(ApiError),
}

/// The mathematical value of a [`HandshakeEvent`].
pub enum HandshakeEventView {
    Found(Option<SubscriptionView>),
    Pending(Option<YouTubeSubscriptionView>),
    ChannelName(Seq<char>),
    Done,
    Failed(ApiErrorView),
}

impl View for HandshakeEvent {
    type V = HandshakeEventView;

    open spec fn view(&self) -> HandshakeEventView {
        match self {
            HandshakeEvent::Found(s) => HandshakeEventView::Found(subscription_view(*s)),
            HandshakeEvent::Pending(f) => HandshakeEventView::Pending(form_view(*f)),
            HandshakeEvent::ChannelName(n) => HandshakeEventView::ChannelName(n@),
            HandshakeEvent::Done => HandshakeEventView::Done,
            HandshakeEvent::Failed(e) => HandshakeEventView::Failed(e@),
        }
    }
}

/// The reply that ends a handshake whose bookkeeping did not succeed: the
/// challenge, and nothing for the scheduler.
pub open spec fn bare_reply(s: HandshakeView) -> (HandshakeView, HandshakeStepView) {
    (
        HandshakeView { phase: HandshakePhase::Finished, pending: None, ..s },
        HandshakeStepView::Reply { challenge: s.challenge, schedule: None },
    )
}

/// The reply that ends a handshake whose bookkeeping succeeded: the
/// challenge, and the renewal command where the hub named a lease.
pub open spec fn full_reply(s: HandshakeView) -> (HandshakeView, HandshakeStepView) {
    (
        HandshakeView { phase: HandshakePhase::Finished, pending: None, ..s },
        HandshakeStepView::Reply {
            challenge: s.challenge,
            schedule: renewal_command(s.subscription_id, s.lease_seconds),
        },
    )
}

/// The subscription that a verified request becomes.
pub open spec fn new_subscription(
    s: HandshakeView,
    form: YouTubeSubscriptionView,
    channel_name: Seq<char>,
) -> SubscriptionView {
    SubscriptionView {
        id: s.subscription_id,
        channel_id: form.channel_id,
        channel_name,
        hmac_secret: form.hmac_secret,
        callback_url: form.callback_url,
        expires: lease_end(s.now, s.lease_seconds),
        post_shorts: form.post_shorts,
    }
}

/// The state and the step that follow an event.
///
/// A subscription that the store knows has its lease renewed; one that it
/// does not know is created from the form it was requested with and the
/// channel's name. The renewal is scheduled once the store has kept the
/// change. A failure, an answer that leaves nothing to do, or an event that
/// does not answer the last step ends the handshake with the bare reply.
pub open spec fn next(s: HandshakeView, event: HandshakeEventView) -> (
    HandshakeView,
    HandshakeStepView,
) {
    match (s.phase, event) {
        (HandshakePhase::Finding, HandshakeEventView::Found(Some(known))) => (
            HandshakeView { phase: HandshakePhase::Updating, ..s },
            HandshakeStepView::UpdateExpiry {
                id: s.subscription_id,
                expires: lease_end(s.now, s.lease_seconds),
            },
        ),
        (HandshakePhase::Finding, HandshakeEventView::Found(None)) => (
            HandshakeView { phase: HandshakePhase::LoadingPending, ..s },
            HandshakeStepView::FindPending { id: s.subscription_id },
        ),
        (HandshakePhase::LoadingPending, HandshakeEventView::Pending(Some(form))) => (
            HandshakeView { phase: HandshakePhase::Naming, pending: Some(form), ..s },
            HandshakeStepView::FetchChannelName { channel_id: form.channel_id },
        ),
        (HandshakePhase::Naming, HandshakeEventView::ChannelName(name)) => match s.pending {
            Some(form) => (
                HandshakeView { phase: HandshakePhase::Creating, pending: None, ..s },
                HandshakeStepView::CreateSubscription {
                    subscription: new_subscription(s, form, name),
                },
            ),
            None => bare_reply(s),
        },
        (HandshakePhase::Creating, HandshakeEventView::Done) => full_reply(s),
        (HandshakePhase::Updating, HandshakeEventView::Done) => full_reply(s),
        _ => bare_reply(s),
    }
}

impl Handshake {
    /// Starts the handshake for a verification request that came in for the
    /// subscription `subscription_id` at `now`. A topic that names no channel
    /// feed is refused before anything is done. An unsubscription drops the
    /// channel's subscription; a subscription is looked up first.
    pub fn begin(verification: Verification, subscription_id: String, now: i64) -> (r: Result<
        (Handshake, HandshakeStep),
        ApiError,
    >)
        ensures
            r is Ok == starts_with(verification@.topic, topic_prefix()),
            r matches Err(e) ==> e@ == ApiErrorView::BadRequest(topic_error(verification@.topic)),
            r matches Ok(p) ==> {
                &&& p.0@ == HandshakeView {
                    subscription_id: subscription_id@,
                    channel_id: channel_id_of(verification@.topic),
                    challenge: verification@.challenge,
                    lease_seconds: verification@.lease_seconds,
                    now,
                    phase: if verification@.mode == VerificationMode::Subscribe {
                        HandshakePhase::Finding
                    } else {
                        HandshakePhase::Deleting
                    },
                    pending: None,
                }
                &&& p.1@ == if verification@.mode == VerificationMode::Subscribe {
                    HandshakeStepView::FindSubscription { id: subscription_id@ }
                } else {
                    HandshakeStepView::DeleteSubscription {
                        channel_id: channel_id_of(verification@.topic),
                    }
                }
            },
    {
        let channel_id = match extract_channel_id_from_topic_url(&verification.topic) {
            Ok(id) => String::from_str(id),
            Err(e) => {
                return Err(e);
            },
        };
        let Verification { mode, topic: _, challenge, lease_seconds } = verification;
        match mode {
            VerificationMode::Subscribe => {
                let step = HandshakeStep::FindSubscription { id: subscription_id.clone() };
                Ok(
                    (
                        Handshake {
                            subscription_id,
                            channel_id,
                            challenge,
                            lease_seconds,
                            now,
                            phase: HandshakePhase::Finding,
                            pending: None,
                        },
                        step,
                    ),
                )
            },
            VerificationMode::Unsubscribe => {
                let step = HandshakeStep::DeleteSubscription { channel_id: channel_id.clone() };
                Ok(
                    (
                        Handshake {
                            subscription_id,
                            channel_id,
                            challenge,
                            lease_seconds,
                            now,
                            phase: HandshakePhase::Deleting,
                            pending: None,
                        },
                        step,
                    ),
                )
            },
        }
    }

    /// Starts the handshake at the current time. Whatever the clock shows,
    /// the handshake starts as [`Self::begin`] has it for that time.
    pub fn begin_now(verification: Verification, subscription_id: String) -> (r: Result<
        (Handshake, HandshakeStep),
        ApiError,
    >)
        ensures
            r is Ok == starts_with(verification@.topic, topic_prefix()),
            r matches Err(e) ==> e@ == ApiErrorView::BadRequest(topic_error(verification@.topic)),
            r matches Ok(p) ==> {
                &&& p.0@.subscription_id == subscription_id@
                &&& p.0@.channel_id == channel_id_of(verification@.topic)
                &&& p.0@.challenge == verification@.challenge
                &&& p.0@.lease_seconds == verification@.lease_seconds
                &&& p.0@.pending is None
                &&& p.0@.phase == if verification@.mode == VerificationMode::Subscribe {
                    HandshakePhase::Finding
                } else {
                    HandshakePhase::Deleting
                }
                &&& p.1@ == if verification@.mode == VerificationMode::Subscribe {
                    HandshakeStepView::FindSubscription { id: subscription_id@ }
                } else {
                    HandshakeStepView::DeleteSubscription {
                        channel_id: channel_id_of(verification@.topic),
                    }
                }
            },
    {
        let now = unix_now();
        Self::begin(verification, subscription_id, now)
    }

    /// Ends the handshake with the challenge and nothing for the scheduler.
    fn reply_bare(&mut self) -> (step: HandshakeStep)
        ensures
            (final(self)@, step@) == bare_reply(old(self)@),
    {
        self.phase = HandshakePhase::Finished;
        self.pending = None;
        HandshakeStep::Reply { challenge: self.challenge.clone(), schedule: None }
    }

    /// Ends the handshake with the challenge and the renewal command.
    fn reply_full(&mut self) -> (step: HandshakeStep)
        ensures
            (final(self)@, step@) == full_reply(old(self)@),
    {
        self.phase = HandshakePhase::Finished;
        self.pending = None;
        HandshakeStep::Reply {
            challenge: self.challenge.clone(),
            schedule: schedule_for(self.subscription_id.as_str(), self.lease_seconds),
        }
    }

    /// Takes the event that reports on the last step and names the next one.
    pub fn step(&mut self, event: HandshakeEvent) -> (step: HandshakeStep)
        ensures
            (final(self)@, step@) == next(old(self)@, event@),
    {
        match (self.phase, event) {
            (HandshakePhase::Finding, HandshakeEvent::Found(Some(_))) => {
                self.phase = HandshakePhase::Updating;
                HandshakeStep::UpdateExpiry {
                    id: self.subscription_id.clone(),
                    expires: expiry_for(self.now, self.lease_seconds),
                }
            },
            (HandshakePhase::Finding, HandshakeEvent::Found(None)) => {
                self.phase = HandshakePhase::LoadingPending;
                HandshakeStep::FindPending { id: self.subscription_id.clone() }
            },
            (HandshakePhase::LoadingPending, HandshakeEvent::Pending(Some(form))) => {
                let channel_id = form.channel_id.clone();
                self.phase = HandshakePhase::Naming;
                self.pending = Some(form);
                HandshakeStep::FetchChannelName { channel_id }
            },
            (HandshakePhase::Naming, HandshakeEvent::ChannelName(name)) => {
                match self.pending.take() {
                    Some(form) => {
                        self.phase = HandshakePhase::Creating;
                        HandshakeStep::CreateSubscription {
                            subscription: Subscription {
                                id: self.subscription_id.clone(),
                                channel_id: form.channel_id,
                                channel_name: name,
                                hmac_secret: form.hmac_secret,
                                callback_url: form.callback_url,
                                expires: expiry_for(self.now, self.lease_seconds),
                                post_shorts: form.post_shorts,
                            },
                        }
                    },
                    None => self.reply_bare(),
                }
            },
            (HandshakePhase::Creating, HandshakeEvent::Done) => self.reply_full(),
            (HandshakePhase::Updating, HandshakeEvent::Done) => self.reply_full(),
            _ => self.reply_bare(),
        }
    }
}

/// The state that a handshake is in after a run of events.
pub open spec fn state_after(s: HandshakeView, events: Seq<HandshakeEventView>) -> HandshakeView
    decreases events.len(),
{
    if events.len() == 0 {
        s
    } else {
        next(state_after(s, events.drop_last()), events.last()).0
    }
}

/// A step never changes what the hub sent, and a reply carries the hub's
/// challenge as it came.
pub proof fn law_step_echoes_challenge(s: HandshakeView, event: HandshakeEventView)
    ensures
        next(s, event).0.challenge == s.challenge,
        next(s, event).0.subscription_id == s.subscription_id,
        next(s, event).1 is Reply ==> next(s, event).1->challenge == s.challenge,
        next(s, event).1 is Reply <==> next(s, event).0.phase == HandshakePhase::Finished,
{
}

/// Whatever events a handshake meets, failures among them, a reply that it
/// gives echoes the challenge that it began with, character for character.
pub proof fn law_every_reply_echoes_challenge(
    s: HandshakeView,
    events: Seq<HandshakeEventView>,
    event: HandshakeEventView,
)
    ensures
        state_after(s, events).challenge == s.challenge,
        next(state_after(s, events), event).1 is Reply ==> next(
            state_after(s, events),
            event,
        ).1->challenge == s.challenge,
    decreases events.len(),
{
    if events.len() > 0 {
        law_every_reply_echoes_challenge(s, events.drop_last(), events.last());
        law_step_echoes_challenge(state_after(s, events.drop_last()), events.last());
    }
    law_step_echoes_challenge(state_after(s, events), event);
}

/// Every event brings a handshake closer to its reply: a handshake that has
/// not replied replies within as many events as its phase's rank.
pub proof fn law_handshake_ends(s: HandshakeView, event: HandshakeEventView)
    requires
        s.phase != HandshakePhase::Finished,
    ensures
        next(s, event).0.phase.rank() < s.phase.rank(),
{
}

/// The renewal is scheduled only once the store has kept the subscription,
/// and then exactly where the hub named a lease.
pub proof fn law_schedule_follows_bookkeeping(s: HandshakeView, event: HandshakeEventView)
    ensures
        next(s, event).1 matches HandshakeStepView::Reply { schedule: Some(command), .. } ==> {
            &&& event is Done
            &&& s.phase == HandshakePhase::Creating || s.phase == HandshakePhase::Updating
            &&& s.lease_seconds is Some
            &&& Some(command) == renewal_command(s.subscription_id, s.lease_seconds)
        },
{
}

} // verus!
