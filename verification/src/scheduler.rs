//! The resubscription scheduler: how long to wait before a lease is renewed,
//! the commands that prime the scheduler at start, and what the scheduler
//! does on each command, on each alarm that goes off and at the end of each
//! renewal.
//!
//! The scheduler keeps the timers: for each command, the subscription and
//! the time at which its renewal is due. The timer queue of the program only
//! wakes the scheduler up. Whenever the timers change otherwise than by a
//! renewal that is due, the scheduler names the alarms that a fresh queue is
//! to hold, one for each timer. A renewal is asked for when an alarm goes
//! off and a timer of its subscription is due, never before.

use vstd::prelude::*;
use vstd::string::*;
use crate::clock::unix_now;
use crate::error::{ApiError, ApiErrorView};
use crate::text::same_text;

verus! {

/// The lead time, in seconds, by which a renewal precedes the end of a lease.
pub const SAFETY_BUFFER_SECS: i64 = 3600;

/// The shortest delay, in seconds, that a renewal is scheduled with.
pub const MINIMUM_DELAY_SECS: i64 = 5;

/// The longest delay, in seconds, that a single alarm is set for. The timer
/// queue of `tokio-util` takes an alarm that goes off at most 2^36 - 1
/// milliseconds (68,719,476 s) after the time up to which the queue has
/// worked its alarms off; for a queue that has just been made, that is the
/// time at which it was made. The scheduler has its alarms set into a queue
/// that has just been made, and this bound is a little less than the
/// queue's, to leave room for the time that passes in between. A timer that
/// is due later than one alarm reaches is reached by several, one after the
/// other.
pub const MAXIMUM_ALARM_SECS: i64 = 68_719_000;

/// A command to the scheduler.
#[derive(Clone, Debug, PartialEq, Eq)]
pub enum SubCommand {
    /// Renew the subscription after the given number of seconds.
    Schedule { subscription_id: String, wait_secs: i64 },
}

/// The mathematical value of a [`SubCommand`].
pub enum SubCommandView {
    Schedule { subscription_id: Seq<char>, wait_secs: i64 },
}

impl View for SubCommand {
    type V = SubCommandView;

    open spec fn view(&self) -> SubCommandView {
        match self {
            SubCommand::Schedule { subscription_id, wait_secs } => SubCommandView::Schedule {
                subscription_id: subscription_id@,
                wait_secs: *wait_secs,
            },
        }
    }
}

impl DeepView for SubCommand {
    type V = SubCommandView;

    open spec fn deep_view(&self) -> SubCommandView {
        self@
    }
}

/// A number of seconds held to the range of delays: at least the minimum
/// delay, at most what a delay can hold.
pub open spec fn clamp_delay(seconds: int) -> i64 {
    if seconds < MINIMUM_DELAY_SECS {
        MINIMUM_DELAY_SECS
    } else if seconds > i64::MAX {
        i64::MAX
    } else {
        seconds as i64
    }
}

/// The delay before the renewal of a lease of `lease_seconds`: the lease
/// less the safety buffer, and never less than the minimum delay.
pub open spec fn renewal_delay(lease_seconds: int) -> i64 {
    clamp_delay(lease_seconds - SAFETY_BUFFER_SECS)
}

/// The delay before the renewal of a lease that ends at `expires`, seen at
/// `now`: the time left less the safety buffer, and never less than the
/// minimum delay.
pub open spec fn delay_until(expires: int, now: int) -> i64 {
    clamp_delay(expires - now - SAFETY_BUFFER_SECS)
}

/// Computes the delay before the renewal of a lease of `lease_seconds`.
pub fn delay_for_lease(lease_seconds: i64) -> (delay: i64)
    ensures
        delay == renewal_delay(lease_seconds as int),
        delay >= MINIMUM_DELAY_SECS,
{
    if lease_seconds < SAFETY_BUFFER_SECS + MINIMUM_DELAY_SECS {
        MINIMUM_DELAY_SECS
    } else {
        lease_seconds - SAFETY_BUFFER_SECS
    }
}

/// Computes the delay before the renewal of a lease that ends at `expires`.
pub fn delay_for_expiry(expires: i64, now: i64) -> (delay: i64)
    ensures
        delay == delay_until(expires as int, now as int),
        delay >= MINIMUM_DELAY_SECS,
{
    let left: i128 = expires as i128 - now as i128 - SAFETY_BUFFER_SECS as i128;
    if left < MINIMUM_DELAY_SECS as i128 {
        MINIMUM_DELAY_SECS
    } else if left > i64::MAX as i128 {
        i64::MAX
    } else {
        left as i64
    }
}

/// A subscription as the scheduler sees it at start: its identifier and the
/// end of its lease, where one is known.
#[derive(Clone, Debug, PartialEq, Eq)]
pub struct Lease {
    pub subscription_id: String,
    pub expires: Option<i64>,
}

/// The mathematical value of a [`Lease`].
pub struct LeaseView {
    pub subscription_id: Seq<char>,
    pub expires: Option<i64>,
}

impl View for Lease {
    type V = LeaseView;

    open spec fn view(&self) -> LeaseView {
        LeaseView { subscription_id: self.subscription_id@, expires: self.expires }
    }
}

impl DeepView for Lease {
    type V = LeaseView;

    open spec fn deep_view(&self) -> LeaseView {
        self@
    }
}

/// The commands that prime the scheduler: one for each lease with a known
/// end, in the order of the leases, each with the delay until its renewal.
pub open spec fn primed(leases: Seq<LeaseView>, now: int) -> Seq<SubCommandView>
    decreases leases.len(),
{
    if leases.len() == 0 {
        Seq::empty()
    } else {
        let rest = primed(leases.drop_last(), now);
        match leases.last().expires {
            Some(expires) => rest.push(
                SubCommandView::Schedule {
                    subscription_id: leases.last().subscription_id,
                    wait_secs: delay_until(expires as int, now),
                },
            ),
            None => rest,
        }
    }
}

/// Builds the commands that prime the scheduler at `now`.
pub fn prime(leases: &Vec<Lease>, now: i64) -> (commands: Vec<SubCommand>)
    ensures
        commands.deep_view() == primed(leases.deep_view(), now as int),
{
    let ghost all = leases.deep_view();
    let mut commands: Vec<SubCommand> = Vec::new();
    let mut i: usize = 0;
    assert(all.take(0) =~= Seq::<LeaseView>::empty());
    assert(commands.deep_view() =~= Seq::<SubCommandView>::empty());
    while i < leases.len()
        invariant
            all == leases.deep_view(),
            i <= leases.len(),
            commands.deep_view() == primed(all.take(i as int), now as int),
        decreases leases.len() - i,
    {
        let ghost before = commands.deep_view();
        assert(all.take(i + 1).drop_last() =~= all.take(i as int));
        assert(all.take(i + 1).last() == leases[i as int]@);
        if let Some(expires) = leases[i].expires {
            let command = SubCommand::Schedule {
                subscription_id: leases[i].subscription_id.clone(),
                wait_secs: delay_for_expiry(expires, now),
            };
            commands.push(command);
            assert(commands.deep_view() =~= before.push(command@));
        }
        i += 1;
    }
    assert(all.take(i as int) =~= all);
    commands
}

/// Builds the commands that prime the scheduler at the current time.
/// Whatever the clock shows, the commands are those of [`prime`] for it.
pub fn prime_now(leases: &Vec<Lease>) -> (commands: Vec<SubCommand>)
    ensures
        exists|now: i64| commands.deep_view() == #[trigger] primed(leases.deep_view(), now as int),
{
    let now = unix_now();
    prime(leases, now)
}

/// Every lease with a known end is primed once, and no other: there are as
/// many commands as leases with a known end.
pub open spec fn known_ends(leases: Seq<LeaseView>) -> nat
    decreases leases.len(),
{
    if leases.len() == 0 {
        0
    } else if leases.last().expires is Some {
        known_ends(leases.drop_last()) + 1
    } else {
        known_ends(leases.drop_last())
    }
}

/// There is one priming command for each lease with a known end, and every
/// command waits at least the minimum delay.
pub proof fn law_prime_one_per_lease(leases: Seq<LeaseView>, now: int)
    ensures
        primed(leases, now).len() == known_ends(leases),
        forall|i: int|
            0 <= i < primed(leases, now).len() ==> (#[trigger] primed(
                leases,
                now,
            )[i])->wait_secs >= MINIMUM_DELAY_SECS,
    decreases leases.len(),
{
    if leases.len() > 0 {
        law_prime_one_per_lease(leases.drop_last(), now);
    }
}

/// What reaches the scheduler.
#[derive(Clone, Debug, PartialEq, Eq)]
pub enum SchedulerEvent {
    /// A command came in on the queue.
    Command(SubCommand),
    /// An alarm of the subscription went off.
    Expired(String),
    /// The resubscription that a timer led to has ended, well or not.
    Renewed { subscription_id: String, failure: Option<ApiError> },
}

/// The mathematical value of a [`SchedulerEvent`].
pub enum SchedulerEventView {
    Command(SubCommandView),
    Expired(Seq<char>),
    Renewed { subscription_id: Seq<char>, failure: Option<ApiErrorView> },
}

impl View for SchedulerEvent {
    type V = SchedulerEventView;

    open spec fn view(&self) -> SchedulerEventView {
        match self {
            SchedulerEvent::Command(c) => SchedulerEventView::Command(c@),
            SchedulerEvent::Expired(id) => SchedulerEventView::Expired(id@),
            SchedulerEvent::Renewed { subscription_id, failure } => SchedulerEventView::Renewed {
                subscription_id: subscription_id@,
                failure: failure.deep_view(),
            },
        }
    }
}

/// An alarm: the subscription to wake the scheduler up for, and the delay
/// after which to do so.
#[derive(Clone, Debug, PartialEq, Eq)]
pub struct Alarm {
    pub subscription_id: String,
    pub delay_secs: u64,
}

/// The mathematical value of an [`Alarm`].
pub struct AlarmView {
    pub subscription_id: Seq<char>,
    pub delay_secs: u64,
}

impl View for Alarm {
    type V = AlarmView;

    open spec fn view(&self) -> AlarmView {
        AlarmView { subscription_id: self.subscription_id@, delay_secs: self.delay_secs }
    }
}

impl DeepView for Alarm {
    type V = AlarmView;

    open spec fn deep_view(&self) -> AlarmView {
        self@
    }
}

/// What the scheduler does next.
#[derive(Clone, Debug, PartialEq, Eq)]
pub enum SchedulerAction {
    /// Replace the timer queue by a new one that holds exactly these alarms.
    Arm { alarms: Vec<Alarm> },
    /// Send the subscribe request for the subscription again, and report
    /// how that went.
    Resubscribe { subscription_id: String },
    /// Wait for the next event; where there is a report, log it first.
    Rest { report: Option<String> },
}

/// The mathematical value of a [`SchedulerAction`].
pub enum SchedulerActionView {
    Arm { alarms: Seq<AlarmView> },
    Resubscribe { subscription_id: Seq<char> },
    Rest { report: Option<Seq<char>> },
}

impl View for SchedulerAction {
    type V = SchedulerActionView;

    open spec fn view(&self) -> SchedulerActionView {
        match self {
            SchedulerAction::Arm { alarms } => SchedulerActionView::Arm {
                alarms: alarms.deep_view(),
            },
            SchedulerAction::Resubscribe { subscription_id } => SchedulerActionView::Resubscribe {
                subscription_id: subscription_id@,
            },
            SchedulerAction::Rest { report } => SchedulerActionView::Rest {
                report: report.deep_view(),
            },
        }
    }
}

/// A timer: the subscription it is for, and the time at which its renewal
/// is due, in seconds since the Unix epoch.
#[derive(Clone, Debug, PartialEq, Eq)]
pub struct Timer {
    pub subscription_id: String,
    pub deadline: i64,
}

/// The mathematical value of a [`Timer`].
pub struct TimerView {
    pub subscription_id: Seq<char>,
    pub deadline: i64,
}

impl View for Timer {
    type V = TimerView;

    open spec fn view(&self) -> TimerView {
        TimerView { subscription_id: self.subscription_id@, deadline: self.deadline }
    }
}

impl DeepView for Timer {
    type V = TimerView;

    open spec fn deep_view(&self) -> TimerView {
        self@
    }
}

/// The mathematical value of a [`Scheduler`]: the timers, in the order in
/// which they were commanded, and the subscriptions whose resubscription is
/// under way, in the order in which it was asked for.
pub struct SchedulerView {
    pub pending: Seq<TimerView>,
    pub firing: Seq<Seq<char>>,
}

/// The wait that a command is taken to ask for: the commanded wait, raised
/// to the minimum delay where it is shorter.
pub open spec fn wait_of(wait_secs: i64) -> int {
    if wait_secs < MINIMUM_DELAY_SECS {
        MINIMUM_DELAY_SECS as int
    } else {
        wait_secs as int
    }
}

/// The time at which the renewal is due that is commanded at `now`, held to
/// the range of a time.
pub open spec fn deadline_for(now: i64, wait_secs: i64) -> i64 {
    if now + wait_of(wait_secs) > i64::MAX {
        i64::MAX
    } else {
        (now + wait_of(wait_secs)) as i64
    }
}

/// The delay of the alarm that is set at `now` for a timer: the time left
/// until the timer is due, none where it is due already, and at most what
/// one alarm reaches.
pub open spec fn alarm_delay(deadline: i64, now: i64) -> u64 {
    if deadline - now < 0 {
        0
    } else if deadline - now > MAXIMUM_ALARM_SECS {
        MAXIMUM_ALARM_SECS as u64
    } else {
        (deadline - now) as u64
    }
}

/// The alarms that are set at `now`: one for each timer, in their order.
pub open spec fn alarms_of(pending: Seq<TimerView>, now: i64) -> Seq<AlarmView> {
    Seq::new(
        pending.len(),
        |i: int|
            AlarmView {
                subscription_id: pending[i].subscription_id,
                delay_secs: alarm_delay(pending[i].deadline, now),
            },
    )
}

/// The position of the timer of `id` that is due first, the one commanded
/// first among several that are due at the same time; `-1` where `id` has no
/// timer.
pub open spec fn earliest_of(pending: Seq<TimerView>, id: Seq<char>) -> int
    decreases pending.len(),
{
    if pending.len() == 0 {
        -1
    } else {
        let k = earliest_of(pending.drop_last(), id);
        if pending.last().subscription_id == id && (k < 0 || pending.last().deadline
            < pending[k].deadline) {
            pending.len() - 1
        } else {
            k
        }
    }
}

/// The position of the first `id` among the subscriptions whose
/// resubscription is under way; their number where `id` is not among them.
pub open spec fn first_firing_of(firing: Seq<Seq<char>>, id: Seq<char>) -> int
    decreases firing.len(),
{
    if firing.len() == 0 || firing[0] == id {
        0
    } else {
        1 + first_firing_of(firing.drop_first(), id)
    }
}

/// The resubscriptions under way once one of `id` has ended.
pub open spec fn without_firing(firing: Seq<Seq<char>>, id: Seq<char>) -> Seq<Seq<char>> {
    let k = first_firing_of(firing, id);
    if k < firing.len() {
        firing.remove(k)
    } else {
        firing
    }
}

/// The report of a resubscription that failed.
pub open spec fn renewal_report(id: Seq<char>, failure: ApiErrorView) -> Seq<char> {
    "Resubscribe error for "@ + id + ": "@ + failure.label() + failure.detail()
}

/// The scheduler and its action after an event at `now`.
///
/// A command adds a timer, due after the commanded wait, also for a
/// subscription that has one already; the alarms are set anew. When an alarm
/// goes off for a subscription, the timer of the subscription that is due
/// first decides: where its time has come, it is gone and the resubscription
/// is asked for and under way until it is reported to have ended; where its
/// time has not come, the alarms are set anew and nothing else happens; an
/// alarm for a subscription without a timer is passed over. How a
/// resubscription ended changes nothing but that it is no longer under way.
pub open spec fn reaction(s: SchedulerView, event: SchedulerEventView, now: i64) -> (
    SchedulerView,
    SchedulerActionView,
) {
    match event {
        SchedulerEventView::Command(SubCommandView::Schedule { subscription_id, wait_secs }) => {
            let pending = s.pending.push(
                TimerView { subscription_id, deadline: deadline_for(now, wait_secs) },
            );
            (
                SchedulerView { pending, ..s },
                SchedulerActionView::Arm { alarms: alarms_of(pending, now) },
            )
        },
        SchedulerEventView::Expired(subscription_id) => {
            let k = earliest_of(s.pending, subscription_id);
            if k < 0 {
                (s, SchedulerActionView::Rest { report: None })
            } else if s.pending[k].deadline <= now {
                (
                    SchedulerView {
                        pending: s.pending.remove(k),
                        firing: s.firing.push(subscription_id),
                    },
                    SchedulerActionView::Resubscribe { subscription_id },
                )
            } else {
                (s, SchedulerActionView::Arm { alarms: alarms_of(s.pending, now) })
            }
        },
        SchedulerEventView::Renewed { subscription_id, failure } => (
            SchedulerView { firing: without_firing(s.firing, subscription_id), ..s },
            SchedulerActionView::Rest {
                report: match failure {
                    Some(e) => Some(renewal_report(subscription_id, e)),
                    None => None,
                },
            },
        ),
    }
}

/// Where a subscription stands in the scheduler.
#[derive(Clone, Copy, Debug, PartialEq, Eq, Structural)]
pub enum TimerState {
    /// The subscription has no timer, and no resubscription of it is under way.
    Idle,
    /// The subscription has a timer; of several, the one that is due first
    /// is due at the given time.
    Pending(i64),
    /// A timer of the subscription was due and its resubscription is under way.
    Firing,
}

/// Where the subscription `id` stands: a resubscription under way comes
/// before a timer.
pub open spec fn timer_state(s: SchedulerView, id: Seq<char>) -> TimerState {
    if first_firing_of(s.firing, id) < s.firing.len() {
        TimerState::Firing
    } else if earliest_of(s.pending, id) >= 0 {
        TimerState::Pending(s.pending[earliest_of(s.pending, id)].deadline)
    } else {
        TimerState::Idle
    }
}

/// The scheduler's record of the timers and of the resubscriptions that are
/// under way.
#[derive(Clone, Debug, PartialEq, Eq)]
pub struct Scheduler {
    pending: Vec<Timer>,
    firing: Vec<String>,
}

impl View for Scheduler {
    type V = SchedulerView;

    closed spec fn view(&self) -> SchedulerView {
        SchedulerView { pending: self.pending.deep_view(), firing: self.firing.deep_view() }
    }
}

/// The timer of a subscription that is due first is one of its timers, and
/// none of its timers is due before it.
pub proof fn lemma_earliest_of(pending: Seq<TimerView>, id: Seq<char>)
    ensures
        -1 <= earliest_of(pending, id) < pending.len(),
        earliest_of(pending, id) >= 0 ==> pending[earliest_of(pending, id)].subscription_id == id,
        forall|j: int|
            0 <= j < pending.len() && (#[trigger] pending[j]).subscription_id == id ==> {
                &&& earliest_of(pending, id) >= 0
                &&& pending[earliest_of(pending, id)].deadline <= pending[j].deadline
            },
    decreases pending.len(),
{
    if pending.len() > 0 {
        let rest = pending.drop_last();
        lemma_earliest_of(rest, id);
        let k = earliest_of(rest, id);
        if k >= 0 {
            assert(rest[k] == pending[k]);
        }
        assert forall|j: int|
            0 <= j < pending.len() && (#[trigger] pending[j]).subscription_id == id implies {
            &&& earliest_of(pending, id) >= 0
            &&& pending[earliest_of(pending, id)].deadline <= pending[j].deadline
        } by {
            if j < rest.len() {
                assert(rest[j] == pending[j]);
            }
        }
    }
}

/// The position of the timer of `id` that is due first.
fn find_earliest(pending: &Vec<Timer>, id: &str) -> (r: Option<usize>)
    ensures
        match r {
            Some(k) => k < pending.len() && k == earliest_of(pending.deep_view(), id@),
            None => earliest_of(pending.deep_view(), id@) < 0,
        },
{
    let ghost all = pending.deep_view();
    let mut best: Option<usize> = None;
    let mut i: usize = 0;
    assert(all.take(0).len() == 0);
    while i < pending.len()
        invariant
            i <= pending.len(),
            all == pending.deep_view(),
            match best {
                Some(k) => k < i && k == earliest_of(all.take(i as int), id@),
                None => earliest_of(all.take(i as int), id@) < 0,
            },
        decreases pending.len() - i,
    {
        let ghost next = all.take(i + 1);
        assert(next.drop_last() =~= all.take(i as int));
        assert(next.last() == pending[i as int]@);
        if same_text(pending[i].subscription_id.as_str(), id) {
            let better = match best {
                Some(k) => {
                    assert(next[k as int] == pending[k as int]@);
                    pending[i].deadline < pending[k].deadline
                },
                None => true,
            };
            if better {
                best = Some(i);
            }
        }
        i += 1;
    }
    assert(all.take(i as int) =~= all);
    best
}

/// The position of the first `id` among the resubscriptions under way.
fn find_firing(firing: &Vec<String>, id: &str) -> (k: usize)
    ensures
        k == first_firing_of(firing.deep_view(), id@),
        k <= firing.len(),
{
    let ghost all = firing.deep_view();
    let mut i: usize = 0;
    assert(all.skip(0) =~= all);
    while i < firing.len()
        invariant
            i <= firing.len(),
            all == firing.deep_view(),
            first_firing_of(all, id@) == i + first_firing_of(all.skip(i as int), id@),
        decreases firing.len() - i,
    {
        let ghost rest = all.skip(i as int);
        assert(rest[0] == firing[i as int]@);
        if same_text(firing[i].as_str(), id) {
            return i;
        }
        assert(rest.drop_first() =~= all.skip(i + 1));
        i += 1;
    }
    assert(all.skip(i as int).len() == 0);
    i
}

/// Computes the delay of the alarm that is set at `now` for a timer.
pub fn delay_of_alarm(deadline: i64, now: i64) -> (delay: u64)
    ensures
        delay == alarm_delay(deadline, now),
        delay <= MAXIMUM_ALARM_SECS,
{
    let left: i128 = deadline as i128 - now as i128;
    if left < 0 {
        0
    } else if left > MAXIMUM_ALARM_SECS as i128 {
        MAXIMUM_ALARM_SECS as u64
    } else {
        left as u64
    }
}

impl Scheduler {
    /// A scheduler without timers.
    pub fn new() -> (s: Scheduler)
        ensures
            s@ == (SchedulerView { pending: Seq::empty(), firing: Seq::empty() }),
    {
        let s = Scheduler { pending: Vec::new(), firing: Vec::new() };
        assert(s.pending.deep_view() =~= Seq::<TimerView>::empty());
        assert(s.firing.deep_view() =~= Seq::<Seq<char>>::empty());
        s
    }

    /// The number of timers.
    pub fn pending_count(&self) -> (n: usize)
        ensures
            n == self@.pending.len(),
    {
        self.pending.len()
    }

    /// The number of resubscriptions that are under way.
    pub fn firing_count(&self) -> (n: usize)
        ensures
            n == self@.firing.len(),
    {
        self.firing.len()
    }

    /// Where the subscription `id` stands.
    pub fn state_of(&self, id: &str) -> (state: TimerState)
        ensures
            state == timer_state(self@, id@),
    {
        if find_firing(&self.firing, id) < self.firing.len() {
            return TimerState::Firing;
        }
        match find_earliest(&self.pending, id) {
            Some(k) => {
                assert(self@.pending[k as int] == self.pending[k as int]@);
                TimerState::Pending(self.pending[k].deadline)
            },
            None => TimerState::Idle,
        }
    }

    /// The alarms that are set at `now`: one for each timer.
    pub fn alarms(&self, now: i64) -> (alarms: Vec<Alarm>)
        ensures
            alarms.deep_view() == alarms_of(self@.pending, now),
    {
        let ghost all = self.pending.deep_view();
        let mut alarms: Vec<Alarm> = Vec::new();
        let mut i: usize = 0;
        while i < self.pending.len()
            invariant
                i <= self.pending.len(),
                all == self.pending.deep_view(),
                alarms.len() == i,
                forall|j: int|
                    0 <= j < i ==> (#[trigger] alarms[j])@ == alarms_of(all, now)[j],
            decreases self.pending.len() - i,
        {
            let alarm = Alarm {
                subscription_id: self.pending[i].subscription_id.clone(),
                delay_secs: delay_of_alarm(self.pending[i].deadline, now),
            };
            assert(all[i as int] == self.pending[i as int]@);
            alarms.push(alarm);
            i += 1;
        }
        assert(alarms.deep_view() =~= alarms_of(all, now));
        alarms
    }

    /// Takes an event at the time `now` and says what to do.
    pub fn on_event(&mut self, event: SchedulerEvent, now: i64) -> (action: SchedulerAction)
        ensures
            (final(self)@, action@) == reaction(old(self)@, event@, now),
    {
        match event {
            SchedulerEvent::Command(SubCommand::Schedule { subscription_id, wait_secs }) => {
                let wait: i64 = if wait_secs < MINIMUM_DELAY_SECS {
                    MINIMUM_DELAY_SECS
                } else {
                    wait_secs
                };
                let deadline: i64 = if now > i64::MAX - wait {
                    i64::MAX
                } else {
                    now + wait
                };
                let ghost before = self.pending.deep_view();
                let timer = Timer { subscription_id, deadline };
                self.pending.push(timer);
                assert(self.pending.deep_view() =~= before.push(timer@));
                SchedulerAction::Arm { alarms: self.alarms(now) }
            },
            SchedulerEvent::Expired(subscription_id) => {
                let ghost pending = self.pending.deep_view();
                let ghost firing = self.firing.deep_view();
                match find_earliest(&self.pending, subscription_id.as_str()) {
                    None => SchedulerAction::Rest { report: None },
                    Some(k) => {
                        proof {
                            lemma_earliest_of(pending, subscription_id@);
                        }
                        assert(pending[k as int] == self.pending[k as int]@);
                        if self.pending[k].deadline <= now {
                            let _ = self.pending.remove(k);
                            assert(self.pending.deep_view() =~= pending.remove(k as int));
                            self.firing.push(subscription_id.clone());
                            assert(self.firing.deep_view() =~= firing.push(subscription_id@));
                            SchedulerAction::Resubscribe { subscription_id }
                        } else {
                            SchedulerAction::Arm { alarms: self.alarms(now) }
                        }
                    },
                }
            },
            SchedulerEvent::Renewed { subscription_id, failure } => {
                let ghost firing = self.firing.deep_view();
                let k = find_firing(&self.firing, subscription_id.as_str());
                if k < self.firing.len() {
                    let _ = self.firing.remove(k);
                    assert(self.firing.deep_view() =~= firing.remove(k as int));
                }
                let report = match &failure {
                    Some(e) => {
                        let text = String::from_str("Resubscribe error for ").concat(
                            subscription_id.as_str(),
                        ).concat(": ").concat(e.message().as_str());
                        assert(text@ =~= renewal_report(subscription_id@, e@));
                        Some(text)
                    },
                    None => None,
                };
                SchedulerAction::Rest { report }
            },
        }
    }

    /// Takes an event at the current time. Whatever the clock shows, the
    /// scheduler does as [`Self::on_event`] has it for that time.
    pub fn on_event_now(&mut self, event: SchedulerEvent) -> (action: SchedulerAction)
        ensures
            exists|now: i64| (final(self)@, action@) == #[trigger] reaction(old(self)@, event@, now),
    {
        let now = unix_now();
        self.on_event(event, now)
    }
}

/// The first resubscription of a subscription that is under way is one of
/// its own, and none before it is.
pub proof fn lemma_first_firing_of(firing: Seq<Seq<char>>, id: Seq<char>)
    ensures
        0 <= first_firing_of(firing, id) <= firing.len(),
        forall|i: int| 0 <= i < first_firing_of(firing, id) ==> #[trigger] firing[i] != id,
        first_firing_of(firing, id) < firing.len() ==> firing[first_firing_of(firing, id)] == id,
    decreases firing.len(),
{
    if firing.len() > 0 && firing[0] != id {
        let rest = firing.drop_first();
        lemma_first_firing_of(rest, id);
        assert forall|i: int| 0 <= i < first_firing_of(firing, id) implies #[trigger] firing[i]
            != id by {
            if i > 0 {
                assert(firing[i] == rest[i - 1]);
            }
        }
        if first_firing_of(firing, id) < firing.len() {
            assert(firing[first_firing_of(firing, id)] == rest[first_firing_of(rest, id)]);
        }
    }
}

/// A command cancels nothing and is honoured whole. Every timer that was
/// there is still there, and one more is, due after the commanded wait. The
/// alarms are set anew, one for each timer. A wait that one alarm reaches is
/// the delay of the new timer's alarm as it was commanded, and a shorter
/// wait than the minimum delay is raised to it.
pub proof fn law_command_adds_a_timer(s: SchedulerView, id: Seq<char>, wait_secs: i64, now: i64)
    ensures
        ({
            let after = reaction(
                s,
                SchedulerEventView::Command(
                    SubCommandView::Schedule { subscription_id: id, wait_secs },
                ),
                now,
            );
            let timers = after.0.pending;
            &&& timers.len() == s.pending.len() + 1
            &&& forall|i: int| 0 <= i < s.pending.len() ==> timers[i] == s.pending[i]
            &&& timers.last() == (TimerView {
                subscription_id: id,
                deadline: deadline_for(now, wait_secs),
            })
            &&& after.0.firing == s.firing
            &&& after.1 matches SchedulerActionView::Arm { alarms } && {
                &&& alarms.len() == timers.len()
                &&& forall|i: int|
                    0 <= i < timers.len() ==> (#[trigger] alarms[i]).subscription_id
                        == timers[i].subscription_id
                &&& now + wait_of(wait_secs) <= i64::MAX && wait_of(wait_secs)
                    <= MAXIMUM_ALARM_SECS ==> alarms.last().delay_secs == wait_of(wait_secs)
            }
        }),
{
}

/// A renewal waits for its time. When an alarm goes off, the resubscription
/// is asked for exactly where the subscription has a timer whose time has
/// come; the timer that is due first is then gone, and no other. Where the
/// time of the first has not come, nothing changes but that the alarms are
/// set anew, and the alarm of that timer goes off no later than the timer is
/// due and after at least a second.
pub proof fn law_renewal_waits_for_its_time(s: SchedulerView, id: Seq<char>, now: i64)
    ensures
        ({
            let k = earliest_of(s.pending, id);
            let after = reaction(s, SchedulerEventView::Expired(id), now);
            &&& after.1 is Resubscribe <==> k >= 0 && s.pending[k].deadline <= now
            &&& after.1 is Resubscribe ==> {
                &&& after.1 == (SchedulerActionView::Resubscribe { subscription_id: id })
                &&& s.pending[k].subscription_id == id
                &&& forall|j: int|
                    0 <= j < s.pending.len() && (#[trigger] s.pending[j]).subscription_id == id
                        ==> s.pending[k].deadline <= s.pending[j].deadline
                &&& after.0.pending == s.pending.remove(k)
                &&& after.0.firing == s.firing.push(id)
            }
            &&& !(after.1 is Resubscribe) ==> after.0 == s
            &&& after.1 matches SchedulerActionView::Arm { alarms } ==> {
                &&& k >= 0
                &&& alarms == alarms_of(s.pending, now)
                &&& 1 <= alarms[k].delay_secs <= s.pending[k].deadline - now
            }
            &&& after.1 is Rest ==> k < 0
        }),
{
    lemma_earliest_of(s.pending, id);
}

/// Two commands for one subscription lead to two renewals, neither before
/// its time. Where a subscription without timers is commanded twice, the
/// first alarm that goes off at or after the earlier of the two times brings
/// the first renewal, and none brings it before; the next alarm at or after
/// the later of the two times brings the second, and none brings it before;
/// and no alarm brings a third.
pub proof fn law_two_commands_two_renewals(
    s: SchedulerView,
    id: Seq<char>,
    first_wait: i64,
    first_now: i64,
    second_wait: i64,
    second_now: i64,
    now: i64,
    later: i64,
    last: i64,
)
    requires
        earliest_of(s.pending, id) < 0,
    ensures
        ({
            let first_due = deadline_for(first_now, first_wait);
            let second_due = deadline_for(second_now, second_wait);
            let sooner = if first_due <= second_due {
                first_due
            } else {
                second_due
            };
            let latter = if first_due <= second_due {
                second_due
            } else {
                first_due
            };
            let once = reaction(
                s,
                SchedulerEventView::Command(
                    SubCommandView::Schedule { subscription_id: id, wait_secs: first_wait },
                ),
                first_now,
            ).0;
            let twice = reaction(
                once,
                SchedulerEventView::Command(
                    SubCommandView::Schedule { subscription_id: id, wait_secs: second_wait },
                ),
                second_now,
            ).0;
            let woken = reaction(twice, SchedulerEventView::Expired(id), now);
            let woken_again = reaction(woken.0, SchedulerEventView::Expired(id), later);
            let woken_last = reaction(woken_again.0, SchedulerEventView::Expired(id), last);
            &&& woken.1 is Resubscribe <==> sooner <= now
            &&& woken.1 is Resubscribe ==> (woken_again.1 is Resubscribe <==> latter <= later)
            &&& woken.1 is Resubscribe && woken_again.1 is Resubscribe ==> woken_last.1
                == (SchedulerActionView::Rest { report: None })
        }),
{
    let n = s.pending.len() as int;
    let first = TimerView { subscription_id: id, deadline: deadline_for(first_now, first_wait) };
    let second = TimerView {
        subscription_id: id,
        deadline: deadline_for(second_now, second_wait),
    };
    let two = s.pending.push(first).push(second);
    lemma_earliest_of(s.pending, id);
    lemma_earliest_of(two, id);
    assert(two[n] == first);
    assert(two[n + 1] == second);
    assert forall|j: int| 0 <= j < n implies (#[trigger] two[j]).subscription_id != id by {
        assert(two[j] == s.pending[j]);
    }
    let k = earliest_of(two, id);
    assert(k == n || k == n + 1);
    let woken = reaction(
        SchedulerView { pending: two, firing: s.firing },
        SchedulerEventView::Expired(id),
        now,
    );
    if woken.1 is Resubscribe {
        let one = two.remove(k);
        lemma_earliest_of(one, id);
        assert forall|j: int| 0 <= j < n implies (#[trigger] one[j]).subscription_id != id by {
            assert(one[j] == s.pending[j]);
        }
        assert(one[n].subscription_id == id);
        let m = earliest_of(one, id);
        assert(m == n);
        let woken_again = reaction(woken.0, SchedulerEventView::Expired(id), later);
        if woken_again.1 is Resubscribe {
            let none = one.remove(m);
            lemma_earliest_of(none, id);
            assert(none =~= s.pending);
        }
    }
}

/// A subscription whose timer was due is under way until its resubscription
/// is reported to have ended, and how it ended changes nothing else: after a
/// failure the timers and the other resubscriptions are as after a success.
pub proof fn law_renewal_ends_without_trace(
    s: SchedulerView,
    id: Seq<char>,
    failure: Option<ApiErrorView>,
    now: i64,
)
    requires
        reaction(s, SchedulerEventView::Expired(id), now).1 is Resubscribe,
    ensures
        ({
            let fired = reaction(s, SchedulerEventView::Expired(id), now).0;
            let ended = reaction(
                fired,
                SchedulerEventView::Renewed { subscription_id: id, failure },
                now,
            );
            let ended_well = reaction(
                fired,
                SchedulerEventView::Renewed { subscription_id: id, failure: None },
                now,
            );
            &&& timer_state(fired, id) == TimerState::Firing
            &&& ended.0 == ended_well.0
            &&& ended.0.pending == fired.pending
            &&& ended.0.firing.len() == s.firing.len()
            &&& ended.1 is Rest
        }),
{
    let fired = reaction(s, SchedulerEventView::Expired(id), now).0;
    lemma_first_firing_of(fired.firing, id);
    let k = first_firing_of(fired.firing, id);
    if k >= fired.firing.len() {
        assert(fired.firing[s.firing.len() as int] == id);
    }
}

} // verus!
