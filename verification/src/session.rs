//! The session controller: the life cycle of one tracing session.
//!
//! A session goes from `Idle` through `Attaching` and `Running` to
//! `Draining` and `Stopped`. Attaching is all or nothing. A running session
//! never stops without draining, and it detaches every probe before it
//! drains.

use crate::channel::{fan_in, total_dropped, ChannelSet, EventChannel};
use crate::filter::Filter;
use crate::probe::{
    attach_failure, AttachConditions, AttachError, AttachHandle, ProbeDescriptor, ProbeManager,
    ProgramHandle,
};
use crate::schema::SyscallEvent;
use vstd::prelude::*;

verus! {

/// Nanoseconds in a second.
pub const NANOS_PER_SEC: u64 = 1000000000;

/// The states of a session.
#[derive(Debug, Clone, Copy, PartialEq, Eq, Structural)]
pub enum SessionState {
    Idle,
    Attaching,
    Running,
    Draining,
    Stopped,
}

/// What can happen to a session.
#[derive(Debug, Clone, Copy, PartialEq, Eq, Structural)]
pub enum Trigger {
    /// The session is started.
    Start,
    /// One more probe is attached; `last` where none is left to attach.
    ProbeAttached { last: bool },
    /// A probe could not be attached.
    AttachFailed,
    /// The duration is over.
    TimerExpired,
    /// Someone outside asked the session to end.
    Cancel,
    /// A reader met an error from which it cannot recover.
    ReaderError,
    /// The channels are drained.
    DrainComplete,
}

/// Why a session ended.
#[derive(Debug, Clone, Copy, PartialEq, Eq, Structural)]
pub enum StopReason {
    /// The duration was over.
    Completed,
    /// Someone outside asked the session to end. Not an error.
    Cancelled,
    /// A reader met an error from which it cannot recover.
    ReaderFailed,
    /// A probe could not be attached.
    AttachFailed,
}

/// The state that follows `state` on `trigger`. A trigger that has no meaning
/// in a state leaves the state as it is.
pub open spec fn next_state(state: SessionState, trigger: Trigger) -> SessionState {
    match (state, trigger) {
        (SessionState::Idle, Trigger::Start) => SessionState::Attaching,
        (SessionState::Idle, Trigger::Cancel) => SessionState::Stopped,
        (SessionState::Attaching, Trigger::ProbeAttached { last }) => if last {
            SessionState::Running
        } else {
            SessionState::Attaching
        },
        (SessionState::Attaching, Trigger::AttachFailed) => SessionState::Stopped,
        (SessionState::Attaching, Trigger::Cancel) => SessionState::Stopped,
        (SessionState::Running, Trigger::TimerExpired) => SessionState::Draining,
        (SessionState::Running, Trigger::Cancel) => SessionState::Draining,
        (SessionState::Running, Trigger::ReaderError) => SessionState::Draining,
        (SessionState::Draining, Trigger::DrainComplete) => SessionState::Stopped,
        _ => state,
    }
}

/// The state that follows `state` on `trigger`.
pub fn step(state: SessionState, trigger: Trigger) -> (next: SessionState)
    ensures
        next == next_state(state, trigger),
{
    match (state, trigger) {
        (SessionState::Idle, Trigger::Start) => SessionState::Attaching,
        (SessionState::Idle, Trigger::Cancel) => SessionState::Stopped,
        (SessionState::Attaching, Trigger::ProbeAttached { last }) => if last {
            SessionState::Running
        } else {
            SessionState::Attaching
        },
        (SessionState::Attaching, Trigger::AttachFailed) => SessionState::Stopped,
        (SessionState::Attaching, Trigger::Cancel) => SessionState::Stopped,
        (SessionState::Running, Trigger::TimerExpired) => SessionState::Draining,
        (SessionState::Running, Trigger::Cancel) => SessionState::Draining,
        (SessionState::Running, Trigger::ReaderError) => SessionState::Draining,
        (SessionState::Draining, Trigger::DrainComplete) => SessionState::Stopped,
        _ => state,
    }
}

/// No transition skips `Draining`: a running session goes nowhere but to
/// `Draining`, `Stopped` is entered only from `Draining` or from a session
/// that never ran, and `Stopped` is terminal.
pub proof fn lemma_draining_never_skipped(state: SessionState, trigger: Trigger)
    ensures
        state == SessionState::Running ==> next_state(state, trigger) == SessionState::Running
            || next_state(state, trigger) == SessionState::Draining,
        next_state(state, trigger) == SessionState::Stopped ==> state != SessionState::Running,
        next_state(state, trigger) == SessionState::Running ==> state == SessionState::Attaching
            || state == SessionState::Running,
        state == SessionState::Stopped ==> next_state(state, trigger) == SessionState::Stopped,
        state == SessionState::Draining ==> next_state(state, trigger) == SessionState::Draining
            || next_state(state, trigger) == SessionState::Stopped,
{
}

/// Whether a session of `duration_secs` seconds that started at `start_ns` is
/// over at `now_ns`. A duration of 0 is never over.
pub open spec fn deadline_reached(duration_secs: u64, start_ns: u64, now_ns: u64) -> bool {
    duration_secs != 0 && now_ns - start_ns >= duration_secs * NANOS_PER_SEC
}

/// Whether a session of `duration_secs` seconds that started at `start_ns` is
/// over at `now_ns`.
pub fn timer_expired(duration_secs: u64, start_ns: u64, now_ns: u64) -> (r: bool)
    ensures
        r == deadline_reached(duration_secs, start_ns, now_ns),
{
    if duration_secs == 0 || now_ns < start_ns {
        return false;
    }
    let elapsed = now_ns - start_ns;
    if duration_secs > u64::MAX / NANOS_PER_SEC {
        assert(duration_secs * NANOS_PER_SEC > u64::MAX) by (nonlinear_arith)
            requires
                duration_secs > u64::MAX / NANOS_PER_SEC,
                NANOS_PER_SEC == 1000000000,
        ;
        return false;
    }
    assert(duration_secs * NANOS_PER_SEC <= u64::MAX) by (nonlinear_arith)
        requires
            duration_secs <= u64::MAX / NANOS_PER_SEC,
            NANOS_PER_SEC == 1000000000,
    ;
    elapsed >= duration_secs * NANOS_PER_SEC
}

/// A session of 0 seconds is never over by its timer.
pub proof fn lemma_unbounded_never_expires(start_ns: u64, now_ns: u64)
    ensures
        !deadline_reached(0, start_ns, now_ns),
{
}

/// A session of `duration_secs` seconds whose timer is looked at no more than
/// `overhead_ns` apart is found over at a moment that lies at least the
/// duration, and less than the duration and the overhead, after its start.
pub proof fn lemma_completion_window(
    duration_secs: u64,
    start_ns: u64,
    earlier_ns: u64,
    now_ns: u64,
    overhead_ns: u64,
)
    requires
        start_ns <= earlier_ns <= now_ns,
        now_ns - earlier_ns <= overhead_ns,
        !deadline_reached(duration_secs, start_ns, earlier_ns),
        deadline_reached(duration_secs, start_ns, now_ns),
    ensures
        duration_secs * NANOS_PER_SEC <= now_ns - start_ns < duration_secs * NANOS_PER_SEC
            + overhead_ns,
{
}

/// Why a step of a session was refused.
#[derive(Debug, Clone, PartialEq, Eq)]
pub enum SessionError {
    /// The session is not in the state that the step needs.
    WrongState { state: SessionState },
    /// A probe could not be attached. The session has stopped, and every
    /// probe that it had attached is detached again.
    Attach { error: AttachError },
}

/// What a session leaves behind when it stops.
#[derive(Debug)]
pub struct SessionSummary {
    /// Why the session ended.
    pub reason: StopReason,
    /// The accepted events that were still in the channels.
    pub events: Vec<SyscallEvent>,
    /// How many events were lost to full channels.
    pub dropped: u64,
}

/// One tracing session.
#[derive(Debug)]
pub struct Session {
    state: SessionState,
    descriptors: Vec<ProbeDescriptor>,
    filter: Filter,
    duration_secs: u64,
    manager: ProbeManager,
    handles: Vec<AttachHandle>,
    started_ns: u64,
    reason: Option<StopReason>,
}

impl Session {
    /// Whether the first `n` attachments that the manager ever made are the
    /// live ones, and are the ones that the session holds.
    spec fn holds(&self, n: nat) -> bool {
        &&& self.handles@.len() == n
        &&& self.manager.issued() == n
        &&& self.manager.attached() == Set::new(|id: u64| id < n)
        &&& forall|i: int| 0 <= i < n ==> (#[trigger] self.handles@[i]).id == i
    }

    /// The invariant. While attaching, the session holds a live attachment
    /// for each descriptor before the next one; while running, for each
    /// descriptor. In every other state it holds none.
    pub closed spec fn wf(&self) -> bool {
        &&& self.manager.wf()
        &&& match self.state {
            SessionState::Idle => self.holds(0) && self.reason is None,
            SessionState::Attaching => self.handles@.len() < self.descriptors@.len() && self.holds(
                self.handles@.len(),
            ) && self.reason is None,
            SessionState::Running => self.handles@.len() == self.descriptors@.len() && self.holds(
                self.handles@.len(),
            ) && self.reason is None,
            SessionState::Draining => self.handles@.len() == 0 && self.manager.attached()
                == Set::<u64>::empty() && self.reason is Some,
            SessionState::Stopped => self.handles@.len() == 0 && self.manager.attached()
                == Set::<u64>::empty() && self.reason is Some,
        }
    }

    /// The state.
    pub closed spec fn state(&self) -> SessionState {
        self.state
    }

    /// The probes to attach, in order.
    pub closed spec fn descriptors(&self) -> Seq<ProbeDescriptor> {
        self.descriptors@
    }

    /// The filter.
    pub closed spec fn filter(&self) -> Filter {
        self.filter
    }

    /// The duration in seconds; 0 for a session that runs until cancelled.
    pub closed spec fn duration(&self) -> u64 {
        self.duration_secs
    }

    /// The numbers of the live attachments.
    pub closed spec fn attached(&self) -> Set<u64> {
        self.manager.attached()
    }

    /// How many probes the session holds attached.
    pub closed spec fn attached_count(&self) -> nat {
        self.handles@.len()
    }

    /// The moment at which the session began to run.
    pub closed spec fn started_at(&self) -> u64 {
        self.started_ns
    }

    /// Why the session ended, once it has.
    pub closed spec fn reason(&self) -> Option<StopReason> {
        self.reason
    }

    /// What the invariant says of the attachments in each state: a session
    /// that is idle, draining or stopped holds none, and a running session
    /// holds one for each descriptor.
    pub proof fn lemma_attachments(&self)
        requires
            self.wf(),
        ensures
            self.attached().finite(),
            self.attached().len() == self.attached_count(),
            self.attached_count() <= self.descriptors().len(),
            self.state() == SessionState::Running ==> self.attached_count()
                == self.descriptors().len(),
            self.state() == SessionState::Attaching ==> self.attached_count()
                < self.descriptors().len(),
            self.state() == SessionState::Idle || self.state() == SessionState::Draining
                || self.state() == SessionState::Stopped ==> self.attached() == Set::<u64>::empty(),
            self.reason() is Some <==> (self.state() == SessionState::Draining || self.state()
                == SessionState::Stopped),
    {
        if self.state == SessionState::Idle || self.state == SessionState::Attaching || self.state
            == SessionState::Running {
            lemma_initial_segment(self.handles@.len());
        }
        if self.state == SessionState::Idle {
            assert(self.manager.attached() =~= Set::<u64>::empty());
        }
    }

    /// An idle session for the given probes.
    pub fn new(descriptors: Vec<ProbeDescriptor>, filter: Filter, duration_secs: u64) -> (s: Self)
        ensures
            s.wf(),
            s.state() == SessionState::Idle,
            s.descriptors() == descriptors@,
            s.filter() == filter,
            s.duration() == duration_secs,
            s.attached_count() == 0,
            s.reason() is None,
    {
        let s = Session {
            state: SessionState::Idle,
            descriptors,
            filter,
            duration_secs,
            manager: ProbeManager::new(),
            handles: Vec::new(),
            started_ns: 0,
            reason: None,
        };
        assert(s.manager.attached() =~= Set::new(|id: u64| id < 0nat));
        s
    }

    /// The state.
    pub fn current_state(&self) -> (s: SessionState)
        ensures
            s == self.state(),
    {
        self.state
    }

    /// Why the session ended, once it has.
    pub fn stop_reason(&self) -> (r: Option<StopReason>)
        ensures
            r == self.reason(),
    {
        self.reason
    }

    /// How many probes the session holds attached.
    pub fn attachments(&self) -> (n: usize)
        ensures
            n == self.attached_count(),
    {
        self.handles.len()
    }

    /// The descriptor that is attached next, while there is one.
    pub fn next_descriptor(&self) -> (d: Option<&ProbeDescriptor>)
        requires
            self.wf(),
        ensures
            d is Some <==> self.state() == SessionState::Attaching,
            d is Some ==> *d->Some_0 == self.descriptors()[self.attached_count() as int],
    {
        if self.state == SessionState::Attaching {
            Some(&self.descriptors[self.handles.len()])
        } else {
            None
        }
    }

    /// Starts an idle session at `now_ns`. With probes to attach it is then
    /// attaching; with none it runs at once. In any other state nothing
    /// changes and `false` is returned.
    pub fn start(&mut self, now_ns: u64) -> (started: bool)
        requires
            old(self).wf(),
        ensures
            final(self).wf(),
            started == (old(self).state() == SessionState::Idle),
            final(self).descriptors() == old(self).descriptors(),
            final(self).filter() == old(self).filter(),
            final(self).duration() == old(self).duration(),
            final(self).attached_count() == old(self).attached_count(),
            final(self).reason() == old(self).reason(),
            !started ==> final(self).state() == old(self).state() && final(self).started_at()
                == old(self).started_at(),
            started && old(self).descriptors().len() > 0 ==> final(self).state() == next_state(
                SessionState::Idle,
                Trigger::Start,
            ),
            started && old(self).descriptors().len() == 0 ==> final(self).state() == next_state(
                next_state(SessionState::Idle, Trigger::Start),
                (Trigger::ProbeAttached { last: true }),
            ) && final(self).started_at() == now_ns,
    {
        if self.state != SessionState::Idle {
            return false;
        }
        if self.descriptors.len() == 0 {
            self.state = SessionState::Running;
            self.started_ns = now_ns;
        } else {
            self.state = SessionState::Attaching;
        }
        true
    }

    /// Attaches the next probe with `program`, under `conditions`.
    ///
    /// On success the session holds one attachment more, and runs from
    /// `now_ns` on where that was the last probe. On failure every probe
    /// attached so far is detached and the session has stopped: it never ran.
    /// A session that is not attaching refuses, and nothing changes.
    pub fn attach_next(
        &mut self,
        program: &ProgramHandle,
        conditions: AttachConditions,
        now_ns: u64,
    ) -> (r: Result<AttachHandle, SessionError>)
        requires
            old(self).wf(),
        ensures
            final(self).wf(),
            final(self).descriptors() == old(self).descriptors(),
            final(self).filter() == old(self).filter(),
            final(self).duration() == old(self).duration(),
            old(self).state() != SessionState::Attaching ==> {
                &&& r == Err::<AttachHandle, SessionError>(
                    (SessionError::WrongState { state: old(self).state() }),
                )
                &&& final(self).state() == old(self).state()
                &&& final(self).attached() == old(self).attached()
                &&& final(self).attached_count() == old(self).attached_count()
                &&& final(self).reason() == old(self).reason()
                &&& final(self).started_at() == old(self).started_at()
            },
            old(self).state() == SessionState::Attaching ==> {
                let descriptor = old(self).descriptors()[old(self).attached_count() as int];
                let last = old(self).attached_count() + 1 == old(self).descriptors().len();
                match attach_failure(program.kind, descriptor.spec_kind(), conditions) {
                    Some(kind) => {
                        &&& r matches Err(SessionError::Attach { error })
                        &&& error.spec_kind() == kind
                        &&& error.spec_target() == descriptor.label()
                        &&& final(self).state() == next_state(
                            SessionState::Attaching,
                            Trigger::AttachFailed,
                        )
                        &&& final(self).attached() == Set::<u64>::empty()
                        &&& final(self).attached_count() == 0
                        &&& final(self).reason() == Some(StopReason::AttachFailed)
                    },
                    None => {
                        &&& r is Ok
                        &&& !old(self).attached().contains(r->Ok_0.id)
                        &&& final(self).attached() == old(self).attached().insert(r->Ok_0.id)
                        &&& final(self).attached_count() == old(self).attached_count() + 1
                        &&& final(self).state() == next_state(
                            SessionState::Attaching,
                            (Trigger::ProbeAttached { last }),
                        )
                        &&& final(self).reason() is None
                        &&& last ==> final(self).started_at() == now_ns
                    },
                }
            },
    {
        if self.state != SessionState::Attaching {
            return Err(SessionError::WrongState { state: self.state });
        }
        let n = self.handles.len();
        let total = self.descriptors.len();
        assert(n < total);
        match self.manager.attach(program, &self.descriptors[n], conditions) {
            Err(error) => {
                self.manager.detach_all();
                self.handles.clear();
                self.state = SessionState::Stopped;
                self.reason = Some(StopReason::AttachFailed);
                Err(SessionError::Attach { error })
            },
            Ok(handle) => {
                self.handles.push(handle);
                if n + 1 == total {
                    self.state = SessionState::Running;
                    self.started_ns = now_ns;
                } else {
                    self.state = SessionState::Attaching;
                }
                proof {
                    assert(self.manager.attached() =~= Set::new(|id: u64| id < (n + 1) as nat));
                }
                Ok(handle)
            },
        }
    }

    fn begin_draining(&mut self, reason: StopReason)
        requires
            old(self).wf(),
            old(self).state() == SessionState::Running,
        ensures
            final(self).wf(),
            final(self).state() == SessionState::Draining,
            final(self).reason() == Some(reason),
            final(self).attached() == Set::<u64>::empty(),
            final(self).attached_count() == 0,
            final(self).descriptors() == old(self).descriptors(),
            final(self).filter() == old(self).filter(),
            final(self).duration() == old(self).duration(),
            final(self).started_at() == old(self).started_at(),
    {
        self.manager.detach_all();
        self.handles.clear();
        self.state = SessionState::Draining;
        self.reason = Some(reason);
    }

    /// Looks at the timer at `now_ns`. A running session whose duration is
    /// over detaches every probe and is then draining. Otherwise nothing
    /// changes. Returns whether the session began to drain.
    pub fn tick(&mut self, now_ns: u64) -> (expired: bool)
        requires
            old(self).wf(),
        ensures
            final(self).wf(),
            expired == (old(self).state() == SessionState::Running && deadline_reached(
                old(self).duration(),
                old(self).started_at(),
                now_ns,
            )),
            final(self).descriptors() == old(self).descriptors(),
            final(self).filter() == old(self).filter(),
            final(self).duration() == old(self).duration(),
            final(self).started_at() == old(self).started_at(),
            expired ==> {
                &&& final(self).state() == next_state(old(self).state(), Trigger::TimerExpired)
                &&& final(self).reason() == Some(StopReason::Completed)
                &&& final(self).attached() == Set::<u64>::empty()
                &&& final(self).attached_count() == 0
            },
            !expired ==> {
                &&& final(self).state() == old(self).state()
                &&& final(self).reason() == old(self).reason()
                &&& final(self).attached() == old(self).attached()
                &&& final(self).attached_count() == old(self).attached_count()
            },
    {
        if self.state == SessionState::Running && timer_expired(
            self.duration_secs,
            self.started_ns,
            now_ns,
        ) {
            self.begin_draining(StopReason::Completed);
            true
        } else {
            false
        }
    }

    fn interrupt(&mut self, trigger: Trigger, reason: StopReason)
        requires
            old(self).wf(),
            trigger == Trigger::Cancel || trigger == Trigger::ReaderError,
        ensures
            final(self).wf(),
            final(self).state() == next_state(old(self).state(), trigger),
            final(self).descriptors() == old(self).descriptors(),
            final(self).filter() == old(self).filter(),
            final(self).duration() == old(self).duration(),
            final(self).started_at() == old(self).started_at(),
            final(self).state() != old(self).state() ==> {
                &&& final(self).reason() == Some(reason)
                &&& final(self).attached() == Set::<u64>::empty()
                &&& final(self).attached_count() == 0
            },
            final(self).state() == old(self).state() ==> {
                &&& final(self).reason() == old(self).reason()
                &&& final(self).attached() == old(self).attached()
                &&& final(self).attached_count() == old(self).attached_count()
            },
    {
        match self.state {
            SessionState::Running => {
                self.begin_draining(reason);
            },
            SessionState::Idle | SessionState::Attaching => {
                if trigger == Trigger::Cancel {
                    self.manager.detach_all();
                    self.handles.clear();
                    self.state = SessionState::Stopped;
                    self.reason = Some(reason);
                }
            },
            _ => {},
        }
    }

    /// Ends the session from outside. A running session detaches every probe
    /// and is then draining. A session that has not run yet detaches what it
    /// had attached and has stopped. A session that drains or has stopped is
    /// left as it is.
    pub fn cancel(&mut self)
        requires
            old(self).wf(),
        ensures
            final(self).wf(),
            final(self).state() == next_state(old(self).state(), Trigger::Cancel),
            final(self).descriptors() == old(self).descriptors(),
            final(self).filter() == old(self).filter(),
            final(self).duration() == old(self).duration(),
            final(self).started_at() == old(self).started_at(),
            final(self).state() != old(self).state() ==> {
                &&& final(self).reason() == Some(StopReason::Cancelled)
                &&& final(self).attached() == Set::<u64>::empty()
                &&& final(self).attached_count() == 0
            },
            final(self).state() == old(self).state() ==> {
                &&& final(self).reason() == old(self).reason()
                &&& final(self).attached() == old(self).attached()
                &&& final(self).attached_count() == old(self).attached_count()
            },
    {
        self.interrupt(Trigger::Cancel, StopReason::Cancelled);
    }

    /// Reports that a reader met an error from which it cannot recover. A
    /// running session detaches every probe and is then draining; in any
    /// other state nothing changes.
    pub fn reader_failed(&mut self)
        requires
            old(self).wf(),
        ensures
            final(self).wf(),
            final(self).state() == next_state(old(self).state(), Trigger::ReaderError),
            final(self).descriptors() == old(self).descriptors(),
            final(self).filter() == old(self).filter(),
            final(self).duration() == old(self).duration(),
            final(self).started_at() == old(self).started_at(),
            final(self).state() != old(self).state() ==> {
                &&& final(self).reason() == Some(StopReason::ReaderFailed)
                &&& final(self).attached() == Set::<u64>::empty()
                &&& final(self).attached_count() == 0
            },
            final(self).state() == old(self).state() ==> {
                &&& final(self).reason() == old(self).reason()
                &&& final(self).attached() == old(self).attached()
                &&& final(self).attached_count() == old(self).attached_count()
            },
    {
        self.interrupt(Trigger::ReaderError, StopReason::ReaderFailed);
    }

    /// Takes what the channels hold and returns the events that the filter
    /// accepts: channel by channel in the order of the CPU numbers, each
    /// channel oldest first. Only a session that runs or drains reads; in
    /// any other state the channels are left alone and nothing is returned.
    pub fn collect(&self, channels: &mut ChannelSet) -> (out: Vec<SyscallEvent>)
        requires
            self.wf(),
            old(channels).wf(),
        ensures
            final(channels).wf(),
            final(channels).channels().len() == old(channels).channels().len(),
            self.state() == SessionState::Running || self.state() == SessionState::Draining ==> {
                &&& out@ == self.filter().accepted(fan_in(old(channels).channels()))
                &&& drained(old(channels).channels(), final(channels).channels())
            },
            !(self.state() == SessionState::Running || self.state() == SessionState::Draining)
                ==> {
                &&& out@ == Seq::<SyscallEvent>::empty()
                &&& final(channels).channels() == old(channels).channels()
            },
    {
        if self.state == SessionState::Running || self.state == SessionState::Draining {
            let all = channels.drain_all();
            self.filter.apply(&all)
        } else {
            Vec::new()
        }
    }

    /// Ends a draining session: takes what is left in the channels, and
    /// stops. The summary holds the accepted events that were left and the
    /// losses of all channels. A session that is not draining is left as it
    /// is, with the channels, and `None` is returned.
    pub fn finish(&mut self, channels: &mut ChannelSet) -> (r: Option<SessionSummary>)
        requires
            old(self).wf(),
            old(channels).wf(),
        ensures
            final(self).wf(),
            final(channels).wf(),
            final(channels).channels().len() == old(channels).channels().len(),
            final(self).state() == next_state(old(self).state(), Trigger::DrainComplete),
            final(self).descriptors() == old(self).descriptors(),
            final(self).filter() == old(self).filter(),
            final(self).duration() == old(self).duration(),
            final(self).started_at() == old(self).started_at(),
            final(self).reason() == old(self).reason(),
            final(self).attached() == old(self).attached(),
            final(self).attached_count() == old(self).attached_count(),
            r is Some <==> old(self).state() == SessionState::Draining,
            r is Some ==> {
                &&& Some(r->Some_0.reason) == old(self).reason()
                &&& r->Some_0.events@ == old(self).filter().accepted(
                    fan_in(old(channels).channels()),
                )
                &&& drained(old(channels).channels(), final(channels).channels())
                &&& r->Some_0.dropped == saturated(total_dropped(old(channels).channels()))
            },
            r is None ==> final(channels).channels() == old(channels).channels(),
    {
        if self.state != SessionState::Draining {
            return None;
        }
        let events = self.collect(channels);
        let dropped = channels.dropped();
        proof {
            lemma_drain_keeps_losses(old(channels).channels(), channels.channels());
        }
        self.state = SessionState::Stopped;
        match self.reason {
            Some(reason) => Some(SessionSummary { reason, events, dropped }),
            None => None,
        }
    }
}

/// `n`, or the largest number that fits in 64 bits where `n` is more.
pub open spec fn saturated(n: nat) -> u64 {
    if n > u64::MAX {
        u64::MAX
    } else {
        n as u64
    }
}

/// How draining changes a set of channels: each is empty afterwards, has
/// counted what it held as observed, and has kept its other counters.
pub open spec fn drained(before: Seq<EventChannel>, after: Seq<EventChannel>) -> bool {
    &&& after.len() == before.len()
    &&& forall|i: int|
        0 <= i < before.len() ==> {
            &&& (#[trigger] after[i]).pending() == Seq::<SyscallEvent>::empty()
            &&& after[i].bound() == before[i].bound()
            &&& after[i].produced_count() == before[i].produced_count()
            &&& after[i].dropped_count() == before[i].dropped_count()
            &&& after[i].observed_count() == before[i].observed_count() + before[i].pending().len()
        }
}

/// Draining changes no count of losses.
pub proof fn lemma_drain_keeps_losses(before: Seq<EventChannel>, after: Seq<EventChannel>)
    requires
        drained(before, after),
    ensures
        total_dropped(after) == total_dropped(before),
    decreases before.len(),
{
    if before.len() > 0 {
        let b = before.drop_last();
        let a = after.drop_last();
        assert forall|i: int| 0 <= i < b.len() implies {
            &&& (#[trigger] a[i]).pending() == Seq::<SyscallEvent>::empty()
            &&& a[i].bound() == b[i].bound()
            &&& a[i].produced_count() == b[i].produced_count()
            &&& a[i].dropped_count() == b[i].dropped_count()
            &&& a[i].observed_count() == b[i].observed_count() + b[i].pending().len()
        } by {
            assert(a[i] == after[i]);
            assert(b[i] == before[i]);
        }
        lemma_drain_keeps_losses(b, a);
        assert(after.last() == after[after.len() - 1]);
    }
}

/// The numbers below `n` are `n` numbers.
proof fn lemma_initial_segment(n: nat)
    requires
        n <= u64::MAX,
    ensures
        Set::new(|id: u64| id < n).finite(),
        Set::new(|id: u64| id < n).len() == n,
    decreases n,
{
    let s = Set::new(|id: u64| id < n);
    if n == 0 {
        assert(s =~= Set::<u64>::empty());
    } else {
        let m = (n - 1) as nat;
        lemma_initial_segment(m);
        let t = Set::new(|id: u64| id < m);
        assert(s =~= t.insert(m as u64));
    }
}

} // verus!
