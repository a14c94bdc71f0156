//! The session manager: one subscription from opening to its end.
//!
//! A session does no I/O. It is told what happened and answers with what to
//! do next: the driver opens the stream, reads it, writes to the store and
//! to the feed, and reports each result back. Whatever is reported, the
//! session answers; once it is closed it stays closed.
//!
//! Failure policy. A transaction that does not decode is dropped. A record
//! that the store does not take is offered again until `max_attempts` writes
//! have failed; then it is abandoned and the session goes on, unless the
//! policy says `escalate`, in which case the session ends. A record whose
//! numbers do not fit the store is never offered. Everything else that goes
//! wrong ends the session, and every ending but the feed's own is transient.

use crate::codec::{CanonicalRecord, RecordView};
use crate::dispatch::{dispatch, dispatch_of, Dispatch, DispatchView};
use crate::error::{DecodeError, PersistError, SessionError, SessionOutcome, TransportError};
use crate::sink::{insert_params, params_of, InsertParams, ParamsView};
use crate::subscription::{
    subscribe_request, subscribe_request_of, OutboundRequest, RequestView, SubscriptionSpec,
    SubscriptionView,
};
use crate::update::{StreamEvent, StreamEventView};
use vstd::prelude::*;

verus! {

/// What to do about a record that the store does not take.
#[derive(Clone, Copy, Debug, PartialEq, Eq, Structural)]
pub struct PersistPolicy {
    /// How many writes of one record may fail before it is given up. One
    /// write is always made.
    pub max_attempts: u32,
    /// Whether giving up a record ends the session.
    pub escalate: bool,
}

impl Default for PersistPolicy {
    /// Three writes, then the record is abandoned and the session goes on.
    fn default() -> (policy: PersistPolicy)
        ensures
            policy == (PersistPolicy { max_attempts: 3, escalate: false }),
    {
        PersistPolicy { max_attempts: 3, escalate: false }
    }
}

/// Counts of what a session has done. Each stops at the largest `u64`.
#[derive(Clone, Copy, Debug, PartialEq, Eq, Structural)]
pub struct SessionStats {
    /// Records that the store took.
    pub persisted: u64,
    /// Pings answered.
    pub replies: u64,
    /// Transactions dropped because they did not decode.
    pub dropped: u64,
    /// Records given up because the store did not take them.
    pub abandoned: u64,
}

/// The next count: one more, but never past the largest `u64`.
pub open spec fn bump(count: u64) -> u64 {
    if count < u64::MAX {
        (count + 1) as u64
    } else {
        count
    }
}

fn bumped(count: u64) -> (next: u64)
    ensures
        next == bump(count),
{
    if count < u64::MAX {
        count + 1
    } else {
        count
    }
}

/// What the driver reports to the session.
#[derive(Clone, Debug, PartialEq, Eq)]
pub enum SessionEvent {
    /// The stream is open.
    Subscribed,
    /// The stream could not be opened.
    SubscribeFailed,
    /// A read of the inbound stream returned.
    Inbound(StreamEvent),
    /// The store carried out the write.
    Persisted,
    /// The store failed to carry out the write.
    PersistFailed,
    /// The request was written to the feed.
    ReplySent,
    /// The request could not be written to the feed.
    ReplyFailed,
    /// The surrounding process wants the session to stop.
    Shutdown,
}

/// The mathematical content of a [`SessionEvent`].
pub enum EventView {
    Subscribed,
    SubscribeFailed,
    Inbound(StreamEventView),
    Persisted,
    PersistFailed,
    ReplySent,
    ReplyFailed,
    Shutdown,
}

impl View for SessionEvent {
    type V = EventView;

    open spec fn view(&self) -> EventView {
        match self {
            SessionEvent::Subscribed => EventView::Subscribed,
            SessionEvent::SubscribeFailed => EventView::SubscribeFailed,
            SessionEvent::Inbound(event) => EventView::Inbound(event@),
            SessionEvent::Persisted => EventView::Persisted,
            SessionEvent::PersistFailed => EventView::PersistFailed,
            SessionEvent::ReplySent => EventView::ReplySent,
            SessionEvent::ReplyFailed => EventView::ReplyFailed,
            SessionEvent::Shutdown => EventView::Shutdown,
        }
    }
}

/// What the driver is to do next.
#[derive(Clone, Debug, PartialEq, Eq)]
pub enum Action {
    /// Open the stream with this request, then report `Subscribed` or
    /// `SubscribeFailed`.
    Subscribe(OutboundRequest),
    /// Read the inbound stream, then report `Inbound`.
    Receive,
    /// Run the insert statement with these values, then report `Persisted`
    /// or `PersistFailed`.
    Persist(InsertParams),
    /// Write this request to the feed, then report `ReplySent` or
    /// `ReplyFailed`.
    Send(OutboundRequest),
    /// Tear the connection down: the session is over.
    Finish(SessionOutcome),
}

/// The mathematical content of an [`Action`].
pub enum ActionView {
    Subscribe(RequestView),
    Receive,
    Persist(ParamsView),
    Send(RequestView),
    Finish(SessionOutcome),
}

impl View for Action {
    type V = ActionView;

    open spec fn view(&self) -> ActionView {
        match self {
            Action::Subscribe(request) => ActionView::Subscribe(request@),
            Action::Receive => ActionView::Receive,
            Action::Persist(params) => ActionView::Persist(params@),
            Action::Send(request) => ActionView::Send(request@),
            Action::Finish(outcome) => ActionView::Finish(*outcome),
        }
    }
}

/// Something worth a log line.
#[derive(Clone, Debug, PartialEq, Eq)]
pub enum Notice {
    /// The stream is open.
    Opened,
    /// A record was stored; `filters` names the filters that its update matched.
    Stored { record: CanonicalRecord, filters: Vec<String> },
    /// A transaction did not decode and was dropped.
    Dropped(DecodeError),
    /// A write failed and is made again; `attempt` counts the writes so far,
    /// the new one included.
    Retrying { attempt: u32 },
    /// A record was given up.
    Abandoned { record: CanonicalRecord, error: PersistError },
    /// The session is over.
    Closed(SessionOutcome),
}

/// The mathematical content of a [`Notice`].
pub enum NoticeView {
    Opened,
    Stored { record: RecordView, filters: Seq<Seq<char>> },
    Dropped(DecodeError),
    Retrying { attempt: u32 },
    Abandoned { record: RecordView, error: PersistError },
    Closed(SessionOutcome),
}

impl View for Notice {
    type V = NoticeView;

    open spec fn view(&self) -> NoticeView {
        match self {
            Notice::Opened => NoticeView::Opened,
            Notice::Stored { record, filters } => NoticeView::Stored {
                record: record@,
                filters: filters.deep_view(),
            },
            Notice::Dropped(error) => NoticeView::Dropped(*error),
            Notice::Retrying { attempt } => NoticeView::Retrying { attempt: *attempt },
            Notice::Abandoned { record, error } => NoticeView::Abandoned {
                record: record@,
                error: *error,
            },
            Notice::Closed(outcome) => NoticeView::Closed(*outcome),
        }
    }
}

/// The session's answer to one event.
#[derive(Clone, Debug, PartialEq, Eq)]
pub struct Step {
    /// What the driver is to do next.
    pub action: Action,
    /// What there is to report, if anything.
    pub notice: Option<Notice>,
}

/// The mathematical content of a [`Step`].
pub struct StepView {
    pub action: ActionView,
    pub notice: Option<NoticeView>,
}

impl View for Step {
    type V = StepView;

    open spec fn view(&self) -> StepView {
        StepView {
            action: self.action@,
            notice: match self.notice {
                Some(notice) => Some(notice@),
                None => None,
            },
        }
    }
}

/// What a session is waiting for.
#[derive(Clone, Debug, PartialEq, Eq)]
pub enum Phase {
    /// For the stream to open.
    Opening,
    /// For the next read of the inbound stream.
    Receiving,
    /// For the store to take `record`; `attempts` writes were asked for.
    Persisting { record: CanonicalRecord, params: InsertParams, filters: Vec<String>, attempts: u32 },
    /// For the answer to a ping to be written.
    Replying,
    /// For nothing: the session is over.
    Closed(SessionOutcome),
}

/// The mathematical content of a [`Phase`].
pub enum PhaseView {
    Opening,
    Receiving,
    Persisting { record: RecordView, params: ParamsView, filters: Seq<Seq<char>>, attempts: u32 },
    Replying,
    Closed(SessionOutcome),
}

impl View for Phase {
    type V = PhaseView;

    open spec fn view(&self) -> PhaseView {
        match self {
            Phase::Opening => PhaseView::Opening,
            Phase::Receiving => PhaseView::Receiving,
            Phase::Persisting { record, params, filters, attempts } => PhaseView::Persisting {
                record: record@,
                params: params@,
                filters: filters.deep_view(),
                attempts: *attempts,
            },
            Phase::Replying => PhaseView::Replying,
            Phase::Closed(outcome) => PhaseView::Closed(*outcome),
        }
    }
}

/// One subscription from opening to its end.
#[derive(Debug)]
pub struct Session {
    spec: SubscriptionSpec,
    policy: PersistPolicy,
    phase: Phase,
    stats: SessionStats,
}

/// The mathematical content of a [`Session`].
pub struct SessionView {
    pub spec: SubscriptionView,
    pub policy: PersistPolicy,
    pub phase: PhaseView,
    pub stats: SessionStats,
}

impl View for Session {
    type V = SessionView;

    closed spec fn view(&self) -> SessionView {
        SessionView { spec: self.spec@, policy: self.policy, phase: self.phase@, stats: self.stats }
    }
}

/// A session that has just asked for its stream.
pub open spec fn opening(spec: SubscriptionView, policy: PersistPolicy) -> SessionView {
    SessionView {
        spec,
        policy,
        phase: PhaseView::Opening,
        stats: SessionStats { persisted: 0, replies: 0, dropped: 0, abandoned: 0 },
    }
}

/// The session goes on reading.
pub open spec fn resume(session: SessionView, stats: SessionStats, notice: Option<NoticeView>) -> (
    SessionView,
    StepView,
) {
    (
        SessionView { phase: PhaseView::Receiving, stats, ..session },
        StepView { action: ActionView::Receive, notice },
    )
}

/// The session ends with `outcome`.
pub open spec fn close(session: SessionView, outcome: SessionOutcome) -> (SessionView, StepView) {
    (
        SessionView { phase: PhaseView::Closed(outcome), ..session },
        StepView { action: ActionView::Finish(outcome), notice: Some(NoticeView::Closed(outcome)) },
    )
}

/// A record is given up: the session goes on without it, or ends if the
/// policy is to escalate.
pub open spec fn give_up(session: SessionView, record: RecordView, error: PersistError) -> (
    SessionView,
    StepView,
) {
    if session.policy.escalate {
        close(session, SessionOutcome::Transient(SessionError::Persist(error)))
    } else {
        resume(
            session,
            SessionStats { abandoned: bump(session.stats.abandoned), ..session.stats },
            Some(NoticeView::Abandoned { record, error }),
        )
    }
}

/// The answer of a reading session to one read of the inbound stream.
pub open spec fn on_inbound(session: SessionView, event: StreamEventView) -> (SessionView, StepView) {
    match dispatch_of(event) {
        DispatchView::Store { record, filters } => match params_of(record) {
            Ok(params) => (
                SessionView {
                    phase: PhaseView::Persisting { record, params, filters, attempts: 1 },
                    ..session
                },
                StepView { action: ActionView::Persist(params), notice: None },
            ),
            Err(error) => give_up(session, record, error),
        },
        DispatchView::Reply(request) => (
            SessionView { phase: PhaseView::Replying, ..session },
            StepView { action: ActionView::Send(request), notice: None },
        ),
        DispatchView::Skip => resume(session, session.stats, None),
        DispatchView::Drop(error) => resume(
            session,
            SessionStats { dropped: bump(session.stats.dropped), ..session.stats },
            Some(NoticeView::Dropped(error)),
        ),
        DispatchView::Terminate(outcome) => close(session, outcome),
    }
}

/// The answer of a session to one event, and the session afterwards.
///
/// A closed session answers everything with `Finish` and does not change.
/// A request to shut down closes any other session. Otherwise the session
/// takes the event that it is waiting for, and closes on any other.
pub open spec fn step_of(session: SessionView, event: EventView) -> (SessionView, StepView) {
    match (session.phase, event) {
        (PhaseView::Closed(outcome), _) => (
            session,
            StepView { action: ActionView::Finish(outcome), notice: None },
        ),
        (_, EventView::Shutdown) => close(
            session,
            SessionOutcome::Transient(SessionError::Cancelled),
        ),
        (PhaseView::Opening, EventView::Subscribed) => resume(
            session,
            session.stats,
            Some(NoticeView::Opened),
        ),
        (PhaseView::Opening, EventView::SubscribeFailed) => close(
            session,
            SessionOutcome::Transient(SessionError::Transport(TransportError::Subscribe)),
        ),
        (PhaseView::Receiving, EventView::Inbound(inbound)) => on_inbound(session, inbound),
        (PhaseView::Persisting { record, filters, .. }, EventView::Persisted) => resume(
            session,
            SessionStats { persisted: bump(session.stats.persisted), ..session.stats },
            Some(NoticeView::Stored { record, filters }),
        ),
        (PhaseView::Persisting { record, params, filters, attempts }, EventView::PersistFailed) => {
            if attempts < session.policy.max_attempts {
                (
                    SessionView {
                        phase: PhaseView::Persisting {
                            record,
                            params,
                            filters,
                            attempts: (attempts + 1) as u32,
                        },
                        ..session
                    },
                    StepView {
                        action: ActionView::Persist(params),
                        notice: Some(NoticeView::Retrying { attempt: (attempts + 1) as u32 }),
                    },
                )
            } else {
                give_up(session, record, PersistError::Storage)
            }
        },
        (PhaseView::Replying, EventView::ReplySent) => resume(
            session,
            SessionStats { replies: bump(session.stats.replies), ..session.stats },
            None,
        ),
        (PhaseView::Replying, EventView::ReplyFailed) => close(
            session,
            SessionOutcome::Transient(SessionError::Transport(TransportError::Send)),
        ),
        (_, _) => close(session, SessionOutcome::Transient(SessionError::OutOfOrder)),
    }
}

/// The session after the driver has carried out a step's write and reported
/// its success. A step that asks for no write leaves the session as it is.
pub open spec fn acknowledged(answer: (SessionView, StepView)) -> SessionView {
    match answer.1.action {
        ActionView::Persist(_) => step_of(answer.0, EventView::Persisted).0,
        ActionView::Send(_) => step_of(answer.0, EventView::ReplySent).0,
        _ => answer.0,
    }
}

/// The session after a recorded inbound stream, read in order, with every
/// write that the session asks for carried out at once.
pub open spec fn replayed(session: SessionView, inbound: Seq<StreamEventView>) -> SessionView
    decreases inbound.len(),
{
    if inbound.len() == 0 {
        session
    } else {
        acknowledged(
            step_of(replayed(session, inbound.drop_last()), EventView::Inbound(inbound.last())),
        )
    }
}

/// The mathematical content of a recorded inbound stream.
pub open spec fn stream_view(inbound: Seq<StreamEvent>) -> Seq<StreamEventView> {
    Seq::new(inbound.len(), |i: int| inbound[i]@)
}

impl Session {
    /// Starts a session: the driver is to open the stream with the request
    /// that comes back.
    pub fn start(spec: SubscriptionSpec, policy: PersistPolicy) -> (started: (Session, Action))
        ensures
            started.0@ == opening(spec@, policy),
            started.1@ == ActionView::Subscribe(subscribe_request_of(spec@)),
    {
        let request = subscribe_request(&spec);
        let session = Session {
            spec,
            policy,
            phase: Phase::Opening,
            stats: SessionStats { persisted: 0, replies: 0, dropped: 0, abandoned: 0 },
        };
        (session, Action::Subscribe(request))
    }

    /// How the session ended, once it has.
    pub fn outcome(&self) -> (outcome: Option<SessionOutcome>)
        ensures
            outcome == match self@.phase {
                PhaseView::Closed(ended) => Some(ended),
                _ => None,
            },
    {
        match &self.phase {
            Phase::Closed(ended) => Some(*ended),
            _ => None,
        }
    }

    /// Whether the session is over.
    pub fn is_closed(&self) -> (closed: bool)
        ensures
            closed == (self@.phase is Closed),
    {
        match &self.phase {
            Phase::Closed(_) => true,
            _ => false,
        }
    }

    /// Counts of what the session has done so far.
    pub fn stats(&self) -> (stats: SessionStats)
        ensures
            stats == self@.stats,
    {
        self.stats
    }

    /// The policy that the session was started with.
    pub fn policy(&self) -> (policy: PersistPolicy)
        ensures
            policy == self@.policy,
    {
        self.policy
    }

    /// The subscription that the session was started with.
    pub fn subscription(&self) -> (spec: &SubscriptionSpec)
        ensures
            spec@ == self@.spec,
    {
        &self.spec
    }

    fn resume(&mut self, stats: SessionStats, notice: Option<Notice>) -> (step: Step)
        ensures
            (final(self)@, step@) == resume(
                old(self)@,
                stats,
                match notice {
                    Some(n) => Some(n@),
                    None => None,
                },
            ),
    {
        self.phase = Phase::Receiving;
        self.stats = stats;
        Step { action: Action::Receive, notice }
    }

    fn close(&mut self, outcome: SessionOutcome) -> (step: Step)
        ensures
            (final(self)@, step@) == close(old(self)@, outcome),
    {
        self.phase = Phase::Closed(outcome);
        Step { action: Action::Finish(outcome), notice: Some(Notice::Closed(outcome)) }
    }

    fn give_up(&mut self, record: CanonicalRecord, error: PersistError) -> (step: Step)
        ensures
            (final(self)@, step@) == give_up(old(self)@, record@, error),
    {
        if self.policy.escalate {
            self.close(SessionOutcome::Transient(SessionError::Persist(error)))
        } else {
            let stats = SessionStats { abandoned: bumped(self.stats.abandoned), ..self.stats };
            self.resume(stats, Some(Notice::Abandoned { record, error }))
        }
    }

    fn receive(&mut self, event: &StreamEvent) -> (step: Step)
        ensures
            (final(self)@, step@) == on_inbound(old(self)@, event@),
    {
        match dispatch(event) {
            Dispatch::Store { record, filters } => match insert_params(&record) {
                Ok(params) => {
                    let action = Action::Persist(params.duplicate());
                    self.phase = Phase::Persisting { record, params, filters, attempts: 1 };
                    Step { action, notice: None }
                },
                Err(error) => self.give_up(record, error),
            },
            Dispatch::Reply(request) => {
                self.phase = Phase::Replying;
                Step { action: Action::Send(request), notice: None }
            },
            Dispatch::Skip => {
                let stats = self.stats;
                self.resume(stats, None)
            },
            Dispatch::Drop(error) => {
                let stats = SessionStats { dropped: bumped(self.stats.dropped), ..self.stats };
                self.resume(stats, Some(Notice::Dropped(error)))
            },
            Dispatch::Terminate(outcome) => self.close(outcome),
        }
    }

    /// Tells the session what happened and returns what to do next.
    pub fn step(&mut self, event: SessionEvent) -> (step: Step)
        ensures
            (final(self)@, step@) == step_of(old(self)@, event@),
    {
        let mut phase = Phase::Receiving;
        std::mem::swap(&mut self.phase, &mut phase);
        match (phase, event) {
            (Phase::Closed(outcome), _) => {
                self.phase = Phase::Closed(outcome);
                Step { action: Action::Finish(outcome), notice: None }
            },
            (_, SessionEvent::Shutdown) => self.close(
                SessionOutcome::Transient(SessionError::Cancelled),
            ),
            (Phase::Opening, SessionEvent::Subscribed) => {
                let stats = self.stats;
                self.resume(stats, Some(Notice::Opened))
            },
            (Phase::Opening, SessionEvent::SubscribeFailed) => self.close(
                SessionOutcome::Transient(SessionError::Transport(TransportError::Subscribe)),
            ),
            (Phase::Receiving, SessionEvent::Inbound(inbound)) => self.receive(&inbound),
            (Phase::Persisting { record, filters, .. }, SessionEvent::Persisted) => {
                let stats = SessionStats { persisted: bumped(self.stats.persisted), ..self.stats };
                self.resume(stats, Some(Notice::Stored { record, filters }))
            },
            (
                Phase::Persisting { record, params, filters, attempts },
                SessionEvent::PersistFailed,
            ) => {
                if attempts < self.policy.max_attempts {
                    let action = Action::Persist(params.duplicate());
                    self.phase = Phase::Persisting { record, params, filters, attempts: attempts + 1 };
                    Step { action, notice: Some(Notice::Retrying { attempt: attempts + 1 }) }
                } else {
                    self.give_up(record, PersistError::Storage)
                }
            },
            (Phase::Replying, SessionEvent::ReplySent) => {
                let stats = SessionStats { replies: bumped(self.stats.replies), ..self.stats };
                self.resume(stats, None)
            },
            (Phase::Replying, SessionEvent::ReplyFailed) => self.close(
                SessionOutcome::Transient(SessionError::Transport(TransportError::Send)),
            ),
            (_, _) => self.close(SessionOutcome::Transient(SessionError::OutOfOrder)),
        }
    }
    fn read(&mut self, event: &StreamEvent) -> (step: Step)
        ensures
            (final(self)@, step@) == step_of(old(self)@, EventView::Inbound(event@)),
    {
        match &self.phase {
            Phase::Closed(outcome) => Step { action: Action::Finish(*outcome), notice: None },
            Phase::Receiving => self.receive(event),
            _ => self.close(SessionOutcome::Transient(SessionError::OutOfOrder)),
        }
    }

    /// Runs a session over a recorded inbound stream.
    ///
    /// The stream opens, `inbound` is read in order, and every write that
    /// the session asks for succeeds at once. What comes back is the session
    /// after the last read: closed where the recording ends the session,
    /// still reading where it merely stops.
    pub fn replay(spec: SubscriptionSpec, policy: PersistPolicy, inbound: &Vec<StreamEvent>) -> (session:
        Session)
        ensures
            session@ == replayed(
                step_of(opening(spec@, policy), EventView::Subscribed).0,
                stream_view(inbound@),
            ),
    {
        let (mut session, _) = Session::start(spec, policy);
        session.step(SessionEvent::Subscribed);
        let ghost first = session@;
        let mut i: usize = 0;
        while i < inbound.len()
            invariant
                i <= inbound.len(),
                session@ == replayed(first, stream_view(inbound@).take(i as int)),
            decreases inbound.len() - i,
        {
            proof {
                let done = stream_view(inbound@).take(i as int);
                let next = stream_view(inbound@).take(i + 1);
                assert(next.drop_last() =~= done);
                assert(next.last() == inbound@[i as int]@);
            }
            let step = session.read(&inbound[i]);
            match step.action {
                Action::Persist(_) => {
                    session.step(SessionEvent::Persisted);
                },
                Action::Send(_) => {
                    session.step(SessionEvent::ReplySent);
                },
                _ => {},
            }
            i += 1;
        }
        assert(stream_view(inbound@).take(inbound@.len() as int) =~= stream_view(inbound@));
        session
    }
}

} // verus!
