//! The reconnect supervisor: sessions one after another, for as long as the
//! process runs.
//!
//! Like a session, the supervisor does no I/O. It is told what happened and
//! answers with what to do next: connect, run a session, wait, or stop.
//!
//! The first connection is made at once. After a session that failed, and
//! after a connection that could not be made, the supervisor waits as long
//! as the backoff schedule says at its current position, and moves one
//! position on. The position is never reset. After a session that the feed
//! closed cleanly the supervisor connects again at once and the position
//! stays. It stops when it is asked to, when its session was cancelled, when
//! the schedule's count of waits is used up, and when the driver reports
//! what was not asked for.

use crate::backoff::{advance, exhausted, BackoffPolicy, RetryState};
use crate::error::{ConfigError, SessionError, SessionOutcome};
use vstd::prelude::*;

verus! {

/// Why the supervisor stopped.
#[derive(Clone, Copy, Debug, PartialEq, Eq, Structural)]
pub enum StopReason {
    /// The surrounding process asked for it.
    Shutdown,
    /// The schedule allows no further wait.
    RetriesExhausted,
    /// The driver reported something that the supervisor was not waiting for.
    OutOfOrder,
}

/// What the supervisor is waiting for.
#[derive(Clone, Copy, Debug, PartialEq, Eq, Structural)]
pub enum SupervisorPhase {
    /// To be started.
    Idle,
    /// For a connection to be made.
    Connecting,
    /// For the running session to end.
    Running,
    /// For a wait to elapse.
    Waiting,
    /// For nothing.
    Stopped(StopReason),
}

/// What the driver reports to the supervisor.
#[derive(Clone, Copy, Debug, PartialEq, Eq, Structural)]
pub enum SupervisorEvent {
    /// The process is up.
    Start,
    /// The connection is made.
    Connected,
    /// The connection could not be made.
    ConnectFailed,
    /// The session ended.
    SessionEnded(SessionOutcome),
    /// The wait is over.
    WaitElapsed,
    /// The surrounding process wants the supervisor to stop.
    Shutdown,
}

/// What the driver is to do next.
#[derive(Clone, Copy, Debug, PartialEq, Eq, Structural)]
pub enum SupervisorAction {
    /// Make a connection, then report `Connected` or `ConnectFailed`.
    Connect,
    /// Run a session on the connection, then report `SessionEnded`.
    RunSession,
    /// Sleep this long, then report `WaitElapsed`.
    Wait { millis: u64 },
    /// Leave the loop.
    Stop(StopReason),
}

/// The supervisor of one run of the process.
#[derive(Debug)]
pub struct Supervisor {
    retry: RetryState,
    phase: SupervisorPhase,
}

/// The mathematical content of a [`Supervisor`].
pub struct SupervisorView {
    /// The schedule.
    pub policy: BackoffPolicy,
    /// What the supervisor is waiting for.
    pub phase: SupervisorPhase,
    /// The position in the schedule: how many waits were handed out.
    pub retries: u64,
}

impl View for Supervisor {
    type V = SupervisorView;

    closed spec fn view(&self) -> SupervisorView {
        SupervisorView {
            policy: self.retry@.policy,
            phase: self.phase,
            retries: self.retry@.position,
        }
    }
}

/// A supervisor that has not been started.
pub open spec fn idle(policy: BackoffPolicy) -> SupervisorView {
    SupervisorView { policy, phase: SupervisorPhase::Idle, retries: 0 }
}

/// The supervisor connects.
pub open spec fn connect(supervisor: SupervisorView) -> (SupervisorView, SupervisorAction) {
    (SupervisorView { phase: SupervisorPhase::Connecting, ..supervisor }, SupervisorAction::Connect)
}

/// The supervisor stops.
pub open spec fn stop(supervisor: SupervisorView, reason: StopReason) -> (
    SupervisorView,
    SupervisorAction,
) {
    (
        SupervisorView { phase: SupervisorPhase::Stopped(reason), ..supervisor },
        SupervisorAction::Stop(reason),
    )
}

/// The supervisor waits as long as the schedule says at its position and
/// moves one position on, or stops where the schedule allows no further wait.
pub open spec fn back_off(supervisor: SupervisorView) -> (SupervisorView, SupervisorAction) {
    if exhausted(supervisor.policy, supervisor.retries) {
        stop(supervisor, StopReason::RetriesExhausted)
    } else {
        (
            SupervisorView {
                phase: SupervisorPhase::Waiting,
                retries: advance(supervisor.retries),
                ..supervisor
            },
            SupervisorAction::Wait {
                millis: supervisor.policy.wait_at(supervisor.retries as nat),
            },
        )
    }
}

/// The answer of the supervisor to one event, and the supervisor afterwards.
pub open spec fn supervise(supervisor: SupervisorView, event: SupervisorEvent) -> (
    SupervisorView,
    SupervisorAction,
) {
    match (supervisor.phase, event) {
        (SupervisorPhase::Stopped(reason), _) => (supervisor, SupervisorAction::Stop(reason)),
        (_, SupervisorEvent::Shutdown) => stop(supervisor, StopReason::Shutdown),
        (SupervisorPhase::Idle, SupervisorEvent::Start) => connect(supervisor),
        (SupervisorPhase::Connecting, SupervisorEvent::Connected) => (
            SupervisorView { phase: SupervisorPhase::Running, ..supervisor },
            SupervisorAction::RunSession,
        ),
        (SupervisorPhase::Connecting, SupervisorEvent::ConnectFailed) => back_off(supervisor),
        (SupervisorPhase::Running, SupervisorEvent::SessionEnded(SessionOutcome::Clean)) => connect(
            supervisor,
        ),
        (
            SupervisorPhase::Running,
            SupervisorEvent::SessionEnded(SessionOutcome::Transient(SessionError::Cancelled)),
        ) => stop(supervisor, StopReason::Shutdown),
        (
            SupervisorPhase::Running,
            SupervisorEvent::SessionEnded(SessionOutcome::Transient(_)),
        ) => back_off(supervisor),
        (SupervisorPhase::Waiting, SupervisorEvent::WaitElapsed) => connect(supervisor),
        (_, _) => stop(supervisor, StopReason::OutOfOrder),
    }
}

impl Supervisor {
    /// A supervisor that has not been started.
    ///
    /// Fails with `InvalidBackoff` exactly where `policy` describes no schedule.
    pub fn new(policy: BackoffPolicy) -> (result: Result<Supervisor, ConfigError>)
        ensures
            match result {
                Ok(supervisor) => policy.wf() && supervisor@ == idle(policy),
                Err(error) => !policy.wf() && error == ConfigError::InvalidBackoff,
            },
    {
        match RetryState::new(policy) {
            Ok(retry) => Ok(Supervisor { retry, phase: SupervisorPhase::Idle }),
            Err(error) => Err(error),
        }
    }

    /// What the supervisor is waiting for.
    pub fn phase(&self) -> (phase: SupervisorPhase)
        ensures
            phase == self@.phase,
    {
        self.phase
    }

    /// How many waits were handed out so far.
    pub fn retries(&self) -> (retries: u64)
        ensures
            retries == self@.retries,
    {
        self.retry.position()
    }

    /// The schedule.
    pub fn policy(&self) -> (policy: BackoffPolicy)
        ensures
            policy == self@.policy,
            policy.wf(),
    {
        self.retry.policy()
    }

    /// How long the next wait will be, in milliseconds.
    pub fn next_wait_ms(&self) -> (millis: u64)
        ensures
            millis == self@.policy.wait_at(self@.retries as nat),
            millis <= self@.policy.max_ms,
    {
        self.retry.next_wait_ms()
    }

    fn back_off(&mut self) -> (action: SupervisorAction)
        ensures
            (final(self)@, action) == back_off(old(self)@),
            action matches SupervisorAction::Wait { millis } ==> millis <= old(self)@.policy.max_ms,
    {
        if self.retry.is_exhausted() {
            self.phase = SupervisorPhase::Stopped(StopReason::RetriesExhausted);
            SupervisorAction::Stop(StopReason::RetriesExhausted)
        } else {
            let millis = self.retry.advance();
            self.phase = SupervisorPhase::Waiting;
            SupervisorAction::Wait { millis }
        }
    }

    fn enter(&mut self, phase: SupervisorPhase)
        ensures
            final(self)@ == (SupervisorView { phase, ..old(self)@ }),
    {
        self.phase = phase;
    }

    /// Tells the supervisor what happened and returns what to do next.
    pub fn step(&mut self, event: SupervisorEvent) -> (action: SupervisorAction)
        ensures
            (final(self)@, action) == supervise(old(self)@, event),
            action matches SupervisorAction::Wait { millis } ==> millis <= old(self)@.policy.max_ms,
    {
        match (self.phase, event) {
            (SupervisorPhase::Stopped(reason), _) => SupervisorAction::Stop(reason),
            (_, SupervisorEvent::Shutdown) => {
                self.enter(SupervisorPhase::Stopped(StopReason::Shutdown));
                SupervisorAction::Stop(StopReason::Shutdown)
            },
            (SupervisorPhase::Idle, SupervisorEvent::Start) => {
                self.enter(SupervisorPhase::Connecting);
                SupervisorAction::Connect
            },
            (SupervisorPhase::Connecting, SupervisorEvent::Connected) => {
                self.enter(SupervisorPhase::Running);
                SupervisorAction::RunSession
            },
            (SupervisorPhase::Connecting, SupervisorEvent::ConnectFailed) => self.back_off(),
            (SupervisorPhase::Running, SupervisorEvent::SessionEnded(SessionOutcome::Clean)) => {
                self.enter(SupervisorPhase::Connecting);
                SupervisorAction::Connect
            },
            (
                SupervisorPhase::Running,
                SupervisorEvent::SessionEnded(SessionOutcome::Transient(SessionError::Cancelled)),
            ) => {
                self.enter(SupervisorPhase::Stopped(StopReason::Shutdown));
                SupervisorAction::Stop(StopReason::Shutdown)
            },
            (
                SupervisorPhase::Running,
                SupervisorEvent::SessionEnded(SessionOutcome::Transient(_)),
            ) => self.back_off(),
            (SupervisorPhase::Waiting, SupervisorEvent::WaitElapsed) => {
                self.enter(SupervisorPhase::Connecting);
                SupervisorAction::Connect
            },
            (_, _) => {
                self.enter(SupervisorPhase::Stopped(StopReason::OutOfOrder));
                SupervisorAction::Stop(StopReason::OutOfOrder)
            },
        }
    }
}

} // verus!
