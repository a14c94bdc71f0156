//! What holds of every run of the supervisor, proved from the definition of
//! its steps and of the backoff schedule.

use crate::backoff::{lemma_waits_are_capped, lemma_waits_never_shrink, BackoffPolicy};
use crate::error::{SessionError, SessionOutcome};
use crate::supervisor::{
    idle, supervise, StopReason, SupervisorAction, SupervisorEvent, SupervisorPhase,
    SupervisorView,
};
use vstd::prelude::*;

verus! {

/// The supervisor after a sequence of events, each answered in turn.
pub open spec fn after_all(supervisor: SupervisorView, events: Seq<SupervisorEvent>) -> SupervisorView
    decreases events.len(),
{
    if events.len() == 0 {
        supervisor
    } else {
        supervise(after_all(supervisor, events.drop_last()), events.last()).0
    }
}

/// What the supervisor tells the driver to do on the event at `index`,
/// after the events before it.
pub open spec fn answer_at(
    supervisor: SupervisorView,
    events: Seq<SupervisorEvent>,
    index: int,
) -> SupervisorAction
    recommends
        0 <= index < events.len(),
{
    supervise(after_all(supervisor, events.take(index)), events[index]).1
}

/// The first attempt is made at once: a supervisor that is started connects
/// without a wait, and its position in the schedule is still the first.
pub proof fn lemma_first_attempt_is_immediate(policy: BackoffPolicy)
    ensures
        supervise(idle(policy), SupervisorEvent::Start).1 == SupervisorAction::Connect,
        supervise(idle(policy), SupervisorEvent::Start).0.retries == 0,
        supervise(idle(policy), SupervisorEvent::Start).0.phase == SupervisorPhase::Connecting,
{
}

/// A wait is handed out only after a connection that could not be made or a
/// session that failed, and it is the wait of the schedule at the position
/// that the supervisor had.
pub proof fn lemma_waits_follow_schedule(supervisor: SupervisorView, event: SupervisorEvent)
    requires
        supervise(supervisor, event).1 is Wait,
    ensures
        supervise(supervisor, event).1->millis == supervisor.policy.wait_at(
            supervisor.retries as nat,
        ),
        supervise(supervisor, event).0.phase == SupervisorPhase::Waiting,
        (supervisor.phase == SupervisorPhase::Connecting && event == SupervisorEvent::ConnectFailed)
            || (supervisor.phase == SupervisorPhase::Running && event is SessionEnded
            && event->SessionEnded_0 is Transient && event->SessionEnded_0->Transient_0
            != SessionError::Cancelled),
{
}

/// No step resets the schedule: the position never goes back, and the
/// schedule itself stays the same.
pub proof fn lemma_position_never_goes_back(supervisor: SupervisorView, event: SupervisorEvent)
    ensures
        supervise(supervisor, event).0.retries >= supervisor.retries,
        supervise(supervisor, event).0.policy == supervisor.policy,
{
}

/// Over a whole run the position never goes back.
pub proof fn lemma_position_along_run(
    supervisor: SupervisorView,
    events: Seq<SupervisorEvent>,
    earlier: int,
    later: int,
)
    requires
        0 <= earlier <= later <= events.len(),
    ensures
        after_all(supervisor, events.take(earlier)).retries <= after_all(
            supervisor,
            events.take(later),
        ).retries,
        after_all(supervisor, events.take(later)).policy == supervisor.policy,
    decreases later,
{
    if later == 0 {
        assert(events.take(0) =~= Seq::empty());
    } else if earlier < later {
        lemma_position_along_run(supervisor, events, earlier, later - 1);
        assert(events.take(later).drop_last() =~= events.take(later - 1));
        lemma_position_never_goes_back(
            after_all(supervisor, events.take(later - 1)),
            events.take(later).last(),
        );
    } else {
        lemma_position_along_run(supervisor, events, earlier - 1, later - 1);
        assert(events.take(later).drop_last() =~= events.take(later - 1));
        lemma_position_never_goes_back(
            after_all(supervisor, events.take(later - 1)),
            events.take(later).last(),
        );
    }
}

/// Whatever happens in a run, the waits that the supervisor hands out never
/// shrink from one to the next, and none is longer than the longest wait of
/// the schedule.
pub proof fn lemma_waits_of_a_run_never_shrink(
    supervisor: SupervisorView,
    events: Seq<SupervisorEvent>,
    earlier: int,
    later: int,
)
    requires
        supervisor.policy.wf(),
        0 <= earlier <= later < events.len(),
        answer_at(supervisor, events, earlier) is Wait,
        answer_at(supervisor, events, later) is Wait,
    ensures
        answer_at(supervisor, events, earlier)->millis <= answer_at(supervisor, events, later)->millis,
        answer_at(supervisor, events, later)->millis <= supervisor.policy.max_ms,
{
    let before_earlier = after_all(supervisor, events.take(earlier));
    let before_later = after_all(supervisor, events.take(later));
    lemma_position_along_run(supervisor, events, earlier, later);
    lemma_position_along_run(supervisor, events, 0, earlier);
    lemma_waits_follow_schedule(before_earlier, events[earlier]);
    lemma_waits_follow_schedule(before_later, events[later]);
    lemma_waits_never_shrink(
        supervisor.policy,
        before_earlier.retries as nat,
        before_later.retries as nat,
    );
    lemma_waits_are_capped(supervisor.policy, before_later.retries as nat);
}

/// Two sessions that fail one after the other: the wait before the second
/// new attempt is at least as long as the wait before the first, and at
/// most the longest wait.
pub proof fn lemma_consecutive_failures_wait_longer(
    supervisor: SupervisorView,
    first: SessionError,
    second: SessionError,
)
    requires
        supervisor.policy.wf(),
        supervisor.phase == SupervisorPhase::Running,
        supervise(
            supervisor,
            SupervisorEvent::SessionEnded(SessionOutcome::Transient(first)),
        ).1 is Wait,
    ensures
        ({
            let (waiting, first_wait) = supervise(
                supervisor,
                SupervisorEvent::SessionEnded(SessionOutcome::Transient(first)),
            );
            let (connecting, reconnect) = supervise(waiting, SupervisorEvent::WaitElapsed);
            let (running, run) = supervise(connecting, SupervisorEvent::Connected);
            let (_, second_wait) = supervise(
                running,
                SupervisorEvent::SessionEnded(SessionOutcome::Transient(second)),
            );
            &&& reconnect == SupervisorAction::Connect
            &&& run == SupervisorAction::RunSession
            &&& second_wait matches SupervisorAction::Wait { millis } ==> first_wait->millis
                <= millis <= supervisor.policy.max_ms
            &&& supervisor.policy.max_retries is None && second != SessionError::Cancelled
                ==> second_wait is Wait
        }),
{
    let (waiting, first_wait) = supervise(
        supervisor,
        SupervisorEvent::SessionEnded(SessionOutcome::Transient(first)),
    );
    lemma_waits_never_shrink(supervisor.policy, supervisor.retries as nat, waiting.retries as nat);
    lemma_waits_are_capped(supervisor.policy, waiting.retries as nat);
}

/// A session that the feed closed cleanly is followed by a new connection
/// at once, and the position in the schedule stays.
pub proof fn lemma_clean_outcome_reconnects_at_once(supervisor: SupervisorView)
    requires
        supervisor.phase == SupervisorPhase::Running,
    ensures
        supervise(supervisor, SupervisorEvent::SessionEnded(SessionOutcome::Clean)).1
            == SupervisorAction::Connect,
        supervise(supervisor, SupervisorEvent::SessionEnded(SessionOutcome::Clean)).0.retries
            == supervisor.retries,
{
}

/// Where the schedule sets no limit the supervisor never gives up: it stops
/// only when asked to, when its session was cancelled, or when the driver
/// reports what was not asked for.
pub proof fn lemma_never_gives_up_without_limit(supervisor: SupervisorView, event: SupervisorEvent)
    requires
        supervisor.policy.max_retries is None,
        !(supervisor.phase is Stopped),
        supervise(supervisor, event).0.phase is Stopped,
    ensures
        supervise(supervisor, event).0.phase != SupervisorPhase::Stopped(
            StopReason::RetriesExhausted,
        ),
        supervise(supervisor, event).0.phase == SupervisorPhase::Stopped(StopReason::Shutdown) <==> (
        event == SupervisorEvent::Shutdown || (supervisor.phase == SupervisorPhase::Running && event
            == SupervisorEvent::SessionEnded(
            SessionOutcome::Transient(SessionError::Cancelled),
        ))),
{
}

/// A session that failed, other than by being cancelled, is always followed
/// by a new attempt where the schedule sets no limit: first the wait, then
/// the connection.
pub proof fn lemma_failed_session_is_retried(supervisor: SupervisorView, error: SessionError)
    requires
        supervisor.policy.max_retries is None,
        supervisor.phase == SupervisorPhase::Running,
        error != SessionError::Cancelled,
    ensures
        ({
            let (waiting, wait) = supervise(
                supervisor,
                SupervisorEvent::SessionEnded(SessionOutcome::Transient(error)),
            );
            &&& wait == SupervisorAction::Wait {
                millis: supervisor.policy.wait_at(supervisor.retries as nat),
            }
            &&& supervise(waiting, SupervisorEvent::WaitElapsed).1 == SupervisorAction::Connect
        }),
{
}

/// Where the schedule sets a limit, no more waits than that are handed out.
pub proof fn lemma_limit_is_kept(supervisor: SupervisorView, event: SupervisorEvent)
    requires
        supervisor.policy.max_retries is Some,
        supervisor.retries <= supervisor.policy.max_retries->0,
    ensures
        supervise(supervisor, event).0.retries <= supervisor.policy.max_retries->0,
        supervise(supervisor, event).1 is Wait ==> supervisor.retries
            < supervisor.policy.max_retries->0,
{
}

/// One session at a time: a session is started only on a fresh connection,
/// and while it runs nothing but its end leads to a new connection.
pub proof fn lemma_one_session_at_a_time(supervisor: SupervisorView, event: SupervisorEvent)
    ensures
        supervise(supervisor, event).1 == SupervisorAction::RunSession ==> supervisor.phase
            == SupervisorPhase::Connecting && event == SupervisorEvent::Connected && supervise(
            supervisor,
            event,
        ).0.phase == SupervisorPhase::Running,
        supervisor.phase == SupervisorPhase::Running && !(event is SessionEnded) ==> supervise(
            supervisor,
            event,
        ).1 is Stop,
{
}

/// A stopped supervisor stays stopped.
pub proof fn lemma_stopped_absorbs(supervisor: SupervisorView, event: SupervisorEvent)
    requires
        supervisor.phase is Stopped,
    ensures
        supervise(supervisor, event).0 == supervisor,
        supervise(supervisor, event).1 == SupervisorAction::Stop(supervisor.phase->Stopped_0),
{
}

} // verus!
