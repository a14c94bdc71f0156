//! What holds of every session, proved from the definition of its steps.

use crate::codec::decode_failure;
use crate::dispatch::{dispatch_of, DispatchView};
use crate::error::{ProtocolError, SessionError, SessionOutcome};
use crate::session::{
    acknowledged, replayed, step_of, ActionView, EventView, NoticeView, PersistPolicy, PhaseView,
    SessionView,
};
use crate::sink::params_of;
use crate::update::{arrival_seconds, StreamEventView, UpdateView};
use vstd::prelude::*;

verus! {

/// The session after a sequence of events, each answered in turn.
pub open spec fn after_all(session: SessionView, events: Seq<EventView>) -> SessionView
    decreases events.len(),
{
    if events.len() == 0 {
        session
    } else {
        step_of(after_all(session, events.drop_last()), events.last()).0
    }
}

/// What the session tells the driver to do on the event at `index`, after
/// the events before it.
pub open spec fn answer_at(session: SessionView, events: Seq<EventView>, index: int) -> ActionView
    recommends
        0 <= index < events.len(),
{
    step_of(after_all(session, events.take(index)), events[index]).1.action
}

/// Whether no count of `later` is below that of `earlier`.
pub open spec fn counts_kept(earlier: SessionView, later: SessionView) -> bool {
    &&& earlier.stats.persisted <= later.stats.persisted
    &&& earlier.stats.replies <= later.stats.replies
    &&& earlier.stats.dropped <= later.stats.dropped
    &&& earlier.stats.abandoned <= later.stats.abandoned
}

/// A closed session stays as it is and answers every event with `Finish`.
pub proof fn lemma_closed_absorbs(session: SessionView, event: EventView)
    requires
        session.phase is Closed,
    ensures
        step_of(session, event).0 == session,
        step_of(session, event).1.action == ActionView::Finish(session.phase->Closed_0),
        step_of(session, event).1.notice is None,
{
}

/// Whatever is reported to a closed session, in whatever order, it stays as
/// it is: nothing is stored, nothing is sent, and every answer is `Finish`.
pub proof fn lemma_nothing_happens_after_close(session: SessionView, events: Seq<EventView>)
    requires
        session.phase is Closed,
    ensures
        after_all(session, events) == session,
        forall|i: int|
            0 <= i < events.len() ==> #[trigger] answer_at(session, events, i) == ActionView::Finish(
                session.phase->Closed_0,
            ),
    decreases events.len(),
{
    if events.len() > 0 {
        lemma_nothing_happens_after_close(session, events.drop_last());
        lemma_closed_absorbs(session, events.last());
    }
    assert forall|i: int| 0 <= i < events.len() implies #[trigger] answer_at(session, events, i)
        == ActionView::Finish(session.phase->Closed_0) by {
        lemma_nothing_happens_after_close(session, events.take(i));
        lemma_closed_absorbs(session, events[i]);
    }
}

/// An update of unknown kind ends a reading session at once, as a transient
/// failure, and changes no count.
pub proof fn lemma_unknown_update_ends_session(session: SessionView, update: UpdateView)
    requires
        session.phase is Receiving,
        update.kind is Unknown,
    ensures
        ({
            let (next, step) = step_of(
                session,
                EventView::Inbound(StreamEventView::Update(update)),
            );
            &&& next.phase matches PhaseView::Closed(SessionOutcome::Transient(SessionError::Protocol(_)))
            &&& step.action == ActionView::Finish(next.phase->Closed_0)
            &&& next.stats == session.stats
            &&& arrival_seconds(update.created_at) is Ok ==> next.phase == PhaseView::Closed(
                SessionOutcome::Transient(SessionError::Protocol(ProtocolError::UnknownUpdate)),
            )
        }),
{
}

/// After an update of unknown kind nothing is stored any more: whatever is
/// reported next, the session stays closed with the counts it had.
pub proof fn lemma_nothing_stored_after_unknown_update(
    session: SessionView,
    update: UpdateView,
    later: Seq<EventView>,
)
    requires
        session.phase is Receiving,
        update.kind is Unknown,
    ensures
        ({
            let closed = step_of(session, EventView::Inbound(StreamEventView::Update(update))).0;
            &&& after_all(closed, later) == closed
            &&& after_all(closed, later).stats.persisted == session.stats.persisted
            &&& forall|i: int|
                0 <= i < later.len() ==> #[trigger] answer_at(closed, later, i) is Finish
        }),
{
    lemma_unknown_update_ends_session(session, update);
    let closed = step_of(session, EventView::Inbound(StreamEventView::Update(update))).0;
    lemma_nothing_happens_after_close(closed, later);
    assert forall|i: int| 0 <= i < later.len() implies #[trigger] answer_at(closed, later, i)
        is Finish by {
        assert(answer_at(closed, later, i) == ActionView::Finish(closed.phase->Closed_0));
    }
}

/// A session ends cleanly only when the feed closes the stream that the
/// session is reading.
pub proof fn lemma_clean_only_when_feed_closes(session: SessionView, event: EventView)
    requires
        !(session.phase is Closed),
        step_of(session, event).0.phase == PhaseView::Closed(SessionOutcome::Clean),
    ensures
        session.phase is Receiving,
        event == EventView::Inbound(StreamEventView::End),
{
}

/// The feed closing the stream ends a reading session cleanly.
pub proof fn lemma_end_of_stream_is_clean(session: SessionView)
    requires
        session.phase is Receiving,
    ensures
        step_of(session, EventView::Inbound(StreamEventView::End)).0.phase == PhaseView::Closed(
            SessionOutcome::Clean,
        ),
        step_of(session, EventView::Inbound(StreamEventView::End)).1.action == ActionView::Finish(
            SessionOutcome::Clean,
        ),
{
}

/// A transaction that does not decode is dropped and the session reads on.
pub proof fn lemma_malformed_transaction_is_absorbed(session: SessionView, update: UpdateView)
    requires
        session.phase is Receiving,
        arrival_seconds(update.created_at) is Ok,
        update.kind is Transaction,
        decode_failure(update.kind->Transaction_0) is Some,
    ensures
        ({
            let (next, step) = step_of(
                session,
                EventView::Inbound(StreamEventView::Update(update)),
            );
            &&& next.phase is Receiving
            &&& step.action is Receive
            &&& step.notice == Some(
                NoticeView::Dropped(decode_failure(update.kind->Transaction_0)->0),
            )
            &&& next.stats.persisted == session.stats.persisted
        }),
{
}

/// A write is asked for again only while fewer than `max_attempts` writes
/// of the record have failed, and each time the count of writes goes up by
/// one: no record is written more than `max_attempts` times, or once where
/// that is zero.
pub proof fn lemma_retries_are_bounded(session: SessionView)
    requires
        session.phase is Persisting,
    ensures
        ({
            let attempts = session.phase->Persisting_attempts;
            let (next, step) = step_of(session, EventView::PersistFailed);
            if attempts < session.policy.max_attempts {
                &&& step.action == ActionView::Persist(session.phase->Persisting_params)
                &&& next.phase is Persisting
                &&& next.phase->Persisting_attempts == attempts + 1
                &&& next.phase->Persisting_record == session.phase->Persisting_record
            } else {
                &&& !(step.action is Persist)
                &&& !(next.phase is Persisting)
            }
        }),
{
}

/// A failed write ends the session only where the policy is to escalate.
pub proof fn lemma_failed_write_ends_session_only_on_escalation(session: SessionView)
    requires
        session.phase is Persisting,
        !session.policy.escalate,
    ensures
        !(step_of(session, EventView::PersistFailed).0.phase is Closed),
{
}

/// No step lowers a count, and only a successful write raises the count of
/// stored records.
pub proof fn lemma_counts_never_fall(session: SessionView, event: EventView)
    ensures
        counts_kept(session, step_of(session, event).0),
        step_of(session, event).0.stats.persisted != session.stats.persisted ==> session.phase
            is Persisting && event is Persisted,
{
}

/// A step keeps the subscription and the policy of a session.
pub proof fn lemma_configuration_is_kept(session: SessionView, event: EventView)
    ensures
        step_of(session, event).0.spec == session.spec,
        step_of(session, event).0.policy == session.policy,
{
}

/// A closed session is not changed by a replay.
pub proof fn lemma_replay_stops_at_close(session: SessionView, inbound: Seq<StreamEventView>)
    requires
        session.phase is Closed,
    ensures
        replayed(session, inbound) == session,
    decreases inbound.len(),
{
    if inbound.len() > 0 {
        lemma_replay_stops_at_close(session, inbound.drop_last());
    }
}

/// Replaying a stream is replaying its first part and then the rest.
pub proof fn lemma_replay_in_parts(
    session: SessionView,
    first: Seq<StreamEventView>,
    rest: Seq<StreamEventView>,
)
    ensures
        replayed(session, first + rest) == replayed(replayed(session, first), rest),
    decreases rest.len(),
{
    if rest.len() == 0 {
        assert(first + rest =~= first);
    } else {
        lemma_replay_in_parts(session, first, rest.drop_last());
        assert((first + rest).drop_last() =~= first + rest.drop_last());
        assert((first + rest).last() == rest.last());
    }
}

/// In a replay a session is between reads: reading, or closed.
pub proof fn lemma_replay_is_between_reads(session: SessionView, inbound: Seq<StreamEventView>)
    requires
        session.phase is Receiving || session.phase is Closed,
    ensures
        replayed(session, inbound).phase is Receiving || replayed(session, inbound).phase is Closed,
        counts_kept(session, replayed(session, inbound)),
    decreases inbound.len(),
{
    if inbound.len() > 0 {
        lemma_replay_is_between_reads(session, inbound.drop_last());
    }
}

/// Where a replayed stream holds an update of unknown kind at `index`, and
/// the session is still reading when it gets there, the session ends there
/// as a transient failure, and what the stream holds after that point is
/// not stored: the counts are those that the session had at that point.
pub proof fn lemma_replay_ends_at_unknown_update(
    session: SessionView,
    inbound: Seq<StreamEventView>,
    index: int,
)
    requires
        0 <= index < inbound.len(),
        inbound[index] is Update,
        inbound[index]->Update_0.kind is Unknown,
        replayed(session, inbound.take(index)).phase is Receiving,
    ensures
        replayed(session, inbound).phase matches PhaseView::Closed(
            SessionOutcome::Transient(SessionError::Protocol(_)),
        ),
        replayed(session, inbound).stats == replayed(session, inbound.take(index)).stats,
{
    let before = replayed(session, inbound.take(index));
    let upto = inbound.take(index + 1);
    assert(upto.drop_last() =~= inbound.take(index));
    assert(upto.last() == inbound[index]);
    lemma_unknown_update_ends_session(before, inbound[index]->Update_0);
    let closed = replayed(session, upto);
    assert(closed == acknowledged(step_of(before, EventView::Inbound(inbound[index]))));
    assert(inbound =~= upto + inbound.skip(index + 1));
    lemma_replay_in_parts(session, upto, inbound.skip(index + 1));
    lemma_replay_stops_at_close(closed, inbound.skip(index + 1));
}

/// Whether a read ends a reading session whose writes succeed: the
/// dispatcher says so, or the record cannot be offered to the store and the
/// policy is to escalate.
pub open spec fn read_ends(policy: PersistPolicy, read: StreamEventView) -> bool {
    match dispatch_of(read) {
        DispatchView::Terminate(_) => true,
        DispatchView::Store { record, .. } => params_of(record) is Err && policy.escalate,
        _ => false,
    }
}

/// Whether a read holds a transaction that decodes and fits the store.
pub open spec fn read_stores(read: StreamEventView) -> bool {
    dispatch_of(read) matches DispatchView::Store { record, .. } && params_of(record) is Ok
}

/// Whether a read holds a ping.
pub open spec fn read_is_answered(read: StreamEventView) -> bool {
    dispatch_of(read) is Reply
}

/// Whether some read of a stream ends the session.
pub open spec fn ends_within(policy: PersistPolicy, inbound: Seq<StreamEventView>) -> bool {
    exists|i: int| 0 <= i < inbound.len() && read_ends(policy, #[trigger] inbound[i])
}

/// How many reads of a stream hold a transaction to store, counting up to
/// the first read that ends the session.
pub open spec fn stored_by(policy: PersistPolicy, inbound: Seq<StreamEventView>) -> nat
    decreases inbound.len(),
{
    if inbound.len() == 0 {
        0
    } else {
        let before = stored_by(policy, inbound.drop_last());
        if !ends_within(policy, inbound.drop_last()) && read_stores(inbound.last()) {
            before + 1
        } else {
            before
        }
    }
}

/// How many reads of a stream hold a ping, counting up to the first read
/// that ends the session.
pub open spec fn answered_by(policy: PersistPolicy, inbound: Seq<StreamEventView>) -> nat
    decreases inbound.len(),
{
    if inbound.len() == 0 {
        0
    } else {
        let before = answered_by(policy, inbound.drop_last());
        if !ends_within(policy, inbound.drop_last()) && read_is_answered(inbound.last()) {
            before + 1
        } else {
            before
        }
    }
}

/// A replay stores one record for each transaction that decodes and fits
/// the store, and answers each ping once, up to the first read that ends
/// the session and no further; it ends where a read ends it, and only there.
pub proof fn lemma_replay_tally(session: SessionView, inbound: Seq<StreamEventView>)
    requires
        session.phase is Receiving,
        session.stats.persisted + inbound.len() <= u64::MAX,
        session.stats.replies + inbound.len() <= u64::MAX,
    ensures
        replayed(session, inbound).phase is Closed <==> ends_within(session.policy, inbound),
        !ends_within(session.policy, inbound) ==> replayed(session, inbound).phase is Receiving,
        replayed(session, inbound).stats.persisted == session.stats.persisted + stored_by(
            session.policy,
            inbound,
        ),
        replayed(session, inbound).stats.replies == session.stats.replies + answered_by(
            session.policy,
            inbound,
        ),
        stored_by(session.policy, inbound) <= inbound.len(),
        answered_by(session.policy, inbound) <= inbound.len(),
        replayed(session, inbound).policy == session.policy,
    decreases inbound.len(),
{
    let policy = session.policy;
    if inbound.len() > 0 {
        let front = inbound.drop_last();
        lemma_replay_tally(session, front);
        let before = replayed(session, front);
        if ends_within(policy, front) {
            let i = choose|i: int| 0 <= i < front.len() && read_ends(policy, #[trigger] front[i]);
            assert(inbound[i] == front[i]);
        } else {
            if read_ends(policy, inbound.last()) {
                assert(inbound[inbound.len() - 1] == inbound.last());
            } else {
                assert forall|i: int| 0 <= i < inbound.len() implies !read_ends(
                    policy,
                    #[trigger] inbound[i],
                ) by {
                    if i < front.len() {
                        assert(front[i] == inbound[i]);
                    }
                }
            }
        }
    }
}

} // verus!
