//! The update dispatcher: what to do about one read of the inbound stream.
//!
//! The decision depends on the read alone. A transaction is decoded and, if
//! it decodes, handed on to be stored; one that does not decode is dropped
//! and the session goes on. A ping is answered. A pong needs nothing. An
//! update of unknown kind, a failed read and the end of the stream end the
//! session.

use crate::codec::{decode, decoded, CanonicalRecord, RecordView};
use crate::error::{DecodeError, ProtocolError, SessionError, SessionOutcome, TransportError};
use crate::subscription::{pong_request, pong_request_of, OutboundRequest, RequestView};
use crate::text::copy_texts;
use crate::update::{arrival_seconds, observed_at, KindView, StreamEvent, StreamEventView, UpdateKind};
use vstd::prelude::*;

verus! {

/// What the dispatcher decides.
#[derive(Clone, Debug, PartialEq, Eq)]
pub enum Dispatch {
    /// Store this record; `filters` names the filters that the update matched.
    Store { record: CanonicalRecord, filters: Vec<String> },
    /// Write this request to the feed.
    Reply(OutboundRequest),
    /// Nothing to do.
    Skip,
    /// The transaction is malformed: report it and go on.
    Drop(DecodeError),
    /// The session is over.
    Terminate(SessionOutcome),
}

/// The mathematical content of a [`Dispatch`].
pub enum DispatchView {
    Store { record: RecordView, filters: Seq<Seq<char>> },
    Reply(RequestView),
    Skip,
    Drop(DecodeError),
    Terminate(SessionOutcome),
}

impl View for Dispatch {
    type V = DispatchView;

    open spec fn view(&self) -> DispatchView {
        match self {
            Dispatch::Store { record, filters } => DispatchView::Store {
                record: record@,
                filters: filters.deep_view(),
            },
            Dispatch::Reply(request) => DispatchView::Reply(request@),
            Dispatch::Skip => DispatchView::Skip,
            Dispatch::Drop(error) => DispatchView::Drop(*error),
            Dispatch::Terminate(outcome) => DispatchView::Terminate(*outcome),
        }
    }
}

/// The outcome of a session that ends on a broken protocol.
pub open spec fn protocol_violation(error: ProtocolError) -> SessionOutcome {
    SessionOutcome::Transient(SessionError::Protocol(error))
}

/// The decision for one read of the inbound stream.
pub open spec fn dispatch_of(event: StreamEventView) -> DispatchView {
    match event {
        StreamEventView::TransportError => DispatchView::Terminate(
            SessionOutcome::Transient(SessionError::Transport(TransportError::Receive)),
        ),
        StreamEventView::End => DispatchView::Terminate(SessionOutcome::Clean),
        StreamEventView::Update(update) => match arrival_seconds(update.created_at) {
            Err(error) => DispatchView::Terminate(protocol_violation(error)),
            Ok(seconds) => match update.kind {
                KindView::Transaction(payload) => match decoded(payload, seconds) {
                    Ok(record) => DispatchView::Store { record, filters: update.filters },
                    Err(error) => DispatchView::Drop(error),
                },
                KindView::Ping => DispatchView::Reply(pong_request_of()),
                KindView::Pong => DispatchView::Skip,
                KindView::Unknown => DispatchView::Terminate(
                    protocol_violation(ProtocolError::UnknownUpdate),
                ),
            },
        },
    }
}

/// Decides what to do about one read of the inbound stream.
pub fn dispatch(event: &StreamEvent) -> (decision: Dispatch)
    ensures
        decision@ == dispatch_of(event@),
{
    match event {
        StreamEvent::TransportError => Dispatch::Terminate(
            SessionOutcome::Transient(SessionError::Transport(TransportError::Receive)),
        ),
        StreamEvent::End => Dispatch::Terminate(SessionOutcome::Clean),
        StreamEvent::Update(update) => match observed_at(update.created_at) {
            Err(error) => Dispatch::Terminate(
                SessionOutcome::Transient(SessionError::Protocol(error)),
            ),
            Ok(seconds) => match &update.kind {
                UpdateKind::Transaction(payload) => match decode(payload, seconds) {
                    Ok(record) => Dispatch::Store { record, filters: copy_texts(&update.filters) },
                    Err(error) => Dispatch::Drop(error),
                },
                UpdateKind::Ping => Dispatch::Reply(pong_request()),
                UpdateKind::Pong => Dispatch::Skip,
                UpdateKind::Unknown => Dispatch::Terminate(
                    SessionOutcome::Transient(SessionError::Protocol(ProtocolError::UnknownUpdate)),
                ),
            },
        },
    }
}

} // verus!
