//! What the inbound side of the stream yields.

use crate::codec::{PayloadView, TransactionPayload};
use crate::error::ProtocolError;
use vstd::prelude::*;

verus! {

/// A point in time as the feed writes it: whole seconds since the Unix epoch
/// and the nanoseconds past them.
#[derive(Clone, Copy, Debug, PartialEq, Eq, Structural)]
pub struct Timestamp {
    pub seconds: i64,
    pub nanos: i32,
}

/// One past the largest count of nanoseconds within a second.
pub const NANOS_PER_SECOND: i32 = 1_000_000_000;

/// The arrival time of an update in whole seconds since the Unix epoch.
///
/// An update without a time, or with one before the epoch or with
/// nanoseconds outside of a second, breaks the protocol.
pub open spec fn arrival_seconds(created_at: Option<Timestamp>) -> Result<u64, ProtocolError> {
    match created_at {
        None => Err(ProtocolError::MissingTimestamp),
        Some(at) => if at.seconds >= 0 && 0 <= at.nanos < NANOS_PER_SECOND {
            Ok(at.seconds as u64)
        } else {
            Err(ProtocolError::InvalidTimestamp)
        },
    }
}

/// Computes the arrival time of an update in whole seconds since the Unix epoch.
pub fn observed_at(created_at: Option<Timestamp>) -> (result: Result<u64, ProtocolError>)
    ensures
        result == arrival_seconds(created_at),
{
    match created_at {
        None => Err(ProtocolError::MissingTimestamp),
        Some(at) => if at.seconds >= 0 && 0 <= at.nanos && at.nanos < NANOS_PER_SECOND {
            Ok(at.seconds as u64)
        } else {
            Err(ProtocolError::InvalidTimestamp)
        },
    }
}

/// The kinds of update that the feed sends.
#[derive(Clone, Debug, PartialEq, Eq)]
pub enum UpdateKind {
    /// A transaction that matched the subscription.
    Transaction(TransactionPayload),
    /// The feed asks whether the client is alive.
    Ping,
    /// The feed answers a ping of the client.
    Pong,
    /// Any other kind, or none at all.
    Unknown,
}

/// The mathematical content of an [`UpdateKind`].
pub enum KindView {
    Transaction(PayloadView),
    Ping,
    Pong,
    Unknown,
}

impl View for UpdateKind {
    type V = KindView;

    open spec fn view(&self) -> KindView {
        match self {
            UpdateKind::Transaction(payload) => KindView::Transaction(payload@),
            UpdateKind::Ping => KindView::Ping,
            UpdateKind::Pong => KindView::Pong,
            UpdateKind::Unknown => KindView::Unknown,
        }
    }
}

/// One message of the feed.
#[derive(Clone, Debug, PartialEq, Eq)]
pub struct InboundUpdate {
    /// Names of the filters that the update matched. They annotate what is
    /// reported of the update and decide nothing.
    pub filters: Vec<String>,
    /// When the feed made the update.
    pub created_at: Option<Timestamp>,
    /// What the update is.
    pub kind: UpdateKind,
}

/// The mathematical content of an [`InboundUpdate`].
pub struct UpdateView {
    pub filters: Seq<Seq<char>>,
    pub created_at: Option<Timestamp>,
    pub kind: KindView,
}

impl View for InboundUpdate {
    type V = UpdateView;

    open spec fn view(&self) -> UpdateView {
        UpdateView {
            filters: self.filters.deep_view(),
            created_at: self.created_at,
            kind: self.kind@,
        }
    }
}

/// What one read of the inbound stream gives.
#[derive(Clone, Debug, PartialEq, Eq)]
pub enum StreamEvent {
    /// A message arrived.
    Update(InboundUpdate),
    /// The read failed.
    TransportError,
    /// The feed closed the stream.
    End,
}

/// The mathematical content of a [`StreamEvent`].
pub enum StreamEventView {
    Update(UpdateView),
    TransportError,
    End,
}

impl View for StreamEvent {
    type V = StreamEventView;

    open spec fn view(&self) -> StreamEventView {
        match self {
            StreamEvent::Update(update) => StreamEventView::Update(update@),
            StreamEvent::TransportError => StreamEventView::TransportError,
            StreamEvent::End => StreamEventView::End,
        }
    }
}

} // verus!
