//! The failures that the pipeline tells apart.

use vstd::prelude::*;

verus! {

/// Why a transaction update yields no record. Such an update is dropped and
/// the session goes on.
#[derive(Clone, Copy, Debug, PartialEq, Eq, Structural)]
pub enum DecodeError {
    /// The account-key list is absent or empty, so there is no signer.
    MissingAccountKeys,
    /// The update carries no metadata, so there is no fee.
    MissingMetadata,
    /// The signature is not 64 bytes long.
    InvalidSignature,
}

/// Why a record was not stored.
#[derive(Clone, Copy, Debug, PartialEq, Eq, Structural)]
pub enum PersistError {
    /// A number of the record does not fit the column it is meant for.
    ValueOutOfRange,
    /// The store failed to carry out the write.
    Storage,
}

/// A message that the feed should never have sent.
#[derive(Clone, Copy, Debug, PartialEq, Eq, Structural)]
pub enum ProtocolError {
    /// The update is of a kind that this pipeline does not know, or of none.
    UnknownUpdate,
    /// The update carries no arrival time.
    MissingTimestamp,
    /// The arrival time lies before the Unix epoch or is malformed.
    InvalidTimestamp,
}

/// Where the transport failed.
#[derive(Clone, Copy, Debug, PartialEq, Eq, Structural)]
pub enum TransportError {
    /// The subscription could not be opened.
    Subscribe,
    /// Reading the next update failed.
    Receive,
    /// Writing a request failed.
    Send,
}

/// Why a session ended other than by the feed closing the stream.
#[derive(Clone, Copy, Debug, PartialEq, Eq, Structural)]
pub enum SessionError {
    /// The transport failed.
    Transport(TransportError),
    /// The feed broke the protocol.
    Protocol(ProtocolError),
    /// A record could not be stored, and the policy is to end the session then.
    Persist(PersistError),
    /// The surrounding process asked the session to stop.
    Cancelled,
    /// The driver reported something that the session was not waiting for.
    OutOfOrder,
}

/// How a session ended. Every ending but a clean one is worth a new attempt.
#[derive(Clone, Copy, Debug, PartialEq, Eq, Structural)]
pub enum SessionOutcome {
    /// The feed closed the stream.
    Clean,
    /// Anything else.
    Transient(SessionError),
}

/// What is wrong with the configuration given at startup. Not retried.
#[derive(Clone, Copy, Debug, PartialEq, Eq, Structural)]
pub enum ConfigError {
    /// No address of the store was given.
    MissingStoreUrl,
    /// No address of the feed was given.
    MissingEndpoint,
    /// The backoff schedule is not one: a zero divisor, a factor below one,
    /// or a first wait above the longest one.
    InvalidBackoff,
}

} // verus!
