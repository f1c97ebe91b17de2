//! The records of the streaming service, as far as the settlement reads them.

use vstd::prelude::*;
use crate::internal::SagaError;

pub mod u128_dec_format;

verus! {

/// The identifier of a payment stream: a 32-byte hash.
pub type StreamId = [u8; 32];

/// The identifier that stands where no stream has been opened: all zeros.
pub open spec fn no_stream() -> StreamId {
    vstd::array::spec_array_fill_for_copy_type::<u8, 32>(0u8)
}

/// The identifier that stands where no stream has been opened.
pub fn empty_stream_id() -> (r: StreamId)
    ensures
        r == no_stream(),
        forall|i: int| 0 <= i < 32 ==> r@[i] == 0u8,
{
    broadcast use vstd::array::group_array_axioms;

    [0u8; 32]
}

/// Why a stream has come to its end.
#[derive(Clone, Copy, Debug, PartialEq, Eq, Structural)]
pub enum StreamFinishReason {
    StoppedByOwner,
    StoppedByReceiver,
    FinishedNaturally,
    FinishedWhileTransferred,
    FinishedBecauseCannotBeExtended,
}

/// The status of a stream as the service reports it.
#[derive(Clone, Copy, Debug, PartialEq, Eq, Structural)]
pub enum StreamStatus {
    Initialized,
    Active,
    Paused,
    Finished { reason: StreamFinishReason },
}

impl StreamStatus {
    /// Whether the stream has ended, for whatever reason.
    pub open spec fn is_finished(self) -> bool {
        self is Finished
    }

    /// Whether the stream has ended, computed.
    pub fn has_finished(&self) -> (r: bool)
        ensures
            r == self.is_finished(),
    {
        match self {
            StreamStatus::Finished { .. } => true,
            _ => false,
        }
    }
}

/// A payment stream: one player's clock.
#[derive(Clone, Copy, Debug, PartialEq, Eq)]
pub struct Stream {
    pub id: StreamId,
    /// What is left in the stream.
    pub balance: u128,
    /// What the receiver could withdraw by now, by the stream's rate.
    pub available_to_withdraw_by_formula: u128,
    pub status: StreamStatus,
}

/// An account of the streaming service.
#[derive(Clone, Copy, Debug, PartialEq, Eq)]
pub struct AccountView {
    pub active_incoming_streams: u32,
    pub active_outgoing_streams: u32,
    pub inactive_incoming_streams: u32,
    pub inactive_outgoing_streams: u32,
    pub deposit: u128,
    pub stake: u128,
    pub last_created_stream: Option<StreamId>,
    pub is_cron_allowed: bool,
}

/// What came back from a remote call, once its payload has been read.
#[derive(Debug, PartialEq, Eq)]
pub enum Reply<T> {
    /// The call itself failed.
    Failed,
    /// The call succeeded with a payload of another shape than expected.
    Malformed,
    /// The call succeeded with this payload.
    Received(T),
}

/// What a step that waits for one answer reads: exactly one answer must have
/// come, from a call that succeeded, in the shape expected.
pub open spec fn single<T>(results: Seq<Reply<T>>) -> Result<T, SagaError> {
    if results.len() != 1 {
        Err(SagaError::WrongResultsCount)
    } else {
        match results[0] {
            Reply::Failed => Err(SagaError::CallFailed),
            Reply::Malformed => Err(SagaError::WrongValueReceived),
            Reply::Received(value) => Ok(value),
        }
    }
}

/// Reads the one answer that a step waits for.
pub fn read_single<T: Copy>(results: &Vec<Reply<T>>) -> (r: Result<T, SagaError>)
    ensures
        r == single(results@),
{
    if results.len() != 1 {
        return Err(SagaError::WrongResultsCount);
    }
    match &results[0] {
        Reply::Failed => Err(SagaError::CallFailed),
        Reply::Malformed => Err(SagaError::WrongValueReceived),
        Reply::Received(value) => Ok(*value),
    }
}

} // verus!
