//! The poller's decision: it paces how often the executor is asked to
//! read the device, and stops on a terminate message or a closed channel.
//! The pacing sleep itself happens outside the library.

use vstd::prelude::*;

use crate::muteme::IntMessage;

verus! {

/// The interval, in milliseconds, between poll requests to the executor.
pub const POLL_INTERVAL_MS: u64 = 50;

/// What the poller's timed receive observed.
#[derive(Clone, Copy, Debug, PartialEq, Eq, Structural)]
pub enum PollerInput {
    Message(IntMessage),
    Timeout,
    Disconnected,
}

/// Whether an input ends the poller's loop.
pub open spec fn poller_stops_spec(input: PollerInput) -> bool {
    match input {
        PollerInput::Message(IntMessage::Terminate) => true,
        PollerInput::Timeout => false,
        PollerInput::Disconnected => true,
    }
}

/// Decides whether the poller's loop ends: it does on a terminate message
/// or a closed channel; a timed-out receive just starts the next poll.
pub fn poller_stops(input: &PollerInput) -> (stop: bool)
    ensures
        stop == poller_stops_spec(*input),
{
    match input {
        PollerInput::Message(IntMessage::Terminate) => true,
        PollerInput::Timeout => false,
        PollerInput::Disconnected => true,
    }
}

} // verus!
