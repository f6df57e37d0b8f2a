//! The device executor's decisions: decoding raw touch-state bytes into
//! debounced events, the bounded-retry policy that device reads and writes
//! follow, and the dispatch of the executor's inbound messages. The raw
//! reads and writes themselves happen outside the library, which is handed
//! their outcomes.

use vstd::prelude::*;

use crate::muteme::{DeviceEvent, ExecMessage};

verus! {

/// Retries granted to a device read or write after its first failed try.
pub const IO_RETRIES: u8 = 3;

/// Fixed backoff, in milliseconds, between retried device operations.
pub const IO_BACKOFF_MS: u64 = 10;

/// The raw touch-state value that means the button is touched.
pub const RAW_TOUCH: u8 = 1;

/// The raw touch-state value that means the button is released.
pub const RAW_RELEASE: u8 = 2;

/// The event a raw touch-state value decodes to, given the raw value
/// remembered from before: a touch or release value that differs from the
/// remembered one yields its event; a repeat of the remembered value and
/// any other value — zero and noise included — yield none.
pub open spec fn decoded_event(prev: u8, raw: u8) -> Option<DeviceEvent> {
    if raw == RAW_TOUCH && prev != RAW_TOUCH {
        Some(DeviceEvent::Touch)
    } else if raw == RAW_RELEASE && prev != RAW_RELEASE {
        Some(DeviceEvent::Release)
    } else {
        None
    }
}

/// The raw value remembered after seeing `raw`: it replaces the remembered
/// one exactly when it produced an event.
pub open spec fn decoder_next(prev: u8, raw: u8) -> u8 {
    if (raw == RAW_TOUCH || raw == RAW_RELEASE) && raw != prev {
        raw
    } else {
        prev
    }
}

/// Debounces the stream of raw touch-state values into discrete events.
pub struct InputDecoder {
    /// The last raw value that produced an event; zero before any did.
    pub last_raw: u8,
}

impl InputDecoder {
    /// A fresh decoder, before any raw value was seen.
    pub fn new() -> (d: Self)
        ensures
            d.last_raw == 0,
    {
        InputDecoder { last_raw: 0 }
    }

    /// Decode one raw touch-state value into at most one event,
    /// remembering it so that a repeat produces no second event.
    pub fn decode(&mut self, raw: u8) -> (ev: Option<DeviceEvent>)
        ensures
            ev == decoded_event(old(self).last_raw, raw),
            final(self).last_raw == decoder_next(old(self).last_raw, raw),
    {
        if raw == RAW_TOUCH && self.last_raw != RAW_TOUCH {
            self.last_raw = raw;
            Some(DeviceEvent::Touch)
        } else if raw == RAW_RELEASE && self.last_raw != RAW_RELEASE {
            self.last_raw = raw;
            Some(DeviceEvent::Release)
        } else {
            None
        }
    }
}

/// Law: an idle or noisy raw value decodes to no event — neither a value
/// outside the touch/release pair nor a repeat of the value seen before
/// ever produces one.
pub proof fn lemma_decode_filtered(prev: u8, raw: u8)
    requires
        raw == prev || (raw != RAW_TOUCH && raw != RAW_RELEASE),
    ensures
        decoded_event(prev, raw) is None,
{
}

/// What one raw device read produced: an error, an idle zero-byte answer,
/// or the touch-state byte of a filled buffer.
#[derive(Clone, Copy, Debug, PartialEq, Eq, Structural)]
pub enum ReadOutcome {
    /// The read call failed.
    Failure,
    /// The read returned zero bytes: the non-blocking device was idle.
    NoData,
    /// The read filled the buffer; the value is its touch-state byte.
    Data(u8),
}

/// The outcome a raw read maps to, given the buffer's touch-state byte and
/// the byte count the read reported (`None` for an error).
pub open spec fn read_outcome_spec(state_byte: u8, count: Option<usize>) -> ReadOutcome {
    match count {
        None => ReadOutcome::Failure,
        Some(n) => if n == 0 {
            ReadOutcome::NoData
        } else {
            ReadOutcome::Data(state_byte)
        },
    }
}

/// Turns the result of one raw read — the fixed 8-byte buffer and the byte
/// count it reported, or `None` for an error — into a read outcome. The
/// touch state travels in byte 3 of the buffer; a count of zero means the
/// non-blocking device had no data, which is not an error.
pub fn outcome_from_read(buf: &[u8; 8], count: Option<usize>) -> (out: ReadOutcome)
    ensures
        out == read_outcome_spec(buf@[3], count),
{
    match count {
        None => ReadOutcome::Failure,
        Some(n) => if n == 0 {
            ReadOutcome::NoData
        } else {
            ReadOutcome::Data(buf[3])
        },
    }
}

/// Law: a read whose buffer holds only zeros never yields an event: its
/// touch-state byte is zero, so whatever outcome the read maps to, nothing
/// decodes from it.
pub proof fn lemma_zero_read_no_event(prev: u8, count: Option<usize>)
    ensures
        read_outcome_spec(0, count) matches ReadOutcome::Data(v) ==> decoded_event(prev, v) is None,
{
}

/// The result of the read retry policy over a sequence of attempt
/// outcomes, with `tries` tries left: the first decisive outcome within
/// the budget, or nothing once the budget or the outcomes are spent.
pub open spec fn read_retry_spec(outcomes: Seq<ReadOutcome>, tries: nat) -> Option<u8>
    decreases tries,
{
    if tries == 0 || outcomes.len() == 0 {
        None
    } else {
        match outcomes[0] {
            ReadOutcome::Failure => read_retry_spec(outcomes.skip(1), (tries - 1) as nat),
            ReadOutcome::NoData => None,
            ReadOutcome::Data(v) => Some(v),
        }
    }
}

/// Runs the bounded-retry read policy over attempt outcomes, one per try,
/// in the order the executor would perform them against the device: a
/// failure consumes one of the `1 + IO_RETRIES` tries, an idle answer ends
/// the call with nothing, and data ends it with the touch-state byte.
/// Exhausted retries yield nothing rather than an error: hardware hiccups
/// must not end the process.
pub fn read_interrupt_result(outcomes: &Vec<ReadOutcome>) -> (r: Option<u8>)
    ensures
        r == read_retry_spec(outcomes@, (1 + IO_RETRIES) as nat),
{
    let total: usize = 1 + IO_RETRIES as usize;
    let n = outcomes.len();
    let mut i: usize = 0;
    assert(outcomes@.skip(0) =~= outcomes@);
    while i < total && i < n
        invariant
            total == 1 + IO_RETRIES,
            n == outcomes@.len(),
            0 <= i <= total,
            i <= n,
            read_retry_spec(outcomes@, (1 + IO_RETRIES) as nat) == read_retry_spec(
                outcomes@.skip(i as int),
                (total - i) as nat,
            ),
        decreases total - i,
    {
        match outcomes[i] {
            ReadOutcome::Failure => {
                assert(outcomes@.skip(i as int).skip(1) =~= outcomes@.skip(i as int + 1));
            },
            ReadOutcome::NoData => {
                return None;
            },
            ReadOutcome::Data(v) => {
                return Some(v);
            },
        }
        i += 1;
    }
    None
}

/// The result of the write retry policy over a sequence of attempt
/// results, with `tries` tries left: delivered exactly when a try within
/// the budget succeeded.
pub open spec fn write_retry_spec(attempts: Seq<bool>, tries: nat) -> bool
    decreases tries,
{
    if tries == 0 || attempts.len() == 0 {
        false
    } else if attempts[0] {
        true
    } else {
        write_retry_spec(attempts.skip(1), (tries - 1) as nat)
    }
}

/// Runs the bounded-retry write policy over attempt results, one per try,
/// in the order the executor would perform them against the device.
/// Returns whether the report was delivered; a write that exhausts its
/// `1 + IO_RETRIES` tries is dropped rather than an error, since the
/// controller re-sends a report on the next cycle anyway.
pub fn write_value_result(attempts: &Vec<bool>) -> (delivered: bool)
    ensures
        delivered == write_retry_spec(attempts@, (1 + IO_RETRIES) as nat),
{
    let total: usize = 1 + IO_RETRIES as usize;
    let n = attempts.len();
    let mut i: usize = 0;
    assert(attempts@.skip(0) =~= attempts@);
    while i < total && i < n
        invariant
            total == 1 + IO_RETRIES,
            n == attempts@.len(),
            0 <= i <= total,
            i <= n,
            write_retry_spec(attempts@, (1 + IO_RETRIES) as nat) == write_retry_spec(
                attempts@.skip(i as int),
                (total - i) as nat,
            ),
        decreases total - i,
    {
        if attempts[i] {
            return true;
        }
        assert(attempts@.skip(i as int).skip(1) =~= attempts@.skip(i as int + 1));
        i += 1;
    }
    false
}

/// The retry budget of one device operation, counted down as tries fail.
pub struct RetryState {
    pub tries_left: u8,
}

/// What the executor does after a failed try: wait the fixed backoff and
/// try again, or give the operation up.
#[derive(Clone, Copy, Debug, PartialEq, Eq, Structural)]
pub enum RetryDecision {
    Backoff,
    GiveUp,
}

impl RetryState {
    /// A fresh budget: one initial try plus `IO_RETRIES` retries.
    pub fn new() -> (s: Self)
        ensures
            s.tries_left == 1 + IO_RETRIES,
    {
        RetryState { tries_left: 1 + IO_RETRIES }
    }

    /// Spend the current try after a failure: retry while budget remains,
    /// give up once it is spent.
    pub fn after_failure(&mut self) -> (d: RetryDecision)
        requires
            old(self).tries_left >= 1,
        ensures
            final(self).tries_left == old(self).tries_left - 1,
            d == (if old(self).tries_left > 1 {
                RetryDecision::Backoff
            } else {
                RetryDecision::GiveUp
            }),
    {
        self.tries_left = self.tries_left - 1;
        if self.tries_left > 0 {
            RetryDecision::Backoff
        } else {
            RetryDecision::GiveUp
        }
    }
}

/// What the executor's blocking receive observed.
#[derive(Clone, Copy, Debug, PartialEq, Eq, Structural)]
pub enum ExecInput {
    Message(ExecMessage),
    Disconnected,
}

/// The executor's next action.
#[derive(Clone, Copy, Debug, PartialEq, Eq, Structural)]
pub enum ExecAction {
    /// Write this report byte to the device.
    Write(u8),
    /// Drain the device's available input.
    Poll,
    /// End the actor loop.
    Stop,
}

/// The action each executor input maps to.
pub open spec fn exec_action_spec(input: ExecInput) -> ExecAction {
    match input {
        ExecInput::Message(ExecMessage::SetReport(v)) => ExecAction::Write(v),
        ExecInput::Message(ExecMessage::ReadInterrupt) => ExecAction::Poll,
        ExecInput::Message(ExecMessage::Terminate) => ExecAction::Stop,
        ExecInput::Disconnected => ExecAction::Stop,
    }
}

/// Decides the executor's next action from what its channel delivered: a
/// report write, a poll of the device, or — on a terminate message or a
/// closed channel — the end of the loop.
pub fn exec_dispatch(input: &ExecInput) -> (a: ExecAction)
    ensures
        a == exec_action_spec(*input),
{
    match input {
        ExecInput::Message(ExecMessage::SetReport(v)) => ExecAction::Write(*v),
        ExecInput::Message(ExecMessage::ReadInterrupt) => ExecAction::Poll,
        ExecInput::Message(ExecMessage::Terminate) => ExecAction::Stop,
        ExecInput::Disconnected => ExecAction::Stop,
    }
}

} // verus!
