//! The audio bridge's decision rules: which backend device set a mute
//! query or command addresses, and how the outcomes of backend queries
//! resolve to a mute state. The backend calls themselves happen outside
//! the library, which is handed their results as plain values; every
//! backend failure resolves, fail-open, to unmuted.

use vstd::prelude::*;

verus! {

/// A request to the audio bridge actor.
#[derive(Clone, Copy, Debug, PartialEq, Eq, Structural)]
pub enum AudioMessage {
    /// Ask the backend for the current mute state and publish the answer
    /// to the controller.
    GetMuteStatus,
    /// Apply this mute state to the selected backend devices.
    SetMuteStatus(bool),
    /// Shut the actor down.
    Terminate,
}

/// The set of backend recording devices an operation addresses.
#[derive(Clone, Debug, PartialEq, Eq)]
pub enum PulseMuteDevice {
    /// Every enumerated recording device.
    All,
    /// The backend's default recording device.
    Default,
    /// The device with this name.
    Selected(String),
}

/// The audio bridge's device-selection configuration: which devices a
/// mute command addresses, and optionally a different selection for
/// unmute commands and status queries.
#[derive(Clone, Debug, PartialEq, Eq)]
pub struct PulseSettings {
    pub mute_device: PulseMuteDevice,
    pub unmute_device: Option<PulseMuteDevice>,
}

impl Default for PulseSettings {
    /// Both selections address every recording device.
    fn default() -> (s: Self)
        ensures
            s == (PulseSettings {
                mute_device: PulseMuteDevice::All,
                unmute_device: Some(PulseMuteDevice::All),
            }),
    {
        PulseSettings {
            mute_device: PulseMuteDevice::All,
            unmute_device: Some(PulseMuteDevice::All),
        }
    }
}

/// The abstract mute interface the bridge drives; the backend binding
/// implements it outside the library.
pub trait Mute {
    /// The backend's current mute state, resolved per the selection policy.
    fn is_muted(&mut self) -> bool;

    /// Apply `muted` to the selected devices.
    fn set_muted(&mut self, muted: bool);
}

/// The selection a mute-status query addresses: the unmute selection when
/// one is configured, else the mute selection.
pub open spec fn query_device_spec(s: PulseSettings) -> PulseMuteDevice {
    match s.unmute_device {
        Some(d) => d,
        None => s.mute_device,
    }
}

/// Picks the device selection a mute-status query addresses.
pub fn query_device<'a>(s: &'a PulseSettings) -> (d: &'a PulseMuteDevice)
    ensures
        *d == query_device_spec(*s),
{
    match &s.unmute_device {
        Some(d) => d,
        None => &s.mute_device,
    }
}

/// The selection a mute command addresses: the mute selection when
/// muting; when unmuting, the unmute selection if one is configured, else
/// the mute selection.
pub open spec fn set_device_spec(s: PulseSettings, muted: bool) -> PulseMuteDevice {
    if muted {
        s.mute_device
    } else {
        query_device_spec(s)
    }
}

/// Picks the device selection a mute command addresses.
pub fn set_device<'a>(s: &'a PulseSettings, muted: bool) -> (d: &'a PulseMuteDevice)
    ensures
        *d == set_device_spec(*s, muted),
{
    if muted {
        &s.mute_device
    } else {
        match &s.unmute_device {
            Some(d) => d,
            None => &s.mute_device,
        }
    }
}

/// Whether every flag in a device listing reports muted.
pub open spec fn all_muted_spec(flags: Seq<bool>) -> bool {
    forall|i: int| 0 <= i < flags.len() ==> flags[i]
}

/// Whether every listed device reports muted; an empty listing counts as
/// muted.
pub fn all_muted(flags: &Vec<bool>) -> (muted: bool)
    ensures
        muted == all_muted_spec(flags@),
{
    let mut i: usize = 0;
    while i < flags.len()
        invariant
            0 <= i <= flags@.len(),
            forall|j: int| 0 <= j < i ==> flags@[j],
        decreases flags@.len() - i,
    {
        if !flags[i] {
            return false;
        }
        i += 1;
    }
    true
}

/// Resolves a query addressed to every recording device: muted only if
/// the listing succeeded and every listed device is muted; a failed
/// listing resolves, fail-open, to unmuted.
pub fn mute_status_all(flags: &Option<Vec<bool>>) -> (muted: bool)
    ensures
        muted == ((*flags) matches Some(f) && all_muted_spec(f@)),
{
    match flags {
        Some(f) => all_muted(f),
        None => false,
    }
}

/// Resolves a query addressed to one looked-up device: the device's own
/// flag when the lookup succeeded, else, fail-open, unmuted.
pub fn mute_status_named(found: &Option<bool>) -> (muted: bool)
    ensures
        muted == ((*found) matches Some(m) && m),
{
    match found {
        Some(m) => *m,
        None => false,
    }
}

/// Resolves a query addressed to the backend's default device: unmuted
/// when the server information could not be read or names no default
/// source; otherwise the looked-up device's flag, itself fail-open when
/// the lookup failed.
pub fn mute_status_default(default_source: &Option<Option<String>>, found: &Option<bool>) -> (muted:
    bool)
    ensures
        muted == ((*default_source) matches Some(name) && name is Some && ((*found)
            matches Some(m) && m)),
{
    match default_source {
        Some(Some(_)) => mute_status_named(found),
        Some(None) => false,
        None => false,
    }
}

/// What the audio bridge's blocking receive observed.
#[derive(Clone, Copy, Debug, PartialEq, Eq, Structural)]
pub enum AudioInput {
    Message(AudioMessage),
    Disconnected,
}

/// The audio bridge's next action.
#[derive(Clone, Copy, Debug, PartialEq, Eq, Structural)]
pub enum AudioAction {
    /// Query the backend's mute state and publish it to the controller.
    Query,
    /// Apply this mute state to the selected devices.
    Apply(bool),
    /// End the actor loop.
    Stop,
}

/// The action each audio-bridge input maps to.
pub open spec fn audio_action_spec(input: AudioInput) -> AudioAction {
    match input {
        AudioInput::Message(AudioMessage::GetMuteStatus) => AudioAction::Query,
        AudioInput::Message(AudioMessage::SetMuteStatus(m)) => AudioAction::Apply(m),
        AudioInput::Message(AudioMessage::Terminate) => AudioAction::Stop,
        AudioInput::Disconnected => AudioAction::Stop,
    }
}

/// Decides the audio bridge's next action from what its channel
/// delivered: a backend query, a mute command, or — on a terminate
/// message or a closed channel — the end of the loop.
pub fn audio_dispatch(input: &AudioInput) -> (a: AudioAction)
    ensures
        a == audio_action_spec(*input),
{
    match input {
        AudioInput::Message(AudioMessage::GetMuteStatus) => AudioAction::Query,
        AudioInput::Message(AudioMessage::SetMuteStatus(m)) => AudioAction::Apply(*m),
        AudioInput::Message(AudioMessage::Terminate) => AudioAction::Stop,
        AudioInput::Disconnected => AudioAction::Stop,
    }
}

} // verus!
