//! The controller state machine: the authoritative mute/visual state. It
//! consumes button events, backend status reports and configuration
//! changes, decides the next mute state, and drives the two-phase
//! color/blink signal back to the device, pushing the mute state to the
//! audio bridge only on the blink-on phase of each cycle.

use vstd::prelude::*;

use crate::muteme::{color_code, lemma_color_code_bound, Color, ControlMessage, DeviceEvent,
    MuteMeSettings, OperationMode};

verus! {

/// The report-byte bit that marks the blink-on phase of the signal.
pub const EFFECT_BLINK: u8 = 0x40;

/// The receive window, in seconds, after which a silent channel counts as
/// a keepalive tick.
pub const KEEPALIVE_SECS: u64 = 5;

/// The delay, in milliseconds, before the scheduled `Continue` message
/// that drives the blink-on phase.
pub const BLINK_DELAY_MS: u64 = 100;

/// What the controller's timed receive observed: a message, the keepalive
/// timeout, or a closed channel.
#[derive(Clone, Copy, Debug, PartialEq, Eq, Structural)]
pub enum ControlInput {
    Message(ControlMessage),
    Timeout,
    Disconnected,
}

/// The state owned by the controller actor. No other actor reads or
/// writes it; all visibility is through messages.
#[derive(Clone, Copy, Debug, PartialEq, Eq, Structural)]
pub struct ControllerState {
    pub is_muted: bool,
    pub muted_color: Color,
    pub unmuted_color: Color,
    pub operation_mode: OperationMode,
    /// The blink-phase flag: the signaling step emits the blink bit and the
    /// audio command exactly when it is set, and flips it every cycle.
    pub transition: bool,
}

/// What one controller cycle asks the other actors to do.
#[derive(Clone, Copy, Debug)]
pub struct StepOutput {
    /// The report byte for the executor to write; one is emitted every cycle.
    pub report: u8,
    /// The mute state to push to the audio bridge, on blink-on cycles only.
    pub set_mute: Option<bool>,
    /// Whether to schedule one delayed `Continue` message back to the controller.
    pub schedule_continue: bool,
    /// Whether the actor loop ends after this cycle.
    pub terminated: bool,
}

/// The mute state a button event produces: under push-to-talk, muted
/// exactly when the button was released; under toggle, a release inverts
/// the state and a touch keeps it.
pub open spec fn event_next_mute(mode: OperationMode, muted: bool, ev: DeviceEvent) -> bool {
    match ev {
        DeviceEvent::Touch => match mode {
            OperationMode::PushToTalk => false,
            OperationMode::Toggle => muted,
        },
        DeviceEvent::Release => match mode {
            OperationMode::PushToTalk => true,
            OperationMode::Toggle => !muted,
        },
    }
}

/// The state after the controller has taken one input, before the
/// signaling step. Every change of the mute state, of a color or of the
/// mode resets the blink phase; a keepalive tick resets it too.
pub open spec fn apply_input(s: ControllerState, input: ControlInput) -> ControllerState {
    match input {
        ControlInput::Message(msg) => match msg {
            ControlMessage::PublishMuteStatus(reported) => if reported != s.is_muted {
                ControllerState { is_muted: reported, transition: false, ..s }
            } else {
                s
            },
            ControlMessage::SetColor(for_muted, color) => if for_muted {
                ControllerState { muted_color: color, transition: false, ..s }
            } else {
                ControllerState { unmuted_color: color, transition: false, ..s }
            },
            ControlMessage::SetMode(mode) => ControllerState {
                operation_mode: mode,
                is_muted: true,
                transition: false,
                ..s
            },
            ControlMessage::Continue => s,
            ControlMessage::Event(ev) => {
                let next = event_next_mute(s.operation_mode, s.is_muted, ev);
                if next != s.is_muted {
                    ControllerState { is_muted: next, transition: false, ..s }
                } else {
                    s
                }
            },
            ControlMessage::Terminate => s,
        },
        ControlInput::Timeout => ControllerState { transition: false, ..s },
        ControlInput::Disconnected => s,
    }
}

/// Whether an input ends the controller's loop: a terminate message or a
/// closed channel does; everything else, the keepalive tick included,
/// keeps it running.
pub open spec fn input_terminates(input: ControlInput) -> bool {
    match input {
        ControlInput::Message(msg) => msg is Terminate,
        ControlInput::Timeout => false,
        ControlInput::Disconnected => true,
    }
}

/// The color that stands for the current mute state.
pub open spec fn active_color(s: ControllerState) -> Color {
    if s.is_muted {
        s.muted_color
    } else {
        s.unmuted_color
    }
}

/// The effect bits of the next report: the blink bit during the on phase,
/// nothing otherwise.
pub open spec fn effect_bits(s: ControllerState) -> u8 {
    if s.transition {
        EFFECT_BLINK
    } else {
        0x00
    }
}

/// The report byte the signaling step emits from state `s`: the code of
/// the active color with the effect bits.
pub open spec fn report_byte(s: ControllerState) -> u8 {
    (color_code(active_color(s)) + effect_bits(s)) as u8
}

/// The signaling step flips the blink phase and changes nothing else.
pub open spec fn signal_flip(s: ControllerState) -> ControllerState {
    ControllerState { transition: !s.transition, ..s }
}

/// One full controller cycle: take the input, then run the signaling step.
pub open spec fn cycle(s: ControllerState, input: ControlInput) -> ControllerState {
    signal_flip(apply_input(s, input))
}

/// The report byte one cycle sends to the executor.
pub open spec fn cycle_report(s: ControllerState, input: ControlInput) -> u8 {
    report_byte(apply_input(s, input))
}

/// The mute command one cycle pushes to the audio bridge: the current mute
/// state on a blink-on cycle, nothing on a blink-off cycle.
pub open spec fn cycle_set_mute(s: ControllerState, input: ControlInput) -> Option<bool> {
    let t = apply_input(s, input);
    if t.transition {
        Some(t.is_muted)
    } else {
        None
    }
}

/// Whether one cycle schedules a delayed `Continue`: exactly the blink-off
/// cycles do, so that the on phase follows.
pub open spec fn cycle_schedules(s: ControllerState, input: ControlInput) -> bool {
    !apply_input(s, input).transition
}

impl ControllerState {
    /// A fresh controller: unmuted, blink phase off, with the configured
    /// colors and mode.
    pub fn new(settings: &MuteMeSettings) -> (s: Self)
        ensures
            s == (ControllerState {
                is_muted: false,
                muted_color: settings.muted_color,
                unmuted_color: settings.unmuted_color,
                operation_mode: settings.operation_mode,
                transition: false,
            }),
    {
        ControllerState {
            is_muted: false,
            muted_color: settings.muted_color,
            unmuted_color: settings.unmuted_color,
            operation_mode: settings.operation_mode,
            transition: false,
        }
    }

    /// One cycle of the controller loop: apply the input, then signal.
    /// The cycle always emits a report byte for the current state; on the
    /// blink-on phase it also pushes the mute state to the audio bridge,
    /// and on the blink-off phase it instead schedules the delayed
    /// `Continue` that produces the on phase.
    pub fn step(&mut self, input: ControlInput) -> (out: StepOutput)
        ensures
            *final(self) == cycle(*old(self), input),
            out.report == cycle_report(*old(self), input),
            out.set_mute == cycle_set_mute(*old(self), input),
            out.schedule_continue == cycle_schedules(*old(self), input),
            out.terminated == input_terminates(input),
    {
        let mut terminated = false;
        match input {
            ControlInput::Message(ControlMessage::PublishMuteStatus(reported)) => {
                if reported != self.is_muted {
                    self.is_muted = reported;
                    self.transition = false;
                }
            },
            ControlInput::Message(ControlMessage::SetColor(for_muted, color)) => {
                if for_muted {
                    self.muted_color = color;
                } else {
                    self.unmuted_color = color;
                }
                self.transition = false;
            },
            ControlInput::Message(ControlMessage::SetMode(mode)) => {
                self.operation_mode = mode;
                self.is_muted = true;
                self.transition = false;
            },
            ControlInput::Message(ControlMessage::Continue) => {},
            ControlInput::Message(ControlMessage::Event(ev)) => {
                let next = match ev {
                    DeviceEvent::Touch => match self.operation_mode {
                        OperationMode::PushToTalk => false,
                        OperationMode::Toggle => self.is_muted,
                    },
                    DeviceEvent::Release => match self.operation_mode {
                        OperationMode::PushToTalk => true,
                        OperationMode::Toggle => !self.is_muted,
                    },
                };
                if next != self.is_muted {
                    self.is_muted = next;
                    self.transition = false;
                }
            },
            ControlInput::Message(ControlMessage::Terminate) => {
                terminated = true;
            },
            ControlInput::Timeout => {
                self.transition = false;
            },
            ControlInput::Disconnected => {
                terminated = true;
            },
        }

        let color = if self.is_muted {
            self.muted_color
        } else {
            self.unmuted_color
        };
        let mut set_mute: Option<bool> = None;
        let mut schedule_continue = false;
        let effect: u8;
        if self.transition {
            effect = EFFECT_BLINK;
            set_mute = Some(self.is_muted);
        } else {
            effect = 0x00;
            schedule_continue = true;
        }
        self.transition = !self.transition;
        let code = color.get_byte_value();
        proof {
            lemma_color_code_bound(color);
        }
        let report = code + effect;
        StepOutput { report, set_mute, schedule_continue, terminated }
    }
}

/// The number of release events in a sequence of button events.
pub open spec fn release_count(evs: Seq<DeviceEvent>) -> nat
    decreases evs.len(),
{
    if evs.len() == 0 {
        0
    } else {
        (if evs[0] is Release {
            1nat
        } else {
            0nat
        }) + release_count(evs.skip(1))
    }
}

/// The controller state after a sequence of button events, each taken as
/// one full cycle.
pub open spec fn run_events(s: ControllerState, evs: Seq<DeviceEvent>) -> ControllerState
    decreases evs.len(),
{
    if evs.len() == 0 {
        s
    } else {
        run_events(cycle(s, ControlInput::Message(ControlMessage::Event(evs[0]))), evs.skip(1))
    }
}

/// Law: under toggle mode, the mute state after any sequence of button
/// events is the starting state combined, by exclusive or, with the parity
/// of the number of releases; touches never flip it.
pub proof fn lemma_toggle_release_parity(s: ControllerState, evs: Seq<DeviceEvent>)
    requires
        s.operation_mode == OperationMode::Toggle,
    ensures
        run_events(s, evs).is_muted == (s.is_muted != (release_count(evs) % 2 == 1)),
    decreases evs.len(),
{
    if evs.len() == 0 {
    } else {
        let s1 = cycle(s, ControlInput::Message(ControlMessage::Event(evs[0])));
        lemma_toggle_release_parity(s1, evs.skip(1));
    }
}

/// Law: under push-to-talk mode, the mute state after any button event is
/// exactly "the event was a release", whatever came before.
pub proof fn lemma_push_to_talk_event(s: ControllerState, ev: DeviceEvent)
    requires
        s.operation_mode == OperationMode::PushToTalk,
    ensures
        cycle(s, ControlInput::Message(ControlMessage::Event(ev))).is_muted == (ev is Release),
{
}

/// Law: the low bits of an emitted report byte are exactly the code of the
/// color for the mute state at emission, and its blink bit is set exactly
/// during the blink-on phase.
pub proof fn lemma_report_byte_fields(s: ControllerState)
    ensures
        report_byte(s) & 0x3f == color_code(active_color(s)),
        (report_byte(s) & EFFECT_BLINK != 0) == s.transition,
{
    let c = color_code(active_color(s));
    lemma_color_code_bound(active_color(s));
    if s.transition {
        assert(((c + 0x40) as u8) & 0x3f == c && ((c + 0x40) as u8) & 0x40 != 0)
            by (bit_vector)
            requires
                c <= 7,
        ;
    } else {
        assert(((c + 0x00) as u8) & 0x3f == c && ((c + 0x00) as u8) & 0x40 == 0)
            by (bit_vector)
            requires
                c <= 7,
        ;
    }
}

/// Law: while the mute state does not change, the blink bit alternates
/// between one cycle and the `Continue` cycle that follows it, so an idle
/// controller emits a strictly two-phase signal.
pub proof fn lemma_blink_alternates(s: ControllerState, input: ControlInput)
    ensures
        (cycle_report(cycle(s, input), ControlInput::Message(ControlMessage::Continue))
            & EFFECT_BLINK != 0) != (cycle_report(s, input) & EFFECT_BLINK != 0),
        cycle(s, input).is_muted == apply_input(s, input).is_muted,
{
    lemma_report_byte_fields(apply_input(s, input));
    lemma_report_byte_fields(apply_input(cycle(s, input), ControlInput::Message(ControlMessage::Continue)));
}

/// Law: a cycle pushes a mute command to the audio bridge exactly when its
/// report carries the blink bit; a blink-off cycle pushes nothing, and the
/// `Continue` cycle that completes the two-phase cycle pushes exactly one
/// command, carrying the mute state being shown.
pub proof fn lemma_set_mute_on_phase_only(s: ControllerState, input: ControlInput)
    ensures
        (cycle_set_mute(s, input) is Some) == (cycle_report(s, input) & EFFECT_BLINK != 0),
        !apply_input(s, input).transition ==> cycle_set_mute(s, input) is None,
        !apply_input(s, input).transition ==> cycle_set_mute(
            cycle(s, input),
            ControlInput::Message(ControlMessage::Continue),
        ) == Some(cycle(s, input).is_muted),
{
    lemma_report_byte_fields(apply_input(s, input));
}

} // verus!
