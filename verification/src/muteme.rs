//! Core data model of the mute-button bridge: the colors the device can
//! show, the operation modes, the decoded button events, and the messages
//! the actors exchange.

use vstd::prelude::*;

verus! {

/// Vendor identifier of the button device.
pub const DEVICE_VID: u16 = 0x20a0;

/// Product identifier of the button device.
pub const DEVICE_PID: u16 = 0x42da;

/// A color the device can display. Each maps to a fixed one-byte code of
/// the output-report protocol; see [`color_code`].
#[derive(Clone, Copy, Debug, PartialEq, Eq, Structural)]
pub enum Color {
    Red,
    Green,
    Blue,
    Yellow,
    Cyan,
    Purple,
    White,
    NoColor,
}

/// The one-byte device code of each color, as the output-report protocol
/// fixes it.
pub open spec fn color_code(c: Color) -> u8 {
    match c {
        Color::Red => 0x01,
        Color::Green => 0x02,
        Color::Blue => 0x04,
        Color::Yellow => 0x03,
        Color::Cyan => 0x06,
        Color::Purple => 0x05,
        Color::White => 0x07,
        Color::NoColor => 0x00,
    }
}

/// Every color code fits in the low three bits, so it never collides with
/// the blink-effect bit of a report byte.
pub proof fn lemma_color_code_bound(c: Color)
    ensures
        color_code(c) <= 7,
{
}

impl Color {
    /// The one-byte code the device protocol uses for this color.
    pub fn get_byte_value(&self) -> (b: u8)
        ensures
            b == color_code(*self),
    {
        match self {
            Self::Red => 0x01,
            Self::Green => 0x02,
            Self::Blue => 0x04,
            Self::Yellow => 0x03,
            Self::Cyan => 0x06,
            Self::Purple => 0x05,
            Self::White => 0x07,
            Self::NoColor => 0x00,
        }
    }
}

/// How a button gesture maps to the next mute state.
#[derive(Clone, Copy, Debug, PartialEq, Eq, Structural)]
pub enum OperationMode {
    /// A release inverts the mute state; a touch changes nothing.
    Toggle,
    /// Holding the button unmutes; releasing it mutes.
    PushToTalk,
}

/// A decoded, debounced transition of the physical button.
#[derive(Clone, Copy, Debug, PartialEq, Eq, Structural)]
pub enum DeviceEvent {
    Touch,
    Release,
}

/// A message consumed by the controller actor.
#[derive(Clone, Copy, Debug, PartialEq, Eq, Structural)]
pub enum ControlMessage {
    /// The audio bridge reports the backend's current mute state.
    PublishMuteStatus(bool),
    /// Reconfigure the color shown for the given mute state.
    SetColor(bool, Color),
    /// Reconfigure the operation mode; also forces the state to muted.
    SetMode(OperationMode),
    /// A no-op tick that drives the blink timer.
    Continue,
    /// A decoded button event.
    Event(DeviceEvent),
    /// Shut the actor down.
    Terminate,
}

/// A message consumed by the poller actor.
#[derive(Clone, Copy, Debug, PartialEq, Eq, Structural)]
pub enum IntMessage {
    Terminate,
}

/// A message consumed by the device executor actor.
#[derive(Clone, Copy, Debug, PartialEq, Eq, Structural)]
pub enum ExecMessage {
    /// Write this report byte to the device.
    SetReport(u8),
    /// Drain whatever input the device currently has.
    ReadInterrupt,
    /// Shut the actor down.
    Terminate,
}

/// The controller's initial configuration: which colors stand for the two
/// mute states, and how gestures map to state changes.
#[derive(Clone, Copy, Debug, PartialEq, Eq, Structural)]
pub struct MuteMeSettings {
    pub muted_color: Color,
    pub unmuted_color: Color,
    pub operation_mode: OperationMode,
    pub double_tap_duration_1: u16,
    pub double_tap_duration_2: u16,
}

impl Default for MuteMeSettings {
    /// Red when muted, green when unmuted, toggle mode.
    fn default() -> (s: Self)
        ensures
            s == (MuteMeSettings {
                muted_color: Color::Red,
                unmuted_color: Color::Green,
                operation_mode: OperationMode::Toggle,
                double_tap_duration_1: 300u16,
                double_tap_duration_2: 250u16,
            }),
    {
        MuteMeSettings {
            muted_color: Color::Red,
            unmuted_color: Color::Green,
            operation_mode: OperationMode::Toggle,
            double_tap_duration_1: 300,
            double_tap_duration_2: 250,
        }
    }
}

} // verus!
