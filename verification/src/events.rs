//! Event payload types of the bridge's wire contract toward the
//! application shell, and the mapping from raw driver reports to them.

use vstd::prelude::*;

verus! {

/// Identifies a button of the control surface. The driver reports buttons
/// as values of an opaque enumeration of its own; the bridge never looks
/// inside one, so the model carries the driver's encoding as a plain byte.
#[derive(Clone, Copy, PartialEq, Eq, Structural, Debug)]
pub struct ButtonId(pub u8);

/// Identifies a rotary wheel of the control surface, carried opaquely in
/// the same way as `ButtonId`.
#[derive(Clone, Copy, PartialEq, Eq, Structural, Debug)]
pub struct WheelId(pub u8);

/// Payload of a `buttonEvent` emission: one per reported button transition.
#[derive(Clone, Copy, PartialEq, Eq, Structural, Debug)]
pub struct ButtonEvent {
    pub button: ButtonId,
}

/// Payload of a `wheelEvent` emission: one per reported wheel movement.
/// `position` is an absolute 8-bit value, not a delta.
#[derive(Clone, Copy, PartialEq, Eq, Structural, Debug)]
pub struct WheelEvent {
    pub wheel: WheelId,
    pub position: u8,
}

/// Severity of a diagnostic notification.
#[derive(Clone, Copy, PartialEq, Eq, Structural, Debug)]
pub enum MessageType {
    Info,
    Error,
}

impl MessageType {
    /// The wire label of the severity, as the application shell sees it.
    pub fn label(&self) -> (r: &'static str)
        ensures
            self is Info ==> r@ == "info"@,
            self is Error ==> r@ == "error"@,
    {
        match self {
            MessageType::Info => "info",
            MessageType::Error => "error",
        }
    }
}

/// Payload of a `diagnostics` emission: a standalone, fire-and-forget
/// status or error notification. The bridge retains no history of them.
#[derive(Clone, Debug)]
pub struct Diagnostics {
    pub message_type: MessageType,
    pub message: String,
}

/// One named event handed to the Publisher, pairing an event name (see
/// [`Emission::event_name`]) with its payload.
#[derive(Clone, Debug)]
pub enum Emission {
    Button(ButtonEvent),
    Wheel(WheelEvent),
    Diagnostics(Diagnostics),
}

impl Emission {
    /// The event name under which this payload is published.
    pub fn event_name(&self) -> (r: &'static str)
        ensures
            self is Button ==> r@ == "buttonEvent"@,
            self is Wheel ==> r@ == "wheelEvent"@,
            self is Diagnostics ==> r@ == "diagnostics"@,
    {
        match self {
            Emission::Button(_) => "buttonEvent",
            Emission::Wheel(_) => "wheelEvent",
            Emission::Diagnostics(_) => "diagnostics",
        }
    }
}

/// The diagnostic reported when the device opened successfully.
pub fn open_success_diagnostic() -> (d: Diagnostics)
    ensures
        d.message_type is Info,
        d.message@ == "Device opened successfully"@,
{
    Diagnostics {
        message_type: MessageType::Info,
        message: String::from_str("Device opened successfully"),
    }
}

/// The diagnostic reported when opening the device failed; `err` is the
/// textual representation of the driver's error, included verbatim.
pub fn open_failure_diagnostic(err: &str) -> (d: Diagnostics)
    ensures
        d.message_type is Error,
        d.message@ == "Failed to open device: "@ + err@,
{
    Diagnostics {
        message_type: MessageType::Error,
        message: String::from_str("Failed to open device: ").concat(err),
    }
}

/// The diagnostic reported when a click command failed; `err` is the
/// textual representation of the driver's error, included verbatim.
pub fn click_failure_diagnostic(err: &str) -> (d: Diagnostics)
    ensures
        d.message_type is Error,
        d.message@ == "Failed to click: "@ + err@,
{
    Diagnostics {
        message_type: MessageType::Error,
        message: String::from_str("Failed to click: ").concat(err),
    }
}

/// Maps a raw button report to the payload emitted for it.
pub fn button_payload(button: ButtonId) -> (e: ButtonEvent)
    ensures
        e.button == button,
{
    ButtonEvent { button }
}

/// Maps a raw wheel report to the payload emitted for it: the wheel
/// identity and the absolute position are passed through exactly, with no
/// delta computation and no clamping.
pub fn wheel_payload(wheel: WheelId, position: u8) -> (e: WheelEvent)
    ensures
        e.wheel == wheel,
        e.position == position,
{
    WheelEvent { wheel, position }
}

} // verus!
