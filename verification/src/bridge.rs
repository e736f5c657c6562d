//! The bridge's lifecycle state machine and command path.
//!
//! One bridge instance moves `Constructed -> Initializing -> Open |
//! OpenFailed`. Both event callbacks are registered while the bridge is
//! `Initializing`, before the outcome of the single open attempt is
//! recorded, so no event can be lost between open and registration. A
//! failed open is terminal: the bridge reports it once and performs no
//! retry.
//!
//! The functions here are the decisions of the bridge; the process
//! plumbing around them (the lock-guarded driver instance, the spawned
//! keep-alive task, the event-bus emission) performs the driver calls and
//! hands their outcomes in as plain values.

use vstd::prelude::*;

use crate::events::ButtonEvent;
use crate::events::ButtonId;
use crate::events::Diagnostics;
use crate::events::Emission;
use crate::events::WheelEvent;
use crate::events::WheelId;
use crate::events::button_payload;
use crate::events::click_failure_diagnostic;
use crate::events::open_failure_diagnostic;
use crate::events::open_success_diagnostic;
use crate::events::wheel_payload;

verus! {

/// Lifecycle of one bridge instance. `Open` and `OpenFailed` are terminal:
/// the bridge has no reconnect or retry policy.
#[derive(Clone, Copy, PartialEq, Eq, Structural, Debug)]
pub enum LifecycleState {
    Constructed,
    Initializing,
    Open,
    OpenFailed,
}

/// The bridge between the control-surface driver and the application
/// shell's event bus, modelled by its lifecycle state and by which of the
/// two set-once callback slots have been filled.
#[derive(Clone, Copy, PartialEq, Eq, Structural, Debug)]
pub struct HWController {
    pub state: LifecycleState,
    pub button_callback_registered: bool,
    pub wheel_callback_registered: bool,
}

impl HWController {
    /// Well-formedness: a freshly constructed bridge has no callback
    /// registered, and a bridge whose open attempt has been resolved had
    /// both callbacks registered beforehand.
    pub open spec fn inv(self) -> bool {
        &&& (self.state is Constructed ==> !self.button_callback_registered
            && !self.wheel_callback_registered)
        &&& (self.state is Open || self.state is OpenFailed ==> self.button_callback_registered
            && self.wheel_callback_registered)
    }

    /// A bridge in its initial state: constructed, neither callback
    /// registered, no open attempt made.
    pub fn new() -> (c: Self)
        ensures
            c.state is Constructed,
            !c.button_callback_registered,
            !c.wheel_callback_registered,
            c.inv(),
    {
        HWController {
            state: LifecycleState::Constructed,
            button_callback_registered: false,
            wheel_callback_registered: false,
        }
    }

    /// Starts initialization: the one transition out of `Constructed`.
    pub fn begin_init(&mut self)
        requires
            old(self).inv(),
            old(self).state is Constructed,
        ensures
            final(self).state is Initializing,
            !final(self).button_callback_registered,
            !final(self).wheel_callback_registered,
            final(self).inv(),
    {
        self.state = LifecycleState::Initializing;
    }

    /// Fills the button callback slot. The slot is set once per bridge
    /// lifetime: registering again is ruled out by the precondition.
    pub fn register_button_callback(&mut self)
        requires
            old(self).state is Initializing,
            !old(self).button_callback_registered,
        ensures
            final(self).state == old(self).state,
            final(self).button_callback_registered,
            final(self).wheel_callback_registered == old(self).wheel_callback_registered,
            final(self).inv(),
    {
        self.button_callback_registered = true;
    }

    /// Fills the wheel callback slot, set once in the same way.
    pub fn register_wheel_callback(&mut self)
        requires
            old(self).state is Initializing,
            !old(self).wheel_callback_registered,
        ensures
            final(self).state == old(self).state,
            final(self).wheel_callback_registered,
            final(self).button_callback_registered == old(self).button_callback_registered,
            final(self).inv(),
    {
        self.wheel_callback_registered = true;
    }

    /// Records the outcome of the single open attempt and produces the one
    /// diagnostic that reports it: severity `Info` exactly when the device
    /// opened, severity `Error` exactly when it did not, with the driver
    /// error's textual representation carried in the message. The
    /// precondition demands both callback slots filled: the open outcome
    /// cannot be recorded before registration has completed.
    pub fn complete_open(&mut self, outcome: Result<(), String>) -> (d: Diagnostics)
        requires
            old(self).state is Initializing,
            old(self).button_callback_registered,
            old(self).wheel_callback_registered,
        ensures
            final(self).button_callback_registered,
            final(self).wheel_callback_registered,
            outcome is Ok ==> final(self).state is Open,
            outcome is Err ==> final(self).state is OpenFailed,
            d.message_type is Info <==> outcome is Ok,
            d.message_type is Error <==> outcome is Err,
            outcome is Ok ==> d.message@ == "Device opened successfully"@,
            outcome is Err ==> d.message@ == "Failed to open device: "@ + outcome->Err_0@,
            final(self).inv(),
    {
        match outcome {
            Ok(()) => {
                self.state = LifecycleState::Open;
                open_success_diagnostic()
            },
            Err(err) => {
                self.state = LifecycleState::OpenFailed;
                open_failure_diagnostic(err.as_str())
            },
        }
    }

    /// The whole initialization sequence in its required order: button
    /// callback, wheel callback, then the open outcome. `open_outcome` is
    /// what the driver's open call returned, the error already rendered as
    /// text. Exactly one diagnostic is produced, and the bridge ends in
    /// `Open` or `OpenFailed` with both callbacks registered.
    pub fn init(&mut self, open_outcome: Result<(), String>) -> (d: Diagnostics)
        requires
            old(self).inv(),
            old(self).state is Constructed,
        ensures
            final(self).button_callback_registered,
            final(self).wheel_callback_registered,
            open_outcome is Ok ==> final(self).state is Open,
            open_outcome is Err ==> final(self).state is OpenFailed,
            d.message_type is Info <==> open_outcome is Ok,
            d.message_type is Error <==> open_outcome is Err,
            open_outcome is Ok ==> d.message@ == "Device opened successfully"@,
            open_outcome is Err ==> d.message@ == "Failed to open device: "@
                + open_outcome->Err_0@,
            final(self).inv(),
    {
        self.begin_init();
        self.register_button_callback();
        self.register_wheel_callback();
        self.complete_open(open_outcome)
    }

    /// What the registered button callback does with one raw report: it
    /// strictly maps the reported button to a `buttonEvent` emission,
    /// preserving the button's identity. It may only run once the slot is
    /// filled.
    pub fn handle_button_report(&self, button: ButtonId) -> (e: Emission)
        requires
            self.button_callback_registered,
        ensures
            e == (Emission::Button(ButtonEvent { button: button })),
    {
        Emission::Button(button_payload(button))
    }

    /// What the registered wheel callback does with one raw report: the
    /// wheel identity and the absolute position pass through exactly.
    pub fn handle_wheel_report(&self, wheel: WheelId, position: u8) -> (e: Emission)
        requires
            self.wheel_callback_registered,
        ensures
            e == (Emission::Wheel(WheelEvent { wheel: wheel, position: position })),
    {
        Emission::Wheel(wheel_payload(wheel, position))
    }

    /// For a sequence of N reported button values, the Publisher receives
    /// exactly N `buttonEvent` emissions, each preserving the reported
    /// button's identity, in the order reported.
    pub fn handle_button_reports(&self, reports: &Vec<ButtonId>) -> (out: Vec<Emission>)
        requires
            self.button_callback_registered,
        ensures
            out@.len() == reports@.len(),
            forall|i: int|
                0 <= i < reports@.len() ==> out@[i] == (Emission::Button(
                    ButtonEvent { button: reports@[i] },
                )),
    {
        let mut out: Vec<Emission> = Vec::new();
        let mut i: usize = 0;
        while i < reports.len()
            invariant
                self.button_callback_registered,
                i <= reports.len(),
                out@.len() == i,
                forall|j: int|
                    0 <= j < i ==> out@[j] == (Emission::Button(
                        ButtonEvent { button: reports@[j] },
                    )),
            decreases reports.len() - i,
        {
            let e = self.handle_button_report(reports[i]);
            out.push(e);
            i = i + 1;
        }
        out
    }

    /// The command path for a click, given what the driver's click call
    /// returned. Success is silent: no emission at all. Failure produces
    /// exactly one error diagnostic carrying the driver error's textual
    /// representation, and nothing surfaces to the caller beyond it.
    pub fn click(&self, outcome: Result<(), String>) -> (r: Option<Diagnostics>)
        ensures
            outcome is Ok <==> r is None,
            outcome is Err ==> (r matches Some(d) && d.message_type is Error && d.message@
                == "Failed to click: "@ + outcome->Err_0@),
    {
        match outcome {
            Ok(()) => None,
            Err(err) => Some(click_failure_diagnostic(err.as_str())),
        }
    }
}

impl Default for HWController {
    /// Same initial state as [`HWController::new`].
    fn default() -> (c: Self)
        ensures
            c.state is Constructed,
            !c.button_callback_registered,
            !c.wheel_callback_registered,
            c.inv(),
    {
        HWController::new()
    }
}

/// Law: callback registration completes before the open attempt is
/// resolved. In any well-formed bridge whose open attempt has an outcome
/// (state `Open` or `OpenFailed`), both callback slots were filled.
pub proof fn lemma_open_outcome_implies_callbacks_registered(c: HWController)
    requires
        c.inv(),
        c.state is Open || c.state is OpenFailed,
    ensures
        c.button_callback_registered,
        c.wheel_callback_registered,
{
}

} // verus!
