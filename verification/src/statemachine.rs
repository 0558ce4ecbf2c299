//! The regulator's modes and the events that move it between them.
//!
//! ```text
//! mode      event                       next mode
//! Startup   Ready                       Off
//! Off       OkLong, engine slow         Idle
//! Off       OkLong, engine fast         Charging
//! Idle      Rpm(Normal)                 Charging
//! Charging  Rpm(Low)                    Idle
//! Charging  OkShort(n), OkLong          Off
//! Charging  IncShort(n), DecShort(n)    Charging, target moved by n steps
//! ```
//!
//! Every mode takes every event. What a mode has no use for is absorbed.
//! Entering `Off` stops the controller and switches the power supply off,
//! entering `Idle` switches it on with the idle current, entering `Charging`
//! adds the charge current; every change of mode puts the new mode's name
//! into the status string.

use vstd::prelude::*;
use vstd::utf8::encode_utf8;
use crate::control::{
    lemma_charge_current_is_bounded, lemma_rpm_factor_is_between_entries, step_delta, Controller,
    ControllerState, IDLE_FIELD_CURRENT,
};
use crate::shared::{
    ButtonEvent, ProcessData, RegulatorEvent, RpmEvent, Setpoint, MAX_FIELD_CURRENT, RM_LEN,
};
use crate::status::StatusText;

verus! {

/// The regulator's modes.
#[derive(Copy, Clone, Debug, PartialEq, Eq, Structural)]
pub enum State {
    /// The system is coming up; nothing is regulated yet.
    Startup,
    /// No field current. The engine speed cannot be measured.
    Off,
    /// The idle field current flows, so that the engine speed can be
    /// measured, but nothing is charged.
    Idle,
    /// The charge current is regulated.
    Charging,
}

/// What a mode does with an event.
#[derive(Copy, Clone, Debug, PartialEq, Eq, Structural)]
pub enum Outcome {
    /// The event was dealt with, or absorbed, inside the mode.
    Handled,
    /// The regulator changes to another mode.
    Transition(State),
}

impl State {
    /// The mode's name as the display and the log show it.
    pub open spec fn name_text(self) -> Seq<char> {
        match self {
            State::Startup => "Startup"@,
            State::Off => "Off"@,
            State::Idle => "Idle"@,
            State::Charging => "Charging"@,
        }
    }

    /// What the mode makes of an event. `rpm_normal` says whether the engine
    /// is already fast enough to charge.
    pub open spec fn outcome(self, event: RegulatorEvent, rpm_normal: bool) -> Outcome {
        match self {
            State::Startup => match event {
                RegulatorEvent::Ready => Outcome::Transition(State::Off),
                _ => Outcome::Handled,
            },
            State::Off => match event {
                RegulatorEvent::Button(ButtonEvent::OkLong) => if rpm_normal {
                    Outcome::Transition(State::Charging)
                } else {
                    Outcome::Transition(State::Idle)
                },
                _ => Outcome::Handled,
            },
            State::Idle => match event {
                RegulatorEvent::Rpm(RpmEvent::Normal) => Outcome::Transition(State::Charging),
                _ => Outcome::Handled,
            },
            State::Charging => match event {
                RegulatorEvent::Rpm(RpmEvent::Low) => Outcome::Transition(State::Idle),
                RegulatorEvent::Button(ButtonEvent::OkShort(_)) => Outcome::Transition(State::Off),
                RegulatorEvent::Button(ButtonEvent::OkLong) => Outcome::Transition(State::Off),
                _ => Outcome::Handled,
            },
        }
    }

    /// The mode after an event.
    pub open spec fn next(self, event: RegulatorEvent, rpm_normal: bool) -> State {
        match self.outcome(event, rpm_normal) {
            Outcome::Handled => self,
            Outcome::Transition(target) => target,
        }
    }

    /// What the controller is after this mode has taken an event: adjusted
    /// by a short press of the outer buttons while charging, and put through
    /// the entry action of the mode that is entered.
    pub open spec fn controller_after(
        self,
        event: RegulatorEvent,
        rpm_normal: bool,
        controller: ControllerState,
    ) -> ControllerState {
        match self.outcome(event, rpm_normal) {
            Outcome::Handled => match (self, event) {
                (State::Charging, RegulatorEvent::Button(ButtonEvent::IncShort(count))) => {
                    controller.adjusted(step_delta(count as int))
                },
                (State::Charging, RegulatorEvent::Button(ButtonEvent::DecShort(count))) => {
                    controller.adjusted(-step_delta(count as int))
                },
                _ => controller,
            },
            Outcome::Transition(State::Off) => controller.stopped(),
            Outcome::Transition(State::Idle) => controller.started_idle(),
            Outcome::Transition(State::Charging) => controller.started_charging(),
            Outcome::Transition(State::Startup) => controller,
        }
    }

    /// What is commanded after this mode has taken an event: entering `Off`
    /// switches the module off, entering `Idle` switches it on.
    pub open spec fn setpoint_after(
        self,
        event: RegulatorEvent,
        rpm_normal: bool,
        setpoint: Setpoint,
    ) -> Setpoint {
        match self.outcome(event, rpm_normal) {
            Outcome::Transition(State::Off) => setpoint.switched_off(),
            Outcome::Transition(State::Idle) => setpoint.switched_on(),
            _ => setpoint,
        }
    }

    /// What the status string holds after this mode has taken an event: the
    /// name of the mode that was entered, if one was.
    pub open spec fn status_after(
        self,
        event: RegulatorEvent,
        rpm_normal: bool,
        status: Seq<char>,
    ) -> Seq<char> {
        match self.outcome(event, rpm_normal) {
            Outcome::Handled => status,
            Outcome::Transition(target) => target.name_text(),
        }
    }

    /// The mode's name as the display and the log show it.
    pub fn name(&self) -> (name: &'static str)
        ensures
            name@ == self.name_text(),
            encode_utf8(name@).len() <= RM_LEN,
    {
        proof {
            reveal_strlit("Startup");
            reveal_strlit("Off");
            reveal_strlit("Idle");
            reveal_strlit("Charging");
        }
        let name: &'static str = match self {
            State::Startup => "Startup",
            State::Off => "Off",
            State::Idle => "Idle",
            State::Charging => "Charging",
        };
        proof {
            vstd::utf8::is_ascii_chars_encode_utf8(name@);
        }
        name
    }
}

/// The regulator's mode, driven by the events from the bus.
#[derive(Debug)]
pub struct RegulatorMode {
    state: State,
}

impl View for RegulatorMode {
    type V = State;

    closed spec fn view(&self) -> State {
        self.state
    }
}

impl Default for RegulatorMode {
    fn default() -> (mode: RegulatorMode)
        ensures
            mode@ == State::Startup,
    {
        RegulatorMode::new()
    }
}

impl RegulatorMode {
    /// A regulator that waits for the system to come up.
    pub fn new() -> (mode: RegulatorMode)
        ensures
            mode@ == State::Startup,
    {
        RegulatorMode { state: State::Startup }
    }

    /// The current mode.
    pub fn state(&self) -> (state: State)
        ensures
            state == self@,
    {
        self.state
    }

    /// `Startup`: waits for the system to be ready.
    pub fn startup(event: &RegulatorEvent) -> (outcome: Outcome)
        ensures
            forall|rpm_normal: bool| outcome == State::Startup.outcome(*event, rpm_normal),
    {
        match event {
            RegulatorEvent::Ready => Outcome::Transition(State::Off),
            _ => Outcome::Handled,
        }
    }

    /// `Off`: a long press of the middle button switches the regulator on,
    /// straight into charging if the engine is already fast enough.
    pub fn off(event: &RegulatorEvent, process_data: &ProcessData) -> (outcome: Outcome)
        ensures
            outcome == State::Off.outcome(*event, process_data.rpm_normal()),
    {
        match event {
            RegulatorEvent::Button(button) => match button {
                ButtonEvent::OkLong => {
                    if process_data.rpm_is_normal() {
                        Outcome::Transition(State::Charging)
                    } else {
                        Outcome::Transition(State::Idle)
                    }
                },
                _ => Outcome::Handled,
            },
            _ => Outcome::Handled,
        }
    }

    /// `Idle`: waits for the engine to become fast enough.
    pub fn idle(event: &RegulatorEvent) -> (outcome: Outcome)
        ensures
            forall|rpm_normal: bool| outcome == State::Idle.outcome(*event, rpm_normal),
    {
        match event {
            RegulatorEvent::Rpm(rpm) => match rpm {
                RpmEvent::Normal => Outcome::Transition(State::Charging),
                _ => Outcome::Handled,
            },
            _ => Outcome::Handled,
        }
    }

    /// `Charging`: short presses of the outer buttons move the target
    /// factor, a slow engine leads back to idle, the middle button switches
    /// off.
    pub fn charging(event: &RegulatorEvent, controller: &mut Controller) -> (outcome: Outcome)
        ensures
            forall|rpm_normal: bool| outcome == State::Charging.outcome(*event, rpm_normal),
            final(controller)@ == (match *event {
                RegulatorEvent::Button(ButtonEvent::IncShort(count)) => old(controller)@.adjusted(
                    step_delta(count as int),
                ),
                RegulatorEvent::Button(ButtonEvent::DecShort(count)) => old(controller)@.adjusted(
                    -step_delta(count as int),
                ),
                _ => old(controller)@,
            }),
    {
        match event {
            RegulatorEvent::Rpm(rpm) => match rpm {
                RpmEvent::Low => Outcome::Transition(State::Idle),
                _ => Outcome::Handled,
            },
            RegulatorEvent::Button(button) => match button {
                ButtonEvent::IncShort(count) => {
                    controller.raise_target(*count);
                    Outcome::Handled
                },
                ButtonEvent::DecShort(count) => {
                    controller.lower_target(*count);
                    Outcome::Handled
                },
                ButtonEvent::OkShort(_) => Outcome::Transition(State::Off),
                ButtonEvent::OkLong => Outcome::Transition(State::Off),
                _ => Outcome::Handled,
            },
            _ => Outcome::Handled,
        }
    }

    /// Entry action of `Idle`.
    pub fn enter_idle(controller: &mut Controller, setpoint: &mut Setpoint)
        ensures
            final(controller)@ == old(controller)@.started_idle(),
            *final(setpoint) == old(setpoint).switched_on(),
    {
        controller.start_idle(setpoint);
    }

    /// Entry action of `Charging`.
    pub fn enter_charging(controller: &mut Controller)
        ensures
            final(controller)@ == old(controller)@.started_charging(),
    {
        controller.start_charging();
    }

    /// Entry action of `Off`.
    pub fn enter_off(controller: &mut Controller, setpoint: &mut Setpoint)
        ensures
            final(controller)@ == old(controller)@.stopped(),
            *final(setpoint) == old(setpoint).switched_off(),
    {
        controller.stop(setpoint);
    }

    /// Publishes the name of the mode that was entered.
    pub fn after_transition(source: &State, target: &State, status: &mut StatusText)
        ensures
            final(status)@ == target.name_text(),
    {
        let name: &'static str = target.name();
        let _fits: bool = status.set(name);
    }

    /// Hands one event to the current mode and carries out what follows
    /// from it: an adjustment inside the mode, or the change to another mode
    /// with that mode's entry action and the new name in the status string.
    pub fn handle(
        &mut self,
        event: &RegulatorEvent,
        controller: &mut Controller,
        process_data: &ProcessData,
        setpoint: &mut Setpoint,
        status: &mut StatusText,
    )
        ensures
            final(self)@ == old(self)@.next(*event, process_data.rpm_normal()),
            final(controller)@ == old(self)@.controller_after(
                *event,
                process_data.rpm_normal(),
                old(controller)@,
            ),
            *final(setpoint) == old(self)@.setpoint_after(
                *event,
                process_data.rpm_normal(),
                *old(setpoint),
            ),
            final(status)@ == old(self)@.status_after(
                *event,
                process_data.rpm_normal(),
                old(status)@,
            ),
    {
        let source: State = self.state;
        let outcome: Outcome = match source {
            State::Startup => Self::startup(event),
            State::Off => Self::off(event, process_data),
            State::Idle => Self::idle(event),
            State::Charging => Self::charging(event, controller),
        };
        match outcome {
            Outcome::Handled => {},
            Outcome::Transition(target) => {
                match target {
                    State::Startup => {},
                    State::Off => Self::enter_off(controller, setpoint),
                    State::Idle => Self::enter_idle(controller, setpoint),
                    State::Charging => Self::enter_charging(controller),
                }
                self.state = target;
                Self::after_transition(&source, &target, status);
            },
        }
    }
}

/// Every mode takes every event: the event is either absorbed or changes the
/// mode in one of six ways, and nothing leads back to `Startup`.
pub proof fn lemma_every_event_is_handled(state: State, event: RegulatorEvent, rpm_normal: bool)
    ensures
        state.outcome(event, rpm_normal) matches Outcome::Transition(target) ==> {
            ||| state == State::Startup && target == State::Off
            ||| state == State::Off && target == State::Idle && !rpm_normal
            ||| state == State::Off && target == State::Charging && rpm_normal
            ||| state == State::Idle && target == State::Charging
            ||| state == State::Charging && target == State::Idle
            ||| state == State::Charging && target == State::Off
        },
        state.outcome(event, rpm_normal) is Handled ==> state.next(event, rpm_normal) == state,
        state.next(event, rpm_normal) == State::Startup ==> state == State::Startup,
{
}

/// The controller's flags fit the mode: no field current in `Startup` and
/// `Off`, the idle current alone in `Idle`, idle and charge current in
/// `Charging`.
pub open spec fn flags_fit(state: State, controller: ControllerState) -> bool {
    match state {
        State::Startup | State::Off => !controller.idle && !controller.charge,
        State::Idle => controller.idle && !controller.charge,
        State::Charging => controller.idle && controller.charge,
    }
}

/// The flags of a new controller fit the mode in which the regulator starts,
/// and whatever event a mode takes, flags that fitted the mode before fit
/// the mode after it.
pub proof fn lemma_flags_fit_mode(
    state: State,
    event: RegulatorEvent,
    rpm_normal: bool,
    controller: ControllerState,
)
    requires
        flags_fit(state, controller),
    ensures
        flags_fit(State::Startup, ControllerState::initial()),
        flags_fit(
            state.next(event, rpm_normal),
            state.controller_after(event, rpm_normal, controller),
        ),
{
}

/// While the controller's flags fit the mode, the field current limit fits
/// it too: nothing in `Startup` and `Off`, the idle current in `Idle`, and in
/// `Charging` the idle current and at most the maximum charge current on
/// top of it.
pub proof fn lemma_field_current_fits_mode(
    state: State,
    controller: ControllerState,
    rpm: Option<i64>,
)
    requires
        controller.inv(),
        flags_fit(state, controller),
    ensures
        state == State::Startup || state == State::Off ==> controller.field_current(rpm) == Some(
            0int,
        ),
        state == State::Idle ==> controller.field_current(rpm) == Some(IDLE_FIELD_CURRENT as int),
        state == State::Charging ==> (controller.field_current(rpm) matches Some(limit)
            ==> IDLE_FIELD_CURRENT <= limit <= IDLE_FIELD_CURRENT + MAX_FIELD_CURRENT),
{
    if let Some(factor) = controller.speed_factor(rpm) {
        if let Some(speed) = rpm {
            lemma_rpm_factor_is_between_entries(speed as int);
        }
        lemma_charge_current_is_bounded(factor, controller.target, controller.derating);
    }
}

/// Whatever mode takes whatever event, a controller whose factors are in
/// range keeps them in range, and charges only while the idle current flows.
pub proof fn lemma_modes_keep_controller_in_range(
    state: State,
    event: RegulatorEvent,
    rpm_normal: bool,
    controller: ControllerState,
)
    requires
        controller.inv(),
    ensures
        state.controller_after(event, rpm_normal, controller).inv(),
{
}

} // verus!
