//! The traffic light phases and the controller that cycles through them.
use vstd::prelude::*;

use crate::config::{GREEN_DURATION_MS, RED_DURATION_MS, YELLOW_DURATION_MS};

verus! {

/// The lamp that is lit.
#[derive(Clone, Copy, Debug, PartialEq, Eq, Structural)]
pub enum TrafficLightState {
    Red,
    Yellow,
    Green,
}

/// The phase that follows `state`: Red, then Green, then Yellow, then Red.
pub open spec fn next_state(state: TrafficLightState) -> TrafficLightState {
    match state {
        TrafficLightState::Red => TrafficLightState::Green,
        TrafficLightState::Green => TrafficLightState::Yellow,
        TrafficLightState::Yellow => TrafficLightState::Red,
    }
}

/// The phase reached from `state` after `n` transitions.
pub open spec fn state_after(state: TrafficLightState, n: nat) -> TrafficLightState
    decreases n,
{
    if n == 0 {
        state
    } else {
        next_state(state_after(state, (n - 1) as nat))
    }
}

/// The order in which the phases come, starting from Red.
pub open spec fn cycle_order() -> Seq<TrafficLightState> {
    seq![TrafficLightState::Red, TrafficLightState::Green, TrafficLightState::Yellow]
}

/// What a controller holds: its phase and the duration of each phase.
pub struct ControllerModel {
    pub phase: TrafficLightState,
    pub red_ms: u64,
    pub yellow_ms: u64,
    pub green_ms: u64,
}

impl ControllerModel {
    /// How long the lamp of `phase` stays lit.
    pub open spec fn duration_of(self, phase: TrafficLightState) -> u64 {
        match phase {
            TrafficLightState::Red => self.red_ms,
            TrafficLightState::Yellow => self.yellow_ms,
            TrafficLightState::Green => self.green_ms,
        }
    }

    /// The same controller moved on to the next phase.
    pub open spec fn advanced(self) -> ControllerModel {
        ControllerModel { phase: next_state(self.phase), ..self }
    }

    /// The same controller moved on by `n` phases.
    pub open spec fn advanced_by(self, n: nat) -> ControllerModel {
        ControllerModel { phase: state_after(self.phase, n), ..self }
    }
}

/// Tracks the lit phase and the configured duration of each phase.
#[derive(Clone, Copy, Debug, PartialEq, Eq, Structural)]
pub struct TrafficLightController {
    current_state: TrafficLightState,
    red_duration: u64,
    yellow_duration: u64,
    green_duration: u64,
}

impl View for TrafficLightController {
    type V = ControllerModel;

    closed spec fn view(&self) -> ControllerModel {
        ControllerModel {
            phase: self.current_state,
            red_ms: self.red_duration,
            yellow_ms: self.yellow_duration,
            green_ms: self.green_duration,
        }
    }
}

impl TrafficLightController {
    /// A controller at Red, with the configured durations.
    pub fn new() -> (r: Self)
        ensures
            r@ == (ControllerModel {
                phase: TrafficLightState::Red,
                red_ms: RED_DURATION_MS,
                yellow_ms: YELLOW_DURATION_MS,
                green_ms: GREEN_DURATION_MS,
            }),
    {
        TrafficLightController {
            current_state: TrafficLightState::Red,
            red_duration: RED_DURATION_MS,
            yellow_duration: YELLOW_DURATION_MS,
            green_duration: GREEN_DURATION_MS,
        }
    }

    /// Moves to the next phase and returns it; the durations stay as they
    /// were.
    pub fn advance(&mut self) -> (r: TrafficLightState)
        ensures
            final(self)@ == old(self)@.advanced(),
            r == final(self)@.phase,
    {
        self.current_state = match self.current_state {
            TrafficLightState::Red => TrafficLightState::Green,
            TrafficLightState::Green => TrafficLightState::Yellow,
            TrafficLightState::Yellow => TrafficLightState::Red,
        };
        self.current_state
    }

    /// The lit phase.
    pub fn current_state(&self) -> (r: TrafficLightState)
        ensures
            r == self@.phase,
    {
        self.current_state
    }

    /// How long the lit phase lasts, in milliseconds.
    pub fn current_duration(&self) -> (r: u64)
        ensures
            r == self@.duration_of(self@.phase),
    {
        match self.current_state {
            TrafficLightState::Red => self.red_duration,
            TrafficLightState::Yellow => self.yellow_duration,
            TrafficLightState::Green => self.green_duration,
        }
    }

    /// How long the red phase lasts, in milliseconds.
    pub fn red_duration(&self) -> (r: u64)
        ensures
            r == self@.red_ms,
    {
        self.red_duration
    }

    /// How long the yellow phase lasts, in milliseconds.
    pub fn yellow_duration(&self) -> (r: u64)
        ensures
            r == self@.yellow_ms,
    {
        self.yellow_duration
    }

    /// How long the green phase lasts, in milliseconds.
    pub fn green_duration(&self) -> (r: u64)
        ensures
            r == self@.green_ms,
    {
        self.green_duration
    }

    /// Whether the red lamp is lit.
    pub fn is_red(&self) -> (r: bool)
        ensures
            r == (self@.phase == TrafficLightState::Red),
    {
        self.current_state == TrafficLightState::Red
    }

    /// Whether the yellow lamp is lit.
    pub fn is_yellow(&self) -> (r: bool)
        ensures
            r == (self@.phase == TrafficLightState::Yellow),
    {
        self.current_state == TrafficLightState::Yellow
    }

    /// Whether the green lamp is lit.
    pub fn is_green(&self) -> (r: bool)
        ensures
            r == (self@.phase == TrafficLightState::Green),
    {
        self.current_state == TrafficLightState::Green
    }
}

impl Default for TrafficLightController {
    /// The same controller as `new` gives.
    fn default() -> (r: Self)
        ensures
            r@ == (ControllerModel {
                phase: TrafficLightState::Red,
                red_ms: RED_DURATION_MS,
                yellow_ms: YELLOW_DURATION_MS,
                green_ms: GREEN_DURATION_MS,
            }),
    {
        Self::new()
    }
}

/// Whether the lamp of `target` is lit when the phase is `current`.
pub fn state_to_level(current: TrafficLightState, target: TrafficLightState) -> (r: bool)
    ensures
        r == (current == target),
{
    current == target
}

/// Three transitions bring a controller back to exactly where it was.
pub proof fn lemma_three_advances_restore(c: ControllerModel)
    ensures
        c.advanced().advanced().advanced() == c,
{
}

/// Moving on by `n` phases is `n` single transitions.
pub proof fn lemma_advanced_by_steps(c: ControllerModel, n: nat)
    ensures
        c.advanced_by(n + 1) == c.advanced_by(n).advanced(),
        c.advanced_by(0) == c,
{
}

/// From Red, the phase after `n` transitions is entry `n % 3` of Red,
/// Green, Yellow.
pub proof fn lemma_state_after_from_red(n: nat)
    ensures
        state_after(TrafficLightState::Red, n) == cycle_order()[(n % 3) as int],
    decreases n,
{
    if n > 0 {
        lemma_state_after_from_red((n - 1) as nat);
    }
}

/// At every phase, exactly one of the red, yellow and green lamps is lit.
pub proof fn lemma_exactly_one_lamp(c: ControllerModel)
    ensures
        (c.phase == TrafficLightState::Red) as int + (c.phase == TrafficLightState::Yellow) as int
            + (c.phase == TrafficLightState::Green) as int == 1,
{
}

} // verus!
