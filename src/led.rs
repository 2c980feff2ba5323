//! Two-valued signal state and its mapping to and from a boolean level.
use vstd::prelude::*;

verus! {

/// Whether a lamp is lit.
#[derive(Clone, Copy, Debug, PartialEq, Eq, Structural)]
pub enum LedState {
    On,
    Off,
}

/// The signal state that a boolean level stands for.
pub open spec fn led_state_of(level: bool) -> LedState {
    if level {
        LedState::On
    } else {
        LedState::Off
    }
}

/// The boolean level that a signal state stands for.
pub open spec fn level_of(state: LedState) -> bool {
    state == LedState::On
}

/// The opposite signal state.
pub open spec fn inverted(state: LedState) -> LedState {
    match state {
        LedState::On => LedState::Off,
        LedState::Off => LedState::On,
    }
}

/// Maps `true` to `On` and `false` to `Off`.
pub fn bool_to_led_state(state: bool) -> (r: LedState)
    ensures
        r == led_state_of(state),
{
    if state {
        LedState::On
    } else {
        LedState::Off
    }
}

/// Maps `On` to `true` and `Off` to `false`.
pub fn led_state_to_bool(state: LedState) -> (r: bool)
    ensures
        r == level_of(state),
{
    matches!(state, LedState::On)
}

/// The output level for a requested lamp state: the level is the request
/// itself.
pub fn get_led_level(state: bool) -> (r: bool)
    ensures
        r == state,
{
    state
}

/// Swaps `On` and `Off`.
pub fn invert_led_state(state: LedState) -> (r: LedState)
    ensures
        r == inverted(state),
{
    match state {
        LedState::On => LedState::Off,
        LedState::Off => LedState::On,
    }
}

/// Logical negation of a level.
pub fn invert_bool_state(state: bool) -> (r: bool)
    ensures
        r == !state,
{
    !state
}

/// Inverting a signal state twice gives it back, and so does negating a
/// level twice.
pub proof fn lemma_invert_involution(state: LedState, level: bool)
    ensures
        inverted(inverted(state)) == state,
        !!level == level,
{
}

/// A level mapped to a signal state and back is the same level, and a
/// signal state mapped to a level and back is the same state.
pub proof fn lemma_level_round_trip(level: bool, state: LedState)
    ensures
        level_of(led_state_of(level)) == level,
        led_state_of(level_of(state)) == state,
{
}

/// Inverting a signal state is negating its level.
pub proof fn lemma_invert_matches_negation(state: LedState)
    ensures
        level_of(inverted(state)) == !level_of(state),
{
}

} // verus!
