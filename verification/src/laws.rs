//! What holds of the controller over whole runs: which phases can ever be
//! reached, how the cycle closes, how long each colour lasts, and what the
//! emergency stop does from anywhere.

use vstd::prelude::*;
use crate::machine::state_after;
use crate::signals::initial_state;
use crate::signals::obeys_pairing_rule;
use crate::signals::safe_state;
use crate::signals::PedestrianLightPossibleStates;
use crate::signals::TrafficLightEvents;
use crate::signals::TrafficLightPossibleStates;
use crate::signals::WAITING_TIME_AT_RED_AND_GREEN;
use crate::signals::WAITING_TIME_AT_YELLOW;

verus! {

/// The phase reached from `state` by handling `events` one after another.
pub open spec fn state_after_all(
    state: (TrafficLightPossibleStates, PedestrianLightPossibleStates),
    events: Seq<TrafficLightEvents>,
) -> (TrafficLightPossibleStates, PedestrianLightPossibleStates)
    decreases events.len(),
{
    if events.len() == 0 {
        state
    } else {
        state_after(state_after_all(state, events.drop_last()), events.last())
    }
}

/// The phase reached from `state` by `count` light changes in a row.
pub open spec fn state_after_light_changes(
    state: (TrafficLightPossibleStates, PedestrianLightPossibleStates),
    count: nat,
) -> (TrafficLightPossibleStates, PedestrianLightPossibleStates)
    decreases count,
{
    if count == 0 {
        state
    } else {
        state_after(
            state_after_light_changes(state, (count - 1) as nat),
            TrafficLightEvents::LightChange,
        )
    }
}

/// A light change from any vehicle light that the table has a row for ends in
/// a phase that obeys the pairing rule and that the table has a row for again,
/// whatever the pedestrian light showed before.
pub proof fn light_change_establishes_pairing(
    state: (TrafficLightPossibleStates, PedestrianLightPossibleStates),
)
    requires
        state.0.scheduled_transition() is Some,
    ensures
        obeys_pairing_rule(state_after(state, TrafficLightEvents::LightChange)),
        state_after(state, TrafficLightEvents::LightChange).0.scheduled_transition() is Some,
{
}

/// Whatever events a controller has handled since it was initialized, its
/// phase obeys the pairing rule or is the safe phase of the emergency stop,
/// and the table has a row for its vehicle light: a light change is always
/// possible. Unless the last event was an emergency stop, the pairing rule
/// holds.
pub proof fn every_reached_state_is_paired_or_safe(events: Seq<TrafficLightEvents>)
    ensures
        obeys_pairing_rule(state_after_all(initial_state(), events)) || state_after_all(
            initial_state(),
            events,
        ) == safe_state(),
        state_after_all(initial_state(), events).0.scheduled_transition() is Some,
        events.len() == 0 || events.last() is LightChange ==> obeys_pairing_rule(
            state_after_all(initial_state(), events),
        ),
    decreases events.len(),
{
    if events.len() > 0 {
        every_reached_state_is_paired_or_safe(events.drop_last());
        light_change_establishes_pairing(state_after_all(initial_state(), events.drop_last()));
    }
}

/// The cycle has exactly four phases: four light changes bring a phase that
/// obeys the pairing rule back to itself, and one, two or three do not.
pub proof fn four_light_changes_close_the_cycle(
    state: (TrafficLightPossibleStates, PedestrianLightPossibleStates),
)
    requires
        obeys_pairing_rule(state),
    ensures
        state_after_light_changes(state, 4) == state,
        state_after_light_changes(state, 1) != state,
        state_after_light_changes(state, 2) != state,
        state_after_light_changes(state, 3) != state,
{
    reveal_with_fuel(state_after_light_changes, 5);
}

/// From the initial phase the cycle runs: yellow towards green with
/// pedestrians walking, green with pedestrians waiting, yellow towards red
/// with pedestrians waiting, and red with pedestrians walking again.
pub proof fn cycle_from_initial_state()
    ensures
        state_after_light_changes(initial_state(), 1) == (
            TrafficLightPossibleStates::Yellow {
                going_to: Box::new(TrafficLightPossibleStates::Green),
            },
            PedestrianLightPossibleStates::Walk,
        ),
        state_after_light_changes(initial_state(), 2) == (
            TrafficLightPossibleStates::Green,
            PedestrianLightPossibleStates::DontWalk,
        ),
        state_after_light_changes(initial_state(), 3) == (
            TrafficLightPossibleStates::Yellow {
                going_to: Box::new(TrafficLightPossibleStates::Red),
            },
            PedestrianLightPossibleStates::DontWalk,
        ),
        state_after_light_changes(initial_state(), 4) == initial_state(),
{
    reveal_with_fuel(state_after_light_changes, 5);
}

/// Red and green last three seconds; either yellow lasts one.
pub proof fn waiting_time_goes_by_colour(light: TrafficLightPossibleStates)
    requires
        light.scheduled_transition() is Some,
    ensures
        light is Red || light is Green ==> light.scheduled_transition().unwrap().waiting_time
            == WAITING_TIME_AT_RED_AND_GREEN == 3,
        light is Yellow ==> light.scheduled_transition().unwrap().waiting_time
            == WAITING_TIME_AT_YELLOW == 1,
{
}

/// An emergency stop leads to the safe phase from every phase, also from one
/// that the table has no row for.
pub proof fn emergency_stop_reaches_safe_state(
    state: (TrafficLightPossibleStates, PedestrianLightPossibleStates),
)
    ensures
        state_after(state, TrafficLightEvents::EmergencyStop) == safe_state(),
        state_after(state, TrafficLightEvents::EmergencyStop) == (
            TrafficLightPossibleStates::Red,
            PedestrianLightPossibleStates::DontWalk,
        ),
{
}

/// A second emergency stop changes nothing: the phase after two in a row is
/// the phase after one.
pub proof fn emergency_stop_is_idempotent(
    state: (TrafficLightPossibleStates, PedestrianLightPossibleStates),
)
    ensures
        state_after(
            state_after(state, TrafficLightEvents::EmergencyStop),
            TrafficLightEvents::EmergencyStop,
        ) == state_after(state, TrafficLightEvents::EmergencyStop),
{
}

} // verus!
