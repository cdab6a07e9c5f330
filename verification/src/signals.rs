//! The signals of the intersection, the rule that pairs them, and the fixed
//! table that says what follows each vehicle light and after how long.

use vstd::prelude::*;

verus! {

/// The vehicle-facing signal. A yellow light records the colour it is heading
/// for, so the two yellow phases of a cycle are told apart.
#[derive(Debug, PartialEq, Eq)]
pub enum TrafficLightPossibleStates {
    Red,
    Yellow { going_to: Box<TrafficLightPossibleStates> },
    Green,
}

/// The pedestrian-facing signal.
#[derive(Debug, Clone, Copy, PartialEq, Eq)]
pub enum PedestrianLightPossibleStates {
    Walk,
    DontWalk,
}

/// What can happen to the controller.
#[derive(Debug, Clone, Copy, PartialEq, Eq)]
pub enum TrafficLightEvents {
    /// The scheduled step to the next phase of the cycle.
    LightChange,
    /// The out-of-band demand for the safe phase.
    EmergencyStop,
}

/// Seconds spent at red and at green before the light changes.
pub const WAITING_TIME_AT_RED_AND_GREEN: u64 = 3;

/// Seconds spent at either yellow before the light changes.
pub const WAITING_TIME_AT_YELLOW: u64 = 1;

/// One row of the transition table: how long the current phase lasts, in whole
/// seconds, and the phase that follows it.
#[derive(Debug, PartialEq, Eq)]
pub struct ScheduledTransition {
    pub waiting_time: u64,
    pub new_state: (TrafficLightPossibleStates, PedestrianLightPossibleStates),
}

/// The phase every controller starts in.
pub open spec fn initial_state() -> (TrafficLightPossibleStates, PedestrianLightPossibleStates) {
    (TrafficLightPossibleStates::Red, PedestrianLightPossibleStates::Walk)
}

/// The phase an emergency stop forces.
pub open spec fn safe_state() -> (TrafficLightPossibleStates, PedestrianLightPossibleStates) {
    (TrafficLightPossibleStates::Red, PedestrianLightPossibleStates::DontWalk)
}

/// The pairing rule: pedestrians may walk exactly while the vehicle light is
/// red or is leaving red, and must wait while it is green or is leaving green.
/// A yellow light heading for another yellow pairs with nothing.
pub open spec fn obeys_pairing_rule(
    state: (TrafficLightPossibleStates, PedestrianLightPossibleStates),
) -> bool {
    match state.0 {
        TrafficLightPossibleStates::Red => state.1 is Walk,
        TrafficLightPossibleStates::Yellow { going_to } => match *going_to {
            TrafficLightPossibleStates::Green => state.1 is Walk,
            TrafficLightPossibleStates::Red => state.1 is DontWalk,
            TrafficLightPossibleStates::Yellow { .. } => false,
        },
        TrafficLightPossibleStates::Green => state.1 is DontWalk,
    }
}

impl Clone for TrafficLightPossibleStates {
    fn clone(&self) -> (copy: Self)
        ensures
            copy == *self,
    {
        self.duplicate()
    }
}

impl TrafficLightPossibleStates {
    /// An equal light, built anew down to the innermost target.
    fn duplicate(&self) -> (copy: Self)
        ensures
            copy == *self,
        decreases *self,
    {
        match self {
            TrafficLightPossibleStates::Red => TrafficLightPossibleStates::Red,
            TrafficLightPossibleStates::Yellow { going_to } => TrafficLightPossibleStates::Yellow {
                going_to: Box::new(going_to.duplicate()),
            },
            TrafficLightPossibleStates::Green => TrafficLightPossibleStates::Green,
        }
    }

    /// The table, as a partial function of the vehicle light alone: red waits
    /// and turns yellow towards green, that yellow turns green, green waits and
    /// turns yellow towards red, that yellow turns red. A yellow heading for
    /// another yellow has no row.
    pub open spec fn scheduled_transition(self) -> Option<ScheduledTransition> {
        match self {
            TrafficLightPossibleStates::Red => Some(
                ScheduledTransition {
                    waiting_time: WAITING_TIME_AT_RED_AND_GREEN,
                    new_state: (
                        TrafficLightPossibleStates::Yellow {
                            going_to: Box::new(TrafficLightPossibleStates::Green),
                        },
                        PedestrianLightPossibleStates::Walk,
                    ),
                },
            ),
            TrafficLightPossibleStates::Yellow { going_to } => match *going_to {
                TrafficLightPossibleStates::Green => Some(
                    ScheduledTransition {
                        waiting_time: WAITING_TIME_AT_YELLOW,
                        new_state: (
                            TrafficLightPossibleStates::Green,
                            PedestrianLightPossibleStates::DontWalk,
                        ),
                    },
                ),
                TrafficLightPossibleStates::Red => Some(
                    ScheduledTransition {
                        waiting_time: WAITING_TIME_AT_YELLOW,
                        new_state: (
                            TrafficLightPossibleStates::Red,
                            PedestrianLightPossibleStates::Walk,
                        ),
                    },
                ),
                TrafficLightPossibleStates::Yellow { .. } => None,
            },
            TrafficLightPossibleStates::Green => Some(
                ScheduledTransition {
                    waiting_time: WAITING_TIME_AT_RED_AND_GREEN,
                    new_state: (
                        TrafficLightPossibleStates::Yellow {
                            going_to: Box::new(TrafficLightPossibleStates::Red),
                        },
                        PedestrianLightPossibleStates::DontWalk,
                    ),
                },
            ),
        }
    }

    /// Looks this light up in the transition table. `None` means the light is a
    /// yellow heading for another yellow, which no row of the table covers.
    pub fn look_up(&self) -> (row: Option<ScheduledTransition>)
        ensures
            row == self.scheduled_transition(),
    {
        match self {
            TrafficLightPossibleStates::Red => Some(
                ScheduledTransition {
                    waiting_time: WAITING_TIME_AT_RED_AND_GREEN,
                    new_state: (
                        TrafficLightPossibleStates::Yellow {
                            going_to: Box::new(TrafficLightPossibleStates::Green),
                        },
                        PedestrianLightPossibleStates::Walk,
                    ),
                },
            ),
            TrafficLightPossibleStates::Yellow { going_to } => match &**going_to {
                TrafficLightPossibleStates::Green => Some(
                    ScheduledTransition {
                        waiting_time: WAITING_TIME_AT_YELLOW,
                        new_state: (
                            TrafficLightPossibleStates::Green,
                            PedestrianLightPossibleStates::DontWalk,
                        ),
                    },
                ),
                TrafficLightPossibleStates::Red => Some(
                    ScheduledTransition {
                        waiting_time: WAITING_TIME_AT_YELLOW,
                        new_state: (
                            TrafficLightPossibleStates::Red,
                            PedestrianLightPossibleStates::Walk,
                        ),
                    },
                ),
                TrafficLightPossibleStates::Yellow { .. } => None,
            },
            TrafficLightPossibleStates::Green => Some(
                ScheduledTransition {
                    waiting_time: WAITING_TIME_AT_RED_AND_GREEN,
                    new_state: (
                        TrafficLightPossibleStates::Yellow {
                            going_to: Box::new(TrafficLightPossibleStates::Red),
                        },
                        PedestrianLightPossibleStates::DontWalk,
                    ),
                },
            ),
        }
    }
}

} // verus!
