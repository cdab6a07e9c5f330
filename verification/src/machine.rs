//! The controller: it owns the current phase and answers each event with the
//! next phase and with what the caller has to do before going on.

use vstd::prelude::*;
use vstd::pervasive::unreached;
use crate::signals::initial_state;
use crate::signals::obeys_pairing_rule;
use crate::signals::safe_state;
use crate::signals::PedestrianLightPossibleStates;
use crate::signals::TrafficLightEvents;
use crate::signals::TrafficLightPossibleStates;
use crate::wording::state_line;
use crate::wording::state_line_text;
use crate::wording::waiting_line;
use crate::wording::waiting_line_text;

verus! {

/// What a transition leaves for the caller to carry out: block for
/// `waiting_time` seconds, then emit the two lines in this order.
#[derive(Debug, PartialEq, Eq)]
pub struct TransitionAnnouncement {
    pub waiting_time: u64,
    pub waiting_line: String,
    pub state_line: String,
}

impl TransitionAnnouncement {
    /// This announcement is the one for entering `state` after `waiting_time`
    /// seconds: it carries that time and the two lines written for them.
    pub open spec fn announces(
        self,
        waiting_time: u64,
        state: (TrafficLightPossibleStates, PedestrianLightPossibleStates),
    ) -> bool {
        &&& self.waiting_time == waiting_time
        &&& self.waiting_line@ == waiting_line_text(waiting_time)
        &&& self.state_line@ == state_line_text(state)
    }
}

/// The controller's answer to one event.
#[derive(Debug, PartialEq, Eq)]
pub struct HandledEvent {
    /// The wait and the lines that belong to the transition, if there was one
    /// to announce.
    pub announcement: Option<TransitionAnnouncement>,
    /// The event to hand to the controller next, once the announcement has
    /// been carried out. `None` leaves the next move to the caller.
    pub follow_up: Option<TrafficLightEvents>,
}

/// The phase that follows `state` on `event`. A light change goes by the table
/// row of the vehicle light, whatever the pedestrian light shows; where the
/// table has no row the phase stays. An emergency stop gives the safe phase.
pub open spec fn state_after(
    state: (TrafficLightPossibleStates, PedestrianLightPossibleStates),
    event: TrafficLightEvents,
) -> (TrafficLightPossibleStates, PedestrianLightPossibleStates) {
    match event {
        TrafficLightEvents::LightChange => match state.0.scheduled_transition() {
            Some(row) => row.new_state,
            None => state,
        },
        TrafficLightEvents::EmergencyStop => safe_state(),
    }
}

/// The controller of one intersection.
#[derive(Debug)]
pub struct TrafficLightStateMachineImpl {
    current_light_state: TrafficLightPossibleStates,
    current_pedestrian_state: PedestrianLightPossibleStates,
}

impl View for TrafficLightStateMachineImpl {
    type V = (TrafficLightPossibleStates, PedestrianLightPossibleStates);

    /// The phase the controller is in.
    closed spec fn view(&self) -> (TrafficLightPossibleStates, PedestrianLightPossibleStates) {
        (self.current_light_state, self.current_pedestrian_state)
    }
}

impl TrafficLightStateMachineImpl {
    /// A controller in the initial phase: vehicles stopped, pedestrians
    /// walking. The cycle starts when the caller hands it the first
    /// `LightChange`.
    pub fn initialize_state_machine() -> (machine: Self)
        ensures
            machine@ == initial_state(),
            obeys_pairing_rule(machine@),
    {
        TrafficLightStateMachineImpl {
            current_light_state: TrafficLightPossibleStates::Red,
            current_pedestrian_state: PedestrianLightPossibleStates::Walk,
        }
    }

    /// Moves the controller on `event`.
    ///
    /// A light change takes the table row of the current vehicle light, enters
    /// the row's phase and answers with the announcement for it and with
    /// another `LightChange` to follow: the cycle keeps itself going. The
    /// caller blocks for the announced time before it emits the lines.
    ///
    /// An emergency stop enters the safe phase at once: nothing to wait for,
    /// nothing to emit, nothing to follow.
    ///
    /// A light change needs a vehicle light that the table has a row for;
    /// `look_up` on the current light tells.
    pub fn handle_event(&mut self, event: TrafficLightEvents) -> (outcome: HandledEvent)
        requires
            event is LightChange ==> old(self)@.0.scheduled_transition() is Some,
        ensures
            final(self)@ == state_after(old(self)@, event),
            event is LightChange ==> {
                &&& obeys_pairing_rule(final(self)@)
                &&& final(self)@.0.scheduled_transition() is Some
                &&& outcome.follow_up == Some(TrafficLightEvents::LightChange)
                &&& outcome.announcement matches Some(announcement)
                &&& announcement.announces(
                    old(self)@.0.scheduled_transition().unwrap().waiting_time,
                    final(self)@,
                )
            },
            event is EmergencyStop ==> {
                &&& final(self)@ == safe_state()
                &&& outcome.follow_up is None
                &&& outcome.announcement is None
            },
    {
        match event {
            TrafficLightEvents::LightChange => match self.current_light_state.look_up() {
                Some(row) => {
                    let announcement = self.transition_to_new_state_after_waiting(
                        row.waiting_time,
                        row.new_state,
                    );
                    HandledEvent {
                        announcement: Some(announcement),
                        follow_up: Some(TrafficLightEvents::LightChange),
                    }
                },
                None => unreached(),
            },
            TrafficLightEvents::EmergencyStop => {
                self.current_light_state = TrafficLightPossibleStates::Red;
                self.current_pedestrian_state = PedestrianLightPossibleStates::DontWalk;
                HandledEvent { announcement: None, follow_up: None }
            },
        }
    }

    /// Enters `new_state` and answers with the announcement of it: the time to
    /// block first, then the line that names that time and the line that names
    /// the phase entered.
    pub fn transition_to_new_state_after_waiting(
        &mut self,
        waiting_time: u64,
        new_state: (TrafficLightPossibleStates, PedestrianLightPossibleStates),
    ) -> (announcement: TransitionAnnouncement)
        ensures
            final(self)@ == new_state,
            announcement.announces(waiting_time, new_state),
    {
        let waiting_line = waiting_line(waiting_time);
        self.current_light_state = new_state.0;
        self.current_pedestrian_state = new_state.1;
        let state_line = state_line(&self.current_light_state, &self.current_pedestrian_state);
        TransitionAnnouncement { waiting_time, waiting_line, state_line }
    }

    /// The vehicle light of the current phase.
    pub fn current_light_state(&self) -> (light: &TrafficLightPossibleStates)
        ensures
            *light == self@.0,
    {
        &self.current_light_state
    }

    /// The pedestrian light of the current phase.
    pub fn current_pedestrian_state(&self) -> (pedestrian: PedestrianLightPossibleStates)
        ensures
            pedestrian == self@.1,
    {
        self.current_pedestrian_state
    }
}

} // verus!
