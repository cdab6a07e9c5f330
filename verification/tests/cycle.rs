use traffic_light::machine::HandledEvent;
use traffic_light::machine::TrafficLightStateMachineImpl;
use traffic_light::signals::PedestrianLightPossibleStates;
use traffic_light::signals::ScheduledTransition;
use traffic_light::signals::TrafficLightEvents;
use traffic_light::signals::TrafficLightPossibleStates;
use traffic_light::signals::WAITING_TIME_AT_RED_AND_GREEN;
use traffic_light::signals::WAITING_TIME_AT_YELLOW;

fn yellow_to(target: TrafficLightPossibleStates) -> TrafficLightPossibleStates {
    TrafficLightPossibleStates::Yellow { going_to: Box::new(target) }
}

fn phase_of(
    machine: &TrafficLightStateMachineImpl,
) -> (TrafficLightPossibleStates, PedestrianLightPossibleStates) {
    (machine.current_light_state().clone(), machine.current_pedestrian_state())
}

fn is_paired(phase: &(TrafficLightPossibleStates, PedestrianLightPossibleStates)) -> bool {
    let table = [
        (TrafficLightPossibleStates::Red, PedestrianLightPossibleStates::Walk),
        (yellow_to(TrafficLightPossibleStates::Green), PedestrianLightPossibleStates::Walk),
        (yellow_to(TrafficLightPossibleStates::Red), PedestrianLightPossibleStates::DontWalk),
        (TrafficLightPossibleStates::Green, PedestrianLightPossibleStates::DontWalk),
    ];
    table.iter().any(|row| row == phase)
}

fn light_change(machine: &mut TrafficLightStateMachineImpl) -> HandledEvent {
    assert!(machine.current_light_state().look_up().is_some());
    machine.handle_event(TrafficLightEvents::LightChange)
}

#[test]
fn starts_at_red_with_pedestrians_walking() {
    let machine = TrafficLightStateMachineImpl::initialize_state_machine();
    assert_eq!(machine.current_light_state(), &TrafficLightPossibleStates::Red);
    assert_eq!(machine.current_pedestrian_state(), PedestrianLightPossibleStates::Walk);
    assert!(is_paired(&phase_of(&machine)));
}

#[test]
fn waiting_times_are_three_and_one_seconds() {
    assert_eq!(WAITING_TIME_AT_RED_AND_GREEN, 3);
    assert_eq!(WAITING_TIME_AT_YELLOW, 1);
}

#[test]
fn table_row_for_red() {
    assert_eq!(
        TrafficLightPossibleStates::Red.look_up(),
        Some(ScheduledTransition {
            waiting_time: 3,
            new_state: (
                yellow_to(TrafficLightPossibleStates::Green),
                PedestrianLightPossibleStates::Walk,
            ),
        })
    );
}

#[test]
fn table_row_for_yellow_towards_green() {
    assert_eq!(
        yellow_to(TrafficLightPossibleStates::Green).look_up(),
        Some(ScheduledTransition {
            waiting_time: 1,
            new_state: (TrafficLightPossibleStates::Green, PedestrianLightPossibleStates::DontWalk),
        })
    );
}

#[test]
fn table_row_for_green() {
    assert_eq!(
        TrafficLightPossibleStates::Green.look_up(),
        Some(ScheduledTransition {
            waiting_time: 3,
            new_state: (
                yellow_to(TrafficLightPossibleStates::Red),
                PedestrianLightPossibleStates::DontWalk,
            ),
        })
    );
}

#[test]
fn table_row_for_yellow_towards_red() {
    assert_eq!(
        yellow_to(TrafficLightPossibleStates::Red).look_up(),
        Some(ScheduledTransition {
            waiting_time: 1,
            new_state: (TrafficLightPossibleStates::Red, PedestrianLightPossibleStates::Walk),
        })
    );
}

#[test]
fn yellow_towards_yellow_has_no_table_row() {
    let towards_yellow = yellow_to(yellow_to(TrafficLightPossibleStates::Green));
    assert_eq!(towards_yellow.look_up(), None);
    let deeper = yellow_to(yellow_to(yellow_to(TrafficLightPossibleStates::Red)));
    assert_eq!(deeper.look_up(), None);
}

#[test]
fn four_light_changes_walk_the_cycle_and_close_it() {
    let mut machine = TrafficLightStateMachineImpl::initialize_state_machine();

    let first = light_change(&mut machine);
    assert_eq!(first.announcement.as_ref().map(|a| a.waiting_time), Some(3));
    assert_eq!(
        phase_of(&machine),
        (yellow_to(TrafficLightPossibleStates::Green), PedestrianLightPossibleStates::Walk)
    );

    let second = light_change(&mut machine);
    assert_eq!(second.announcement.as_ref().map(|a| a.waiting_time), Some(1));
    assert_eq!(
        phase_of(&machine),
        (TrafficLightPossibleStates::Green, PedestrianLightPossibleStates::DontWalk)
    );

    let third = light_change(&mut machine);
    assert_eq!(third.announcement.as_ref().map(|a| a.waiting_time), Some(3));
    assert_eq!(
        phase_of(&machine),
        (yellow_to(TrafficLightPossibleStates::Red), PedestrianLightPossibleStates::DontWalk)
    );

    let fourth = light_change(&mut machine);
    assert_eq!(fourth.announcement.as_ref().map(|a| a.waiting_time), Some(1));
    assert_eq!(
        phase_of(&machine),
        (TrafficLightPossibleStates::Red, PedestrianLightPossibleStates::Walk)
    );
}

#[test]
fn cycle_does_not_close_before_the_fourth_light_change() {
    let mut machine = TrafficLightStateMachineImpl::initialize_state_machine();
    let start = phase_of(&machine);
    for _ in 0..3 {
        light_change(&mut machine);
        assert_ne!(phase_of(&machine), start);
    }
    light_change(&mut machine);
    assert_eq!(phase_of(&machine), start);
}

#[test]
fn every_phase_of_many_cycles_is_paired() {
    let mut machine = TrafficLightStateMachineImpl::initialize_state_machine();
    for _ in 0..25 {
        light_change(&mut machine);
        assert!(is_paired(&phase_of(&machine)));
    }
    assert_eq!(
        phase_of(&machine),
        (yellow_to(TrafficLightPossibleStates::Green), PedestrianLightPossibleStates::Walk)
    );
}

#[test]
fn red_and_green_wait_three_seconds_and_yellow_waits_one() {
    let mut machine = TrafficLightStateMachineImpl::initialize_state_machine();
    for _ in 0..8 {
        let leaving = machine.current_light_state().clone();
        let outcome = light_change(&mut machine);
        let waited = outcome.announcement.expect("a light change is announced").waiting_time;
        match leaving {
            TrafficLightPossibleStates::Red | TrafficLightPossibleStates::Green => {
                assert_eq!(waited, 3)
            }
            TrafficLightPossibleStates::Yellow { .. } => assert_eq!(waited, 1),
        }
    }
}

#[test]
fn light_change_asks_for_another_light_change() {
    let mut machine = TrafficLightStateMachineImpl::initialize_state_machine();
    for _ in 0..4 {
        let outcome = light_change(&mut machine);
        assert_eq!(outcome.follow_up, Some(TrafficLightEvents::LightChange));
        assert!(outcome.announcement.is_some());
    }
}

#[test]
fn light_change_announces_the_wait_and_the_phase_entered() {
    let mut machine = TrafficLightStateMachineImpl::initialize_state_machine();
    let expected = [
        (
            "Transitioning to new state after waiting for 3s",
            "Light state: Yellow { going_to: Green }, Pedestrian state: Walk",
        ),
        (
            "Transitioning to new state after waiting for 1s",
            "Light state: Green, Pedestrian state: DontWalk",
        ),
        (
            "Transitioning to new state after waiting for 3s",
            "Light state: Yellow { going_to: Red }, Pedestrian state: DontWalk",
        ),
        (
            "Transitioning to new state after waiting for 1s",
            "Light state: Red, Pedestrian state: Walk",
        ),
    ];
    for (waiting_line, state_line) in expected {
        let announcement =
            light_change(&mut machine).announcement.expect("a light change is announced");
        assert_eq!(announcement.waiting_line, waiting_line);
        assert_eq!(announcement.state_line, state_line);
    }
}

#[test]
fn light_change_goes_by_the_vehicle_light_alone() {
    let mut machine = TrafficLightStateMachineImpl::initialize_state_machine();
    machine.transition_to_new_state_after_waiting(
        0,
        (TrafficLightPossibleStates::Green, PedestrianLightPossibleStates::Walk),
    );
    let outcome = light_change(&mut machine);
    assert_eq!(outcome.announcement.map(|a| a.waiting_time), Some(3));
    assert_eq!(
        phase_of(&machine),
        (yellow_to(TrafficLightPossibleStates::Red), PedestrianLightPossibleStates::DontWalk)
    );
}

#[test]
fn transition_enters_the_given_state_and_announces_it() {
    let mut machine = TrafficLightStateMachineImpl::initialize_state_machine();
    let announcement = machine.transition_to_new_state_after_waiting(
        7,
        (TrafficLightPossibleStates::Green, PedestrianLightPossibleStates::DontWalk),
    );
    assert_eq!(
        phase_of(&machine),
        (TrafficLightPossibleStates::Green, PedestrianLightPossibleStates::DontWalk)
    );
    assert_eq!(announcement.waiting_time, 7);
    assert_eq!(announcement.waiting_line, "Transitioning to new state after waiting for 7s");
    assert_eq!(announcement.state_line, "Light state: Green, Pedestrian state: DontWalk");
}

#[test]
fn transition_takes_any_state_as_it_is() {
    let mut machine = TrafficLightStateMachineImpl::initialize_state_machine();
    let odd = yellow_to(yellow_to(TrafficLightPossibleStates::Red));
    let announcement = machine
        .transition_to_new_state_after_waiting(0, (odd.clone(), PedestrianLightPossibleStates::Walk));
    assert_eq!(phase_of(&machine), (odd, PedestrianLightPossibleStates::Walk));
    assert_eq!(announcement.waiting_time, 0);
    assert_eq!(announcement.waiting_line, "Transitioning to new state after waiting for 0ns");
    assert_eq!(
        announcement.state_line,
        "Light state: Yellow { going_to: Yellow { going_to: Red } }, Pedestrian state: Walk"
    );
    assert!(machine.current_light_state().look_up().is_none());
}

#[test]
fn a_copy_of_a_light_equals_it() {
    let lights = [
        TrafficLightPossibleStates::Red,
        TrafficLightPossibleStates::Green,
        yellow_to(TrafficLightPossibleStates::Green),
        yellow_to(yellow_to(TrafficLightPossibleStates::Red)),
    ];
    for light in lights.iter() {
        assert_eq!(&light.clone(), light);
    }
    assert_ne!(
        yellow_to(TrafficLightPossibleStates::Green),
        yellow_to(TrafficLightPossibleStates::Red)
    );
}
