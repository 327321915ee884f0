use tokio::sync::mpsc::{unbounded_channel, UnboundedReceiver};
use velocirustor::dispatch::{decode, Action, ActuatorCall, Dispatcher, Event, Invocation, Motor, STOP_PROFILE};
use velocirustor::dispatcher::{Command, EndState, Profile, VehicleAPI, VehicleSpecificCommands};
use velocirustor::{VehicleError, VehicleMotorAPI, VehicleSteeringAPI};

fn drain(rx: &mut UnboundedReceiver<Command>) -> Vec<Command> {
    let mut out = Vec::new();
    while let Ok(c) = rx.try_recv() {
        out.push(c);
    }
    out
}

/// Runs the dispatcher over the commands and records the invocations per handle.
fn dispatch_recorded(cmds: Vec<Command>) -> (Vec<ActuatorCall>, Vec<ActuatorCall>, Vec<Action>) {
    let mut d = Dispatcher::new();
    let mut propulsion = Vec::new();
    let mut steering = Vec::new();
    let mut actions = Vec::new();
    for c in cmds {
        let a = d.step(Event::Received(c));
        if let Action::Issue(inv) = a {
            match inv.motor {
                Motor::Propulsion => propulsion.push(inv.call),
                Motor::Steering => steering.push(inv.call),
            }
        }
        actions.push(a);
    }
    (propulsion, steering, actions)
}

#[test]
fn encoding_populates_only_its_slot() {
    let c = Command::steer_by_pos(-300);
    assert_eq!(c.command_id, VehicleSpecificCommands::SteerByPosition);
    assert_eq!(c.args_i32, Some(vec![-300]));
    assert!(c.args_u8.is_none() && c.args_i8.is_none() && c.end_state.is_none());

    let c = Command::activate_motor_until_stopped(100);
    assert_eq!(c.command_id, VehicleSpecificCommands::ActivateMotorUntilStopped);
    assert_eq!(c.args_i8, Some(vec![100]));
    assert!(c.args_u8.is_none() && c.args_i32.is_none() && c.end_state.is_none());

    let c = Command::stop_steer(EndState::Hold);
    assert_eq!(c.command_id, VehicleSpecificCommands::StopSteer);
    assert_eq!(c.end_state, Some(EndState::Hold));
    assert!(c.args_u8.is_none() && c.args_i8.is_none() && c.args_i32.is_none());

    let c = Command::stop_motor(EndState::Brake);
    assert_eq!(c.command_id, VehicleSpecificCommands::StopMotor);
    assert_eq!(c.end_state, Some(EndState::Brake));
}

#[test]
fn round_trip_steer_until_stopped() {
    let c = Command::steer_until_stopped(-25);
    assert_eq!(c.command_id, VehicleSpecificCommands::SteerUntilStopped);
    assert_eq!(c.args_i8, Some(vec![-25]));
    assert!(c.args_u8.is_none() && c.args_i32.is_none() && c.end_state.is_none());
    assert_eq!(
        decode(&c),
        Ok(Invocation { motor: Motor::Steering, call: ActuatorCall::StartPower(-25) })
    );
}

#[test]
fn decode_each_kind() {
    assert_eq!(
        decode(&Command::steer_by_pos(90)),
        Ok(Invocation { motor: Motor::Steering, call: ActuatorCall::SeekPosition(90) })
    );
    assert_eq!(
        decode(&Command::stop_steer(EndState::Float)),
        Ok(Invocation { motor: Motor::Steering, call: ActuatorCall::Stop(EndState::Float, Profile::AccDec) })
    );
    assert_eq!(
        decode(&Command::activate_motor_until_stopped(-100)),
        Ok(Invocation { motor: Motor::Propulsion, call: ActuatorCall::StartPower(-100) })
    );
    assert_eq!(
        decode(&Command::stop_motor(EndState::Brake)),
        Ok(Invocation { motor: Motor::Propulsion, call: ActuatorCall::Stop(EndState::Brake, Profile::AccDec) })
    );
    assert_eq!(STOP_PROFILE, Profile::AccDec);
}

#[test]
fn malformed_command_is_rejected() {
    let bad = Command {
        command_id: VehicleSpecificCommands::StopSteer,
        args_u8: None,
        args_i8: None,
        args_i32: None,
        end_state: None,
    };
    assert_eq!(decode(&bad), Err(VehicleError::MalformedCommand));
    let empty_slot = Command {
        command_id: VehicleSpecificCommands::SteerUntilStopped,
        args_u8: None,
        args_i8: Some(vec![]),
        args_i32: None,
        end_state: None,
    };
    assert_eq!(decode(&empty_slot), Err(VehicleError::MalformedCommand));
}

#[test]
fn malformed_command_does_not_stop_the_loop() {
    let bad = Command {
        command_id: VehicleSpecificCommands::StopSteer,
        args_u8: None,
        args_i8: None,
        args_i32: None,
        end_state: None,
    };
    let (propulsion, steering, actions) =
        dispatch_recorded(vec![bad, Command::activate_motor_until_stopped(50)]);
    assert_eq!(actions[0], Action::Skip(VehicleError::MalformedCommand));
    assert_eq!(propulsion, vec![ActuatorCall::StartPower(50)]);
    assert!(steering.is_empty());
}

#[test]
fn stop_drive_twice_issues_two_stops() {
    let (tx, mut rx) = unbounded_channel();
    let api = VehicleAPI::new(tx);
    assert_eq!(api.stop_motor(EndState::Float), Ok(()));
    assert_eq!(api.stop_motor(EndState::Float), Ok(()));
    let (propulsion, steering, _) = dispatch_recorded(drain(&mut rx));
    let stop = ActuatorCall::Stop(EndState::Float, Profile::AccDec);
    assert_eq!(propulsion, vec![stop, stop]);
    assert!(steering.is_empty());
}

#[test]
fn end_to_end_per_handle_order() {
    let (tx, mut rx) = unbounded_channel();
    let api = VehicleAPI::new(tx);
    assert_eq!(api.activate_motor_until_stopped(100), Ok(()));
    assert_eq!(api.stop_motor(EndState::Brake), Ok(()));
    assert_eq!(api.steer_until_stopped(-25), Ok(()));
    assert_eq!(api.stop_steer(EndState::Float), Ok(()));
    let (propulsion, steering, actions) = dispatch_recorded(drain(&mut rx));
    assert_eq!(
        propulsion,
        vec![ActuatorCall::StartPower(100), ActuatorCall::Stop(EndState::Brake, Profile::AccDec)]
    );
    assert_eq!(
        steering,
        vec![ActuatorCall::StartPower(-25), ActuatorCall::Stop(EndState::Float, Profile::AccDec)]
    );
    assert_eq!(actions.len(), 4);
}

#[test]
fn commands_issued_in_call_order_across_callers() {
    let (tx, mut rx) = unbounded_channel();
    let first = VehicleAPI::new(tx.clone());
    let second = VehicleAPI::new(tx);
    assert_eq!(first.steer_by_pos(1), Ok(()));
    assert_eq!(second.activate_motor_until_stopped(2), Ok(()));
    assert_eq!(first.steer_until_stopped(3), Ok(()));
    assert_eq!(second.stop_motor(EndState::Hold), Ok(()));
    let (_, _, actions) = dispatch_recorded(drain(&mut rx));
    assert_eq!(
        actions,
        vec![
            Action::Issue(Invocation { motor: Motor::Steering, call: ActuatorCall::SeekPosition(1) }),
            Action::Issue(Invocation { motor: Motor::Propulsion, call: ActuatorCall::StartPower(2) }),
            Action::Issue(Invocation { motor: Motor::Steering, call: ActuatorCall::StartPower(3) }),
            Action::Issue(Invocation {
                motor: Motor::Propulsion,
                call: ActuatorCall::Stop(EndState::Hold, Profile::AccDec)
            }),
        ]
    );
}

#[test]
fn enqueue_does_not_wait_for_a_consumer() {
    let (tx, mut rx) = unbounded_channel();
    let api = VehicleAPI::new(tx);
    let n: i32 = 100_000;
    for i in 0..n {
        assert_eq!(api.steer_by_pos(i), Ok(()));
    }
    let cmds = drain(&mut rx);
    assert_eq!(cmds.len(), n as usize);
    assert_eq!(cmds[0], Command::steer_by_pos(0));
    assert_eq!(cmds[(n - 1) as usize], Command::steer_by_pos(n - 1));
}

#[test]
fn calls_after_teardown_report_dispatch_unavailable() {
    let (tx, rx) = unbounded_channel::<Command>();
    let api = VehicleAPI::new(tx);
    drop(rx);
    for _ in 0..3 {
        assert_eq!(api.steer_by_pos(5), Err(VehicleError::DispatchUnavailable));
        assert_eq!(api.steer_until_stopped(5), Err(VehicleError::DispatchUnavailable));
        assert_eq!(api.stop_steer(EndState::Float), Err(VehicleError::DispatchUnavailable));
        assert_eq!(api.activate_motor_until_stopped(5), Err(VehicleError::DispatchUnavailable));
        assert_eq!(api.stop_motor(EndState::Float), Err(VehicleError::DispatchUnavailable));
    }
}

#[test]
fn enqueued_command_reaches_the_receiver_unchanged() {
    let (tx, mut rx) = unbounded_channel();
    let api = VehicleAPI::new(tx);
    assert_eq!(api.steer_until_stopped(-7), Ok(()));
    assert_eq!(drain(&mut rx), vec![Command::steer_until_stopped(-7)]);
    assert!(!api.get_event_tx().is_closed());
}

#[test]
fn unsupported_operations_answer_unsupported() {
    let (tx, _rx) = unbounded_channel();
    let api = VehicleAPI::new(tx);
    assert_eq!(api.steer_by_degree(30, 20), Err(VehicleError::Unsupported));
    assert_eq!(
        api.update_steering_motor_profile(1, Profile::Acc),
        Err(VehicleError::Unsupported)
    );
    assert_eq!(api.update_motor_profile(1, Profile::Dec), Err(VehicleError::Unsupported));
}

#[test]
fn closed_channel_ends_the_loop() {
    let mut d = Dispatcher::new();
    assert!(d.is_running());
    assert_eq!(d.step(Event::Closed), Action::Exit);
    assert!(!d.is_running());
    assert_eq!(d.step(Event::Received(Command::steer_by_pos(3))), Action::Exit);
    assert!(!d.is_running());
}
