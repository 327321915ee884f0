//! The command value that crosses from the control surface to the dispatch
//! loop, and its encoding.
use vstd::prelude::*;

verus! {

/// How a stopped actuator holds its position.
#[derive(Debug, Clone, Copy, PartialEq, Eq, Structural)]
pub enum EndState {
    /// No resistance.
    Float,
    /// Active position lock.
    Hold,
    /// Braking.
    Brake,
}

/// Acceleration and deceleration profile used when an actuator changes speed.
#[derive(Debug, Clone, Copy, PartialEq, Eq, Structural)]
pub enum Profile {
    /// Neither profile.
    Constant,
    /// Acceleration profile only.
    Acc,
    /// Deceleration profile only.
    Dec,
    /// Both acceleration and deceleration profiles.
    AccDec,
}

/// The kind of a command.
#[derive(Debug, Clone, Copy, PartialEq, Eq, Structural)]
pub enum VehicleSpecificCommands {
    SteerByPosition,
    SteerUntilStopped,
    StopSteer,
    ActivateMotorUntilStopped,
    StopMotor,
}

/// One actuator instruction: a kind and typed optional argument slots.
/// Only the slots relevant to the kind are populated; within a slot the
/// order of the arguments is fixed per kind.
#[derive(Debug, Clone, PartialEq, Eq)]
pub struct Command {
    pub command_id: VehicleSpecificCommands,
    pub args_u8: Option<Vec<u8>>,
    pub args_i8: Option<Vec<i8>>,
    pub args_i32: Option<Vec<i32>>,
    pub end_state: Option<EndState>,
}

/// A command of kind `id` whose only populated slot is the signed-byte one,
/// holding `power`.
pub open spec fn power_command(id: VehicleSpecificCommands, c: Command, power: i8) -> bool {
    &&& c.command_id == id
    &&& c.args_u8.is_none()
    &&& c.args_i8 matches Some(v) && v@ == seq![power]
    &&& c.args_i32.is_none()
    &&& c.end_state.is_none()
}

/// A command of kind `id` whose only populated slot is the terminal state.
pub open spec fn stop_command(id: VehicleSpecificCommands, c: Command, end_state: EndState) -> bool {
    &&& c.command_id == id
    &&& c.args_u8.is_none()
    &&& c.args_i8.is_none()
    &&& c.args_i32.is_none()
    &&& c.end_state == Some(end_state)
}

/// A steer-to-position command whose only populated slot is the 32-bit one,
/// holding `abs_pos`.
pub open spec fn position_command(c: Command, abs_pos: i32) -> bool {
    &&& c.command_id == VehicleSpecificCommands::SteerByPosition
    &&& c.args_u8.is_none()
    &&& c.args_i8.is_none()
    &&& c.args_i32 matches Some(v) && v@ == seq![abs_pos]
    &&& c.end_state.is_none()
}

impl Command {
    /// Encodes "steer to the absolute position `abs_pos`".
    pub fn steer_by_pos(abs_pos: i32) -> (c: Command)
        ensures
            position_command(c, abs_pos),
    {
        let args = vec![abs_pos];
        assert(args@ =~= seq![abs_pos]);
        Command {
            command_id: VehicleSpecificCommands::SteerByPosition,
            args_u8: None,
            args_i8: None,
            args_i32: Some(args),
            end_state: None,
        }
    }

    /// Encodes "steer at `power` until stopped".
    pub fn steer_until_stopped(power: i8) -> (c: Command)
        ensures
            power_command(VehicleSpecificCommands::SteerUntilStopped, c, power),
    {
        let args = vec![power];
        assert(args@ =~= seq![power]);
        Command {
            command_id: VehicleSpecificCommands::SteerUntilStopped,
            args_u8: None,
            args_i8: Some(args),
            args_i32: None,
            end_state: None,
        }
    }

    /// Encodes "stop steering and settle into `end_state`".
    pub fn stop_steer(end_state: EndState) -> (c: Command)
        ensures
            stop_command(VehicleSpecificCommands::StopSteer, c, end_state),
    {
        Command {
            command_id: VehicleSpecificCommands::StopSteer,
            args_u8: None,
            args_i8: None,
            args_i32: None,
            end_state: Some(end_state),
        }
    }

    /// Encodes "drive at `power` until stopped".
    pub fn activate_motor_until_stopped(power: i8) -> (c: Command)
        ensures
            power_command(VehicleSpecificCommands::ActivateMotorUntilStopped, c, power),
    {
        let args = vec![power];
        assert(args@ =~= seq![power]);
        Command {
            command_id: VehicleSpecificCommands::ActivateMotorUntilStopped,
            args_u8: None,
            args_i8: Some(args),
            args_i32: None,
            end_state: None,
        }
    }

    /// Encodes "stop driving and settle into `end_state`".
    pub fn stop_motor(end_state: EndState) -> (c: Command)
        ensures
            stop_command(VehicleSpecificCommands::StopMotor, c, end_state),
    {
        Command {
            command_id: VehicleSpecificCommands::StopMotor,
            args_u8: None,
            args_i8: None,
            args_i32: None,
            end_state: Some(end_state),
        }
    }
}

} // verus!
