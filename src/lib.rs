//! Command dispatch bridge between a vehicle's control surface and its
//! actuators: command encoding, the control surface that enqueues commands,
//! and the dispatch decisions that turn each dequeued command into one
//! actuator invocation.
use vstd::prelude::*;

pub mod command;
pub mod dispatch;
pub mod dispatcher;

verus! {

/// The errors of the bridge.
#[derive(Debug, Clone, Copy, PartialEq, Eq, Structural)]
pub enum VehicleError {
    /// The dispatch context has terminated: its receiving half is gone.
    DispatchUnavailable,
    /// A start, stop or seek request was rejected by the hardware link.
    ActuatorRequestFailed,
    /// The hardware link or an actuator handle could not be established.
    LinkConnectionFailed,
    /// A command whose argument slots do not match its kind.
    MalformedCommand,
    /// The operation is not offered by this implementation.
    Unsupported,
}

/// Steering operations a vehicle offers its callers. An implementation
/// overrides the operations it supports; the others answer `Unsupported`.
pub trait VehicleSteeringAPI {
    type MotorProfile;
    type SteerEndState;

    fn update_steering_motor_profile(&self, profile_id: u8, profile: Self::MotorProfile) -> (r: Result<(), VehicleError>) {
        Err(VehicleError::Unsupported)
    }

    fn steer_by_degree(&self, degrees: i32, power: i8) -> (r: Result<(), VehicleError>) {
        Err(VehicleError::Unsupported)
    }

    fn steer_by_pos(&self, abs_pos: i32) -> (r: Result<(), VehicleError>) {
        Err(VehicleError::Unsupported)
    }

    fn steer_until_stopped(&self, power: i8) -> (r: Result<(), VehicleError>) {
        Err(VehicleError::Unsupported)
    }

    fn stop_steer(&self, end_state: Self::SteerEndState) -> (r: Result<(), VehicleError>) {
        Err(VehicleError::Unsupported)
    }
}

/// Propulsion operations a vehicle offers its callers. An implementation
/// overrides the operations it supports; the others answer `Unsupported`.
pub trait VehicleMotorAPI {
    type MotorProfile;
    type MotorEndState;

    fn update_motor_profile(&self, profile_id: u8, profile: Self::MotorProfile) -> (r: Result<(), VehicleError>) {
        Err(VehicleError::Unsupported)
    }

    fn activate_motor_until_stopped(&self, power: i8) -> (r: Result<(), VehicleError>) {
        Err(VehicleError::Unsupported)
    }

    fn stop_motor(&self, end_state: Self::MotorEndState) -> (r: Result<(), VehicleError>) {
        Err(VehicleError::Unsupported)
    }
}

} // verus!
