//! The control surface: turns each intent call into one command and enqueues
//! it, without waiting, on the channel read by the dispatch loop.
use vstd::prelude::*;

use tokio::sync::mpsc::UnboundedSender;

pub use crate::command::{Command, EndState, Profile, VehicleSpecificCommands};
use crate::{VehicleError, VehicleMotorAPI, VehicleSteeringAPI};

verus! {

#[verifier::external_type_specification]
#[verifier::external_body]
#[verifier::reject_recursive_types(T)]
pub struct ExUnboundedSender<T>(UnboundedSender<T>);

/// Relies on tokio's `UnboundedSender::send`: it never waits, and it fails
/// only when the receiving half is closed, handing the message back.
#[verifier::external_body]
fn enqueue(tx: &UnboundedSender<Command>, c: Command) -> (r: Result<(), Command>)
    ensures
        r matches Err(back) ==> back == c,
{
    tx.send(c).map_err(|e| e.0)
}

/// The sending side of the bridge. Every call builds one command and performs
/// exactly one non-blocking enqueue; no actuator is touched here.
pub struct VehicleAPI {
    event_tx: UnboundedSender<Command>,
}

impl VehicleAPI {
    pub fn new(event_tx: UnboundedSender<Command>) -> (api: VehicleAPI)
        ensures
            api.event_tx() == event_tx,
    {
        VehicleAPI { event_tx }
    }

    /// The sending half this surface enqueues on.
    pub closed spec fn event_tx(&self) -> UnboundedSender<Command> {
        self.event_tx
    }

    /// The sending half, for callers that inspect or clone it.
    pub fn get_event_tx(&self) -> (tx: &UnboundedSender<Command>)
        ensures
            *tx == self.event_tx(),
    {
        &self.event_tx
    }

    /// Enqueues `c`; the only failure is that the dispatch context is gone.
    fn send_command(&self, c: Command) -> (r: Result<(), VehicleError>)
        ensures
            r matches Err(e) ==> e == VehicleError::DispatchUnavailable,
    {
        match enqueue(&self.event_tx, c) {
            Ok(()) => Ok(()),
            Err(_) => Err(VehicleError::DispatchUnavailable),
        }
    }
}

impl VehicleSteeringAPI for VehicleAPI {
    type MotorProfile = Profile;
    type SteerEndState = EndState;

    fn steer_by_pos(&self, abs_pos: i32) -> (r: Result<(), VehicleError>)
        ensures
            r matches Err(e) ==> e == VehicleError::DispatchUnavailable,
    {
        self.send_command(Command::steer_by_pos(abs_pos))
    }

    fn steer_until_stopped(&self, power: i8) -> (r: Result<(), VehicleError>)
        ensures
            r matches Err(e) ==> e == VehicleError::DispatchUnavailable,
    {
        self.send_command(Command::steer_until_stopped(power))
    }

    fn stop_steer(&self, end_state: EndState) -> (r: Result<(), VehicleError>)
        ensures
            r matches Err(e) ==> e == VehicleError::DispatchUnavailable,
    {
        self.send_command(Command::stop_steer(end_state))
    }
}

impl VehicleMotorAPI for VehicleAPI {
    type MotorProfile = Profile;
    type MotorEndState = EndState;

    fn activate_motor_until_stopped(&self, power: i8) -> (r: Result<(), VehicleError>)
        ensures
            r matches Err(e) ==> e == VehicleError::DispatchUnavailable,
    {
        self.send_command(Command::activate_motor_until_stopped(power))
    }

    fn stop_motor(&self, end_state: EndState) -> (r: Result<(), VehicleError>)
        ensures
            r matches Err(e) ==> e == VehicleError::DispatchUnavailable,
    {
        self.send_command(Command::stop_motor(end_state))
    }
}

} // verus!
