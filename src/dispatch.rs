//! The dispatch loop's decisions: which actuator operation each dequeued
//! command becomes, and how the loop's state moves with each event.
use vstd::prelude::*;

use crate::command::{
    position_command, power_command, stop_command, Command, EndState, Profile,
    VehicleSpecificCommands,
};
use crate::VehicleError;

verus! {

/// Deceleration profile used by every stop request.
pub const STOP_PROFILE: Profile = Profile::AccDec;

/// Which of the vehicle's two actuator handles an invocation targets.
#[derive(Debug, Clone, Copy, PartialEq, Eq, Structural)]
pub enum Motor {
    Propulsion,
    Steering,
}

/// One operation of the actuator abstraction.
#[derive(Debug, Clone, Copy, PartialEq, Eq, Structural)]
pub enum ActuatorCall {
    /// Begin continuous actuation at a signed power (sign is direction).
    StartPower(i8),
    /// Decelerate by the profile and settle into the terminal state.
    Stop(EndState, Profile),
    /// Drive to an absolute position and stop there.
    SeekPosition(i32),
}

/// An actuator operation together with the handle it is issued on.
#[derive(Debug, Clone, Copy, PartialEq, Eq, Structural)]
pub struct Invocation {
    pub motor: Motor,
    pub call: ActuatorCall,
}

/// What the dispatch loop observes on its channel.
#[derive(Debug, Clone, PartialEq, Eq)]
pub enum Event {
    /// A command was dequeued.
    Received(Command),
    /// The channel is closed and drained.
    Closed,
}

/// What the dispatch loop does next.
#[derive(Debug, Clone, Copy, PartialEq, Eq, Structural)]
pub enum Action {
    /// Issue the invocation on its actuator handle.
    Issue(Invocation),
    /// Report the error and skip the command; the loop goes on.
    Skip(VehicleError),
    /// Leave the loop.
    Exit,
}

/// The first element of a signed-byte slot, if it holds one.
pub open spec fn first_i8(slot: Option<Vec<i8>>) -> Option<i8> {
    match slot {
        Some(v) => if v@.len() > 0 { Some(v@[0]) } else { None },
        None => None,
    }
}

/// The first element of a 32-bit slot, if it holds one.
pub open spec fn first_i32(slot: Option<Vec<i32>>) -> Option<i32> {
    match slot {
        Some(v) => if v@.len() > 0 { Some(v@[0]) } else { None },
        None => None,
    }
}

/// The invocation a command stands for, or `None` when the slot its kind
/// reads is missing or empty.
pub open spec fn decoded(c: Command) -> Option<Invocation> {
    match c.command_id {
        VehicleSpecificCommands::SteerByPosition => match first_i32(c.args_i32) {
            Some(p) => Some(Invocation { motor: Motor::Steering, call: ActuatorCall::SeekPosition(p) }),
            None => None,
        },
        VehicleSpecificCommands::SteerUntilStopped => match first_i8(c.args_i8) {
            Some(p) => Some(Invocation { motor: Motor::Steering, call: ActuatorCall::StartPower(p) }),
            None => None,
        },
        VehicleSpecificCommands::StopSteer => match c.end_state {
            Some(e) => Some(Invocation { motor: Motor::Steering, call: ActuatorCall::Stop(e, STOP_PROFILE) }),
            None => None,
        },
        VehicleSpecificCommands::ActivateMotorUntilStopped => match first_i8(c.args_i8) {
            Some(p) => Some(Invocation { motor: Motor::Propulsion, call: ActuatorCall::StartPower(p) }),
            None => None,
        },
        VehicleSpecificCommands::StopMotor => match c.end_state {
            Some(e) => Some(Invocation { motor: Motor::Propulsion, call: ActuatorCall::Stop(e, STOP_PROFILE) }),
            None => None,
        },
    }
}

fn first_of<T: Copy>(slot: &Option<Vec<T>>) -> (r: Option<T>)
    ensures
        match slot {
            Some(v) => if v@.len() > 0 { r == Some(v@[0]) } else { r.is_none() },
            None => r.is_none(),
        },
{
    match slot {
        Some(v) => if v.len() > 0 { Some(v[0]) } else { None },
        None => None,
    }
}

/// Maps a command to the actuator invocation it stands for.
pub fn decode(c: &Command) -> (r: Result<Invocation, VehicleError>)
    ensures
        match decoded(*c) {
            Some(i) => r == Ok::<Invocation, VehicleError>(i),
            None => r == Err::<Invocation, VehicleError>(VehicleError::MalformedCommand),
        },
{
    let target = match c.command_id {
        VehicleSpecificCommands::SteerByPosition => match first_of(&c.args_i32) {
            Some(p) => Some(Invocation { motor: Motor::Steering, call: ActuatorCall::SeekPosition(p) }),
            None => None,
        },
        VehicleSpecificCommands::SteerUntilStopped => match first_of(&c.args_i8) {
            Some(p) => Some(Invocation { motor: Motor::Steering, call: ActuatorCall::StartPower(p) }),
            None => None,
        },
        VehicleSpecificCommands::StopSteer => match c.end_state {
            Some(e) => Some(Invocation { motor: Motor::Steering, call: ActuatorCall::Stop(e, STOP_PROFILE) }),
            None => None,
        },
        VehicleSpecificCommands::ActivateMotorUntilStopped => match first_of(&c.args_i8) {
            Some(p) => Some(Invocation { motor: Motor::Propulsion, call: ActuatorCall::StartPower(p) }),
            None => None,
        },
        VehicleSpecificCommands::StopMotor => match c.end_state {
            Some(e) => Some(Invocation { motor: Motor::Propulsion, call: ActuatorCall::Stop(e, STOP_PROFILE) }),
            None => None,
        },
    };
    match target {
        Some(i) => Ok(i),
        None => Err(VehicleError::MalformedCommand),
    }
}

/// The abstract state of the dispatch loop: whether it still consumes
/// commands, and every invocation it has issued so far, oldest first.
pub struct DispatcherState {
    pub running: bool,
    pub issued: Seq<Invocation>,
}

/// The dispatch loop's transition on one event: the next state and the action.
pub open spec fn step_spec(s: DispatcherState, e: Event) -> (DispatcherState, Action) {
    if !s.running {
        (s, Action::Exit)
    } else {
        match e {
            Event::Received(c) => match decoded(c) {
                Some(i) => (DispatcherState { running: true, issued: s.issued.push(i) }, Action::Issue(i)),
                None => (s, Action::Skip(VehicleError::MalformedCommand)),
            },
            Event::Closed => (DispatcherState { running: false, issued: s.issued }, Action::Exit),
        }
    }
}

/// The state reached from `s` after the events, in order.
pub open spec fn run(s: DispatcherState, events: Seq<Event>) -> DispatcherState
    decreases events.len(),
{
    if events.len() == 0 {
        s
    } else {
        step_spec(run(s, events.drop_last()), events.last()).0
    }
}

/// The events of dequeuing the commands, in order.
pub open spec fn received(cmds: Seq<Command>) -> Seq<Event> {
    cmds.map_values(|c: Command| Event::Received(c))
}

/// The invocations the well-formed commands stand for, in order; malformed
/// commands contribute nothing.
pub open spec fn issued_of(cmds: Seq<Command>) -> Seq<Invocation>
    decreases cmds.len(),
{
    if cmds.len() == 0 {
        Seq::empty()
    } else {
        match decoded(cmds.last()) {
            Some(i) => issued_of(cmds.drop_last()).push(i),
            None => issued_of(cmds.drop_last()),
        }
    }
}

/// The single consumer of the command channel. It owns the decision of what
/// each dequeued command becomes; the caller performs the action.
pub struct Dispatcher {
    running: bool,
    log: Ghost<Seq<Invocation>>,
}

impl View for Dispatcher {
    type V = DispatcherState;

    closed spec fn view(&self) -> DispatcherState {
        DispatcherState { running: self.running, issued: self.log@ }
    }
}

impl Dispatcher {
    /// A running dispatcher that has issued nothing.
    pub fn new() -> (d: Dispatcher)
        ensures
            d@ == (DispatcherState { running: true, issued: Seq::empty() }),
    {
        Dispatcher { running: true, log: Ghost(Seq::empty()) }
    }

    /// Whether the dispatcher still consumes commands.
    pub fn is_running(&self) -> (r: bool)
        ensures
            r == self@.running,
    {
        self.running
    }

    /// Takes one event and returns what to do about it.
    pub fn step(&mut self, event: Event) -> (a: Action)
        ensures
            (final(self)@, a) == step_spec(old(self)@, event),
    {
        if !self.running {
            return Action::Exit;
        }
        match event {
            Event::Received(c) => match decode(&c) {
                Ok(i) => {
                    self.log = Ghost(self.log@.push(i));
                    Action::Issue(i)
                },
                Err(e) => Action::Skip(e),
            },
            Event::Closed => {
                self.running = false;
                Action::Exit
            },
        }
    }
}

/// Commands dequeued while running are issued in exactly the order they were
/// dequeued; a malformed command is skipped and the loop keeps running. When
/// every command is well formed, each one is issued, one invocation apiece.
pub proof fn lemma_issue_order(s: DispatcherState, cmds: Seq<Command>)
    requires
        s.running,
    ensures
        run(s, received(cmds)) == (DispatcherState { running: true, issued: s.issued + issued_of(cmds) }),
        (forall|k: int| 0 <= k < cmds.len() ==> #[trigger] decoded(cmds[k]) is Some) ==> {
            &&& issued_of(cmds).len() == cmds.len()
            &&& forall|k: int| 0 <= k < cmds.len() ==> Some(#[trigger] issued_of(cmds)[k]) == decoded(cmds[k])
        },
    decreases cmds.len(),
{
    if cmds.len() > 0 {
        let pre = cmds.drop_last();
        lemma_issue_order(s, pre);
        assert(received(cmds).drop_last() =~= received(pre));
        assert(received(cmds).last() == Event::Received(cmds.last()));
        assert(s.issued + issued_of(cmds) =~= match decoded(cmds.last()) {
            Some(i) => (s.issued + issued_of(pre)).push(i),
            None => s.issued + issued_of(pre),
        });
        if forall|k: int| 0 <= k < cmds.len() ==> #[trigger] decoded(cmds[k]) is Some {
            assert forall|k: int| 0 <= k < pre.len() implies #[trigger] decoded(pre[k]) is Some by {
                assert(pre[k] == cmds[k]);
            }
            assert(decoded(cmds[cmds.len() - 1]) is Some);
            assert forall|k: int| 0 <= k < cmds.len() implies Some(#[trigger] issued_of(cmds)[k]) == decoded(cmds[k]) by {
                if k < pre.len() {
                    assert(pre[k] == cmds[k]);
                }
            }
        }
    } else {
        assert(s.issued + issued_of(cmds) =~= s.issued);
    }
}

/// Every encoding decodes to the operation it names, on the handle it names,
/// with the argument it carries.
pub proof fn lemma_round_trip(c: Command, power: i8, abs_pos: i32, end_state: EndState)
    ensures
        position_command(c, abs_pos) ==> decoded(c) == Some(
            Invocation { motor: Motor::Steering, call: ActuatorCall::SeekPosition(abs_pos) },
        ),
        power_command(VehicleSpecificCommands::SteerUntilStopped, c, power) ==> decoded(c) == Some(
            Invocation { motor: Motor::Steering, call: ActuatorCall::StartPower(power) },
        ),
        stop_command(VehicleSpecificCommands::StopSteer, c, end_state) ==> decoded(c) == Some(
            Invocation { motor: Motor::Steering, call: ActuatorCall::Stop(end_state, STOP_PROFILE) },
        ),
        power_command(VehicleSpecificCommands::ActivateMotorUntilStopped, c, power) ==> decoded(c) == Some(
            Invocation { motor: Motor::Propulsion, call: ActuatorCall::StartPower(power) },
        ),
        stop_command(VehicleSpecificCommands::StopMotor, c, end_state) ==> decoded(c) == Some(
            Invocation { motor: Motor::Propulsion, call: ActuatorCall::Stop(end_state, STOP_PROFILE) },
        ),
{
}

/// Stopping the drive twice in a row issues two identical stop invocations on
/// the propulsion handle, not one.
pub proof fn lemma_stop_twice(s: DispatcherState, c: Command, end_state: EndState)
    requires
        s.running,
        stop_command(VehicleSpecificCommands::StopMotor, c, end_state),
    ensures
        ({
            let stop = Invocation { motor: Motor::Propulsion, call: ActuatorCall::Stop(end_state, STOP_PROFILE) };
            run(s, seq![Event::Received(c), Event::Received(c)])
                == (DispatcherState { running: true, issued: s.issued + seq![stop, stop] })
        }),
{
    let events = seq![Event::Received(c), Event::Received(c)];
    assert(events.drop_last() =~= seq![Event::Received(c)]);
    assert(events.drop_last().drop_last() =~= Seq::<Event>::empty());
    reveal_with_fuel(run, 3);
    let stop = Invocation { motor: Motor::Propulsion, call: ActuatorCall::Stop(end_state, STOP_PROFILE) };
    assert(s.issued.push(stop).push(stop) =~= s.issued + seq![stop, stop]);
}

/// A malformed command is skipped without stopping the loop, and the
/// well-formed command dequeued after it is still issued.
pub proof fn lemma_malformed_skipped(s: DispatcherState, bad: Command, good: Command)
    requires
        s.running,
        decoded(bad) is None,
        decoded(good) is Some,
    ensures
        step_spec(s, Event::Received(bad)) == (s, Action::Skip(VehicleError::MalformedCommand)),
        run(s, seq![Event::Received(bad), Event::Received(good)])
            == (DispatcherState { running: true, issued: s.issued.push(decoded(good)->0) }),
{
    let events = seq![Event::Received(bad), Event::Received(good)];
    assert(events.drop_last() =~= seq![Event::Received(bad)]);
    assert(events.drop_last().drop_last() =~= Seq::<Event>::empty());
    reveal_with_fuel(run, 3);
}

/// Once the channel is closed the loop has left: every later event is
/// answered with `Exit` and changes nothing.
pub proof fn lemma_closed_is_final(s: DispatcherState, e: Event)
    ensures
        ({
            let closed = step_spec(s, Event::Closed).0;
            &&& !closed.running
            &&& closed.issued == s.issued
            &&& step_spec(closed, e) == (closed, Action::Exit)
        }),
{
}

} // verus!
