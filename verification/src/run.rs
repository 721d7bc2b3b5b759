//! One round of the life of a drone.

use crate::action::views;
use crate::action::Action;
use crate::controller::CommandOutcome;
use crate::controller::DroneCommand;
use crate::drone::RustRoveri;
use crate::fault::Fault;
use crate::packet::Packet;
use crate::rate::Rate;
use vstd::prelude::*;

verus! {

/// What a drone hears.
pub enum Incoming<S> {
    /// A command from the controller.
    Command(DroneCommand<S>),
    /// A packet, with the number drawn for it.
    Packet(Packet, Rate),
    /// Nothing: the other end of the channel is gone.
    Closed,
}

/// What a drone does about it.
#[derive(Debug, PartialEq, Eq)]
pub enum Step {
    /// It has carried a command out.
    Obeyed(CommandOutcome),
    /// It is to act, in this order.
    Act(Vec<Action>),
    /// It cannot go on.
    GiveUp(Fault),
    /// It does nothing.
    Idle,
}

impl<S> RustRoveri<S> {
    /// One round of the life of a drone: what it does about what it hears. A drone that was told
    /// to go down takes no further rounds.
    pub fn step(&mut self, incoming: Incoming<S>) -> (step: Step)
        requires
            !old(self)@.should_terminate,
        ensures
            match incoming {
                Incoming::Command(command) => {
                    &&& final(self)@ == old(self)@.after_command(command)
                    &&& step == Step::Obeyed(old(self)@.outcome(command))
                },
                Incoming::Packet(packet, draw) => match old(self)@.fault(packet@, draw) {
                    Some(fault) => {
                        &&& final(self)@ == old(self)@
                        &&& step == Step::GiveUp(fault)
                    },
                    None => {
                        &&& final(self)@ == old(self)@.after_packet(packet@)
                        &&& step is Act
                        &&& old(self)@.answers(packet@, draw, views(step->Act_0@))
                    },
                },
                Incoming::Closed => {
                    &&& final(self)@ == old(self)@
                    &&& step == Step::Idle
                },
            },
            old(self)@.valid() ==> final(self)@.valid(),
            final(self)@.should_terminate <==> incoming == Incoming::<S>::Command(
                DroneCommand::Crash,
            ),
    {
        match incoming {
            Incoming::Command(command) => Step::Obeyed(self.handle_command(command)),
            Incoming::Packet(packet, draw) => match self.diagnose(&packet, draw) {
                Some(fault) => Step::GiveUp(fault),
                None => Step::Act(self.handle_packet(packet, draw)),
            },
            Incoming::Closed => Step::Idle,
        }
    }
}

} // verus!
