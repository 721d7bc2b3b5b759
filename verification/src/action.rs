//! What a drone does, and where it has to give up.

use crate::controller::DroneEvent;
use crate::controller::DroneEventView;
use crate::fault::Fault;
use crate::network::NodeId;
use crate::packet::Packet;
use crate::packet::PacketView;
use vstd::prelude::*;

verus! {

/// One thing that a drone does to the world around it.
#[derive(Debug, PartialEq, Eq)]
pub enum Action {
    /// Hand the packet to this neighbor.
    Deliver(NodeId, Packet),
    /// Report the event to the controller.
    Report(DroneEvent),
}

/// What an [`Action`] is.
#[verifier::ext_equal]
pub enum ActionView {
    Deliver(NodeId, PacketView),
    Report(DroneEventView),
}

impl View for Action {
    type V = ActionView;

    open spec fn view(&self) -> ActionView {
        match self {
            Action::Deliver(to, packet) => ActionView::Deliver(*to, packet@),
            Action::Report(event) => ActionView::Report(event@),
        }
    }
}

impl Clone for Action {
    fn clone(&self) -> (r: Self)
        ensures
            r@ == self@,
    {
        match self {
            Action::Deliver(to, packet) => Action::Deliver(*to, packet.clone()),
            Action::Report(event) => Action::Report(event.clone()),
        }
    }
}

impl Action {
    /// Why the drone gives up where this action fails.
    pub fn failure(&self) -> (fault: Fault)
        ensures
            fault == self@.spec_failure(),
    {
        match self {
            Action::Deliver(_, _) => Fault::NeighborDisconnected,
            Action::Report(_) => Fault::ControllerDisconnected,
        }
    }
}

impl ActionView {
    /// Why the drone gives up where this action fails.
    pub open spec fn spec_failure(self) -> Fault {
        match self {
            ActionView::Deliver(_, _) => Fault::NeighborDisconnected,
            ActionView::Report(_) => Fault::ControllerDisconnected,
        }
    }
}

/// What a sequence of actions is.
pub open spec fn views(actions: Seq<Action>) -> Seq<ActionView> {
    actions.map_values(|action: Action| action@)
}

/// What is left to do of a drone's actions. They are tried in order; the first that fails is the
/// last that is tried.
pub struct Outbox {
    /// The actions, last to first.
    pending: Vec<Action>,
}

impl View for Outbox {
    type V = Seq<ActionView>;

    closed spec fn view(&self) -> Seq<ActionView> {
        views(self.pending@).reverse()
    }
}

impl Outbox {
    /// All of these actions are to be done.
    pub fn of(actions: Vec<Action>) -> (outbox: Outbox)
        ensures
            outbox@ == views(actions@),
    {
        let ghost all = actions@;
        let mut rest = actions;
        let mut pending: Vec<Action> = Vec::new();
        while rest.len() > 0
            invariant
                all =~= rest@ + pending@.reverse(),
            decreases rest@.len(),
        {
            if let Some(action) = rest.pop() {
                pending.push(action);
            }
        }
        assert(views(pending@).reverse() =~= views(all));
        Outbox { pending }
    }

    /// The action to try next.
    pub fn next(&self) -> (r: Option<&Action>)
        ensures
            match r {
                Some(action) => self@.len() > 0 && action@ == self@.first(),
                None => self@.len() == 0,
            },
    {
        let n: usize = self.pending.len();
        if n == 0 {
            None
        } else {
            Some(&self.pending[n - 1])
        }
    }

    /// Takes note of how the next action went: where it is done, the others remain; where it
    /// failed, the drone gives up, for the reason returned, and nothing remains.
    pub fn settle(&mut self, done: bool) -> (r: Option<Fault>)
        requires
            old(self)@.len() > 0,
        ensures
            done ==> r is None && final(self)@ == old(self)@.drop_first(),
            !done ==> r == Some(old(self)@.first().spec_failure()) && final(self)@.len() == 0,
    {
        let ghost before = self.pending@;
        match self.pending.pop() {
            Some(action) => {
                if done {
                    assert(views(self.pending@).reverse() =~= views(before).reverse().drop_first());
                    None
                } else {
                    self.pending.clear();
                    Some(action.failure())
                }
            },
            None => None,
        }
    }
}

/// Everything that actions hold can be seen, in their order: who a packet is handed to, which packet
/// it is, and which event is reported of which packet.
pub proof fn law_actions_are_seen_whole(actions: Seq<Action>)
    ensures
        views(actions).len() == actions.len(),
        forall|i: int|
            0 <= i < actions.len() ==> #[trigger] views(actions)[i] == match actions[i] {
                Action::Deliver(to, packet) => ActionView::Deliver(to, packet@),
                Action::Report(DroneEvent::PacketSent(packet)) => ActionView::Report(
                    DroneEventView::PacketSent(packet@),
                ),
                Action::Report(DroneEvent::PacketDropped(packet)) => ActionView::Report(
                    DroneEventView::PacketDropped(packet@),
                ),
                Action::Report(DroneEvent::ControllerShortcut(packet)) => ActionView::Report(
                    DroneEventView::ControllerShortcut(packet@),
                ),
            },
{
}

/// Where an action fails, it is the one that the action was meant for who is gone: the neighbor
/// exactly where a packet was to be handed over, the controller exactly where an event was to be
/// reported.
pub proof fn law_failure_names_who_is_gone(action: ActionView)
    ensures
        action is Deliver <==> action.spec_failure() == Fault::NeighborDisconnected,
        action is Report <==> action.spec_failure() == Fault::ControllerDisconnected,
{
}

} // verus!
