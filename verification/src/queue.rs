//! The command queue and the dispatch rule applied on every poll.
//!
//! Commands arrive from the outside in FIFO order and are consumed one
//! per poll cycle.  `ClearQueue` drops everything still pending;
//! `ProcessMove` is handed to the controller unless a recorded error
//! has halted it, in which case the command is dropped without side
//! effects (fail-stop).  The lock that guards the queue between the
//! producer and the dispatch loop belongs to the embedding program;
//! this module owns the queue's contents and the dispatch decision.

use vstd::prelude::*;
use crate::error::ServerError;
use crate::gimbal::{move_accepted, plan_of, same_config, Axis, Gimbal, PulsePlan};
use crate::mv::Move;

verus! {

/// One control command for the dispatch loop.
#[derive(Clone, Copy, PartialEq, Eq, Structural, Debug)]
pub enum Cmd {
    /// Drop every command still waiting in the queue.
    ClearQueue,
    /// Apply this move to this axis.
    ProcessMove(Move, Axis),
}

/// A FIFO of pending commands, viewed as the sequence of its contents
/// in arrival order (front first).
pub struct CmdQueue {
    items: Vec<Cmd>,
}

impl View for CmdQueue {
    type V = Seq<Cmd>;

    closed spec fn view(&self) -> Seq<Cmd> {
        self.items@
    }
}

impl CmdQueue {
    /// An empty queue.
    pub fn new() -> (r: CmdQueue)
        ensures
            r@ == Seq::<Cmd>::empty(),
    {
        CmdQueue { items: Vec::new() }
    }

    /// Append a command at the back.
    pub fn push(&mut self, cmd: Cmd)
        ensures
            final(self)@ == old(self)@.push(cmd),
    {
        self.items.push(cmd);
    }

    /// Take the front command, oldest first; `None` on an empty queue.
    pub fn pop(&mut self) -> (r: Option<Cmd>)
        ensures
            old(self)@.len() == 0 ==> r is None && final(self)@ == old(self)@,
            old(self)@.len() > 0 ==> r == Some(old(self)@[0])
                && final(self)@ == old(self)@.drop_first(),
    {
        if self.items.len() == 0 {
            None
        } else {
            let c = self.items.remove(0);
            proof {
                assert(old(self)@.remove(0) =~= old(self)@.drop_first());
            }
            Some(c)
        }
    }

    /// Empty the queue, whatever it held.
    pub fn clear(&mut self)
        ensures
            final(self)@ == Seq::<Cmd>::empty(),
    {
        self.items.clear();
    }

    /// How many commands are waiting.
    pub fn len(&self) -> (n: usize)
        ensures
            n == self@.len(),
    {
        self.items.len()
    }

    /// Whether no command is waiting.
    pub fn is_empty(&self) -> (r: bool)
        ensures
            r == (self@.len() == 0),
    {
        self.items.len() == 0
    }
}

/// What one poll cycle of the dispatch loop decided.
#[derive(Debug)]
pub enum DispatchOutcome {
    /// The queue was empty; nothing happened.
    Idle,
    /// The front command was `ClearQueue`; the queue is now empty.
    Cleared,
    /// A move was dropped because the controller holds a recorded
    /// error (fail-stop).
    Halted,
    /// A move was rejected as malformed or out of range; no state
    /// changed.
    Rejected(ServerError),
    /// A move was accepted; the caller must now drive this pulse train
    /// onto the hardware.
    Pulses(PulsePlan),
}

/// One poll cycle of the dispatch loop: take at most one command off
/// the queue and apply it to the controller.
///
/// `ClearQueue` leaves the queue empty whatever it held.  Once
/// `last_error` is set, a `ProcessMove` is a no-op: the controller is
/// untouched and the command is dropped.
pub fn dispatch_one(queue: &mut CmdQueue, gimbal: &mut Gimbal) -> (r: DispatchOutcome)
    requires
        old(gimbal).wf(),
    ensures
        final(gimbal).wf(),
        same_config(*old(gimbal), *final(gimbal)),
        old(queue)@.len() == 0 ==> r is Idle && final(queue)@ == old(queue)@
            && *final(gimbal) == *old(gimbal),
        old(queue)@.len() > 0 ==> match old(queue)@[0] {
            Cmd::ClearQueue => r is Cleared && final(queue)@ == Seq::<Cmd>::empty()
                && *final(gimbal) == *old(gimbal),
            Cmd::ProcessMove(m, axis) => final(queue)@ == old(queue)@.drop_first() && (
            if old(gimbal).last_error is Some {
                r is Halted && *final(gimbal) == *old(gimbal)
            } else if !move_accepted(*old(gimbal), m, axis) {
                &&& (r matches DispatchOutcome::Rejected(e) && e matches ServerError::BadInput(_))
                &&& *final(gimbal) == *old(gimbal)
            } else {
                let plan = plan_of(*old(gimbal), m, axis);
                &&& r matches DispatchOutcome::Pulses(p) && p == plan
                &&& final(gimbal).last_error == old(gimbal).last_error
                &&& final(gimbal).pos_steps.0 == old(gimbal).pos_steps.0 + (
                if axis is Pan {
                    plan.num_pulses as int
                } else {
                    0int
                })
                &&& final(gimbal).pos_steps.1 == old(gimbal).pos_steps.1 + (
                if axis is Tilt {
                    plan.num_pulses as int
                } else {
                    0int
                })
            }),
        },
{
    match queue.pop() {
        None => DispatchOutcome::Idle,
        Some(Cmd::ClearQueue) => {
            queue.clear();
            DispatchOutcome::Cleared
        }
        Some(Cmd::ProcessMove(m, axis)) => {
            if gimbal.last_error.is_some() {
                DispatchOutcome::Halted
            } else {
                match gimbal.mv(m, axis) {
                    Ok(plan) => DispatchOutcome::Pulses(plan),
                    Err(e) => DispatchOutcome::Rejected(e),
                }
            }
        }
    }
}

} // verus!
