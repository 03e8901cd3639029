//! The synchronization task: two followers, one per subscription of the relay
//! chain, driven as a single unit that halts on the first fault of either.
//!
//! The task is a state machine. Whoever drives it hands it one [`Event`] at a
//! time and makes the call on the local client that the task asks for in
//! return, if it asks for one.

use vstd::prelude::*;
use crate::error::{ClientError, Error};

verus! {

/// One of the two subscriptions, and the follower that consumes it.
#[derive(Debug, Clone, Copy, PartialEq, Eq, Structural)]
pub enum Side {
    /// The best-head updates.
    Best,
    /// The finalized heads.
    Finalized,
}

/// Where a follower stands in its loop.
#[derive(Debug, Clone, Copy, PartialEq, Eq, Structural)]
pub enum Follower {
    /// Waiting for the next item of its subscription.
    Idle,
    /// Waiting for the local client to answer the call made for the last item.
    Calling,
    /// Its subscription has ended; the follower has ended with it.
    Ended,
}

/// A call on the local client.
#[derive(Debug, PartialEq, Eq)]
pub enum Action<H> {
    /// Mark the block with this hash as the best block.
    MarkBest(H),
    /// Finalize the block with this hash.
    Finalize(H),
}

/// Something that happened to one of the two followers.
#[derive(Debug, PartialEq, Eq)]
pub enum Event<H, P> {
    /// The subscription yielded an item. The second field is the hash of the
    /// header that the item's head data decodes to, `None` where the head data
    /// does not decode.
    Head(Side, Option<H>),
    /// The subscription failed with an error of the relay-chain client.
    Failed(Side, P),
    /// The subscription ended.
    Ended(Side),
    /// The local client answered the call that the follower asked for.
    Answered(Side, Result<bool, ClientError>),
}

/// The synchronization task.
#[derive(Debug, PartialEq, Eq)]
pub enum Task<P> {
    /// No fault so far. The task is complete once both followers have ended.
    Following {
        /// The follower of the best-head updates.
        best: Follower,
        /// The follower of the finalized heads.
        finalized: Follower,
    },
    /// A follower stopped with this fault, and the task with it.
    Halted(Error<P>),
}

/// The call that a follower makes for a head with the given hash.
pub open spec fn call_for<H>(side: Side, hash: H) -> Action<H> {
    match side {
        Side::Best => Action::MarkBest(hash),
        Side::Finalized => Action::Finalize(hash),
    }
}

impl<H, P> Event<H, P> {
    /// The follower that the event concerns.
    pub open spec fn side(self) -> Side {
        match self {
            Event::Head(side, _) => side,
            Event::Failed(side, _) => side,
            Event::Ended(side) => side,
            Event::Answered(side, _) => side,
        }
    }
}

impl<P> Task<P> {
    /// The state in which the task starts: both followers wait for their
    /// first item.
    pub open spec fn start() -> Task<P> {
        Task::Following { best: Follower::Idle, finalized: Follower::Idle }
    }

    /// Whether the task has neither halted nor completed.
    pub open spec fn running(self) -> bool {
        match self {
            Task::Following { best, finalized } => best != Follower::Ended || finalized
                != Follower::Ended,
            Task::Halted(_) => false,
        }
    }

    /// Whether both followers have ended without a fault.
    pub open spec fn complete(self) -> bool {
        self == Task::<P>::Following { best: Follower::Ended, finalized: Follower::Ended }
    }

    /// Where the follower of `side` stands, `None` once the task has halted.
    pub open spec fn follower(self, side: Side) -> Option<Follower> {
        match self {
            Task::Following { best, finalized } => Some(
                match side {
                    Side::Best => best,
                    Side::Finalized => finalized,
                },
            ),
            Task::Halted(_) => None,
        }
    }

    /// Whether the next item of the subscription of `side` is to be consumed.
    pub open spec fn consumes(self, side: Side) -> bool {
        self.follower(side) == Some(Follower::Idle)
    }

    /// The task with the follower of `side` moved to `to`. A halted task
    /// stays as it is.
    pub open spec fn with_follower(self, side: Side, to: Follower) -> Task<P> {
        match self {
            Task::Following { best, finalized } => match side {
                Side::Best => Task::Following { best: to, finalized },
                Side::Finalized => Task::Following { best, finalized: to },
            },
            Task::Halted(fault) => Task::Halted(fault),
        }
    }

    /// The state that `event` leads to.
    ///
    /// A halted task ignores every event. An item, a failure or the end of a
    /// subscription counts only while its follower is idle, an answer only
    /// while its follower is calling; every other event is ignored.
    pub open spec fn next<H>(self, event: Event<H, P>) -> Task<P> {
        match event {
            Event::Head(side, Some(_)) => if self.consumes(side) {
                self.with_follower(side, Follower::Calling)
            } else {
                self
            },
            Event::Head(side, None) => if self.consumes(side) {
                Task::Halted(Error::InvalidHeadData)
            } else {
                self
            },
            Event::Failed(side, fault) => if self.consumes(side) {
                Task::Halted(Error::Polkadot(fault))
            } else {
                self
            },
            Event::Ended(side) => if self.consumes(side) {
                self.with_follower(side, Follower::Ended)
            } else {
                self
            },
            Event::Answered(side, answer) => if self.follower(side) == Some(Follower::Calling) {
                match answer {
                    Ok(_) => self.with_follower(side, Follower::Idle),
                    Err(fault) => Task::Halted(Error::Client(fault)),
                }
            } else {
                self
            },
        }
    }

    /// The call on the local client that `event` asks for, if it asks for one:
    /// the one for a head that decoded, on a follower that is idle.
    pub open spec fn asks<H>(self, event: Event<H, P>) -> Option<Action<H>> {
        match event {
            Event::Head(side, Some(hash)) => if self.consumes(side) {
                Some(call_for(side, hash))
            } else {
                None
            },
            _ => None,
        }
    }

    /// A task in which both followers wait for their first item.
    pub fn new() -> (task: Task<P>)
        ensures
            task == Task::<P>::start(),
    {
        Task::Following { best: Follower::Idle, finalized: Follower::Idle }
    }

    /// Whether the task has neither halted nor completed.
    pub fn is_running(&self) -> (running: bool)
        ensures
            running == self.running(),
    {
        match self {
            Task::Following { best, finalized } => !(*best == Follower::Ended && *finalized
                == Follower::Ended),
            Task::Halted(_) => false,
        }
    }

    /// Whether both followers have ended without a fault.
    pub fn is_complete(&self) -> (complete: bool)
        ensures
            complete == self.complete(),
    {
        match self {
            Task::Following { best, finalized } => *best == Follower::Ended && *finalized
                == Follower::Ended,
            Task::Halted(_) => false,
        }
    }

    /// The fault that the task halted with, `None` while it has not halted.
    pub fn fault(&self) -> (fault: Option<&Error<P>>)
        ensures
            *self matches Task::Halted(stopped) ==> fault == Some(&stopped),
            *self is Following ==> fault is None,
    {
        match self {
            Task::Halted(stopped) => Some(stopped),
            Task::Following { .. } => None,
        }
    }

    /// Whether the next item of the subscription of `side` is to be consumed:
    /// the task has not halted and the follower of `side` is idle.
    pub fn wants(&self, side: Side) -> (wanted: bool)
        ensures
            wanted == self.consumes(side),
    {
        match self {
            Task::Following { best, finalized } => match side {
                Side::Best => *best == Follower::Idle,
                Side::Finalized => *finalized == Follower::Idle,
            },
            Task::Halted(_) => false,
        }
    }

    /// Takes `event` in and returns the call on the local client that it asks
    /// for, if it asks for one. The answer to that call is to come back as an
    /// [`Event::Answered`] for the same follower.
    pub fn step<H>(&mut self, event: Event<H, P>) -> (call: Option<Action<H>>)
        ensures
            *final(self) == old(self).next(event),
            call == old(self).asks(event),
    {
        let (best, finalized) = match self {
            Task::Following { best, finalized } => (*best, *finalized),
            Task::Halted(_) => {
                return None;
            },
        };
        let side = match &event {
            Event::Head(side, _) => *side,
            Event::Failed(side, _) => *side,
            Event::Ended(side) => *side,
            Event::Answered(side, _) => *side,
        };
        let at = match side {
            Side::Best => best,
            Side::Finalized => finalized,
        };
        match event {
            Event::Head(_, decoded) => {
                if at == Follower::Idle {
                    match decoded {
                        Some(hash) => {
                            *self = moved(best, finalized, side, Follower::Calling);
                            Some(
                                match side {
                                    Side::Best => Action::MarkBest(hash),
                                    Side::Finalized => Action::Finalize(hash),
                                },
                            )
                        },
                        None => {
                            *self = Task::Halted(Error::InvalidHeadData);
                            None
                        },
                    }
                } else {
                    None
                }
            },
            Event::Failed(_, fault) => {
                if at == Follower::Idle {
                    *self = Task::Halted(Error::Polkadot(fault));
                }
                None
            },
            Event::Ended(_) => {
                if at == Follower::Idle {
                    *self = moved(best, finalized, side, Follower::Ended);
                }
                None
            },
            Event::Answered(_, answer) => {
                if at == Follower::Calling {
                    match answer {
                        Ok(_) => {
                            *self = moved(best, finalized, side, Follower::Idle);
                        },
                        Err(fault) => {
                            *self = Task::Halted(Error::Client(fault));
                        },
                    }
                }
                None
            },
        }
    }
}

/// The task that follows with the follower of `side` moved to `to`.
fn moved<P>(best: Follower, finalized: Follower, side: Side, to: Follower) -> (task: Task<P>)
    ensures
        task == (Task::<P>::Following { best, finalized }).with_follower(side, to),
{
    match side {
        Side::Best => Task::Following { best: to, finalized },
        Side::Finalized => Task::Following { best, finalized: to },
    }
}

} // verus!
