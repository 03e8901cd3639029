//! What a task makes of a whole sequence of events: the state it ends in and
//! the calls on the local client it asks for on the way.

use vstd::prelude::*;
use crate::error::ClientError;
use crate::task::{Action, Event, Side, Task};

verus! {

/// The events of one follower whose subscription yields, one after another,
/// heads that decode to `heads`: each head, followed by what the local client
/// answers to the call made for it, `answers` holding the answers in the same
/// order.
pub open spec fn heads_served<H, P>(
    side: Side,
    heads: Seq<H>,
    answers: Seq<Result<bool, ClientError>>,
) -> Seq<Event<H, P>>
    recommends
        answers.len() == heads.len(),
    decreases heads.len(),
{
    if heads.len() == 0 {
        Seq::empty()
    } else {
        heads_served::<H, P>(side, heads.drop_last(), answers.drop_last()).push(
            Event::Head(side, Some(heads.last())),
        ).push(Event::Answered(side, answers.last()))
    }
}

impl<P> Task<P> {
    /// The state after `events`, taken in from first to last.
    pub open spec fn run<H>(self, events: Seq<Event<H, P>>) -> Task<P>
        decreases events.len(),
    {
        if events.len() == 0 {
            self
        } else {
            self.run(events.drop_last()).next(events.last())
        }
    }

    /// The calls on the local client that `events` ask for, in the order in
    /// which they are asked for.
    pub open spec fn calls<H>(self, events: Seq<Event<H, P>>) -> Seq<Action<H>>
        decreases events.len(),
    {
        if events.len() == 0 {
            Seq::empty()
        } else {
            let before = self.calls(events.drop_last());
            match self.run(events.drop_last()).asks(events.last()) {
                Some(call) => before.push(call),
                None => before,
            }
        }
    }

    /// Takes `events` in from first to last and returns the calls on the
    /// local client that they ask for, in order.
    pub fn replay<H>(&mut self, events: Vec<Event<H, P>>) -> (calls: Vec<Action<H>>)
        ensures
            *final(self) == old(self).run(events@),
            calls@ == old(self).calls(events@),
    {
        let mut calls: Vec<Action<H>> = Vec::new();
        let ghost all = events@;
        for event in it: events
            invariant
                it.seq() == all,
                *self == old(self).run(all.take(it.index() as int)),
                calls@ == old(self).calls(all.take(it.index() as int)),
        {
            proof {
                let done = all.take(it.index() + 1);
                assert(done.drop_last() == all.take(it.index() as int));
                assert(done.last() == event);
            }
            match self.step(event) {
                Some(call) => {
                    calls.push(call);
                },
                None => {},
            }
        }
        proof {
            assert(all.take(all.len() as int) == all);
        }
        calls
    }
}

} // verus!
