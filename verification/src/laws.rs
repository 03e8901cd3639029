//! What holds of every run of the task.

use vstd::prelude::*;
use crate::error::{ClientError, Error};
use crate::follow::serves;
use crate::local::{answers_with, decodes_to, LocalClient};
use crate::task::{call_for, Action, Event, Follower, Side, Task};
use crate::trace::heads_served;

verus! {

/// Taking in one more event extends the run by one step, and the calls by the
/// call that the event asks for, if it asks for one.
pub proof fn lemma_run_push<H, P>(task: Task<P>, events: Seq<Event<H, P>>, event: Event<H, P>)
    ensures
        task.run(events.push(event)) == task.run(events).next(event),
        task.run(events).asks(event) matches Some(call) ==> task.calls(events.push(event))
            == task.calls(events).push(call),
        task.run(events).asks(event) is None ==> task.calls(events.push(event)) == task.calls(
            events,
        ),
{
    assert(events.push(event).drop_last() == events);
    assert(events.push(event).last() == event);
}

/// A run over two sequences of events, one after the other, is the run over
/// the second from where the first has led, and its calls are those of the
/// first followed by those of the second.
pub proof fn lemma_run_concat<H, P>(
    task: Task<P>,
    first: Seq<Event<H, P>>,
    second: Seq<Event<H, P>>,
)
    ensures
        task.run(first + second) == task.run(first).run(second),
        task.calls(first + second) == task.calls(first) + task.run(first).calls(second),
    decreases second.len(),
{
    if second.len() == 0 {
        assert(first + second == first);
        assert(task.calls(first) + Seq::<Action<H>>::empty() == task.calls(first));
    } else {
        lemma_run_concat(task, first, second.drop_last());
        assert((first + second).drop_last() == first + second.drop_last());
        assert((first + second).last() == second.last());
        let led = task.run(first + second.drop_last());
        match led.asks(second.last()) {
            Some(call) => {
                assert((task.calls(first) + task.run(first).calls(second.drop_last())).push(call)
                    == task.calls(first) + task.run(first).calls(second.drop_last()).push(call));
            },
            None => {},
        }
    }
}

/// A halted task stays halted with the same fault whatever happens, and asks
/// for no call on the local client.
pub proof fn law_halted_task_does_nothing<H, P>(fault: Error<P>, events: Seq<Event<H, P>>)
    ensures
        Task::Halted(fault).run(events) == Task::Halted(fault),
        Task::Halted(fault).calls(events) == Seq::<Action<H>>::empty(),
        !Task::Halted(fault).consumes(Side::Best),
        !Task::Halted(fault).consumes(Side::Finalized),
    decreases events.len(),
{
    if events.len() > 0 {
        law_halted_task_does_nothing(fault, events.drop_last());
    }
}

/// What a follower makes of one head that decodes is the run over two events,
/// the head and the answer of the local client, and asks for one call: the
/// one with the hash of the head.
pub proof fn lemma_served_head_is_a_run<H, P>(
    task: Task<P>,
    side: Side,
    hash: H,
    answer: Result<bool, ClientError>,
)
    requires
        task.consumes(side),
    ensures
        task.served(side, Some(hash), answer) == task.run(
            heads_served::<H, P>(side, seq![hash], seq![answer]),
        ),
        task.calls(heads_served::<H, P>(side, seq![hash], seq![answer])) == seq![
            call_for(side, hash),
        ],
{
    let none = heads_served::<H, P>(side, seq![hash].drop_last(), seq![answer].drop_last());
    let head = Event::<H, P>::Head(side, Some(hash));
    assert(none == Seq::<Event<H, P>>::empty());
    assert(seq![hash].last() == hash);
    assert(seq![answer].last() == answer);
    lemma_run_push(task, none, head);
    lemma_run_push(task, none.push(head), Event::<H, P>::Answered(side, answer));
}

/// Heads that decode are passed to the local client one by one, in the order
/// in which they arrive, each in exactly one call, as long as the local client
/// does not answer a call with an error: a follower that is idle asks for the
/// call with the hash of each of them, `mark_best` for the best heads and
/// `finalize` for the finalized ones.
///
/// Where the local client answers every call with `Ok`, the task is then
/// where it was before; where it answers the last call with an error, the
/// task has halted with that error.
pub proof fn law_heads_are_called_in_order<H, P>(
    task: Task<P>,
    side: Side,
    heads: Seq<H>,
    answers: Seq<Result<bool, ClientError>>,
)
    requires
        task.consumes(side),
        answers.len() == heads.len(),
        forall|i: int| 0 <= i < heads.len() - 1 ==> (#[trigger] answers[i]) is Ok,
    ensures
        task.calls(heads_served::<H, P>(side, heads, answers)) == Seq::new(
            heads.len(),
            |i: int| call_for(side, heads[i]),
        ),
        heads.len() == 0 || answers.last() is Ok ==> task.run(
            heads_served::<H, P>(side, heads, answers),
        ) == task,
        heads.len() > 0 && answers.last() is Err ==> task.run(
            heads_served::<H, P>(side, heads, answers),
        ) == Task::<P>::Halted(Error::Client(answers.last()->Err_0)),
    decreases heads.len(),
{
    if heads.len() > 0 {
        let earlier = heads_served::<H, P>(side, heads.drop_last(), answers.drop_last());
        let head = Event::<H, P>::Head(side, Some(heads.last()));
        let answer = Event::<H, P>::Answered(side, answers.last());
        assert forall|i: int| 0 <= i < heads.drop_last().len() - 1 implies (
        #[trigger] answers.drop_last()[i]) is Ok by {
            assert(answers[i] is Ok);
        }
        law_heads_are_called_in_order::<H, P>(task, side, heads.drop_last(), answers.drop_last());
        if heads.len() > 1 {
            assert(answers[heads.len() - 2] is Ok);
            assert(answers.drop_last().last() == answers[heads.len() - 2]);
        }
        assert(task.run(earlier) == task);
        lemma_run_push(task, earlier, head);
        lemma_run_push(task, earlier.push(head), answer);
        assert(task.calls(heads_served::<H, P>(side, heads, answers)) =~= Seq::new(
            heads.len(),
            |i: int| call_for(side, heads[i]),
        ));
    }
}

/// Once a head does not decode, the task halts with
/// [`Error::InvalidHeadData`]: the local client has been called for the heads
/// before it, in their order, and is called neither for that head nor for
/// anything that comes later, on either subscription.
pub proof fn law_malformed_head_halts<H, P>(
    task: Task<P>,
    side: Side,
    heads: Seq<H>,
    answers: Seq<Result<bool, ClientError>>,
    later: Seq<Event<H, P>>,
)
    requires
        task.consumes(side),
        answers.len() == heads.len(),
        forall|i: int| 0 <= i < heads.len() ==> (#[trigger] answers[i]) is Ok,
    ensures
        task.calls(
            heads_served::<H, P>(side, heads, answers).push(Event::Head(side, None)) + later,
        ) == Seq::new(heads.len(), |i: int| call_for(side, heads[i])),
        task.run(heads_served::<H, P>(side, heads, answers).push(Event::Head(side, None)) + later)
            == Task::<P>::Halted(Error::InvalidHeadData),
{
    let valid = heads_served::<H, P>(side, heads, answers);
    let malformed = Event::<H, P>::Head(side, None);
    law_heads_are_called_in_order::<H, P>(task, side, heads, answers);
    lemma_run_push(task, valid, malformed);
    lemma_run_concat(task, valid.push(malformed), later);
    law_halted_task_does_nothing::<H, P>(Error::InvalidHeadData, later);
    assert(task.calls(valid) + Seq::<Action<H>>::empty() == task.calls(valid));
}

/// A local client that does not know the blocks it is asked to mark, and
/// answers `false` each time, never halts the task: after any number of such
/// heads the task is where it was, and the follower takes the next item of
/// its subscription.
pub proof fn law_unknown_blocks_do_not_halt<H, P>(
    task: Task<P>,
    side: Side,
    heads: Seq<H>,
    answers: Seq<Result<bool, ClientError>>,
)
    requires
        task.consumes(side),
        answers.len() == heads.len(),
        forall|i: int|
            0 <= i < heads.len() ==> #[trigger] answers[i] == Ok::<bool, ClientError>(false),
    ensures
        task.run(heads_served::<H, P>(side, heads, answers)) == task,
        task.run(heads_served::<H, P>(side, heads, answers)).consumes(side),
        task.calls(heads_served::<H, P>(side, heads, answers)).len() == heads.len(),
{
    law_heads_are_called_in_order::<H, P>(task, side, heads, answers);
}

/// The three faults, each of which halts the task whichever follower meets
/// it: head data that does not decode, a failure of the subscription, and an
/// error of the local client. None of them asks for a call.
pub proof fn law_every_fault_halts<H, P>(
    task: Task<P>,
    side: Side,
    remote: P,
    local: ClientError,
)
    ensures
        task.consumes(side) ==> task.next(Event::<H, P>::Head(side, None)) == Task::<P>::Halted(
            Error::InvalidHeadData,
        ),
        task.consumes(side) ==> task.next(Event::<H, P>::Failed(side, remote)) == Task::<
            P,
        >::Halted(Error::Polkadot(remote)),
        task.follower(side) == Some(Follower::Calling) ==> task.next(
            Event::<H, P>::Answered(side, Err(local)),
        ) == Task::<P>::Halted(Error::Client(local)),
        task.asks(Event::<H, P>::Head(side, None)) is None,
        task.asks(Event::<H, P>::Failed(side, remote)) is None,
        task.asks(Event::<H, P>::Answered(side, Err(local))) is None,
{
}

/// A fault that one follower meets stops the other follower too: once an
/// event has halted the task, no item is taken from either subscription, no
/// call is made on the local client, and the task stays as it is.
pub proof fn law_fault_of_one_follower_stops_both<H, P>(
    task: Task<P>,
    event: Event<H, P>,
    later: Seq<Event<H, P>>,
)
    requires
        task is Following,
        task.next(event) is Halted,
    ensures
        !task.next(event).consumes(Side::Best),
        !task.next(event).consumes(Side::Finalized),
        task.next(event).run(later) == task.next(event),
        task.next(event).calls(later) == Seq::<Action<H>>::empty(),
{
    law_halted_task_does_nothing::<H, P>(task.next(event)->Halted_0, later);
}

/// A follower that deals with an item leaves the task as it was, or halts it:
/// with [`Error::InvalidHeadData`] where the decoder found no header in the
/// head data, with the error of the local client where the call for the
/// decoded hash was answered with one. An item never ends a follower, and
/// never touches the other follower.
pub proof fn law_item_is_served_or_halts<L: LocalClient, P>(
    before: Task<P>,
    local: &L,
    side: Side,
    head_data: Seq<u8>,
    after: Task<P>,
)
    requires
        serves(before, local, side, head_data, after),
    ensures
        after == before || (before.consumes(side) && decodes_to::<L>(head_data, None) && after
            == Task::<P>::Halted(Error::InvalidHeadData)) || (before.consumes(side) && exists|
            hash: L::Hash,
            fault: ClientError,
        |
            decodes_to::<L>(head_data, Some(hash)) && #[trigger] answers_with(
                local,
                call_for(side, hash),
                Err(fault),
            ) && after == Task::<P>::Halted(Error::Client(fault))),
{
    if before.consumes(side) {
        let (decoded, answer) = choose|
            decoded: Option<L::Hash>,
            answer: Result<bool, ClientError>,
        |
            {
                &&& decodes_to::<L>(head_data, decoded)
                &&& decoded matches Some(hash) ==> answers_with(
                    local,
                    call_for(side, hash),
                    answer,
                )
                &&& after == #[trigger] before.served(side, decoded, answer)
            };
        if let Some(hash) = decoded {
            if let Err(fault) = answer {
                assert(answers_with(local, call_for(side, hash), Err(fault)));
            }
        }
    }
}

/// The two followers do not disturb each other: an event of one follower that
/// does not halt the task leaves the other follower where it stands.
pub proof fn law_followers_are_independent<H, P>(task: Task<P>, event: Event<H, P>, other: Side)
    requires
        other != event.side(),
        task.next(event) is Following,
    ensures
        task.next(event).follower(other) == task.follower(other),
{
}

/// The task completes only when both subscriptions have ended: from the
/// start, it is complete after a run only if the run holds the end of the
/// best-head updates and the end of the finalized heads.
pub proof fn law_complete_only_when_both_ended<H, P>(events: Seq<Event<H, P>>)
    requires
        Task::<P>::start().run(events).complete(),
    ensures
        exists|i: int| 0 <= i < events.len() && events[i] == Event::<H, P>::Ended(Side::Best),
        exists|i: int| 0 <= i < events.len() && events[i] == Event::<H, P>::Ended(Side::Finalized),
{
    lemma_ended_follower_was_told(Task::<P>::start(), events, Side::Best);
    lemma_ended_follower_was_told(Task::<P>::start(), events, Side::Finalized);
}

/// A follower that has not ended before a run and has ended after it was told
/// of the end of its subscription during the run.
pub proof fn lemma_ended_follower_was_told<H, P>(
    task: Task<P>,
    events: Seq<Event<H, P>>,
    side: Side,
)
    requires
        task.follower(side) != Some(Follower::Ended),
        task.run(events).follower(side) == Some(Follower::Ended),
    ensures
        exists|i: int| 0 <= i < events.len() && events[i] == Event::<H, P>::Ended(side),
    decreases events.len(),
{
    if events.len() > 0 {
        let before = task.run(events.drop_last());
        if before.follower(side) == Some(Follower::Ended) {
            lemma_ended_follower_was_told(task, events.drop_last(), side);
            let i = choose|i: int|
                0 <= i < events.drop_last().len() && events.drop_last()[i] == Event::<
                    H,
                    P,
                >::Ended(side);
            assert(events[i] == Event::<H, P>::Ended(side));
        } else {
            assert(events.last() == Event::<H, P>::Ended(side));
            assert(events[events.len() - 1] == Event::<H, P>::Ended(side));
        }
    }
}

} // verus!
