//! The two followers. Each deals with what its subscription has just handed
//! over: it decodes the head, has the local client mark the block, and tells
//! the task how that went.
//!
//! What a subscription hands over is a `Result<Option<_>, P>`: `Ok(Some(item))`
//! for an item, `Ok(None)` when the subscription has ended, `Err(fault)` when
//! it has failed.

use vstd::prelude::*;
use crate::error::ClientError;
use crate::head::HeadUpdate;
use crate::local::{answers_with, decodes_to, perform, LocalClient};
use crate::task::{call_for, Event, Side, Task};

verus! {

impl<P> Task<P> {
    /// The state after the follower of `side` has dealt with one item: the
    /// head is taken in and, where that asks for a call on the local client,
    /// so is the answer to the call.
    pub open spec fn served<H>(
        self,
        side: Side,
        decoded: Option<H>,
        answer: Result<bool, ClientError>,
    ) -> Task<P> {
        let head = Event::<H, P>::Head(side, decoded);
        if self.asks(head) is Some {
            self.next(head).next(Event::<H, P>::Answered(side, answer))
        } else {
            self.next(head)
        }
    }
}

/// Whether `after` is a state in which the follower of `side` may leave the
/// task `before` when it deals with an item whose head data is `head_data`.
///
/// Where the task takes no item from `side`, the item is left alone and the
/// task stays as it is. Otherwise the head data is decoded, once; where it
/// decodes, the call for its hash is made on `local`, once; and the task is
/// where the result of the decoder and the answer of `local` lead.
pub open spec fn serves<L: LocalClient, P>(
    before: Task<P>,
    local: &L,
    side: Side,
    head_data: Seq<u8>,
    after: Task<P>,
) -> bool {
    if before.consumes(side) {
        exists|decoded: Option<L::Hash>, answer: Result<bool, ClientError>|
            {
                &&& decodes_to::<L>(head_data, decoded)
                &&& decoded matches Some(hash) ==> answers_with(local, call_for(side, hash), answer)
                &&& after == #[trigger] before.served(side, decoded, answer)
            }
    } else {
        after == before
    }
}

/// Deals with what the subscription of `side` handed over, an item being the
/// head data of an update.
///
/// An item is dealt with as [`serves`] says: decoded and, where it decodes,
/// passed to the local client by its hash, `mark_best` for a best head and
/// `finalize` for a finalized one. Head data that does not decode halts the
/// task with `InvalidHeadData`, an error of the local client with `Client`, a
/// failure of the subscription with `Polkadot`; the end of the subscription
/// ends the follower.
pub fn follow<L: LocalClient, P>(
    task: &mut Task<P>,
    local: &L,
    side: Side,
    polled: Result<Option<Vec<u8>>, P>,
)
    ensures
        polled matches Ok(Some(head_data)) ==> serves(
            *old(task),
            local,
            side,
            head_data@,
            *final(task),
        ),
        polled matches Ok(None) ==> *final(task) == old(task).next(
            Event::<L::Hash, P>::Ended(side),
        ),
        polled matches Err(fault) ==> *final(task) == old(task).next(
            Event::<L::Hash, P>::Failed(side, fault),
        ),
{
    match polled {
        Ok(Some(head_data)) => {
            if task.wants(side) {
                let decoded = L::decode_head(head_data.as_slice());
                let ghost heard = decoded;
                assert(decodes_to::<L>(head_data@, heard));
                match task.step(Event::Head(side, decoded)) {
                    Some(call) => {
                        let answer = perform(local, call);
                        let ghost told = answer;
                        task.step(Event::<L::Hash, P>::Answered(side, answer));
                        assert(*task == old(task).served(side, heard, told));
                    },
                    None => {
                        assert(*task == old(task).served(
                            side,
                            heard,
                            Ok::<bool, ClientError>(true),
                        ));
                    },
                }
            }
        },
        Ok(None) => {
            task.step(Event::<L::Hash, P>::Ended(side));
        },
        Err(fault) => {
            task.step(Event::<L::Hash, P>::Failed(side, fault));
        },
    }
}

/// The best-head follower: deals with what the subscription of best-head
/// updates handed over, as [`follow`] does for [`Side::Best`] and the
/// update's head data.
pub fn follow_best<L: LocalClient, P>(
    task: &mut Task<P>,
    local: &L,
    polled: Result<Option<HeadUpdate>, P>,
)
    ensures
        polled matches Ok(Some(update)) ==> serves(
            *old(task),
            local,
            Side::Best,
            update.head_data@,
            *final(task),
        ),
        polled matches Ok(None) ==> *final(task) == old(task).next(
            Event::<L::Hash, P>::Ended(Side::Best),
        ),
        polled matches Err(fault) ==> *final(task) == old(task).next(
            Event::<L::Hash, P>::Failed(Side::Best, fault),
        ),
{
    let heads = match polled {
        Ok(Some(update)) => Ok(Some(update.head_data)),
        Ok(None) => Ok(None),
        Err(fault) => Err(fault),
    };
    follow(task, local, Side::Best, heads)
}

/// The finalized-head follower: deals with what the subscription of
/// finalized heads handed over, as [`follow`] does for [`Side::Finalized`].
pub fn follow_finalized<L: LocalClient, P>(
    task: &mut Task<P>,
    local: &L,
    polled: Result<Option<Vec<u8>>, P>,
)
    ensures
        polled matches Ok(Some(head_data)) ==> serves(
            *old(task),
            local,
            Side::Finalized,
            head_data@,
            *final(task),
        ),
        polled matches Ok(None) ==> *final(task) == old(task).next(
            Event::<L::Hash, P>::Ended(Side::Finalized),
        ),
        polled matches Err(fault) ==> *final(task) == old(task).next(
            Event::<L::Hash, P>::Failed(Side::Finalized, fault),
        ),
{
    follow(task, local, Side::Finalized, polled)
}

} // verus!
