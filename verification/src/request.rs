use vstd::prelude::*;

use crate::error::Error;

verus! {

/// How many envelopes an actor's mailbox holds before a sender has to wait.
///
/// This does not limit an actor in practice: a sender awaits the result of its
/// message anyway, whether the mailbox is full or not.
pub const MAILBOX_CAPACITY: usize = 10;

/// The outcome of putting an envelope into an actor's mailbox: the mailbox
/// refuses it only when the actor has stopped.
pub fn enqueue_outcome(enqueued: bool) -> (r: Result<(), Error>)
    ensures
        r == (if enqueued {
            Ok(())
        } else {
            Err(Error::ReceiverShutdown)
        }),
{
    if enqueued {
        Ok(())
    } else {
        Err(Error::ReceiverShutdown)
    }
}

/// The outcome of a request to an actor: `enqueued` says whether the mailbox
/// took the envelope, `reply` what came back on the envelope's return channel
/// (`None` when the channel closed without a reply). The sender gets the
/// reply exactly when both steps succeeded, and `ReceiverShutdown` otherwise.
pub fn settle<T>(enqueued: bool, reply: Option<T>) -> (r: Result<T, Error>)
    ensures
        r == (if enqueued && reply is Some {
            Ok(reply->0)
        } else {
            Err(Error::ReceiverShutdown)
        }),
{
    match enqueue_outcome(enqueued) {
        Err(e) => Err(e),
        Ok(()) => match reply {
            Some(v) => Ok(v),
            None => Err(Error::ReceiverShutdown),
        },
    }
}

} // verus!
