use vstd::prelude::*;

verus! {

/// Error type for sending to an actor.
#[derive(Debug, Clone, Copy, PartialEq, Eq, Structural)]
pub enum Error {
    /// Receiving actor has stopped before a sent message has returned a result.
    ///
    /// The receiving actor might or might not have started to process the message.
    ReceiverShutdown,
}

impl Error {
    /// The human readable text of the error.
    pub fn message(&self) -> (text: &'static str)
        ensures
            text@ == "receiver has stopped"@,
    {
        match self {
            Error::ReceiverShutdown => "receiver has stopped",
        }
    }
}

} // verus!
