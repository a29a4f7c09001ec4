use vstd::prelude::*;

verus! {

/// A message sent to an actor.
///
/// The message is handled asynchronously by the actor's handler for it, and
/// the handler's result is moved back to the sender.
pub trait Message: Send {
    /// The result of the actor's handler for this message, returned to the sender.
    type Result: Send;
}

/// Items of a stream added to an actor arrive as `Some(item)`, and the end of
/// the stream as `None`; they share the result type of the item.
impl<T: Message> Message for Option<T> {
    type Result = T::Result;
}

/// What an envelope in an actor's mailbox carries.
#[derive(Debug, Clone, Copy, PartialEq, Eq, Structural)]
pub enum EnvelopeKind {
    /// A message for one of the actor's handlers.
    Message,
    /// The signal for the actor to stop and hand itself back.
    Stop,
}

impl EnvelopeKind {
    /// The text that names the envelope's variant in debug output.
    pub fn describe(&self) -> (text: &'static str)
        ensures
            *self == EnvelopeKind::Message ==> text@ == "Envelope::Message"@,
            *self == EnvelopeKind::Stop ==> text@ == "Envelope::Stop"@,
    {
        match self {
            EnvelopeKind::Message => "Envelope::Message",
            EnvelopeKind::Stop => "Envelope::Stop",
        }
    }
}

/// A value sealed in an envelope, to be taken out exactly once, by the one
/// delivery of that envelope.
pub struct Parcel<T> {
    content: Option<T>,
}

impl<T> View for Parcel<T> {
    type V = Option<T>;

    /// The content still sealed in the parcel; `None` once it was taken out.
    closed spec fn view(&self) -> Option<T> {
        self.content
    }
}

impl<T> Parcel<T> {
    /// Seals `content` in a new parcel.
    pub fn new(content: T) -> (p: Parcel<T>)
        ensures
            p@ == Some(content),
    {
        Parcel { content: Some(content) }
    }

    /// The content was already taken out.
    pub fn is_opened(&self) -> (r: bool)
        ensures
            r == (self@ is None),
    {
        self.content.is_none()
    }

    /// Takes the content out: the first call hands it over, every later call
    /// finds the parcel empty.
    pub fn open(&mut self) -> (content: Option<T>)
        ensures
            content == old(self)@,
            final(self)@ == None::<T>,
    {
        self.content.take()
    }
}

} // verus!
