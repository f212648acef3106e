use vstd::prelude::*;

verus! {

/// A change of the table connection, as reported by the client's callbacks.
pub enum NtClientInput {
    /// The client connected to the server at this address.
    ClientConnected(String),
    /// The client lost the server at this address.
    ClientDisconnected(String),
}

/// What the mailbox holds after an event is offered to it: always that event.
pub open spec fn spec_send(
    pending: Option<NtClientInput>,
    event: NtClientInput,
) -> Option<NtClientInput> {
    Some(event)
}

/// A receive: the event handed out, and what the mailbox holds afterwards.
pub open spec fn spec_recv(pending: Option<NtClientInput>) -> (
    Option<NtClientInput>,
    Option<NtClientInput>,
) {
    (pending, None)
}

/// A conduit of capacity one between the callbacks and the publish loop.
///
/// Sending never waits: a newer event replaces one that was not taken yet,
/// since connectivity is a level and only the latest level matters.
pub struct EventMailbox {
    pending: Option<NtClientInput>,
}

impl View for EventMailbox {
    type V = Option<NtClientInput>;

    closed spec fn view(&self) -> Option<NtClientInput> {
        self.pending
    }
}

impl EventMailbox {
    pub fn new() -> (r: EventMailbox)
        ensures
            r@ == None::<NtClientInput>,
    {
        EventMailbox { pending: None }
    }

    /// Offers an event; it replaces any event still waiting.
    pub fn send(&mut self, event: NtClientInput)
        ensures
            final(self)@ == spec_send(old(self)@, event),
    {
        self.pending = Some(event);
    }

    /// Takes the waiting event, if any, without waiting for one.
    pub fn try_recv(&mut self) -> (r: Option<NtClientInput>)
        ensures
            (r, final(self)@) == spec_recv(old(self)@),
    {
        self.pending.take()
    }

    pub fn is_empty(&self) -> (r: bool)
        ensures
            r == (self@ is None),
    {
        self.pending.is_none()
    }
}

/// Two sends with no receive between them leave one event to drain, the later
/// one: a second receive finds the mailbox empty.
pub proof fn lemma_sends_coalesce(
    pending: Option<NtClientInput>,
    first: NtClientInput,
    second: NtClientInput,
)
    ensures
        spec_recv(spec_send(spec_send(pending, first), second)).0 == Some(second),
        spec_recv(spec_recv(spec_send(spec_send(pending, first), second)).1).0 is None,
{
}

} // verus!
