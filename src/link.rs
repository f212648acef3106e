use crate::mailbox::NtClientInput;
use vstd::prelude::*;

verus! {

/// Whether the bridge currently believes the table server is reachable.
pub enum LinkStatus {
    /// Connected to the server at this address.
    Connected(String),
    Disconnected,
}

/// The two connection callbacks that the table client offers.
#[derive(PartialEq, Eq, Structural, Clone, Copy, Debug)]
pub enum CallbackKind {
    Connected,
    Disconnected,
}

/// What the publish loop does in a tick.
#[derive(PartialEq, Eq, Structural, Clone, Copy, Debug)]
pub enum TickAction {
    /// Ask the table client to reconnect; publish nothing.
    Reconnect,
    /// Read the entries and publish them.
    Publish,
}

/// The state of the reconnection machine as a mathematical value.
pub struct LinkView {
    pub status: LinkStatus,
    /// The address the client was first connected to.
    pub target: String,
    /// Handlers registered for the connected callback in the live session.
    pub on_connected: nat,
    /// Handlers registered for the disconnected callback in the live session.
    pub on_disconnected: nat,
}

/// A callback replaces any earlier one of its kind, so at most one handler of
/// each kind is ever registered.
pub open spec fn link_wf(v: LinkView) -> bool {
    v.on_connected <= 1 && v.on_disconnected <= 1
}

/// The state after an event is taken from the mailbox. An event counts only
/// where a handler of its kind is registered, since only a handler produces it.
pub open spec fn spec_observe(v: LinkView, event: Option<NtClientInput>) -> LinkView {
    match event {
        Some(NtClientInput::ClientConnected(addr)) => if v.on_connected > 0 {
            LinkView { status: LinkStatus::Connected(addr), ..v }
        } else {
            v
        },
        Some(NtClientInput::ClientDisconnected(_)) => if v.on_disconnected > 0 {
            LinkView { status: LinkStatus::Disconnected, ..v }
        } else {
            v
        },
        None => v,
    }
}

/// A tick publishes while connected and asks for a reconnect otherwise.
pub open spec fn spec_action(v: LinkView) -> TickAction {
    match v.status {
        LinkStatus::Connected(_) => TickAction::Publish,
        LinkStatus::Disconnected => TickAction::Reconnect,
    }
}

/// Registering a handler leaves exactly one of its kind.
pub open spec fn spec_register(v: LinkView, kind: CallbackKind) -> LinkView {
    match kind {
        CallbackKind::Connected => LinkView { on_connected: 1, ..v },
        CallbackKind::Disconnected => LinkView { on_disconnected: 1, ..v },
    }
}

/// The state after a reconnect attempt. A successful one starts a new session
/// to the first address, in which no handler survives; a failed one changes
/// nothing, and the next tick tries again.
pub open spec fn spec_finish_reconnect(v: LinkView, ok: bool) -> LinkView {
    if ok {
        LinkView {
            status: LinkStatus::Connected(v.target),
            on_connected: 0,
            on_disconnected: 0,
            ..v
        }
    } else {
        v
    }
}

/// Tracks the table connection and decides, tick by tick, whether to publish
/// or to reconnect.
pub struct ReconnectMachine {
    status: LinkStatus,
    target: String,
    on_connected: u64,
    on_disconnected: u64,
}

impl View for ReconnectMachine {
    type V = LinkView;

    closed spec fn view(&self) -> LinkView {
        LinkView {
            status: self.status,
            target: self.target,
            on_connected: self.on_connected as nat,
            on_disconnected: self.on_disconnected as nat,
        }
    }
}

impl ReconnectMachine {
    /// The machine right after the first connect to `target` succeeded,
    /// before any callback is registered.
    pub fn new(target: String) -> (r: ReconnectMachine)
        ensures
            r@ == (LinkView {
                status: LinkStatus::Connected(target),
                target,
                on_connected: 0,
                on_disconnected: 0,
            }),
            link_wf(r@),
    {
        let status = LinkStatus::Connected(target.clone());
        ReconnectMachine { status, target, on_connected: 0, on_disconnected: 0 }
    }

    pub fn status(&self) -> (r: &LinkStatus)
        ensures
            *r == self@.status,
    {
        &self.status
    }

    pub fn is_connected(&self) -> (r: bool)
        ensures
            r == (self@.status is Connected),
    {
        match &self.status {
            LinkStatus::Connected(_) => true,
            LinkStatus::Disconnected => false,
        }
    }

    /// Records that a handler of `kind` was registered with the client.
    pub fn register(&mut self, kind: CallbackKind)
        requires
            link_wf(old(self)@),
        ensures
            final(self)@ == spec_register(old(self)@, kind),
            link_wf(final(self)@),
    {
        match kind {
            CallbackKind::Connected => self.on_connected = 1,
            CallbackKind::Disconnected => self.on_disconnected = 1,
        }
    }

    /// Starts a tick: takes in the event drained from the mailbox, if any, and
    /// says what the tick does.
    pub fn begin_tick(&mut self, event: Option<NtClientInput>) -> (r: TickAction)
        requires
            link_wf(old(self)@),
        ensures
            final(self)@ == spec_observe(old(self)@, event),
            r == spec_action(final(self)@),
            link_wf(final(self)@),
    {
        match event {
            Some(NtClientInput::ClientConnected(addr)) => {
                if self.on_connected > 0 {
                    self.status = LinkStatus::Connected(addr);
                }
            },
            Some(NtClientInput::ClientDisconnected(_)) => {
                if self.on_disconnected > 0 {
                    self.status = LinkStatus::Disconnected;
                }
            },
            None => {},
        }
        if self.is_connected() {
            TickAction::Publish
        } else {
            TickAction::Reconnect
        }
    }

    /// Ends a reconnect attempt. Returns whether the callbacks must be
    /// registered again, which is so exactly when the attempt succeeded.
    pub fn finish_reconnect(&mut self, ok: bool) -> (resubscribe: bool)
        requires
            link_wf(old(self)@),
            old(self)@.status is Disconnected,
        ensures
            final(self)@ == spec_finish_reconnect(old(self)@, ok),
            resubscribe == ok,
            link_wf(final(self)@),
    {
        if ok {
            self.status = LinkStatus::Connected(self.target.clone());
            self.on_connected = 0;
            self.on_disconnected = 0;
        }
        ok
    }
}

/// Registering a handler of a kind again replaces the earlier one: the count
/// of handlers stays at one however many reconnects re-register it.
pub proof fn lemma_register_idempotent(v: LinkView, kind: CallbackKind)
    requires
        link_wf(v),
    ensures
        spec_register(spec_register(v, kind), kind) == spec_register(v, kind),
        link_wf(spec_register(v, kind)),
{
}

/// After a disconnect and a successful reconnect that re-registers both
/// callbacks, a later disconnect is detected again and the next tick asks for
/// a reconnect.
pub proof fn lemma_disconnect_detected_after_reconnect(
    v: LinkView,
    lost: String,
    lost_again: String,
)
    requires
        link_wf(v),
        v.on_disconnected == 1,
    ensures
        ({
            let down = spec_observe(v, Some(NtClientInput::ClientDisconnected(lost)));
            let up = spec_finish_reconnect(down, true);
            let armed = spec_register(
                spec_register(up, CallbackKind::Connected),
                CallbackKind::Disconnected,
            );
            let down_again = spec_observe(
                armed,
                Some(NtClientInput::ClientDisconnected(lost_again)),
            );
            &&& down.status is Disconnected
            &&& spec_action(up) == TickAction::Publish
            &&& armed.on_connected == 1 && armed.on_disconnected == 1
            &&& down_again.status is Disconnected
            &&& spec_action(down_again) == TickAction::Reconnect
        }),
{
}

/// While the link is down, a tick publishes nothing unless a connected event
/// arrives: every other event, or none, leaves the tick reconnecting.
pub proof fn lemma_no_publish_while_disconnected(
    v: LinkView,
    event: Option<NtClientInput>,
)
    requires
        link_wf(v),
        v.status is Disconnected,
        !(event matches Some(NtClientInput::ClientConnected(_))),
    ensures
        spec_observe(v, event).status is Disconnected,
        spec_action(spec_observe(v, event)) == TickAction::Reconnect,
{
}

/// A failed reconnect leaves the link down, so the next tick tries again.
pub proof fn lemma_failed_reconnect_retries(v: LinkView)
    requires
        link_wf(v),
        v.status is Disconnected,
    ensures
        spec_finish_reconnect(v, false) == v,
        spec_action(spec_observe(spec_finish_reconnect(v, false), None)) == TickAction::Reconnect,
{
}

} // verus!
