//! The decisions of the listener: what to do when the bind or an accept has
//! succeeded or failed.
//!
//! A failed bind is fatal: the process cannot start. A failed accept is not:
//! it is logged, that one attempt is skipped, and the loop goes on. What
//! happens on a connection after it was accepted is no event here at all, so
//! no connection can stop the listener.

use vstd::prelude::*;

verus! {

/// The address that the listener binds.
pub const LISTEN_ADDRESS: &'static str = "0.0.0.0:8000";

/// The state of the listener.
#[derive(Debug, Clone, Copy, PartialEq, Eq, Structural)]
pub enum Listener {
    /// The bind is under way.
    Binding,
    /// The socket is bound and an accept is under way.
    Accepting,
    /// The listener has given up. Terminal.
    Stopped,
}

/// The outcome of the bind or of an accept.
#[derive(Debug, Clone, Copy, PartialEq, Eq, Structural)]
pub enum ListenerEvent {
    /// The socket is bound.
    Bound,
    /// The bind failed.
    BindFailed,
    /// A connection was accepted.
    Accepted,
    /// The accept failed.
    AcceptFailed,
}

/// What the driver of the listener is to do next.
#[derive(Debug, Clone, Copy, PartialEq, Eq, Structural)]
pub enum ListenerAction {
    /// Accept a connection.
    Accept,
    /// Hand the accepted connection to a new unit of work of its own, then
    /// accept again.
    Serve,
    /// Log the failed accept, then accept again.
    Skip,
    /// Report the failure and end the process.
    Exit,
    /// The listener has stopped already; there is nothing left to do.
    Nothing,
}

/// The state that follows `state` on `event`, and the action to take.
pub open spec fn listener_next(state: Listener, event: ListenerEvent) -> (Listener, ListenerAction) {
    match (state, event) {
        (Listener::Stopped, _) => (Listener::Stopped, ListenerAction::Nothing),
        (Listener::Binding, ListenerEvent::Bound) => (Listener::Accepting, ListenerAction::Accept),
        (Listener::Accepting, ListenerEvent::Accepted) => (
            Listener::Accepting,
            ListenerAction::Serve,
        ),
        (Listener::Accepting, ListenerEvent::AcceptFailed) => (
            Listener::Accepting,
            ListenerAction::Skip,
        ),
        _ => (Listener::Stopped, ListenerAction::Exit),
    }
}

impl Listener {
    /// The state of a listener that is about to bind its address.
    pub fn new() -> (listener: Listener)
        ensures
            listener == Listener::Binding,
    {
        Listener::Binding
    }

    /// Takes one step: from this state and the outcome of the bind or accept
    /// to the next state and the next action.
    pub fn step(self, event: ListenerEvent) -> (out: (Listener, ListenerAction))
        ensures
            out == listener_next(self, event),
            event == ListenerEvent::BindFailed && self != Listener::Stopped ==> out
                == (Listener::Stopped, ListenerAction::Exit),
            self == Listener::Accepting && (event == ListenerEvent::Accepted || event
                == ListenerEvent::AcceptFailed) ==> out.0 == Listener::Accepting,
    {
        match (self, event) {
            (Listener::Stopped, _) => (Listener::Stopped, ListenerAction::Nothing),
            (Listener::Binding, ListenerEvent::Bound) => (
                Listener::Accepting,
                ListenerAction::Accept,
            ),
            (Listener::Accepting, ListenerEvent::Accepted) => (
                Listener::Accepting,
                ListenerAction::Serve,
            ),
            (Listener::Accepting, ListenerEvent::AcceptFailed) => (
                Listener::Accepting,
                ListenerAction::Skip,
            ),
            _ => (Listener::Stopped, ListenerAction::Exit),
        }
    }
}

/// Once the socket is bound, no outcome of an accept stops the listener:
/// it accepts again after a connection and after a failed accept alike.
pub proof fn lemma_accept_loop_goes_on(event: ListenerEvent)
    requires
        event == ListenerEvent::Accepted || event == ListenerEvent::AcceptFailed,
    ensures
        listener_next(Listener::Accepting, event).0 == Listener::Accepting,
        listener_next(Listener::Accepting, event).1 == ListenerAction::Serve
            || listener_next(Listener::Accepting, event).1 == ListenerAction::Skip,
        listener_next(Listener::Accepting, event).1 == ListenerAction::Serve <==> event
            == ListenerEvent::Accepted,
{
}

/// A failed bind ends the process before any connection is accepted.
pub proof fn lemma_bind_failure_is_fatal()
    ensures
        listener_next(Listener::Binding, ListenerEvent::BindFailed) == (
            Listener::Stopped,
            ListenerAction::Exit,
        ),
{
}

} // verus!
