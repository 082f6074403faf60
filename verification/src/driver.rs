//! The per-connection session lifecycle, as a state machine from inbound
//! events to registry actions.
//!
//! The I/O loop outside this crate performs the handshake, awaits inbound
//! frames, and carries out the returned actions (register, broadcast,
//! deregister) against the registry and the transport; every decision is
//! taken here, so the lifecycle policy is verified.

use vstd::prelude::*;

verus! {

/// The lifecycle states of one connection.
#[derive(Clone, Copy, PartialEq, Eq, Structural, Debug)]
pub enum SessionState {
    /// Handshake still in progress; no identity drawn yet.
    Connecting,
    /// An identity is drawn and registration has been requested.
    Registered { id: usize },
    /// Streaming inbound messages.
    Streaming { id: usize },
    /// Terminal: deregistered, the identity is never reused.
    Closed,
}

/// One observation the I/O loop hands to the state machine.
#[derive(Debug, PartialEq, Eq, Clone)]
pub enum SessionEvent {
    /// The handshake finished and the allocator issued `id`.
    HandshakeComplete { id: usize },
    /// One inbound text frame arrived.
    Inbound { text: Vec<u8> },
    /// The inbound stream ended or errored.
    StreamEnded,
}

/// One action the I/O loop must carry out against the registry or the
/// transport.
#[derive(Debug, PartialEq, Eq, Clone)]
pub enum SessionAction {
    /// Insert this session into the registry.
    Register { id: usize },
    /// Broadcast a fresh presence snapshot to every registered session.
    BroadcastPresence,
    /// Broadcast one chat message to every registered session.
    Broadcast { text: Vec<u8>, author_id: usize },
    /// Remove this session from the registry.
    Deregister { id: usize },
}

/// The transition function of the lifecycle state machine.
///
/// A finished handshake registers the session and, when presence-awareness
/// is enabled, announces the new presence snapshot. Each inbound frame is
/// interpreted as one chat message from this session. Only the end (or
/// failure) of the session's own inbound stream closes it: a failed send to
/// this session during someone else's broadcast never appears here, so it
/// never deregisters the session. `Closed` is terminal.
pub open spec fn spec_step(s: SessionState, e: SessionEvent, presence_enabled: bool) -> (
    SessionState,
    Seq<SessionAction>,
) {
    match (s, e) {
        (SessionState::Connecting, SessionEvent::HandshakeComplete { id }) => (
            SessionState::Registered { id },
            if presence_enabled {
                seq![SessionAction::Register { id }, SessionAction::BroadcastPresence]
            } else {
                seq![SessionAction::Register { id }]
            },
        ),
        (SessionState::Connecting, SessionEvent::Inbound { text }) => (
            SessionState::Connecting,
            Seq::empty(),
        ),
        (SessionState::Connecting, SessionEvent::StreamEnded) => (
            SessionState::Closed,
            Seq::empty(),
        ),
        (SessionState::Registered { id }, SessionEvent::Inbound { text }) => (
            SessionState::Streaming { id },
            seq![SessionAction::Broadcast { text, author_id: id }],
        ),
        (SessionState::Streaming { id }, SessionEvent::Inbound { text }) => (
            SessionState::Streaming { id },
            seq![SessionAction::Broadcast { text, author_id: id }],
        ),
        (SessionState::Registered { id }, SessionEvent::StreamEnded) => (
            SessionState::Closed,
            if presence_enabled {
                seq![SessionAction::Deregister { id }, SessionAction::BroadcastPresence]
            } else {
                seq![SessionAction::Deregister { id }]
            },
        ),
        (SessionState::Streaming { id }, SessionEvent::StreamEnded) => (
            SessionState::Closed,
            if presence_enabled {
                seq![SessionAction::Deregister { id }, SessionAction::BroadcastPresence]
            } else {
                seq![SessionAction::Deregister { id }]
            },
        ),
        (SessionState::Registered { id }, SessionEvent::HandshakeComplete { .. }) => (
            SessionState::Registered { id },
            Seq::empty(),
        ),
        (SessionState::Streaming { id }, SessionEvent::HandshakeComplete { .. }) => (
            SessionState::Streaming { id },
            Seq::empty(),
        ),
        (SessionState::Closed, _) => (SessionState::Closed, Seq::empty()),
    }
}

/// Takes one lifecycle step: returns the next state and the actions the
/// I/O loop must carry out, exactly as `spec_step` prescribes.
pub fn step(s: SessionState, e: SessionEvent, presence_enabled: bool) -> (r: (
    SessionState,
    Vec<SessionAction>,
))
    ensures
        r.0 == spec_step(s, e, presence_enabled).0,
        r.1@ == spec_step(s, e, presence_enabled).1,
{
    let mut actions: Vec<SessionAction> = Vec::new();
    let next = match (s, e) {
        (SessionState::Connecting, SessionEvent::HandshakeComplete { id }) => {
            actions.push(SessionAction::Register { id });
            if presence_enabled {
                actions.push(SessionAction::BroadcastPresence);
            }
            SessionState::Registered { id }
        },
        (SessionState::Connecting, SessionEvent::Inbound { text: _ }) => SessionState::Connecting,
        (SessionState::Connecting, SessionEvent::StreamEnded) => SessionState::Closed,
        (SessionState::Registered { id }, SessionEvent::Inbound { text }) => {
            actions.push(SessionAction::Broadcast { text, author_id: id });
            SessionState::Streaming { id }
        },
        (SessionState::Streaming { id }, SessionEvent::Inbound { text }) => {
            actions.push(SessionAction::Broadcast { text, author_id: id });
            SessionState::Streaming { id }
        },
        (SessionState::Registered { id }, SessionEvent::StreamEnded) => {
            actions.push(SessionAction::Deregister { id });
            if presence_enabled {
                actions.push(SessionAction::BroadcastPresence);
            }
            SessionState::Closed
        },
        (SessionState::Streaming { id }, SessionEvent::StreamEnded) => {
            actions.push(SessionAction::Deregister { id });
            if presence_enabled {
                actions.push(SessionAction::BroadcastPresence);
            }
            SessionState::Closed
        },
        (SessionState::Registered { id }, SessionEvent::HandshakeComplete { .. }) => {
            SessionState::Registered { id }
        },
        (SessionState::Streaming { id }, SessionEvent::HandshakeComplete { .. }) => {
            SessionState::Streaming { id }
        },
        (SessionState::Closed, _) => SessionState::Closed,
    };
    proof {
        assert(actions@ =~= spec_step(s, e, presence_enabled).1);
    }
    (next, actions)
}

} // verus!
