//! The receiving side's view of the hub: how one incoming envelope updates
//! a client's message history, presence list, and display name.

use crate::wire::{ChatMessage, WebSocketMessage};
use vstd::prelude::*;

verus! {

/// What a connected client accumulates from the envelopes it receives.
pub struct ClientState {
    /// Every chat message received, in arrival order.
    pub messages: Vec<ChatMessage>,
    /// The latest presence snapshot; each `UsersList` replaces it whole.
    pub users: Vec<Vec<u8>>,
    /// The client's display name, set by the latest `UsernameChange`.
    pub username: Vec<u8>,
}

impl ClientState {
    /// A fresh client: no messages, no presence, empty name.
    pub fn new() -> (r: Self)
        ensures
            r.messages@ == Seq::<ChatMessage>::empty(),
            r.users@ == Seq::<Vec<u8>>::empty(),
            r.username@ == Seq::<u8>::empty(),
    {
        ClientState { messages: Vec::new(), users: Vec::new(), username: Vec::new() }
    }

    /// Applies one received envelope: a `NewMessage` is appended to the
    /// history, a `UsersList` replaces the presence snapshot whole, and a
    /// `UsernameChange` replaces the display name. Nothing else changes.
    pub fn apply(&mut self, m: WebSocketMessage)
        ensures
            match m {
                WebSocketMessage::NewMessage(cm) => {
                    &&& final(self).messages@ == old(self).messages@.push(cm)
                    &&& final(self).users == old(self).users
                    &&& final(self).username == old(self).username
                },
                WebSocketMessage::UsersList(users) => {
                    &&& final(self).messages == old(self).messages
                    &&& final(self).users == users
                    &&& final(self).username == old(self).username
                },
                WebSocketMessage::UsernameChange(name) => {
                    &&& final(self).messages == old(self).messages
                    &&& final(self).users == old(self).users
                    &&& final(self).username == name
                },
            },
    {
        match m {
            WebSocketMessage::NewMessage(cm) => {
                self.messages.push(cm);
            },
            WebSocketMessage::UsersList(users) => {
                self.users = users;
            },
            WebSocketMessage::UsernameChange(name) => {
                self.username = name;
            },
        }
    }
}

} // verus!
