//! The event envelope broadcast to every session, and its wire encoding:
//! one JSON object per text frame, built and specified byte by byte.

use crate::clock::{push_timestamp, Timestamp};
use crate::textenc::{push_json_string, push_slice, spec_json_string};
use vstd::prelude::*;
use vstd::string::StringSliceAdditionalSpecFns;

verus! {

/// One chat message with its display metadata: the text, the author's
/// display label, and the creation time. Text is carried as UTF-8 bytes.
#[derive(Debug, PartialEq, Eq, Clone)]
pub struct ChatMessage {
    pub message: Vec<u8>,
    pub author: Vec<u8>,
    pub created_at: Timestamp,
}

impl ChatMessage {
    pub open spec fn wf(&self) -> bool {
        self.created_at.wf()
    }
}

/// The tagged payload broadcast over the wire: a chat message, a full
/// presence snapshot, or a cosmetic username change.
#[derive(Debug, PartialEq, Eq, Clone)]
pub enum WebSocketMessage {
    NewMessage(ChatMessage),
    UsersList(Vec<Vec<u8>>),
    UsernameChange(Vec<u8>),
}

impl WebSocketMessage {
    pub open spec fn wf(&self) -> bool {
        match self {
            WebSocketMessage::NewMessage(m) => m.wf(),
            WebSocketMessage::UsersList(_) => true,
            WebSocketMessage::UsernameChange(_) => true,
        }
    }
}

/// The JSON array items for a users list: each label as a JSON string,
/// separated by commas.
pub open spec fn spec_users_items(users: Seq<Seq<u8>>) -> Seq<u8>
    decreases users.len(),
{
    if users.len() == 0 {
        Seq::empty()
    } else if users.len() == 1 {
        spec_json_string(users[0])
    } else {
        spec_users_items(users.drop_last()) + seq![(',' as u8)] + spec_json_string(users.last())
    }
}

/// The JSON array holding every label of a users list.
pub open spec fn spec_users_array(users: Seq<Seq<u8>>) -> Seq<u8> {
    seq![('[' as u8)] + spec_users_items(users) + seq![(']' as u8)]
}

/// The JSON object for one chat message: text, author label, and creation
/// time as an ISO-8601-like string.
pub open spec fn spec_chat_message_json(message: Seq<u8>, author: Seq<u8>, created_at: Timestamp) -> Seq<u8> {
    "{\"message\":".spec_bytes() + spec_json_string(message) + ",\"author\":".spec_bytes()
        + spec_json_string(author) + ",\"created_at\":\"".spec_bytes() + created_at.spec_render()
        + "\"}".spec_bytes()
}

/// The wire encoding of a `NewMessage` envelope.
pub open spec fn spec_new_message_json(message: Seq<u8>, author: Seq<u8>, created_at: Timestamp) -> Seq<u8> {
    "{\"message_type\":\"NewMessage\",\"message\":".spec_bytes() + spec_chat_message_json(
        message,
        author,
        created_at,
    ) + ",\"users\":null,\"username\":null}".spec_bytes()
}

/// The wire encoding of a `UsersList` envelope.
pub open spec fn spec_users_list_json(users: Seq<Seq<u8>>) -> Seq<u8> {
    "{\"message_type\":\"UsersList\",\"message\":null,\"users\":".spec_bytes() + spec_users_array(
        users,
    ) + ",\"username\":null}".spec_bytes()
}

/// The wire encoding of a `UsernameChange` envelope.
pub open spec fn spec_username_change_json(name: Seq<u8>) -> Seq<u8> {
    "{\"message_type\":\"UsernameChange\",\"message\":null,\"users\":null,\"username\":".spec_bytes()
        + spec_json_string(name) + "}".spec_bytes()
}

/// The complete wire encoding of an envelope: a JSON object carrying the
/// tag and exactly one populated payload field; the other payload fields
/// are null.
pub open spec fn spec_ws_message_json(m: WebSocketMessage) -> Seq<u8> {
    match m {
        WebSocketMessage::NewMessage(cm) => spec_new_message_json(
            cm.message@,
            cm.author@,
            cm.created_at,
        ),
        WebSocketMessage::UsersList(users) => spec_users_list_json(users.deep_view()),
        WebSocketMessage::UsernameChange(name) => spec_username_change_json(name@),
    }
}

/// Appends the JSON array of user labels to `out`.
fn push_users_array(out: &mut Vec<u8>, users: &Vec<Vec<u8>>)
    ensures
        final(out)@ == old(out)@ + spec_users_array(users.deep_view()),
{
    out.push('[' as u8);
    let n = users.len();
    let mut i: usize = 0;
    while i < n
        invariant
            n == users@.len(),
            i <= n,
            out@ == old(out)@ + seq![('[' as u8)] + spec_users_items(
                users.deep_view().take(i as int),
            ),
        decreases n - i,
    {
        if i > 0 {
            out.push(',' as u8);
        }
        push_json_string(out, users[i].as_slice());
        proof {
            let dv = users.deep_view();
            assert(dv.take(i + 1).drop_last() =~= dv.take(i as int));
            assert(dv.take(i + 1).last() == dv[i as int]);
            assert(dv[i as int] == users@[i as int]@);
            assert(out@ =~= old(out)@ + seq![('[' as u8)] + spec_users_items(dv.take(i + 1)));
        }
        i = i + 1;
    }
    out.push(']' as u8);
    proof {
        assert(users.deep_view().take(n as int) =~= users.deep_view());
        assert(out@ =~= old(out)@ + spec_users_array(users.deep_view()));
    }
}

/// Appends the JSON object for one chat message to `out`.
fn push_chat_message(out: &mut Vec<u8>, m: &ChatMessage)
    requires
        m.wf(),
    ensures
        final(out)@ == old(out)@ + spec_chat_message_json(m.message@, m.author@, m.created_at),
{
    push_slice(out, "{\"message\":".as_bytes());
    push_json_string(out, m.message.as_slice());
    push_slice(out, ",\"author\":".as_bytes());
    push_json_string(out, m.author.as_slice());
    push_slice(out, ",\"created_at\":\"".as_bytes());
    push_timestamp(out, &m.created_at);
    push_slice(out, "\"}".as_bytes());
    proof {
        assert(out@ =~= old(out)@ + spec_chat_message_json(m.message@, m.author@, m.created_at));
    }
}

/// Encodes an envelope to its wire form, one JSON object as UTF-8 bytes.
pub fn encode_ws_message(m: &WebSocketMessage) -> (r: Vec<u8>)
    requires
        m.wf(),
    ensures
        r@ == spec_ws_message_json(*m),
{
    let mut out: Vec<u8> = Vec::new();
    match m {
        WebSocketMessage::NewMessage(cm) => {
            push_slice(&mut out, "{\"message_type\":\"NewMessage\",\"message\":".as_bytes());
            push_chat_message(&mut out, cm);
            push_slice(&mut out, ",\"users\":null,\"username\":null}".as_bytes());
        },
        WebSocketMessage::UsersList(users) => {
            push_slice(&mut out, "{\"message_type\":\"UsersList\",\"message\":null,\"users\":".as_bytes());
            push_users_array(&mut out, users);
            push_slice(&mut out, ",\"username\":null}".as_bytes());
        },
        WebSocketMessage::UsernameChange(name) => {
            push_slice(
                &mut out,
                "{\"message_type\":\"UsernameChange\",\"message\":null,\"users\":null,\"username\":".as_bytes(),
            );
            push_json_string(&mut out, name.as_slice());
            push_slice(&mut out, "}".as_bytes());
        },
    }
    proof {
        assert(out@ =~= spec_ws_message_json(*m));
    }
    out
}

} // verus!
