//! The connection registry and broadcast engine: tracks which sessions are
//! live, keyed by identity, and computes the payload and the exact recipient
//! set of every broadcast.
//!
//! Delivery itself is I/O and happens outside this crate: a broadcast here
//! returns the encoded payload together with the identities of every
//! registered session, and the caller attempts one send per identity.
//! Because the payload and recipients are computed in one call, a broadcast
//! sees the registry's membership of that instant, never a partial state.

use crate::clock::Timestamp;
use crate::textenc::{push_dec, push_slice, spec_dec};
use crate::wire::{
    encode_ws_message, spec_new_message_json, spec_users_list_json, ChatMessage, WebSocketMessage,
};
use vstd::prelude::*;
use vstd::string::StringSliceAdditionalSpecFns;

verus! {

/// The display label for a session identity: `User #<id>`.
pub open spec fn spec_label(id: nat) -> Seq<u8> {
    "User #".spec_bytes() + spec_dec(id)
}

/// The display labels of a whole identity sequence, in the same order.
pub open spec fn spec_labels(ids: Seq<usize>) -> Seq<Seq<u8>> {
    ids.map_values(|id: usize| spec_label(id as nat))
}

/// Strictly increasing: sorted with no duplicates.
pub open spec fn sorted_strict(s: Seq<usize>) -> bool {
    forall|i: int, j: int| 0 <= i < j < s.len() ==> s[i] < s[j]
}

/// Builds the display label for one session identity.
pub fn label_for(id: usize) -> (r: Vec<u8>)
    ensures
        r@ == spec_label(id as nat),
{
    let mut out: Vec<u8> = Vec::new();
    push_slice(&mut out, "User #".as_bytes());
    push_dec(&mut out, id);
    proof {
        assert(out@ =~= spec_label(id as nat));
    }
    out
}

/// The connection registry and broadcast engine.
///
/// Holds the identities of every registered session, in increasing order.
/// Each session's outbound capability is owned by the caller's I/O layer,
/// keyed by the same identity; this registry is the single authority on
/// which sessions a broadcast reaches.
pub struct ChatRoom {
    connections: Vec<usize>,
}

impl ChatRoom {
    /// The registered identities, in increasing order.
    pub closed spec fn ids(&self) -> Seq<usize> {
        self.connections@
    }

    /// The registry is well-formed: identities strictly increase, so each
    /// is registered at most once. Holds of every `ChatRoom` at all times.
    #[verifier::type_invariant]
    pub open spec fn wf(&self) -> bool {
        sorted_strict(self.ids())
    }

    /// An empty registry.
    pub fn new() -> (r: Self)
        ensures
            r.ids() == Seq::<usize>::empty(),
    {
        ChatRoom { connections: Vec::new() }
    }

    /// How many sessions are registered.
    pub fn len(&self) -> (r: usize)
        ensures
            r == self.ids().len(),
    {
        self.connections.len()
    }

    /// Whether this identity is currently registered.
    pub fn contains(&self, id: usize) -> (r: bool)
        ensures
            r == self.ids().contains(id),
    {
        let n = self.connections.len();
        let mut i: usize = 0;
        while i < n
            invariant
                n == self.ids().len(),
                i <= n,
                forall|k: int| 0 <= k < i ==> self.ids()[k] != id,
            decreases n - i,
        {
            if self.connections[i] == id {
                return true;
            }
            i = i + 1;
        }
        proof {
            if self.ids().contains(id) {
                let k = choose|k: int| 0 <= k < self.ids().len() && self.ids()[k] == id;
            }
        }
        false
    }

    /// Registers a session identity.
    ///
    /// The identity must be fresh: the allocator guarantees this under
    /// correct use, and a second registration of a live identity is an
    /// invariant violation, not a recoverable error.
    pub fn add(&mut self, id: usize)
        requires
            !old(self).ids().contains(id),
        ensures
            final(self).ids().len() == old(self).ids().len() + 1,
            forall|x: usize|
                final(self).ids().contains(x) <==> (old(self).ids().contains(x) || x == id),
    {
        proof {
            use_type_invariant(&*self);
        }
        let mut conns: Vec<usize> = Vec::new();
        core::mem::swap(&mut conns, &mut self.connections);
        let ghost pre = conns@;
        let n = conns.len();
        let mut i: usize = 0;
        while i < n && conns[i] < id
            invariant
                n == conns@.len(),
                conns@ == pre,
                i <= n,
                forall|k: int| 0 <= k < i ==> pre[k] < id,
            decreases n - i,
        {
            i = i + 1;
        }
        proof {
            assert(pre == old(self).ids());
            assert(sorted_strict(pre));
            if i < n {
                assert(pre[i as int] != id) by {
                    if pre[i as int] == id {
                        assert(pre.contains(id));
                    }
                }
                assert(id < pre[i as int]);
            }
        }
        conns.insert(i, id);
        proof {
            let post = conns@;
            pre.insert_ensures(i as int, id);
            assert(forall|k: int| 0 <= k < i ==> post[k] == pre[k]);
            assert(post[i as int] == id);
            assert(forall|k: int| i < k < post.len() ==> post[k] == pre[k - 1]);
            assert forall|p: int, q: int| 0 <= p < q < post.len() implies post[p] < post[q] by {
                if q < i {
                    assert(post[p] == pre[p] && post[q] == pre[q]);
                } else if q == i {
                    assert(post[p] == pre[p] && pre[p] < id);
                } else if p < i {
                    assert(post[p] == pre[p] && post[q] == pre[q - 1]);
                    assert(pre[p] < id);
                    assert(q - 1 >= i);
                    assert(id < pre[i as int]);
                    assert(pre[i as int] <= pre[q - 1]);
                } else if p == i {
                    assert(post[q] == pre[q - 1]);
                    assert(id < pre[i as int]);
                    assert(pre[i as int] <= pre[q - 1]);
                } else {
                    assert(post[p] == pre[p - 1] && post[q] == pre[q - 1]);
                }
            }
            assert forall|x: usize| post.contains(x) implies (pre.contains(x) || x == id) by {
                let k = choose|k: int| 0 <= k < post.len() && post[k] == x;
                if k < i {
                    assert(pre[k] == x);
                    assert(pre.contains(x));
                } else if k > i {
                    assert(pre[k - 1] == x);
                    assert(pre.contains(x));
                }
            }
            assert forall|x: usize| pre.contains(x) implies post.contains(x) by {
                let k = choose|k: int| 0 <= k < pre.len() && pre[k] == x;
                if k < i {
                    assert(post[k] == x);
                } else {
                    assert(post[k + 1] == x);
                }
            }
            assert(post.contains(id)) by {
                assert(post[i as int] == id);
            }
            assert(sorted_strict(post));
        }
        core::mem::swap(&mut conns, &mut self.connections);
    }

    /// Deregisters a session identity: removes it if present, and is a
    /// no-op if absent, so racing failure paths may deregister twice.
    pub fn remove(&mut self, id: usize)
        ensures
            forall|x: usize|
                final(self).ids().contains(x) <==> (old(self).ids().contains(x) && x != id),
            old(self).ids().contains(id) ==> final(self).ids().len() == old(self).ids().len() - 1,
            !old(self).ids().contains(id) ==> final(self).ids() == old(self).ids(),
    {
        proof {
            use_type_invariant(&*self);
        }
        let mut conns: Vec<usize> = Vec::new();
        core::mem::swap(&mut conns, &mut self.connections);
        let ghost pre = conns@;
        let n = conns.len();
        let mut i: usize = 0;
        while i < n && conns[i] != id
            invariant
                n == conns@.len(),
                conns@ == pre,
                i <= n,
                forall|k: int| 0 <= k < i ==> pre[k] != id,
            decreases n - i,
        {
            i = i + 1;
        }
        proof {
            assert(pre == old(self).ids());
            assert(sorted_strict(pre));
        }
        if i < n {
            conns.remove(i);
            proof {
                let post = conns@;
                assert(pre[i as int] == id);
                pre.remove_ensures(i as int);
                assert(forall|k: int| 0 <= k < i ==> post[k] == pre[k]);
                assert(forall|k: int| i <= k < post.len() ==> post[k] == pre[k + 1]);
                assert forall|x: usize| post.contains(x) implies (pre.contains(x) && x != id) by {
                    let k = choose|k: int| 0 <= k < post.len() && post[k] == x;
                    if k < i {
                        assert(pre[k] == x);
                    } else {
                        assert(pre[k + 1] == x);
                    }
                    assert(pre.contains(x));
                    assert(x != id) by {
                        if k < i {
                            assert(pre[k] < pre[i as int]);
                        } else {
                            assert(pre[i as int] < pre[k + 1]);
                        }
                    }
                }
                assert forall|x: usize| pre.contains(x) && x != id implies post.contains(x) by {
                    let k = choose|k: int| 0 <= k < pre.len() && pre[k] == x;
                    if k < i {
                        assert(post[k] == x);
                    } else {
                        assert(k != i);
                        assert(post[k - 1] == x);
                    }
                }
                assert(sorted_strict(post));
            }
        } else {
            proof {
                assert forall|x: usize| pre.contains(x) implies x != id by {
                    let k = choose|k: int| 0 <= k < pre.len() && pre[k] == x;
                }
            }
        }
        core::mem::swap(&mut conns, &mut self.connections);
    }

    /// A display label for every registered session, in increasing identity
    /// order: the deterministic presence snapshot.
    pub fn snapshot_labels(&self) -> (r: Vec<Vec<u8>>)
        ensures
            r.deep_view() == spec_labels(self.ids()),
    {
        let n = self.connections.len();
        let mut out: Vec<Vec<u8>> = Vec::new();
        let mut i: usize = 0;
        while i < n
            invariant
                n == self.ids().len(),
                i <= n,
                out@.len() == i,
                forall|k: int| 0 <= k < i ==> #[trigger] out@[k]@ == spec_label(
                    self.ids()[k] as nat,
                ),
            decreases n - i,
        {
            let id = self.connections[i];
            let lbl = label_for(id);
            out.push(lbl);
            i = i + 1;
        }
        proof {
            let dv = out.deep_view();
            let target = spec_labels(self.ids());
            assert forall|k: int| 0 <= k < dv.len() implies dv[k] == target[k] by {
                assert(dv[k] == out@[k].deep_view());
                assert(out@[k].deep_view() =~= out@[k]@);
                assert(target[k] == spec_label(self.ids()[k] as nat));
            }
            assert(dv =~= target);
        }
        out
    }

    /// The identities of every registered session, in increasing order:
    /// the recipient set of a broadcast issued now.
    fn recipient_ids(&self) -> (r: Vec<usize>)
        ensures
            r@ == self.ids(),
    {
        let n = self.connections.len();
        let mut out: Vec<usize> = Vec::new();
        let mut i: usize = 0;
        while i < n
            invariant
                n == self.ids().len(),
                i <= n,
                out@ =~= self.ids().take(i as int),
            decreases n - i,
        {
            out.push(self.connections[i]);
            proof {
                assert(out@ =~= self.ids().take(i + 1));
            }
            i = i + 1;
        }
        proof {
            assert(self.ids().take(n as int) =~= self.ids());
        }
        out
    }

    /// Computes one chat-message broadcast with an explicit creation time:
    /// the `NewMessage` payload exactly as it goes on the wire, and the
    /// identities of every session registered at this instant — the sender
    /// included, so the sender sees its own message echoed by the hub.
    pub fn broadcast_message_at(&self, text: Vec<u8>, author_id: usize, created_at: Timestamp) -> (r:
        (Vec<u8>, Vec<usize>))
        requires
            created_at.wf(),
        ensures
            r.0@ == spec_new_message_json(text@, spec_label(author_id as nat), created_at),
            r.1@ == self.ids(),
    {
        let author = label_for(author_id);
        let msg = WebSocketMessage::NewMessage(ChatMessage { message: text, author, created_at });
        let payload = encode_ws_message(&msg);
        let recipients = self.recipient_ids();
        (payload, recipients)
    }

    /// Computes one chat-message broadcast stamped with the current time.
    ///
    /// The payload is the `NewMessage` encoding of the text and the
    /// author's label for some well-formed timestamp (the clock's reading);
    /// the recipients are exactly the registry's membership at this instant.
    pub fn broadcast_message(&self, text: Vec<u8>, author_id: usize) -> (r: (Vec<u8>, Vec<usize>))
        ensures
            exists|ts: Timestamp|
                ts.wf() && r.0@ == spec_new_message_json(
                    text@,
                    spec_label(author_id as nat),
                    ts,
                ),
            r.1@ == self.ids(),
    {
        let created_at = Timestamp::now();
        self.broadcast_message_at(text, author_id, created_at)
    }

    /// Computes one presence broadcast: the `UsersList` payload holding the
    /// label of every registered session, and the identities of every
    /// session registered at this instant.
    pub fn broadcast_user_list(&self) -> (r: (Vec<u8>, Vec<usize>))
        ensures
            r.0@ == spec_users_list_json(spec_labels(self.ids())),
            r.1@ == self.ids(),
    {
        let users = self.snapshot_labels();
        let msg = WebSocketMessage::UsersList(users);
        let payload = encode_ws_message(&msg);
        let recipients = self.recipient_ids();
        (payload, recipients)
    }
}

/// In a strictly increasing sequence, membership in the tail is membership
/// in the whole minus the head.
proof fn lemma_tail_membership(a: Seq<usize>, x: usize)
    requires
        sorted_strict(a),
        a.len() > 0,
    ensures
        a.subrange(1, a.len() as int).contains(x) <==> (a.contains(x) && x != a[0]),
{
    let a1 = a.subrange(1, a.len() as int);
    if a1.contains(x) {
        let k = choose|k: int| 0 <= k < a1.len() && a1[k] == x;
        assert(a[k + 1] == x);
        assert(a[0] < a[k + 1]);
        assert(a.contains(x));
    }
    if a.contains(x) && x != a[0] {
        let k = choose|k: int| 0 <= k < a.len() && a[k] == x;
        assert(k != 0);
        assert(a1[k - 1] == x);
        assert(a1.contains(x));
    }
}

/// A well-formed registry state is determined by its membership: two
/// strictly increasing identity sequences that contain the same identities
/// are the same sequence.
pub proof fn lemma_sorted_unique_ext(a: Seq<usize>, b: Seq<usize>)
    requires
        sorted_strict(a),
        sorted_strict(b),
        forall|x: usize| a.contains(x) <==> b.contains(x),
    ensures
        a =~= b,
    decreases a.len(),
{
    if a.len() == 0 {
        if b.len() > 0 {
            assert(b.contains(b[0]));
            assert(a.contains(b[0]));
        }
    } else {
        assert(a.contains(a[0]));
        assert(b.contains(a[0]));
        assert(b.len() > 0);
        assert(b.contains(b[0]));
        assert(a.contains(b[0]));
        let i = choose|i: int| 0 <= i < b.len() && b[i] == a[0];
        let j = choose|j: int| 0 <= j < a.len() && a[j] == b[0];
        assert(i == 0 || b[0] < b[i]);
        assert(j == 0 || a[0] < a[j]);
        assert(a[0] == b[0]);
        let a1 = a.subrange(1, a.len() as int);
        let b1 = b.subrange(1, b.len() as int);
        assert(sorted_strict(a1));
        assert(sorted_strict(b1));
        assert forall|x: usize| a1.contains(x) <==> b1.contains(x) by {
            lemma_tail_membership(a, x);
            lemma_tail_membership(b, x);
        }
        lemma_sorted_unique_ext(a1, b1);
        assert forall|k: int| 0 <= k < a.len() implies a[k] == b[k] by {
            if k > 0 {
                assert(a1[k - 1] == b1[k - 1]);
            }
        }
    }
}

/// Idempotent deregistration: deregistering the same identity twice leaves
/// the registry exactly as the first deregistration left it. `r0`, `r1`,
/// `r2` are the registry's identities before, after the first, and after
/// the second deregistration of `id`, each step related as
/// [`ChatRoom::remove`]'s contract states.
pub proof fn lemma_deregister_idempotent(r0: Seq<usize>, r1: Seq<usize>, r2: Seq<usize>, id: usize)
    requires
        sorted_strict(r1),
        sorted_strict(r2),
        forall|x: usize| r1.contains(x) <==> (r0.contains(x) && x != id),
        forall|x: usize| r2.contains(x) <==> (r1.contains(x) && x != id),
    ensures
        r2 =~= r1,
{
    assert forall|x: usize| r2.contains(x) <==> r1.contains(x) by {
        assert(r1.contains(x) ==> x != id);
    }
    lemma_sorted_unique_ext(r2, r1);
}

/// Broadcast visibility: a broadcast's recipients are exactly the
/// registry's membership at the instant it was computed. A session absent
/// at that instant — registered strictly after, or deregistered strictly
/// before — receives nothing; every session present, the sender included,
/// receives the payload.
pub proof fn lemma_broadcast_snapshot(room: ChatRoom, recipients: Seq<usize>, x: usize)
    requires
        recipients == room.ids(),
    ensures
        recipients.contains(x) <==> room.ids().contains(x),
{
}

/// Broadcast echo: the sender of a message is itself a registered session,
/// so it is among the recipients of its own broadcast, along with every
/// other registered session.
pub proof fn lemma_broadcast_echo(room: ChatRoom, recipients: Seq<usize>, author_id: usize)
    requires
        recipients == room.ids(),
        room.ids().contains(author_id),
    ensures
        recipients.contains(author_id),
        forall|x: usize| room.ids().contains(x) ==> recipients.contains(x),
{
}

} // verus!
