//! The optional voice bridge: one lazily created handle per server.
//!
//! A handle carries what an op-4 producer needs — the server, the
//! connected user — while the frames themselves travel through the
//! shared keepalive channel. Nothing else in the session logic depends
//! on this module.

use vstd::prelude::*;
use crate::model::ServerId;

verus! {

/// Voice routing state for one server.
pub struct VoiceConnection {
    pub server_id: ServerId,
    pub user_id: String,
}

impl VoiceConnection {
    /// A fresh handle for this server and user.
    pub fn __new(server_id: ServerId, user_id: String) -> (v: VoiceConnection)
        ensures
            v.server_id == server_id,
            v.user_id == user_id,
    {
        VoiceConnection { server_id, user_id }
    }
}

/// The per-connection table of voice handles.
pub struct VoiceBridge {
    pub user_id: String,
    pub handles: Vec<VoiceConnection>,
}

impl VoiceBridge {
    /// No two handles share a server, and each carries the bridge's user.
    pub open spec fn wf(self) -> bool {
        &&& forall|i: int, j: int|
            0 <= i < j < self.handles@.len() ==> #[trigger] self.handles@[i].server_id
                != #[trigger] self.handles@[j].server_id
        &&& forall|i: int|
            0 <= i < self.handles@.len() ==> (#[trigger] self.handles@[i]).user_id == self.user_id
    }

    /// True while a handle for this server exists.
    pub open spec fn has_handle(self, server_id: ServerId) -> bool {
        exists|i: int|
            0 <= i < self.handles@.len() && (#[trigger] self.handles@[i]).server_id == server_id
    }

    /// An empty bridge for the connected user.
    pub fn new(user_id: String) -> (b: VoiceBridge)
        ensures
            b.wf(),
            b.user_id == user_id,
            b.handles@.len() == 0,
    {
        VoiceBridge { user_id, handles: Vec::new() }
    }

    /// The handle for a server, created on first use: returns its
    /// position in the table. An existing table entry is never touched.
    pub fn voice(&mut self, server_id: ServerId) -> (idx: usize)
        requires
            old(self).wf(),
        ensures
            final(self).wf(),
            final(self).user_id == old(self).user_id,
            idx < final(self).handles@.len(),
            final(self).handles@[idx as int].server_id == server_id,
            final(self).handles@[idx as int].user_id == old(self).user_id,
            old(self).has_handle(server_id) ==> *final(self) == *old(self),
            !old(self).has_handle(server_id) ==> final(self).handles@ == old(self).handles@.push(
                VoiceConnection { server_id, user_id: old(self).user_id },
            ),
    {
        let n = self.handles.len();
        let mut i: usize = 0;
        while i < n
            invariant
                i <= n,
                n == self.handles@.len(),
                *self == *old(self),
                old(self).wf(),
                forall|k: int|
                    0 <= k < i ==> (#[trigger] self.handles@[k]).server_id != server_id,
            decreases n - i,
        {
            if self.handles[i].server_id == server_id {
                proof {
                    assert(*self == *old(self));
                    assert((old(self).handles@[i as int]).user_id == old(self).user_id);
                    assert(old(self).has_handle(server_id));
                }
                return i;
            }
            i = i + 1;
        }
        let fresh = VoiceConnection::__new(server_id, self.user_id.clone());
        self.handles.push(fresh);
        proof {
            assert(!old(self).has_handle(server_id));
            assert(final(self).handles@[n as int].server_id == server_id);
        }
        n
    }

    /// Forget the handle for a server, if one exists; every other handle
    /// stays where it was, shifted down past the removed slot.
    pub fn drop_voice(&mut self, server_id: ServerId)
        requires
            old(self).wf(),
        ensures
            final(self).wf(),
            final(self).user_id == old(self).user_id,
            !final(self).has_handle(server_id),
            !old(self).has_handle(server_id) ==> *final(self) == *old(self),
            old(self).has_handle(server_id) ==> exists|i: int|
                0 <= i < old(self).handles@.len() && (#[trigger] old(self).handles@[i]).server_id
                    == server_id && final(self).handles@ == old(self).handles@.remove(i),
    {
        let n = self.handles.len();
        let mut i: usize = 0;
        while i < n
            invariant
                i <= n,
                n == self.handles@.len(),
                *self == *old(self),
                old(self).wf(),
                forall|k: int|
                    0 <= k < i ==> (#[trigger] self.handles@[k]).server_id != server_id,
            decreases n - i,
        {
            if self.handles[i].server_id == server_id {
                self.handles.remove(i);
                proof {
                    let pre = old(self).handles@;
                    assert(final(self).handles@ =~= pre.remove(i as int));
                    let post = final(self).handles@;
                    assert forall|k: int|
                        0 <= k < post.len() implies (#[trigger] post[k]).server_id != server_id by {
                        if k < i {
                            assert(post[k] == pre[k]);
                        } else {
                            assert(post[k] == pre[k + 1]);
                        }
                    }
                }
                return ;
            }
            i = i + 1;
        }
    }
}

} // verus!
