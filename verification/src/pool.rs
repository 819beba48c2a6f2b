//! The pool of middle-proxy writers and its dispatch rules.
//!
//! The pool owns the connection registry, the proxy tag and the proxy
//! secret, and one writer state per live peer.  Dispatch walks the
//! writers round-robin; a writer whose socket failed is evicted and the
//! next one is tried.  The caller owns the sockets and drives the loops;
//! which writer to use, what bytes to put on it, and when the pool is
//! empty are decided here.

use vstd::prelude::*;

use crate::addr::SockAddr;
use crate::consts::RPC_CLOSE_EXT;
use crate::errors::MeError;
use crate::le::{push_u32_le, push_u64_le, u32_le, u64_le};
use crate::proxy_req::{build_proxy_req_payload, proxy_req_payload, tl_string};
use crate::registry::ConnRegistry;
use crate::secret::{key_selector, key_selector_of};
use crate::writer::{sealed_bytes, sealed_iv_after, RpcWriter};

verus! {

/// The payload that closes a logical connection: `RPC_CLOSE_EXT` and the
/// connection id.
pub open spec fn close_payload(conn_id: u64) -> Seq<u8> {
    u32_le(RPC_CLOSE_EXT) + u64_le(conn_id)
}

/// Build the payload that closes a logical connection.
pub fn build_close_payload(conn_id: u64) -> (r: Vec<u8>)
    ensures
        r@ == close_payload(conn_id),
        r@.len() == 12,
{
    let mut p: Vec<u8> = Vec::new();
    push_u32_le(&mut p, RPC_CLOSE_EXT);
    push_u64_le(&mut p, conn_id);
    assert(p@ =~= close_payload(conn_id));
    p
}

/// The writer pool.
pub struct MePool {
    /// The registry of logical connections riding on this pool.
    pub registry: ConnRegistry,
    /// One writer state per live peer, in connection order.
    pub writers: Vec<RpcWriter>,
    /// The round-robin cursor.
    pub rr: u64,
    /// The advertising tag, where one is configured.
    pub proxy_tag: Option<Vec<u8>>,
    /// The proxy secret the handshake binds to.
    pub proxy_secret: Vec<u8>,
    /// How many connections the pool aims to hold.
    pub pool_size: usize,
}

impl MePool {
    /// The proxy tag as a plain value.
    pub open spec fn tag_view(self) -> Option<Seq<u8>> {
        match self.proxy_tag {
            Some(t) => Some(t@),
            None => None,
        }
    }

    /// The registry is well-formed, every writer is, and a configured tag
    /// is of a size the extras section can carry.
    pub open spec fn wf(self) -> bool {
        &&& self.registry.wf()
        &&& forall|i: int| 0 <= i < self.writers@.len() ==> self.writers@[i].wf()
        &&& (self.proxy_tag matches Some(t) ==> t@.len() <= 1024)
    }

    /// A pool with no writers yet.
    pub fn new(proxy_tag: Option<Vec<u8>>, proxy_secret: Vec<u8>) -> (r: MePool)
        requires
            proxy_tag matches Some(t) ==> t@.len() <= 1024,
        ensures
            r.wf(),
            r.writers@.len() == 0,
            r.rr == 0,
            r.proxy_tag == proxy_tag,
            r.proxy_secret@ == proxy_secret@,
            r.pool_size == 2,
            r.registry.next_id == 1,
    {
        MePool {
            registry: ConnRegistry::new(),
            writers: Vec::new(),
            rr: 0,
            proxy_tag,
            proxy_secret,
            pool_size: 2,
        }
    }

    /// The registry of logical connections.
    pub fn registry(&self) -> (r: &ConnRegistry)
        ensures
            r == &self.registry,
    {
        &self.registry
    }

    /// The key selector advertised in nonce packets: the first four bytes
    /// of the proxy secret, little-endian.
    pub fn key_selector(&self) -> (r: u32)
        ensures
            r == key_selector_of(self.proxy_secret@),
    {
        key_selector(&self.proxy_secret)
    }

    /// How many writers are live.
    pub fn connection_count(&self) -> (r: usize)
        ensures
            r == self.writers@.len(),
    {
        self.writers.len()
    }

    /// Put a freshly handshaken writer into the pool.
    pub fn add_writer(&mut self, w: RpcWriter)
        requires
            old(self).wf(),
            w.wf(),
            old(self).writers@.len() < usize::MAX,
        ensures
            final(self).wf(),
            final(self).writers@ == old(self).writers@.push(w),
            final(self).registry == old(self).registry,
            final(self).proxy_tag == old(self).proxy_tag,
            final(self).proxy_secret == old(self).proxy_secret,
    {
        self.writers.push(w);
    }

    /// Drop the writer at `idx` from the pool.
    pub fn evict_writer(&mut self, idx: usize)
        requires
            old(self).wf(),
            idx < old(self).writers@.len(),
        ensures
            final(self).wf(),
            final(self).writers@ == old(self).writers@.remove(idx as int),
            final(self).registry == old(self).registry,
            final(self).proxy_tag == old(self).proxy_tag,
            final(self).proxy_secret == old(self).proxy_secret,
    {
        self.writers.remove(idx);
    }

    /// Advance the round-robin cursor and pick a writer; nothing where
    /// the pool is empty.
    pub fn pick_writer(&mut self) -> (r: Option<usize>)
        requires
            old(self).wf(),
        ensures
            final(self).wf(),
            final(self).writers == old(self).writers,
            final(self).registry == old(self).registry,
            final(self).proxy_tag == old(self).proxy_tag,
            final(self).proxy_secret == old(self).proxy_secret,
            (r matches Some(_)) <==> old(self).writers@.len() > 0,
            r matches Some(i) ==> i == old(self).rr as int % old(self).writers@.len() as int,
    {
        let n = self.writers.len();
        let cursor = self.rr;
        if self.rr == u64::MAX {
            self.rr = 0;
        } else {
            self.rr = self.rr + 1;
        }
        if n == 0 {
            None
        } else {
            Some((cursor % (n as u64)) as usize)
        }
    }

    /// The pool has reached its configured size.
    pub fn init_target_met(&self, pool_size: usize) -> (r: bool)
        ensures
            r == (self.writers@.len() >= pool_size),
    {
        self.writers.len() >= pool_size
    }

    /// What pool initialisation concludes once the endpoint walk is over:
    /// an empty pool is the `PoolEmpty` error.
    pub fn init_result(&self) -> (r: Result<(), MeError>)
        ensures
            self.writers@.len() > 0 ==> r == Ok::<(), MeError>(()),
            self.writers@.len() == 0 ==> r == Err::<(), MeError>(MeError::PoolEmpty),
    {
        if self.writers.len() > 0 {
            Ok(())
        } else {
            Err(MeError::PoolEmpty)
        }
    }

    /// How many fresh connections the health monitor owes the pool.
    pub fn reconnects_needed(&self, min_connections: usize) -> (r: usize)
        ensures
            self.writers@.len() < min_connections ==> r == min_connections - self.writers@.len(),
            self.writers@.len() >= min_connections ==> r == 0,
    {
        let n = self.writers.len();
        if n < min_connections {
            min_connections - n
        } else {
            0
        }
    }

    /// Seal a proxy request on the writer at `idx`: the full encrypted
    /// block to write to that peer's socket.  Only that writer's IV and
    /// counter advance.
    pub fn seal_proxy_req(
        &mut self,
        idx: usize,
        conn_id: u64,
        client_addr: &SockAddr,
        our_addr: &SockAddr,
        data: &Vec<u8>,
        proto_flags: u32,
    ) -> (r: Vec<u8>)
        requires
            old(self).wf(),
            idx < old(self).writers@.len(),
            old(self).writers@[idx as int].seq_no < i32::MAX,
            data@.len() + 2048 <= 0x1000000,
        ensures
            final(self).wf(),
            final(self).registry == old(self).registry,
            final(self).proxy_tag == old(self).proxy_tag,
            final(self).proxy_secret == old(self).proxy_secret,
            final(self).writers@.len() == old(self).writers@.len(),
            forall|j: int|
                0 <= j < old(self).writers@.len() && j != idx ==> final(self).writers@[j] == old(
                    self,
                ).writers@[j],
            ({
                let w = old(self).writers@[idx as int];
                let payload = proxy_req_payload(
                    conn_id,
                    *client_addr,
                    *our_addr,
                    data@,
                    old(self).tag_view(),
                    proto_flags,
                );
                &&& r@ == sealed_bytes(w.key@, w.iv@, w.seq_no, payload)
                &&& final(self).writers@[idx as int].key@ == w.key@
                &&& final(self).writers@[idx as int].iv@ == sealed_iv_after(
                    w.key@,
                    w.iv@,
                    w.seq_no,
                    payload,
                )
                &&& final(self).writers@[idx as int].seq_no == w.seq_no + 1
            }),
    {
        let payload = build_proxy_req_payload(
            conn_id,
            client_addr,
            our_addr,
            data,
            match &self.proxy_tag {
                Some(t) => Some(t),
                None => None,
            },
            proto_flags,
        );
        proof {
            match old(self).tag_view() {
                Some(tv) => {
                    assert(tl_string(tv).len() <= tv.len() + 7);
                },
                None => {},
            }
            assert(payload@.len() + 12 <= 0x1000000);
        }
        let mut w = self.writers.remove(idx);
        let sealed = w.seal(&payload);
        self.writers.insert(idx, w);
        proof {
            assert(final(self).writers@ =~= old(self).writers@.update(
                idx as int,
                final(self).writers@[idx as int],
            ));
        }
        sealed
    }

    /// Seal the close of a logical connection on the writer at `idx`.
    pub fn seal_close(&mut self, idx: usize, conn_id: u64) -> (r: Vec<u8>)
        requires
            old(self).wf(),
            idx < old(self).writers@.len(),
            old(self).writers@[idx as int].seq_no < i32::MAX,
        ensures
            final(self).wf(),
            final(self).registry == old(self).registry,
            final(self).proxy_tag == old(self).proxy_tag,
            final(self).proxy_secret == old(self).proxy_secret,
            final(self).writers@.len() == old(self).writers@.len(),
            forall|j: int|
                0 <= j < old(self).writers@.len() && j != idx ==> final(self).writers@[j] == old(
                    self,
                ).writers@[j],
            ({
                let w = old(self).writers@[idx as int];
                &&& r@ == sealed_bytes(w.key@, w.iv@, w.seq_no, close_payload(conn_id))
                &&& final(self).writers@[idx as int].key@ == w.key@
                &&& final(self).writers@[idx as int].iv@ == sealed_iv_after(
                    w.key@,
                    w.iv@,
                    w.seq_no,
                    close_payload(conn_id),
                )
                &&& final(self).writers@[idx as int].seq_no == w.seq_no + 1
            }),
    {
        let payload = build_close_payload(conn_id);
        let mut w = self.writers.remove(idx);
        let sealed = w.seal(&payload);
        self.writers.insert(idx, w);
        sealed
    }

    /// Unregister a logical connection after its close was sent (or when
    /// no writer was left to send it on).
    pub fn unregister_conn(&mut self, conn_id: u64)
        requires
            old(self).wf(),
        ensures
            final(self).wf(),
            final(self).writers == old(self).writers,
            final(self).registry.queues() =~= old(self).registry.queues().remove(conn_id),
            final(self).registry.next_id == old(self).registry.next_id,
    {
        self.registry.unregister(conn_id);
    }
}

} // verus!
