//! The logical connection registry.
//!
//! It allocates 64-bit connection ids, strictly monotonic from 1, and holds
//! one bounded response queue per registered id.  The reader loop routes
//! responses in; sessions take them out in arrival order.  A full queue
//! makes `route` report `Full`, which is what holds the reader back until
//! the session drains: the transport's backpressure.

use vstd::prelude::*;

use std::collections::HashMap;

use crate::consts::RESPONSE_QUEUE_CAPACITY;

verus! {

broadcast use vstd::std_specs::hash::group_hash_axioms;

/// A response routed to one logical connection.
#[derive(Clone, Debug)]
pub enum MeResponse {
    /// An opaque answer byte block.
    Data(Vec<u8>),
    /// A delivery confirmation.
    Ack(u32),
    /// The peer closed the logical connection.
    Close,
}

/// What came of one routing attempt.
#[derive(Clone, Copy, Debug, PartialEq, Eq, Structural)]
pub enum RouteOutcome {
    /// The response now sits in the session's queue.
    Delivered,
    /// The queue is at capacity; the caller waits for the session to drain
    /// and retries.
    Full,
    /// No such id is registered; the response is dropped.
    Absent,
}

/// Registry of live logical connections.
pub struct ConnRegistry {
    /// The id the next registration will return.
    pub next_id: u64,
    /// Pending responses of each registered id.
    pub map: HashMap<u64, Vec<MeResponse>>,
}

impl ConnRegistry {
    /// The queued responses of each registered id.
    pub open spec fn queues(self) -> Map<u64, Seq<MeResponse>> {
        self.map@.map_values(|v: Vec<MeResponse>| v@)
    }

    /// Every registered id was handed out earlier than the next one, and no
    /// queue ever exceeds its capacity.
    pub open spec fn wf(self) -> bool {
        &&& self.next_id >= 1
        &&& forall|k: u64|
            self.map@.contains_key(k) ==> k < self.next_id && self.map@[k]@.len()
                <= RESPONSE_QUEUE_CAPACITY
    }

    /// What `route` reports for `id` in this state.
    pub open spec fn route_outcome_spec(self, id: u64) -> RouteOutcome {
        if !self.map@.contains_key(id) {
            RouteOutcome::Absent
        } else if self.map@[id]@.len() >= RESPONSE_QUEUE_CAPACITY {
            RouteOutcome::Full
        } else {
            RouteOutcome::Delivered
        }
    }

    /// An empty registry; ids start at 1.
    pub fn new() -> (r: ConnRegistry)
        ensures
            r.wf(),
            r.next_id == 1,
            r.queues() =~= Map::<u64, Seq<MeResponse>>::empty(),
    {
        let r = ConnRegistry { next_id: 1, map: HashMap::new() };
        proof {
            assert(r.queues() =~= Map::<u64, Seq<MeResponse>>::empty());
        }
        r
    }

    /// Allocate a fresh id with an empty queue.  The id never names an
    /// already registered connection, and no later registration returns it
    /// again.
    pub fn register(&mut self) -> (id: u64)
        requires
            old(self).wf(),
            old(self).next_id < u64::MAX,
        ensures
            final(self).wf(),
            id == old(self).next_id,
            !old(self).map@.contains_key(id),
            final(self).next_id == old(self).next_id + 1,
            final(self).queues() =~= old(self).queues().insert(id, Seq::empty()),
    {
        let id = self.next_id;
        self.next_id = self.next_id + 1;
        let q: Vec<MeResponse> = Vec::new();
        self.map.insert(id, q);
        proof {
            assert(final(self).queues() =~= old(self).queues().insert(id, Seq::empty()));
        }
        id
    }

    /// Drop an id and whatever is still queued under it.  Idempotent: an
    /// absent id leaves the registry as it is.
    pub fn unregister(&mut self, id: u64)
        requires
            old(self).wf(),
        ensures
            final(self).wf(),
            final(self).next_id == old(self).next_id,
            final(self).queues() =~= old(self).queues().remove(id),
            !final(self).map@.contains_key(id),
    {
        self.map.remove(&id);
        proof {
            assert(final(self).queues() =~= old(self).queues().remove(id));
        }
    }

    /// Whether `id` is registered.
    pub fn contains(&self, id: u64) -> (r: bool)
        ensures
            r == self.map@.contains_key(id),
    {
        self.map.contains_key(&id)
    }

    /// Route a response to the session owning `id`: append it to the queue
    /// when there is room, report `Full` at capacity and `Absent` for an
    /// unknown id, leaving the registry unchanged in both of those cases.
    pub fn route(&mut self, id: u64, resp: MeResponse) -> (r: RouteOutcome)
        requires
            old(self).wf(),
        ensures
            final(self).wf(),
            r == old(self).route_outcome_spec(id),
            final(self).next_id == old(self).next_id,
            r == RouteOutcome::Delivered ==> final(self).queues() =~= old(self).queues().insert(
                id,
                old(self).queues()[id].push(resp),
            ),
            r != RouteOutcome::Delivered ==> final(self).queues() =~= old(self).queues(),
    {
        match self.map.remove(&id) {
            None => RouteOutcome::Absent,
            Some(mut q) => {
                if q.len() >= RESPONSE_QUEUE_CAPACITY {
                    self.map.insert(id, q);
                    proof {
                        assert(final(self).queues() =~= old(self).queues());
                    }
                    RouteOutcome::Full
                } else {
                    q.push(resp);
                    self.map.insert(id, q);
                    proof {
                        assert(final(self).queues() =~= old(self).queues().insert(
                            id,
                            old(self).queues()[id].push(resp),
                        ));
                    }
                    RouteOutcome::Delivered
                }
            },
        }
    }

    /// Take the oldest pending response of `id`, if any.
    pub fn take_next(&mut self, id: u64) -> (r: Option<MeResponse>)
        requires
            old(self).wf(),
        ensures
            final(self).wf(),
            final(self).next_id == old(self).next_id,
            (r matches Some(_)) <==> (old(self).map@.contains_key(id) && old(
                self,
            ).queues()[id].len() > 0),
            r matches Some(resp) ==> resp == old(self).queues()[id][0] && final(self).queues()
                =~= old(self).queues().insert(id, old(self).queues()[id].drop_first()),
            r matches None ==> final(self).queues() =~= old(self).queues(),
    {
        match self.map.remove(&id) {
            None => None,
            Some(mut q) => {
                if q.len() == 0 {
                    self.map.insert(id, q);
                    proof {
                        assert(final(self).queues() =~= old(self).queues());
                    }
                    None
                } else {
                    let resp = q.remove(0);
                    self.map.insert(id, q);
                    proof {
                        assert(q@ =~= old(self).queues()[id].drop_first());
                        assert(final(self).queues() =~= old(self).queues().insert(
                            id,
                            old(self).queues()[id].drop_first(),
                        ));
                    }
                    Some(resp)
                }
            },
        }
    }
}

/// Registration uniqueness: a freshly handed-out id names nothing that was
/// registered at the time, and two successive registrations never return
/// the same id.
pub proof fn lemma_register_ids_distinct(
    r0: ConnRegistry,
    r1: ConnRegistry,
    id1: u64,
    r2: ConnRegistry,
    id2: u64,
)
    requires
        r0.wf(),
        id1 == r0.next_id,
        r1.next_id == r0.next_id + 1,
        id2 == r1.next_id,
    ensures
        id1 != id2,
        !r0.queues().contains_key(id1),
{
}

/// Registration liveness after teardown: once an id is unregistered,
/// routing to it reports it absent.
pub proof fn lemma_unregister_then_absent(r0: ConnRegistry, r1: ConnRegistry, id: u64)
    requires
        r1.queues() == r0.queues().remove(id),
    ensures
        r1.route_outcome_spec(id) == RouteOutcome::Absent,
{
    assert(!r1.queues().contains_key(id));
    assert(!r1.map@.contains_key(id));
}

/// Backpressure: at capacity a route attempt delivers nothing and reports
/// `Full`; once the session drains one response, the same attempt delivers.
pub proof fn lemma_backpressure(pre: ConnRegistry, drained: ConnRegistry, id: u64)
    requires
        pre.wf(),
        pre.map@.contains_key(id),
        pre.queues()[id].len() == RESPONSE_QUEUE_CAPACITY,
        drained.wf(),
        drained.queues() == pre.queues().insert(id, pre.queues()[id].drop_first()),
    ensures
        pre.route_outcome_spec(id) == RouteOutcome::Full,
        drained.route_outcome_spec(id) == RouteOutcome::Delivered,
{
    assert(RESPONSE_QUEUE_CAPACITY > 0);
    assert(drained.queues().contains_key(id));
    assert(drained.map@.contains_key(id));
    assert(drained.queues()[id].len() == RESPONSE_QUEUE_CAPACITY - 1);
    assert(drained.map@[id]@.len() < RESPONSE_QUEUE_CAPACITY);
}

} // verus!
