use vstd::prelude::*;

use crate::jobs::OokCreepJob;
use crate::races::OokRaceKind;
use crate::world::RoomName;

verus! {

/// An identity unique over the whole run: the tick it was made in and its number in that tick.
#[derive(Clone, Copy, Debug, PartialEq, Eq, Structural, Hash)]
pub struct UniqId {
    pub tick: u32,
    pub seq: u32,
}

/// Hands out the identities of one tick.
#[derive(Clone, Copy, Debug, PartialEq, Eq, Structural)]
pub struct TickIds {
    pub tick: u32,
    pub next: u32,
}

impl TickIds {
    pub fn new(tick: u32) -> (r: TickIds)
        ensures
            r == (TickIds { tick, next: 0 }),
    {
        TickIds { tick, next: 0 }
    }

    /// Moves on to the next tick; its numbering starts again at zero.
    pub fn next_tick(&mut self)
        requires
            old(self).tick < u32::MAX,
        ensures
            *final(self) == (TickIds { tick: (old(self).tick + 1) as u32, next: 0 }),
    {
        self.tick = self.tick + 1;
        self.next = 0;
    }
}

/// A number that no other call gives out in this tick.
pub fn get_in_tick_unique_id(ids: &mut TickIds) -> (r: u32)
    requires
        old(ids).next < u32::MAX,
    ensures
        r == old(ids).next,
        *final(ids) == (TickIds { tick: old(ids).tick, next: (old(ids).next + 1) as u32 }),
{
    let r = ids.next;
    ids.next = ids.next + 1;
    r
}

impl UniqId {
    pub fn new(ids: &mut TickIds) -> (r: UniqId)
        requires
            old(ids).next < u32::MAX,
        ensures
            r == (UniqId { tick: old(ids).tick, seq: old(ids).next }),
            *final(ids) == (TickIds { tick: old(ids).tick, next: (old(ids).next + 1) as u32 }),
    {
        let tick = ids.tick;
        let seq = get_in_tick_unique_id(ids);
        UniqId { tick, seq }
    }
}

/// The name of an agent: its race and an identity of its own.
#[derive(Clone, Copy, Debug, PartialEq, Eq, Structural)]
pub struct CreepName {
    pub race: OokRaceKind,
    pub id: UniqId,
}

pub fn create_creep_name(race: OokRaceKind, ids: &mut TickIds) -> (r: CreepName)
    requires
        old(ids).next < u32::MAX,
    ensures
        r == (CreepName { race, id: UniqId { tick: old(ids).tick, seq: old(ids).next } }),
        *final(ids) == (TickIds { tick: old(ids).tick, next: (old(ids).next + 1) as u32 }),
{
    CreepName { race, id: UniqId::new(ids) }
}

#[derive(Clone, Copy, Debug, PartialEq, Eq, Structural)]
pub struct BootstrapWorkerCitizen {
    pub target_room_name: RoomName,
    pub spawning_creep_name: Option<CreepName>,
}

#[derive(Clone, Copy, Debug, PartialEq, Eq, Structural)]
pub struct Citizen {
    pub target_room_name: RoomName,
    pub spawning_creep_name: Option<CreepName>,
    pub initial_job: OokCreepJob,
    pub resolve_panic: bool,
}

#[derive(Clone, Copy, Debug, PartialEq, Eq, Structural)]
pub enum RequestData {
    BootstrapWorkerCitizen(BootstrapWorkerCitizen),
    Citizen(Citizen),
}

/// A region's ask for a new agent.
#[derive(Clone, Copy, Debug, PartialEq, Eq, Structural)]
pub struct Request {
    pub request_id: UniqId,
    pub data: RequestData,
}

impl Request {
    pub fn new(data: RequestData, ids: &mut TickIds) -> (r: Request)
        requires
            old(ids).next < u32::MAX,
        ensures
            r == (Request { request_id: UniqId { tick: old(ids).tick, seq: old(ids).next }, data }),
            *final(ids) == (TickIds { tick: old(ids).tick, next: (old(ids).next + 1) as u32 }),
    {
        Request { request_id: UniqId::new(ids), data }
    }
}

pub open spec fn request_target_room(d: RequestData) -> RoomName {
    match d {
        RequestData::BootstrapWorkerCitizen(b) => b.target_room_name,
        RequestData::Citizen(c) => c.target_room_name,
    }
}

pub open spec fn is_panic_request(d: RequestData) -> bool {
    d matches RequestData::Citizen(c) && c.resolve_panic
}

/// When a handled request counts as resolved.
#[derive(Clone, Copy, Debug, PartialEq, Eq, Structural)]
pub enum RequestHandledOpts {
    /// The outcome can only be seen next tick (a spawn, say).
    DelayHandleForOneTick,
    /// Resolved in this tick.
    Immediate,
}

#[derive(Clone, Copy, Debug, PartialEq, Eq, Structural)]
pub enum RequestError {
    /// A request with this identity is already known.
    DuplicateRequest(UniqId),
}

/// A request resolved at a tick.
#[derive(Clone, Copy, Debug, PartialEq, Eq, Structural)]
pub struct HandledRequest {
    pub tick: u32,
    pub request: Request,
}

/// The requests that wait for someone to fulfil them, and those that were handled,
/// each with the tick at which it counts as resolved.
pub struct RequestLedger {
    pub requests: Vec<Request>,
    pub handled_requests: Vec<HandledRequest>,
}

pub open spec fn pending_index(s: Seq<Request>, id: UniqId, i: int) -> bool {
    0 <= i < s.len() && s[i].request_id == id
}

pub open spec fn is_pending(s: Seq<Request>, id: UniqId) -> bool {
    exists|i: int| pending_index(s, id, i)
}

pub open spec fn handled_index(h: Seq<HandledRequest>, id: UniqId, i: int) -> bool {
    0 <= i < h.len() && h[i].request.request_id == id
}

pub open spec fn is_handled(h: Seq<HandledRequest>, id: UniqId) -> bool {
    exists|i: int| handled_index(h, id, i)
}

impl RequestLedger {
    pub open spec fn known(&self, id: UniqId) -> bool {
        is_pending(self.requests@, id) || is_handled(self.handled_requests@, id)
    }

    /// Each identity is pending at most once, and handled requests are no longer pending.
    pub open spec fn wf(&self) -> bool {
        &&& forall|i: int, j: int|
            0 <= i < j < self.requests@.len() ==> self.requests@[i].request_id
                != self.requests@[j].request_id
        &&& forall|i: int|
            0 <= i < self.handled_requests@.len() ==> !is_pending(
                self.requests@,
                #[trigger] self.handled_requests@[i].request.request_id,
            )
        &&& forall|i: int, j: int|
            0 <= i < j < self.handled_requests@.len() ==> self.handled_requests@[i].request.request_id
                != self.handled_requests@[j].request.request_id
    }

    /// The request with this identity: the pending one, or else the handled one with the
    /// tick it was resolved at.
    pub open spec fn current_or_old(&self, id: UniqId) -> Option<(Request, Option<u32>)> {
        if is_pending(self.requests@, id) {
            Some((self.requests@[choose|i: int| pending_index(self.requests@, id, i)], None))
        } else if is_handled(self.handled_requests@, id) {
            let h = self.handled_requests@[choose|i: int| handled_index(self.handled_requests@, id, i)];
            Some((h.request, Some(h.tick)))
        } else {
            None
        }
    }

    pub fn new() -> (r: RequestLedger)
        ensures
            r.wf(),
            r.requests@.len() == 0,
            r.handled_requests@.len() == 0,
    {
        RequestLedger { requests: Vec::new(), handled_requests: Vec::new() }
    }

    fn find_pending(&self, id: UniqId) -> (r: Option<usize>)
        ensures
            r is None <==> !is_pending(self.requests@, id),
            r matches Some(i) ==> pending_index(self.requests@, id, i as int),
    {
        let mut i: usize = 0;
        while i < self.requests.len()
            invariant
                i <= self.requests.len(),
                forall|j: int| 0 <= j < i ==> !pending_index(self.requests@, id, j),
            decreases self.requests.len() - i,
        {
            if self.requests[i].request_id == id {
                assert(pending_index(self.requests@, id, i as int));
                return Some(i);
            }
            i += 1;
        }
        None
    }

    fn find_handled(&self, id: UniqId) -> (r: Option<usize>)
        ensures
            r is None <==> !is_handled(self.handled_requests@, id),
            r matches Some(i) ==> handled_index(self.handled_requests@, id, i as int) && forall|
                j: int,
            | 0 <= j < i ==> !handled_index(self.handled_requests@, id, j),
    {
        let mut i: usize = 0;
        while i < self.handled_requests.len()
            invariant
                i <= self.handled_requests.len(),
                forall|j: int| 0 <= j < i ==> !handled_index(self.handled_requests@, id, j),
            decreases self.handled_requests.len() - i,
        {
            if self.handled_requests[i].request.request_id == id {
                assert(handled_index(self.handled_requests@, id, i as int));
                return Some(i);
            }
            i += 1;
        }
        None
    }

    pub fn is_known(&self, id: UniqId) -> (r: bool)
        ensures
            r == self.known(id),
    {
        self.find_pending(id).is_some() || self.find_handled(id).is_some()
    }

    /// Queues a new request; one whose identity is already known is refused.
    pub fn add_request(&mut self, request: Request) -> (r: Result<(), RequestError>)
        requires
            old(self).wf(),
        ensures
            final(self).wf(),
            old(self).known(request.request_id) ==> r == Err::<(), RequestError>(
                RequestError::DuplicateRequest(request.request_id),
            ) && final(self).requests@ == old(self).requests@,
            !old(self).known(request.request_id) ==> r is Ok && final(self).requests@ == old(
                self,
            ).requests@.push(request),
            final(self).handled_requests@ == old(self).handled_requests@,
    {
        if self.is_known(request.request_id) {
            return Err(RequestError::DuplicateRequest(request.request_id));
        }
        self.requests.push(request);
        proof {
            assert forall|a: int, b: int|
                0 <= a < b < self.requests@.len() implies self.requests@[a].request_id
                != self.requests@[b].request_id by {
                if b == self.requests@.len() - 1 {
                    assert(!pending_index(old(self).requests@, request.request_id, a));
                }
            }
            assert forall|i: int| 0 <= i < self.handled_requests@.len() implies !is_pending(
                self.requests@,
                #[trigger] self.handled_requests@[i].request.request_id,
            ) by {
                let id = self.handled_requests@[i].request.request_id;
                assert(handled_index(self.handled_requests@, id, i));
                if is_pending(self.requests@, id) {
                    let k = choose|k: int| pending_index(self.requests@, id, k);
                    if k < old(self).requests@.len() {
                        assert(pending_index(old(self).requests@, id, k));
                    }
                }
            }
        }
        Ok(())
    }

    /// Moves a pending request to the handled ones, resolved now or, with
    /// `DelayHandleForOneTick`, at the next tick. The stored record is `request`, which
    /// may carry what was learned while handling it (the name of the spawned agent).
    /// Returns false, changing nothing, when no request with its identity is pending.
    pub fn request_handled(&mut self, request: Request, opts: RequestHandledOpts, now: u32) -> (r:
        bool)
        requires
            old(self).wf(),
            now < u32::MAX,
        ensures
            final(self).wf(),
            r == is_pending(old(self).requests@, request.request_id),
            !r ==> final(self).requests@ == old(self).requests@ && final(self).handled_requests@
                == old(self).handled_requests@,
            r ==> !is_pending(final(self).requests@, request.request_id),
            r ==> exists|i: int|
                pending_index(old(self).requests@, request.request_id, i) && final(self).requests@
                    == old(self).requests@.remove(i),
            r ==> final(self).handled_requests@ == old(self).handled_requests@.push(
                HandledRequest {
                    tick: if opts == RequestHandledOpts::DelayHandleForOneTick {
                        (now + 1) as u32
                    } else {
                        now
                    },
                    request,
                },
            ),
            forall|id: UniqId|
                id != request.request_id ==> (is_pending(final(self).requests@, id) == is_pending(
                    old(self).requests@,
                    id,
                )),
    {
        match self.find_pending(request.request_id) {
            None => false,
            Some(i) => {
                let ghost old_reqs = self.requests@;
                self.requests.remove(i);
                assert(pending_index(old_reqs, request.request_id, i as int));
                assert(self.requests@ == old_reqs.remove(i as int));
                let tick = match opts {
                    RequestHandledOpts::DelayHandleForOneTick => now + 1,
                    RequestHandledOpts::Immediate => now,
                };
                self.handled_requests.push(HandledRequest { tick, request });
                proof {
                    let id0 = request.request_id;
                    assert forall|id: UniqId| is_pending(self.requests@, id) implies is_pending(
                        old_reqs,
                        id,
                    ) && id != id0 by {
                        let k = choose|k: int| pending_index(self.requests@, id, k);
                        if k < i {
                            assert(pending_index(old_reqs, id, k));
                            assert(old_reqs[k].request_id != old_reqs[i as int].request_id);
                        } else {
                            assert(pending_index(old_reqs, id, k + 1));
                            assert(old_reqs[k + 1].request_id != old_reqs[i as int].request_id);
                        }
                    }
                    assert forall|id: UniqId|
                        id != id0 && is_pending(old_reqs, id) implies is_pending(
                        self.requests@,
                        id,
                    ) by {
                        let k = choose|k: int| pending_index(old_reqs, id, k);
                        if k < i {
                            assert(pending_index(self.requests@, id, k));
                        } else {
                            assert(k != i);
                            assert(pending_index(self.requests@, id, k - 1));
                        }
                    }
                    assert forall|a: int, b: int|
                        0 <= a < b < self.requests@.len() implies self.requests@[a].request_id
                        != self.requests@[b].request_id by {
                        let a0 = if a < i { a } else { a + 1 };
                        let b0 = if b < i { b } else { b + 1 };
                        assert(old_reqs[a0].request_id != old_reqs[b0].request_id);
                    }
                    assert forall|a: int, b: int|
                        0 <= a < b < self.handled_requests@.len() implies self.handled_requests@[a].request.request_id
                        != self.handled_requests@[b].request.request_id by {
                        if b == self.handled_requests@.len() - 1 {
                            assert(self.handled_requests@[a] == old(self).handled_requests@[a]);
                            assert(pending_index(old_reqs, id0, i as int));
                        }
                    }
                    assert forall|k: int| 0 <= k < self.handled_requests@.len() implies !is_pending(
                        self.requests@,
                        #[trigger] self.handled_requests@[k].request.request_id,
                    ) by {
                        if k < old(self).handled_requests@.len() {
                            assert(self.handled_requests@[k] == old(self).handled_requests@[k]);
                        }
                    }
                }
                true
            },
        }
    }

    /// The request with this identity: the pending one, or else the handled one
    /// together with the tick it was resolved at.
    pub fn get_current_or_old_request(&self, request_id: UniqId) -> (r: Option<
        (Request, Option<u32>),
    >)
        requires
            self.wf(),
        ensures
            r == self.current_or_old(request_id),
            r matches Some(found) ==> found.0.request_id == request_id,
    {
        match self.find_pending(request_id) {
            Some(i) => {
                proof {
                    let c = choose|k: int| pending_index(self.requests@, request_id, k);
                    assert(pending_index(self.requests@, request_id, i as int));
                    if c != i {
                        if c < i {
                            assert(self.requests@[c].request_id != self.requests@[i as int].request_id);
                        } else {
                            assert(self.requests@[i as int].request_id != self.requests@[c].request_id);
                        }
                    }
                }
                Some((self.requests[i], None))
            },
            None => match self.find_handled(request_id) {
                Some(j) => {
                    proof {
                        let c = choose|k: int| handled_index(self.handled_requests@, request_id, k);
                        assert(handled_index(self.handled_requests@, request_id, j as int));
                        if c != j {
                            if c < j {
                                assert(self.handled_requests@[c].request.request_id != self.handled_requests@[j as int].request.request_id);
                            } else {
                                assert(self.handled_requests@[j as int].request.request_id != self.handled_requests@[c].request.request_id);
                            }
                        }
                    }
                    let h = self.handled_requests[j];
                    Some((h.request, Some(h.tick)))
                },
                None => None,
            },
        }
    }
}

} // verus!
