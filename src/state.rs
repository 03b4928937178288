use vstd::prelude::*;

use crate::region::{CitizenInfo, SpawnedCreep, still_open};
use crate::requests::{
    HandledRequest, Request, RequestData, RequestError, RequestHandledOpts, RequestLedger, TickIds, UniqId,
    handled_index, is_handled, is_panic_request, is_pending, pending_index, request_target_room,
};
use crate::room_state::{
    BaseState, RoomSight, RoomState, RoomStateChange, SetupBaseData, SetupBaseState,
    SetupBaseStateVisibility,
};
use crate::region::TargetSpawns;
use crate::fulfillment::{named_request_data, with_spawned_name};
use crate::requests::CreepName;
use crate::world::{ObjId, RoomName, room_distance_sq, room_distance_squared};

verus! {

/// Everything that lives from one tick to the next, owned by the tick driver.
pub struct BWState {
    pub ticks_since_init: u32,
    pub ids: TickIds,
    pub room_states: Vec<RoomState>,
    pub citizens: Vec<CitizenInfo>,
    pub requests: RequestLedger,
}

/// The first region with this name.
pub open spec fn room_index_of(rooms: Seq<RoomState>, name: RoomName) -> Option<int>
    decreases rooms.len(),
{
    if rooms.len() == 0 {
        None
    } else {
        match room_index_of(rooms.drop_last(), name) {
            Some(i) => Some(i),
            None => if rooms.last().name() == name {
                Some(rooms.len() - 1)
            } else {
                None
            },
        }
    }
}

/// The base closest to `target` in a straight line; the first of equally close ones.
pub open spec fn closest_base(rooms: Seq<RoomState>, target: RoomName) -> Option<int>
    decreases rooms.len(),
{
    if rooms.len() == 0 {
        None
    } else {
        let prev = closest_base(rooms.drop_last(), target);
        let last = rooms.last();
        if last is Base && (prev is None || room_distance_sq(last.name(), target) < room_distance_sq(
            rooms[prev->Some_0].name(),
            target,
        )) {
            Some(rooms.len() - 1)
        } else {
            prev
        }
    }
}

/// Region `r` is the one a request targets.
pub open spec fn targets_room(rooms: Seq<RoomState>, q: Request, r: int) -> bool {
    room_index_of(rooms, request_target_room(q.data)) == Some(r)
}

/// Region `r` helps with a request for a region that has no state here: it is the
/// closest base to it.
pub open spec fn helps_with(rooms: Seq<RoomState>, q: Request, r: int) -> bool {
    &&& room_index_of(rooms, request_target_room(q.data)) is None
    &&& closest_base(rooms, request_target_room(q.data)) == Some(r)
}

/// The three kinds of request a region looks for, in order of preference.
pub open spec fn wanted(rooms: Seq<RoomState>, q: Request, r: int, mode: int) -> bool {
    if mode == 0 {
        targets_room(rooms, q, r) && is_panic_request(q.data)
    } else if mode == 1 {
        targets_room(rooms, q, r)
    } else {
        helps_with(rooms, q, r)
    }
}

pub open spec fn first_wanted(rooms: Seq<RoomState>, pending: Seq<Request>, r: int, mode: int) -> Option<
    Request,
>
    decreases pending.len(),
{
    if pending.len() == 0 {
        None
    } else {
        match first_wanted(rooms, pending.drop_last(), r, mode) {
            Some(q) => Some(q),
            None => if wanted(rooms, pending.last(), r, mode) {
                Some(pending.last())
            } else {
                None
            },
        }
    }
}

/// The request region `r` takes on this tick: the first pending request for it that
/// resolves a panic, else the first pending request for it, else the first request for
/// a region without state here that it is the closest base to help with.
pub open spec fn pick_request(rooms: Seq<RoomState>, pending: Seq<Request>, r: int) -> Option<Request> {
    match first_wanted(rooms, pending, r, 0) {
        Some(q) => Some(q),
        None => match first_wanted(rooms, pending, r, 1) {
            Some(q) => Some(q),
            None => first_wanted(rooms, pending, r, 2),
        },
    }
}

pub proof fn lemma_first_wanted_found(
    rooms: Seq<RoomState>,
    pending: Seq<Request>,
    r: int,
    mode: int,
    k: int,
)
    requires
        0 <= k < pending.len(),
        wanted(rooms, pending[k], r, mode),
    ensures
        first_wanted(rooms, pending, r, mode) matches Some(q) && wanted(rooms, q, r, mode)
            && pending.contains(q),
    decreases pending.len(),
{
    if k < pending.len() - 1 {
        lemma_first_wanted_found(rooms, pending.drop_last(), r, mode, k);
        let q = first_wanted(rooms, pending.drop_last(), r, mode)->Some_0;
        let j = choose|j: int| 0 <= j < pending.drop_last().len() && pending.drop_last()[j] == q;
        assert(pending[j] == q);
    } else {
        match first_wanted(rooms, pending.drop_last(), r, mode) {
            Some(q) => {
                lemma_first_wanted_sound(rooms, pending.drop_last(), r, mode);
                let j = choose|j: int|
                    0 <= j < pending.drop_last().len() && pending.drop_last()[j] == q;
                assert(pending[j] == q);
            },
            None => {
                assert(pending[pending.len() - 1] == pending.last());
            },
        }
    }
}

pub proof fn lemma_first_wanted_sound(
    rooms: Seq<RoomState>,
    pending: Seq<Request>,
    r: int,
    mode: int,
)
    ensures
        first_wanted(rooms, pending, r, mode) matches Some(q) ==> wanted(rooms, q, r, mode)
            && pending.contains(q),
    decreases pending.len(),
{
    if pending.len() > 0 {
        lemma_first_wanted_sound(rooms, pending.drop_last(), r, mode);
        match first_wanted(rooms, pending.drop_last(), r, mode) {
            Some(q) => {
                let j = choose|j: int|
                    0 <= j < pending.drop_last().len() && pending.drop_last()[j] == q;
                assert(pending[j] == q);
            },
            None => {
                assert(pending[pending.len() - 1] == pending.last());
            },
        }
    }
}

/// Within a region, a pending request that resolves a panic is never passed over for
/// one that does not: whenever one is pending for region `r`, the request `r` takes on
/// is one that resolves a panic, and it is for `r`.
pub proof fn lemma_panic_request_preferred(
    rooms: Seq<RoomState>,
    pending: Seq<Request>,
    r: int,
    q: Request,
)
    requires
        pending.contains(q),
        targets_room(rooms, q, r),
        is_panic_request(q.data),
    ensures
        pick_request(rooms, pending, r) matches Some(p) && is_panic_request(p.data)
            && targets_room(rooms, p, r) && pending.contains(p),
{
    let k = choose|k: int| 0 <= k < pending.len() && pending[k] == q;
    lemma_first_wanted_found(rooms, pending, r, 0, k);
}

fn find_room(rooms: &Vec<RoomState>, name: RoomName) -> (r: Option<usize>)
    ensures
        r matches Some(i) ==> room_index_of(rooms@, name) == Some(i as int),
        r is None ==> room_index_of(rooms@, name) is None,
{
    let mut found: Option<usize> = None;
    let mut i: usize = 0;
    while i < rooms.len()
        invariant
            i <= rooms.len(),
            found matches Some(k) ==> room_index_of(rooms@.take(i as int), name) == Some(k as int),
            found is None ==> room_index_of(rooms@.take(i as int), name) is None,
        decreases rooms.len() - i,
    {
        assert(rooms@.take(i + 1).drop_last() =~= rooms@.take(i as int));
        assert(rooms@.take(i + 1).last() == rooms@[i as int]);
        if found.is_none() && rooms[i].room_name() == name {
            found = Some(i);
        }
        i += 1;
    }
    assert(rooms@.take(rooms.len() as int) =~= rooms@);
    found
}

proof fn lemma_room_index_none(rooms: Seq<RoomState>, name: RoomName)
    requires
        room_index_of(rooms, name) is None,
    ensures
        forall|i: int| 0 <= i < rooms.len() ==> (#[trigger] rooms[i]).name() != name,
    decreases rooms.len(),
{
    if rooms.len() > 0 {
        lemma_room_index_none(rooms.drop_last(), name);
        assert forall|i: int| 0 <= i < rooms.len() implies (#[trigger] rooms[i]).name() != name by {
            if i < rooms.len() - 1 {
                assert(rooms.drop_last()[i] == rooms[i]);
            }
        }
    }
}

proof fn lemma_room_index_bounds(rooms: Seq<RoomState>, name: RoomName)
    ensures
        room_index_of(rooms, name) matches Some(i) ==> 0 <= i < rooms.len(),
    decreases rooms.len(),
{
    if rooms.len() > 0 {
        lemma_room_index_bounds(rooms.drop_last(), name);
    }
}

proof fn lemma_closest_base_bounds(rooms: Seq<RoomState>, target: RoomName)
    ensures
        closest_base(rooms, target) matches Some(i) ==> 0 <= i < rooms.len(),
    decreases rooms.len(),
{
    if rooms.len() > 0 {
        lemma_closest_base_bounds(rooms.drop_last(), target);
    }
}

proof fn lemma_closest_base_prefix(rooms: Seq<RoomState>, target: RoomName, i: int)
    requires
        0 <= i < rooms.len(),
    ensures
        closest_base(rooms.take(i + 1), target) == ({
            let prev = closest_base(rooms.take(i), target);
            if rooms[i] is Base && (prev is None || room_distance_sq(rooms[i].name(), target)
                < room_distance_sq(rooms[prev->Some_0].name(), target)) {
                Some(i)
            } else {
                prev
            }
        }),
{
    assert(rooms.take(i + 1).drop_last() =~= rooms.take(i));
    lemma_closest_base_bounds(rooms.take(i), target);
    let prev = closest_base(rooms.take(i), target);
    if prev is Some {
        assert(rooms.take(i + 1)[prev->Some_0] == rooms[prev->Some_0]);
    }
}

fn find_closest_base(rooms: &Vec<RoomState>, target: RoomName) -> (r: Option<usize>)
    ensures
        r matches Some(i) ==> closest_base(rooms@, target) == Some(i as int),
        r is None ==> closest_base(rooms@, target) is None,
{
    let mut best: Option<usize> = None;
    let mut best_dist: u128 = 0;
    let mut i: usize = 0;
    while i < rooms.len()
        invariant
            i <= rooms.len(),
            best matches Some(k) ==> closest_base(rooms@.take(i as int), target) == Some(k as int)
                && k < i && best_dist == room_distance_sq(rooms@[k as int].name(), target),
            best is None ==> closest_base(rooms@.take(i as int), target) is None,
        decreases rooms.len() - i,
    {
        proof {
            lemma_closest_base_prefix(rooms@, target, i as int);
        }
        let is_base = match &rooms[i] {
            RoomState::Base(_) => true,
            RoomState::SetupBase(_) => false,
        };
        if is_base {
            let d = room_distance_squared(rooms[i].room_name(), target);
            if best.is_none() || d < best_dist {
                best = Some(i);
                best_dist = d;
            }
        }
        i += 1;
    }
    assert(rooms@.take(rooms.len() as int) =~= rooms@);
    best
}

fn is_wanted(rooms: &Vec<RoomState>, q: &Request, r: usize, mode: u8) -> (b: bool)
    requires
        mode <= 2,
    ensures
        b == wanted(rooms@, *q, r as int, mode as int),
{
    let target = match q.data {
        RequestData::BootstrapWorkerCitizen(b) => b.target_room_name,
        RequestData::Citizen(c) => c.target_room_name,
    };
    let idx = find_room(rooms, target);
    if mode == 0 {
        idx == Some(r) && match q.data {
            RequestData::Citizen(c) => c.resolve_panic,
            _ => false,
        }
    } else if mode == 1 {
        idx == Some(r)
    } else {
        idx.is_none() && find_closest_base(rooms, target) == Some(r)
    }
}

fn find_wanted(rooms: &Vec<RoomState>, pending: &Vec<Request>, r: usize, mode: u8) -> (res: Option<
    Request,
>)
    requires
        mode <= 2,
    ensures
        res == first_wanted(rooms@, pending@, r as int, mode as int),
{
    let mut found: Option<Request> = None;
    let mut i: usize = 0;
    while i < pending.len()
        invariant
            mode <= 2,
            i <= pending.len(),
            found == first_wanted(rooms@, pending@.take(i as int), r as int, mode as int),
        decreases pending.len() - i,
    {
        assert(pending@.take(i + 1).drop_last() =~= pending@.take(i as int));
        assert(pending@.take(i + 1).last() == pending@[i as int]);
        if found.is_none() && is_wanted(rooms, &pending[i], r, mode) {
            found = Some(pending[i]);
        }
        i += 1;
    }
    assert(pending@.take(pending.len() as int) =~= pending@);
    found
}

impl BWState {
    /// The ledger is sound, an open request identity is open in at most one region,
    /// every open identity is known to the ledger, and no two regions share a name.
    pub open spec fn wf(&self) -> bool {
        &&& self.requests.wf()
        &&& forall|a: int, b: int, id: UniqId|
            0 <= a < self.room_states@.len() && 0 <= b < self.room_states@.len() && a != b
                && (#[trigger] self.room_states@[a].open_ids().contains(id))
                ==> !(#[trigger] self.room_states@[b].open_ids().contains(id))
        &&& forall|a: int, id: UniqId|
            0 <= a < self.room_states@.len() && (#[trigger] self.room_states@[a].open_ids().contains(
                id,
            )) ==> self.requests.known(id)
        &&& forall|a: int, b: int|
            0 <= a < b < self.room_states@.len() ==> (#[trigger] self.room_states@[a]).name()
                != (#[trigger] self.room_states@[b]).name()
    }

    pub fn new(tick: u32) -> (r: BWState)
        ensures
            r.wf(),
            r.ticks_since_init == 0,
            r.ids == (TickIds { tick, next: 0 }),
            r.room_states@.len() == 0,
    {
        BWState {
            ticks_since_init: 0,
            ids: TickIds::new(tick),
            room_states: Vec::new(),
            citizens: Vec::new(),
            requests: RequestLedger::new(),
        }
    }

    /// Adds a region; one whose name is already taken is refused. Of the region's open
    /// request identities only those the ledger knows and no other region holds open are
    /// kept (a loaded region may name requests that are gone).
    pub fn add_room(&mut self, room: RoomState) -> (r: bool)
        requires
            old(self).wf(),
        ensures
            final(self).wf(),
            r == (room_index_of(old(self).room_states@, room.name()) is None),
            r ==> final(self).room_states@.len() == old(self).room_states@.len() + 1
                && final(self).room_states@.drop_last() == old(self).room_states@
                && final(self).room_states@.last().name() == room.name()
                && (final(self).room_states@.last() is Base) == (room is Base)
                && final(self).room_states@.last().open_ids() == clear_ids(
                room.open_ids(),
                old(self).room_states@,
                old(self).requests,
            ),
            !r ==> final(self).room_states@ == old(self).room_states@,
            final(self).requests == old(self).requests,
    {
        let name = room.room_name();
        if find_room(&self.room_states, name).is_some() {
            return false;
        }
        let ghost orig = room.open_ids();
        let kept = self.clear_open_ids(room.open_requests());
        let mut room = room;
        room.set_open_requests(kept);
        let ghost old_rooms = self.room_states@;
        self.room_states.push(room);
        proof {
            let rs = self.room_states@;
            let n = rs.len() - 1;
            assert(rs.drop_last() =~= old_rooms);
            assert(rs[n].open_ids() == clear_ids(orig, old_rooms, self.requests));
            lemma_room_index_none(old_rooms, name);
            assert forall|a: int, b: int| 0 <= a < b < rs.len() implies (#[trigger] rs[a]).name()
                != (#[trigger] rs[b]).name() by {
                assert(rs[a] == old_rooms[a]);
                if b < n {
                    assert(rs[b] == old_rooms[b]);
                }
            }
            assert forall|x: UniqId| rs[n].open_ids().contains(x) implies self.requests.known(x)
                && forall|a: int| 0 <= a < old_rooms.len() ==> !(#[trigger] old_rooms[a].open_ids().contains(x)) by {
                lemma_clear_ids(orig, old_rooms, self.requests, x);
            }
            assert forall|a: int, b: int, id: UniqId|
                0 <= a < rs.len() && 0 <= b < rs.len() && a != b && (
                #[trigger] rs[a].open_ids().contains(id)) implies !(
                #[trigger] rs[b].open_ids().contains(id)) by {
                if a != n {
                    assert(rs[a] == old_rooms[a]);
                }
                if b != n {
                    assert(rs[b] == old_rooms[b]);
                }
                lemma_clear_ids(orig, old_rooms, self.requests, id);
                if a == n && rs[n].open_ids().contains(id) {
                    assert(!old_rooms[b].open_ids().contains(id));
                }
                if b == n && rs[n].open_ids().contains(id) {
                    assert(!old_rooms[a].open_ids().contains(id));
                }
            }
            assert forall|a: int, id: UniqId|
                0 <= a < rs.len() && (#[trigger] rs[a].open_ids().contains(
                    id,
                )) implies self.requests.known(id) by {
                if a != n {
                    assert(rs[a] == old_rooms[a]);
                }
            }
        }
        true
    }

    fn is_open_anywhere(&self, id: UniqId) -> (r: bool)
        ensures
            r == exists|a: int| 0 <= a < self.room_states@.len() && (#[trigger] self.room_states@[a].open_ids().contains(id)),
    {
        let mut a: usize = 0;
        while a < self.room_states.len()
            invariant
                a <= self.room_states@.len(),
                forall|k: int| 0 <= k < a ==> !(#[trigger] self.room_states@[k].open_ids().contains(id)),
            decreases self.room_states.len() - a,
        {
            let open = self.room_states[a].open_requests();
            let mut j: usize = 0;
            while j < open.len()
                invariant
                    a < self.room_states@.len(),
                    j <= open@.len(),
                    open@ == self.room_states@[a as int].open_ids(),
                    forall|k: int| 0 <= k < j ==> open@[k] != id,
                    forall|k: int| 0 <= k < a ==> !(#[trigger] self.room_states@[k].open_ids().contains(id)),
                decreases open.len() - j,
            {
                if open[j] == id {
                    assert(open@[j as int] == id);
                    assert(self.room_states@[a as int].open_ids().contains(id));
                    return true;
                }
                j += 1;
            }
            assert(!self.room_states@[a as int].open_ids().contains(id));
            a += 1;
        }
        false
    }

    fn clear_open_ids(&self, ids: &Vec<UniqId>) -> (r: Vec<UniqId>)
        requires
            self.requests.wf(),
        ensures
            r@ == clear_ids(ids@, self.room_states@, self.requests),
    {
        let mut out: Vec<UniqId> = Vec::new();
        let mut i: usize = 0;
        while i < ids.len()
            invariant
                self.requests.wf(),
                i <= ids.len(),
                out@ == clear_ids(ids@.take(i as int), self.room_states@, self.requests),
            decreases ids.len() - i,
        {
            assert(ids@.take(i + 1).drop_last() =~= ids@.take(i as int));
            if self.requests.is_known(ids[i]) && !self.is_open_anywhere(ids[i]) {
                out.push(ids[i]);
            }
            i += 1;
        }
        assert(ids@.take(ids.len() as int) =~= ids@);
        out
    }

    /// Starts the next tick.
    pub fn next_tick(&mut self)
        requires
            old(self).ticks_since_init < u32::MAX,
            old(self).ids.tick < u32::MAX,
        ensures
            final(self).ticks_since_init == old(self).ticks_since_init + 1,
            final(self).ids == (TickIds { tick: (old(self).ids.tick + 1) as u32, next: 0 }),
            final(self).room_states@ == old(self).room_states@,
            final(self).requests == old(self).requests,
    {
        self.ticks_since_init = self.ticks_since_init + 1;
        self.ids.next_tick();
    }

    /// Queues a request proposed by region `room_index` and opens it there. A request whose
    /// identity is already known is refused and opened nowhere.
    pub fn log_request(&mut self, room_index: usize, request: Request) -> (r: Result<(), RequestError>)
        requires
            old(self).wf(),
            room_index < old(self).room_states@.len(),
        ensures
            final(self).wf(),
            r is Ok <==> !old(self).requests.known(request.request_id),
            r is Ok ==> final(self).requests.requests@ == old(self).requests.requests@.push(request)
                && final(self).room_states@[room_index as int].open_ids() == old(
                self,
            ).room_states@[room_index as int].open_ids().push(request.request_id),
            r is Err ==> final(self).requests.requests@ == old(self).requests.requests@
                && final(self).room_states@ == old(self).room_states@,
            final(self).room_states@.len() == old(self).room_states@.len(),
            forall|i: int|
                0 <= i < final(self).room_states@.len() ==> (#[trigger] final(self).room_states@[i]).name() == old(self).room_states@[i].name(),
            forall|i: int|
                0 <= i < final(self).room_states@.len() && i != room_index ==> (#[trigger] final(self).room_states@[i]).open_ids() == old(self).room_states@[i].open_ids(),
    {
        let ghost old_rooms = self.room_states@;
        let ghost old_ledger_known = |id: UniqId| old(self).requests.known(id);
        let res = self.requests.add_request(request);
        match res {
            Err(e) => Err(e),
            Ok(()) => {
                let id = request.request_id;
                let mut room = self.room_states.remove(room_index);
                room.request_logged(id);
                self.room_states.insert(room_index, room);
                proof {
                    let rs = self.room_states@;
                    assert(rs =~= old_rooms.update(room_index as int, room));
                    // the new identity was open nowhere
                    assert forall|a: int| 0 <= a < old_rooms.len() implies !(
                    #[trigger] old_rooms[a].open_ids().contains(id)) by {
                        if old_rooms[a].open_ids().contains(id) {
                            assert(old(self).requests.known(id));
                        }
                    }
                    // every identity known before is still known
                    assert forall|x: UniqId| old(self).requests.known(x) implies self.requests.known(
                        x,
                    ) by {
                        if is_pending(old(self).requests.requests@, x) {
                            let k = choose|k: int| pending_index(old(self).requests.requests@, x, k);
                            assert(pending_index(self.requests.requests@, x, k));
                        } else {
                            let k = choose|k: int|
                                handled_index(old(self).requests.handled_requests@, x, k);
                            assert(handled_index(self.requests.handled_requests@, x, k));
                        }
                    }
                    assert(pending_index(
                        self.requests.requests@,
                        id,
                        self.requests.requests@.len() - 1,
                    ));
                    assert forall|a: int, b: int, x: UniqId|
                        0 <= a < rs.len() && 0 <= b < rs.len() && a != b && (
                        #[trigger] rs[a].open_ids().contains(x)) implies !(
                        #[trigger] rs[b].open_ids().contains(x)) by {
                        if a == room_index {
                            if x != id {
                                let k = choose|k: int|
                                    0 <= k < rs[a].open_ids().len() && rs[a].open_ids()[k] == x;
                                assert(old_rooms[a].open_ids()[k] == x);
                                assert(old_rooms[a].open_ids().contains(x));
                            }
                        } else if b == room_index {
                            if x != id {
                                if rs[b].open_ids().contains(x) {
                                    let k = choose|k: int|
                                        0 <= k < rs[b].open_ids().len() && rs[b].open_ids()[k]
                                            == x;
                                    assert(old_rooms[b].open_ids()[k] == x);
                                    assert(old_rooms[b].open_ids().contains(x));
                                }
                            }
                        }
                    }
                    assert forall|a: int, x: UniqId|
                        0 <= a < rs.len() && (#[trigger] rs[a].open_ids().contains(
                            x,
                        )) implies self.requests.known(x) by {
                        if a == room_index && x != id {
                            let k = choose|k: int|
                                0 <= k < rs[a].open_ids().len() && rs[a].open_ids()[k] == x;
                            assert(old_rooms[a].open_ids()[k] == x);
                            assert(old_rooms[a].open_ids().contains(x));
                        }
                    }
                }
                Ok(())
            },
        }
    }


    /// Queues the requests a region proposed this tick and opens them there, in order;
    /// requests whose identity is already known are skipped. Returns how many were logged.
    /// Whatever the proposals, an identity stays open in at most one region.
    pub fn log_requests(&mut self, room_index: usize, requests: &Vec<Request>) -> (r: usize)
        requires
            old(self).wf(),
            room_index < old(self).room_states@.len(),
        ensures
            final(self).wf(),
            r <= requests@.len(),
            final(self).room_states@.len() == old(self).room_states@.len(),
            forall|i: int|
                0 <= i < final(self).room_states@.len() ==> (#[trigger] final(self).room_states@[i]).name() == old(self).room_states@[i].name(),
            forall|i: int|
                0 <= i < final(self).room_states@.len() && i != room_index ==> (#[trigger] final(self).room_states@[i]).open_ids() == old(self).room_states@[i].open_ids(),
    {
        let mut logged: usize = 0;
        let mut i: usize = 0;
        while i < requests.len()
            invariant
                self.wf(),
                i <= requests@.len(),
                logged <= i,
                room_index < self.room_states@.len(),
                self.room_states@.len() == old(self).room_states@.len(),
                forall|k: int|
                    0 <= k < self.room_states@.len() ==> (#[trigger] self.room_states@[k]).name() == old(self).room_states@[k].name(),
                forall|k: int|
                    0 <= k < self.room_states@.len() && k != room_index ==> (#[trigger] self.room_states@[k]).open_ids() == old(self).room_states@[k].open_ids(),
            decreases requests@.len() - i,
        {
            if self.log_request(room_index, requests[i]).is_ok() {
                logged += 1;
            }
            i += 1;
        }
        logged
    }

    /// Records that a pending request was handled (see `RequestLedger::request_handled`).
    pub fn request_handled(&mut self, request: Request, opts: RequestHandledOpts, now: u32) -> (r:
        bool)
        requires
            old(self).wf(),
            now < u32::MAX,
        ensures
            final(self).wf(),
            r == is_pending(old(self).requests.requests@, request.request_id),
            final(self).room_states@ == old(self).room_states@,
            r ==> !is_pending(final(self).requests.requests@, request.request_id),
            r ==> is_handled(final(self).requests.handled_requests@, request.request_id),
            r ==> exists|i: int|
                pending_index(old(self).requests.requests@, request.request_id, i)
                    && final(self).requests.requests@ == old(self).requests.requests@.remove(i),
            r ==> final(self).requests.handled_requests@ == old(self).requests.handled_requests@.push(
                HandledRequest {
                    tick: if opts == RequestHandledOpts::DelayHandleForOneTick {
                        (now + 1) as u32
                    } else {
                        now
                    },
                    request,
                },
            ),
            !r ==> final(self).requests.requests@ == old(self).requests.requests@
                && final(self).requests.handled_requests@ == old(self).requests.handled_requests@,
            final(self).ids == old(self).ids,
            final(self).citizens@ == old(self).citizens@,
    {
        let r = self.requests.request_handled(request, opts, now);
        proof {
            if r {
                assert(handled_index(
                    self.requests.handled_requests@,
                    request.request_id,
                    self.requests.handled_requests@.len() - 1,
                ));
            }
            assert forall|x: UniqId| old(self).requests.known(x) implies self.requests.known(x) by {
                if x == request.request_id && r {
                    assert(handled_index(
                        self.requests.handled_requests@,
                        x,
                        self.requests.handled_requests@.len() - 1,
                    ));
                } else if is_pending(old(self).requests.requests@, x) {
                } else {
                    let k = choose|k: int| handled_index(old(self).requests.handled_requests@, x, k);
                    assert(handled_index(self.requests.handled_requests@, x, k));
                }
            }
        }
        r
    }


    /// Records that an agent named `name` was spawned for a pending request. Whether the
    /// spawn worked shows only next tick, so the request counts as resolved at `now + 1`,
    /// and the record carries the agent's name. Returns false, changing nothing, when the
    /// request is not pending.
    pub fn record_spawn(&mut self, request: Request, name: CreepName, now: u32) -> (r: bool)
        requires
            old(self).wf(),
            now < u32::MAX,
        ensures
            final(self).wf(),
            r == is_pending(old(self).requests.requests@, request.request_id),
            final(self).room_states@ == old(self).room_states@,
            r ==> exists|i: int|
                pending_index(old(self).requests.requests@, request.request_id, i)
                    && final(self).requests.requests@ == old(self).requests.requests@.remove(i),
            r ==> final(self).requests.handled_requests@ == old(self).requests.handled_requests@.push(
                HandledRequest {
                    tick: (now + 1) as u32,
                    request: Request {
                        request_id: request.request_id,
                        data: named_request_data(request.data, name),
                    },
                },
            ),
            !r ==> final(self).requests.requests@ == old(self).requests.requests@
                && final(self).requests.handled_requests@ == old(self).requests.handled_requests@,
    {
        let handled = with_spawned_name(&request, name);
        self.request_handled(handled, RequestHandledOpts::DelayHandleForOneTick, now)
    }

    /// The request each region takes on this tick, by region index (see `pick_request`).
    pub fn assign_requests(&self) -> (r: Vec<Option<Request>>)
        ensures
            r@.len() == self.room_states@.len(),
            forall|i: int|
                0 <= i < r@.len() ==> #[trigger] r@[i] == pick_request(
                    self.room_states@,
                    self.requests.requests@,
                    i,
                ),
    {
        let mut out: Vec<Option<Request>> = Vec::new();
        let mut i: usize = 0;
        while i < self.room_states.len()
            invariant
                i <= self.room_states.len(),
                out@.len() == i,
                forall|k: int|
                    0 <= k < i ==> #[trigger] out@[k] == pick_request(
                        self.room_states@,
                        self.requests.requests@,
                        k,
                    ),
            decreases self.room_states.len() - i,
        {
            let pick = match find_wanted(&self.room_states, &self.requests.requests, i, 0) {
                Some(q) => Some(q),
                None => match find_wanted(&self.room_states, &self.requests.requests, i, 1) {
                    Some(q) => Some(q),
                    None => find_wanted(&self.room_states, &self.requests.requests, i, 2),
                },
            };
            out.push(pick);
            i += 1;
        }
        out
    }

    /// Runs the update of region `room_index` (see `BaseState::update` and
    /// `SetupBaseState::update`). A base that turns helpless becomes a region in setup
    /// that keeps what it saw, with no helpers and no open requests.
    pub fn update_room(
        &mut self,
        room_index: usize,
        sight: Option<RoomSight>,
        alive: &Vec<ObjId>,
        now: u32,
        spawned: &Vec<SpawnedCreep>,
    ) -> (r: RoomStateChange)
        requires
            old(self).wf(),
            room_index < old(self).room_states@.len(),
        ensures
            final(self).wf(),
            final(self).room_states@.len() == old(self).room_states@.len(),
            final(self).requests == old(self).requests,
            forall|i: int|
                0 <= i < final(self).room_states@.len() ==> (#[trigger] final(self).room_states@[i]).name() == old(self).room_states@[i].name(),
            forall|i: int|
                0 <= i < final(self).room_states@.len() && i != room_index ==> (#[trigger] final(self).room_states@[i]).open_ids() == old(self).room_states@[i].open_ids(),
            r == RoomStateChange::Helpless ==> final(self).room_states@[room_index as int] is SetupBase
                && final(self).room_states@[room_index as int].open_ids().len() == 0,
            r != RoomStateChange::Helpless ==> final(self).room_states@[room_index as int].open_ids()
                == still_open(
                old(self).requests,
                now,
                old(self).room_states@[room_index as int].open_ids(),
            ),
    {
        let ghost old_rooms = self.room_states@;
        let room = self.room_states.remove(room_index);
        let visible = sight.is_some();
        let (new_room, change) = match room {
            RoomState::Base(mut b) => {
                let c = b.update(sight, alive, &self.requests, now, spawned);
                match c {
                    RoomStateChange::Helpless => {
                        let state = if visible {
                            SetupBaseStateVisibility::Visible {
                                resource_providers: b.resource_providers,
                                sources: b.sources,
                            }
                        } else {
                            SetupBaseStateVisibility::NotVisible
                        };
                        (
                            RoomState::SetupBase(
                                SetupBaseState {
                                    room_name: b.room_name,
                                    state,
                                    data: SetupBaseData {
                                        helping_citizens: Vec::new(),
                                        target_spawns: TargetSpawns::new(),
                                    },
                                    open_requests: Vec::new(),
                                    panic_countdown: None,
                                },
                            ),
                            c,
                        )
                    },
                    _ => (RoomState::Base(b), c),
                }
            },
            RoomState::SetupBase(mut s) => {
                let c = s.update(sight, alive, &self.requests, now, spawned);
                (RoomState::SetupBase(s), c)
            },
        };
        self.room_states.insert(room_index, new_room);
        proof {
            let rs = self.room_states@;
            assert(rs =~= old_rooms.update(room_index as int, new_room));
            let old_ids = old_rooms[room_index as int].open_ids();
            assert forall|x: UniqId| #[trigger] rs[room_index as int].open_ids().contains(
                x,
            ) implies old_ids.contains(x) by {
                if change != RoomStateChange::Helpless {
                    lemma_still_open_subset(self.requests, now, old_ids, x);
                }
            }
            assert forall|a: int, b: int, x: UniqId|
                0 <= a < rs.len() && 0 <= b < rs.len() && a != b && (
                #[trigger] rs[a].open_ids().contains(x)) implies !(
                #[trigger] rs[b].open_ids().contains(x)) by {
                if a == room_index {
                    assert(old_ids.contains(x));
                } else if b == room_index {
                    if rs[b].open_ids().contains(x) {
                        assert(old_ids.contains(x));
                    }
                }
            }
            assert forall|a: int, x: UniqId|
                0 <= a < rs.len() && (#[trigger] rs[a].open_ids().contains(
                    x,
                )) implies self.requests.known(x) by {
                if a == room_index {
                    assert(old_ids.contains(x));
                }
            }
        }
        change
    }
}


#[derive(Clone, Copy, Debug, PartialEq, Eq, Structural)]
pub enum ContextError {
    /// The state was asked for before it was set up.
    ContextNotInitialized,
}

/// The tick driver's state: there from the first tick on, once it is set up.
pub enum BWContext {
    Initialized(BWState),
    Initializing,
}

impl BWContext {
    pub fn initialize(&mut self, state: BWState)
        ensures
            *final(self) == BWContext::Initialized(state),
    {
        *self = BWContext::Initialized(state);
    }

    pub fn state(&self) -> (r: Result<&BWState, ContextError>)
        ensures
            *self matches BWContext::Initialized(st) ==> r == Ok::<&BWState, ContextError>(&st),
            *self is Initializing ==> r == Err::<&BWState, ContextError>(
                ContextError::ContextNotInitialized,
            ),
    {
        match self {
            BWContext::Initialized(st) => Ok(st),
            BWContext::Initializing => Err(ContextError::ContextNotInitialized),
        }
    }
}


/// The identities worth keeping open in a region being added: known to the ledger and
/// open in none of `rooms`.
pub open spec fn clear_ids(ids: Seq<UniqId>, rooms: Seq<RoomState>, l: RequestLedger) -> Seq<UniqId>
    decreases ids.len(),
{
    if ids.len() == 0 {
        Seq::empty()
    } else {
        let prev = clear_ids(ids.drop_last(), rooms, l);
        let x = ids.last();
        if l.known(x) && !(exists|a: int| 0 <= a < rooms.len() && (#[trigger] rooms[a].open_ids().contains(x))) {
            prev.push(x)
        } else {
            prev
        }
    }
}

proof fn lemma_clear_ids(ids: Seq<UniqId>, rooms: Seq<RoomState>, l: RequestLedger, x: UniqId)
    ensures
        clear_ids(ids, rooms, l).contains(x) ==> l.known(x) && forall|a: int|
            0 <= a < rooms.len() ==> !(#[trigger] rooms[a].open_ids().contains(x)),
    decreases ids.len(),
{
    if ids.len() > 0 {
        lemma_clear_ids(ids.drop_last(), rooms, l, x);
        let prev = clear_ids(ids.drop_last(), rooms, l);
        let c = clear_ids(ids, rooms, l);
        if c.contains(x) && !prev.contains(x) {
            let k = choose|k: int| 0 <= k < c.len() && c[k] == x;
            if k < prev.len() {
                assert(prev[k] == x);
            }
        }
    }
}

/// A request that stays open was open before.
pub proof fn lemma_still_open_subset(l: RequestLedger, now: u32, ids: Seq<UniqId>, x: UniqId)
    ensures
        still_open(l, now, ids).contains(x) ==> ids.contains(x),
    decreases ids.len(),
{
    if ids.len() > 0 {
        lemma_still_open_subset(l, now, ids.drop_last(), x);
        let prefix = still_open(l, now, ids.drop_last());
        if still_open(l, now, ids).contains(x) {
            if prefix.contains(x) {
                let k = choose|k: int| 0 <= k < ids.drop_last().len() && ids.drop_last()[k] == x;
                assert(ids[k] == x);
            } else {
                let s = still_open(l, now, ids);
                let k = choose|k: int| 0 <= k < s.len() && s[k] == x;
                if k < prefix.len() {
                    assert(prefix[k] == x);
                } else {
                    assert(ids[ids.len() - 1] == x);
                }
            }
        }
    }
}

/// An identity open in one region is open in no other.
pub proof fn lemma_request_open_in_one_region(st: &BWState, id: UniqId, a: int, b: int)
    requires
        st.wf(),
        0 <= a < st.room_states@.len(),
        0 <= b < st.room_states@.len(),
        a != b,
        st.room_states@[a].open_ids().contains(id),
    ensures
        !st.room_states@[b].open_ids().contains(id),
{
}

} // verus!
