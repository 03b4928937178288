use vstd::prelude::*;

use crate::jobs::{spawn_kind_of, FarmSource, OokCreepJob, TargetSpawnKind};
use crate::races::OokRaceKind;
use crate::requests::{
    Citizen, CreepName, Request, RequestData, RequestLedger, TickIds, UniqId, is_panic_request,
};
use crate::world::{ObjId, RoomName};

verus! {

/// Ticks without a farmer and a carrier after which a region panics.
pub const PANIC_THRESHOLD_TICKS: u32 = 100;

/// How many agents of each role a region wants.
#[derive(Clone, Copy, Debug, PartialEq, Eq, Structural)]
pub struct TargetSpawns {
    pub carrier: u8,
    pub farmer: u8,
    pub worker: u8,
}

impl TargetSpawns {
    pub fn new() -> (r: TargetSpawns)
        ensures
            r == (TargetSpawns { carrier: 0, farmer: 0, worker: 0 }),
    {
        TargetSpawns { carrier: 0, farmer: 0, worker: 0 }
    }
}

/// A live agent, as the region controllers see it.
#[derive(Clone, Copy, Debug, PartialEq, Eq, Structural)]
pub struct CitizenInfo {
    pub id: ObjId,
    pub race: OokRaceKind,
    pub job: OokCreepJob,
    /// Whether its current task is a run filling the spawn suppliers.
    pub filling_suppliers: bool,
}

/// An agent that was spawned under a name and now has an identity in the world.
#[derive(Clone, Copy, Debug, PartialEq, Eq, Structural)]
pub struct SpawnedCreep {
    pub name: CreepName,
    pub id: ObjId,
}

/// The part an agent (or an agent still to come) plays in a region's population.
#[derive(Clone, Copy, Debug, PartialEq, Eq, Structural)]
pub enum Role {
    Farmer(ObjId),
    Worker,
    Carrier,
    Other,
}

/// The last citizen with this identity.
pub open spec fn lookup_citizen(cs: Seq<CitizenInfo>, id: ObjId) -> Option<CitizenInfo>
    decreases cs.len(),
{
    if cs.len() == 0 {
        None
    } else if cs.last().id == id {
        Some(cs.last())
    } else {
        lookup_citizen(cs.drop_last(), id)
    }
}

pub open spec fn citizen_role(c: Option<CitizenInfo>) -> Role {
    match c {
        Some(c) => if c.race == OokRaceKind::Worker {
            match c.job {
                OokCreepJob::FarmSource(f) => Role::Farmer(f.target_source),
                _ => Role::Worker,
            }
        } else if c.race == OokRaceKind::Carrier {
            Role::Carrier
        } else {
            Role::Other
        },
        None => Role::Other,
    }
}

/// The role that an open request of the region `room` will fill.
pub open spec fn request_role(d: RequestData, room: RoomName) -> Role {
    match d {
        RequestData::BootstrapWorkerCitizen(b) => if b.target_room_name == room {
            Role::Worker
        } else {
            Role::Other
        },
        RequestData::Citizen(c) => match c.initial_job {
            OokCreepJob::FarmSource(f) => Role::Farmer(f.target_source),
            _ => if c.target_room_name == room {
                match spawn_kind_of(c.initial_job) {
                    TargetSpawnKind::Carrier => Role::Carrier,
                    TargetSpawnKind::Worker => Role::Worker,
                    TargetSpawnKind::Farmer => Role::Other,
                }
            } else {
                Role::Other
            },
        },
    }
}

pub open spec fn helper_roles(cs: Seq<CitizenInfo>, helpers: Seq<ObjId>) -> Seq<Role> {
    helpers.map_values(|id: ObjId| citizen_role(lookup_citizen(cs, id)))
}

pub open spec fn open_role(l: RequestLedger, id: UniqId, room: RoomName, panic_only: bool) -> Role {
    match l.current_or_old(id) {
        Some(found) => if panic_only && !is_panic_request(found.0.data) {
            Role::Other
        } else {
            request_role(found.0.data, room)
        },
        None => Role::Other,
    }
}

pub open spec fn open_roles(l: RequestLedger, ids: Seq<UniqId>, room: RoomName, panic_only: bool) -> Seq<
    Role,
> {
    ids.map_values(|id: UniqId| open_role(l, id, room, panic_only))
}

/// The roles of a region's helpers and of its open requests.
pub open spec fn population_roles(
    cs: Seq<CitizenInfo>,
    helpers: Seq<ObjId>,
    l: RequestLedger,
    open: Seq<UniqId>,
    room: RoomName,
    panic_only: bool,
) -> Seq<Role> {
    helper_roles(cs, helpers) + open_roles(l, open, room, panic_only)
}

pub open spec fn count_role(roles: Seq<Role>, r: Role) -> nat
    decreases roles.len(),
{
    if roles.len() == 0 {
        0
    } else {
        count_role(roles.drop_last(), r) + if roles.last() == r {
            1nat
        } else {
            0nat
        }
    }
}

pub open spec fn farms(roles: Seq<Role>, source: ObjId) -> bool {
    exists|i: int| 0 <= i < roles.len() && roles[i] == Role::Farmer(source)
}

pub open spec fn has_farmer(roles: Seq<Role>) -> bool {
    exists|i: int| 0 <= i < roles.len() && roles[i] is Farmer
}

/// The first source that no farmer, present or requested, works.
pub open spec fn first_unfarmed(sources: Seq<ObjId>, roles: Seq<Role>) -> Option<ObjId>
    decreases sources.len(),
{
    if sources.len() == 0 {
        None
    } else {
        match first_unfarmed(sources.drop_last(), roles) {
            Some(s) => Some(s),
            None => if farms(roles, sources.last()) {
                None
            } else {
                Some(sources.last())
            },
        }
    }
}

pub open spec fn citizen_request(room: RoomName, job: OokCreepJob, panic: bool) -> RequestData {
    RequestData::Citizen(
        Citizen {
            target_room_name: room,
            spawning_creep_name: None,
            initial_job: job,
            resolve_panic: panic,
        },
    )
}

/// The requests a region makes to reach its target population: a farmer for the first
/// unworked source, a carrier while carriers are short, and a worker only while workers
/// are short and neither farmers nor carriers are.
pub open spec fn population_plan(
    room: RoomName,
    targets: TargetSpawns,
    sources: Seq<ObjId>,
    roles: Seq<Role>,
) -> Seq<RequestData> {
    let farm = first_unfarmed(sources, roles);
    let carrier_short = count_role(roles, Role::Carrier) < targets.carrier;
    let worker_short = count_role(roles, Role::Worker) < targets.worker;
    let s1 = match farm {
        Some(src) => seq![
            citizen_request(
                room,
                OokCreepJob::FarmSource(FarmSource { target_room: room, target_source: src }),
                false,
            ),
        ],
        None => Seq::empty(),
    };
    let s2 = if carrier_short {
        s1.push(citizen_request(room, OokCreepJob::RoomLogistics { target_room: room }, false))
    } else {
        s1
    };
    if worker_short && farm is None && !carrier_short {
        s2.push(citizen_request(room, OokCreepJob::BootstrapRoom { target_room: room }, false))
    } else {
        s2
    }
}

/// The requests of a panicking region: a farmer for its first source and a carrier,
/// each unless one is present or already asked for with panic.
pub open spec fn panic_plan(room: RoomName, sources: Seq<ObjId>, roles: Seq<Role>) -> Seq<
    RequestData,
> {
    let s1 = if !has_farmer(roles) && sources.len() > 0 {
        seq![
            citizen_request(
                room,
                OokCreepJob::FarmSource(FarmSource { target_room: room, target_source: sources[0] }),
                true,
            ),
        ]
    } else {
        Seq::empty()
    };
    if count_role(roles, Role::Carrier) == 0 {
        s1.push(citizen_request(room, OokCreepJob::RoomLogistics { target_room: room }, true))
    } else {
        s1
    }
}


/// A panicking region with no farmer and no carrier, present or asked for with panic,
/// and a known source asks for exactly a farmer of its first source and a carrier, both
/// resolving the panic.
pub proof fn lemma_panic_asks_for_farmer_and_carrier(room: RoomName, sources: Seq<ObjId>, roles: Seq<Role>)
    requires
        sources.len() > 0,
        !has_farmer(roles),
        count_role(roles, Role::Carrier) == 0,
    ensures
        panic_plan(room, sources, roles) == seq![
            citizen_request(
                room,
                OokCreepJob::FarmSource(FarmSource { target_room: room, target_source: sources[0] }),
                true,
            ),
            citizen_request(room, OokCreepJob::RoomLogistics { target_room: room }, true),
        ],
{
    assert(panic_plan(room, sources, roles) =~= seq![
        citizen_request(
            room,
            OokCreepJob::FarmSource(FarmSource { target_room: room, target_source: sources[0] }),
            true,
        ),
        citizen_request(room, OokCreepJob::RoomLogistics { target_room: room }, true),
    ]);
}

/// The panic counter after one more tick: cleared once a farmer and a carrier are both
/// present, otherwise started or raised until it passes `limit`.
pub open spec fn next_panic_countdown(c: Option<u32>, farmer: bool, carrier: bool, limit: u32) -> Option<
    u32,
> {
    if farmer && carrier {
        None
    } else {
        match c {
            Some(n) => if n <= limit {
                Some((n + 1) as u32)
            } else {
                Some(n)
            },
            None => Some(1),
        }
    }
}

pub open spec fn spawn_name(d: RequestData) -> Option<CreepName> {
    match d {
        RequestData::BootstrapWorkerCitizen(b) => b.spawning_creep_name,
        RequestData::Citizen(c) => c.spawning_creep_name,
    }
}

/// An open request is closed when it was resolved at `now` with the name of the agent
/// spawned for it.
pub open spec fn closes(l: RequestLedger, now: u32, id: UniqId) -> bool {
    match l.current_or_old(id) {
        Some(found) => found.1 == Some(now) && spawn_name(found.0.data) is Some,
        None => false,
    }
}

pub open spec fn still_open(l: RequestLedger, now: u32, ids: Seq<UniqId>) -> Seq<UniqId>
    decreases ids.len(),
{
    if ids.len() == 0 {
        Seq::empty()
    } else if closes(l, now, ids.last()) {
        still_open(l, now, ids.drop_last())
    } else {
        still_open(l, now, ids.drop_last()).push(ids.last())
    }
}

/// The last spawned agent with this name.
pub open spec fn lookup_spawned(s: Seq<SpawnedCreep>, name: CreepName) -> Option<ObjId>
    decreases s.len(),
{
    if s.len() == 0 {
        None
    } else if s.last().name == name {
        Some(s.last().id)
    } else {
        lookup_spawned(s.drop_last(), name)
    }
}

/// The agents that the requests closed at `now` brought, in the order of the requests.
pub open spec fn new_helpers(
    l: RequestLedger,
    now: u32,
    ids: Seq<UniqId>,
    spawned: Seq<SpawnedCreep>,
) -> Seq<ObjId>
    decreases ids.len(),
{
    if ids.len() == 0 {
        Seq::empty()
    } else {
        let prefix = new_helpers(l, now, ids.drop_last(), spawned);
        if closes(l, now, ids.last()) {
            match lookup_spawned(
                spawned,
                spawn_name(l.current_or_old(ids.last())->Some_0.0.data)->Some_0,
            ) {
                Some(id) => prefix.push(id),
                None => prefix,
            }
        } else {
            prefix
        }
    }
}

pub open spec fn keep_alive(helpers: Seq<ObjId>, alive: Seq<ObjId>) -> Seq<ObjId>
    decreases helpers.len(),
{
    if helpers.len() == 0 {
        Seq::empty()
    } else if alive.contains(helpers.last()) {
        keep_alive(helpers.drop_last(), alive).push(helpers.last())
    } else {
        keep_alive(helpers.drop_last(), alive)
    }
}

pub(crate) fn find_citizen(cs: &Vec<CitizenInfo>, id: ObjId) -> (r: Option<CitizenInfo>)
    ensures
        r == lookup_citizen(cs@, id),
{
    let mut found: Option<CitizenInfo> = None;
    let mut i: usize = 0;
    while i < cs.len()
        invariant
            i <= cs.len(),
            found == lookup_citizen(cs@.take(i as int), id),
        decreases cs.len() - i,
    {
        assert(cs@.take(i + 1).drop_last() == cs@.take(i as int));
        if cs[i].id == id {
            found = Some(cs[i]);
        }
        i += 1;
    }
    assert(cs@.take(cs.len() as int) == cs@);
    found
}

fn role_of_citizen(c: Option<CitizenInfo>) -> (r: Role)
    ensures
        r == citizen_role(c),
{
    match c {
        Some(c) => match c.race {
            OokRaceKind::Worker => match c.job {
                OokCreepJob::FarmSource(f) => Role::Farmer(f.target_source),
                _ => Role::Worker,
            },
            OokRaceKind::Carrier => Role::Carrier,
            _ => Role::Other,
        },
        None => Role::Other,
    }
}

fn role_of_request(d: &RequestData, room: RoomName) -> (r: Role)
    ensures
        r == request_role(*d, room),
{
    match d {
        RequestData::BootstrapWorkerCitizen(b) => {
            if b.target_room_name == room {
                Role::Worker
            } else {
                Role::Other
            }
        },
        RequestData::Citizen(c) => match c.initial_job {
            OokCreepJob::FarmSource(f) => Role::Farmer(f.target_source),
            _ => {
                if c.target_room_name == room {
                    match TargetSpawnKind::from_job(&c.initial_job) {
                        TargetSpawnKind::Carrier => Role::Carrier,
                        TargetSpawnKind::Worker => Role::Worker,
                        TargetSpawnKind::Farmer => Role::Other,
                    }
                } else {
                    Role::Other
                }
            },
        },
    }
}

/// The roles of a region's helpers followed by those of its open requests (with
/// `panic_only`, requests that do not resolve a panic count for nothing).
pub fn get_population_roles(
    citizens: &Vec<CitizenInfo>,
    helpers: &Vec<ObjId>,
    ledger: &RequestLedger,
    open: &Vec<UniqId>,
    room: RoomName,
    panic_only: bool,
) -> (r: Vec<Role>)
    requires
        ledger.wf(),
    ensures
        r@ == population_roles(citizens@, helpers@, *ledger, open@, room, panic_only),
{
    let mut out: Vec<Role> = Vec::new();
    let mut i: usize = 0;
    while i < helpers.len()
        invariant
            i <= helpers.len(),
            out@ == helper_roles(citizens@, helpers@.take(i as int)),
        decreases helpers.len() - i,
    {
        let c = find_citizen(citizens, helpers[i]);
        out.push(role_of_citizen(c));
        assert(helper_roles(citizens@, helpers@.take(i + 1)) =~= helper_roles(
            citizens@,
            helpers@.take(i as int),
        ).push(citizen_role(lookup_citizen(citizens@, helpers@[i as int]))));
        i += 1;
    }
    assert(helpers@.take(helpers.len() as int) == helpers@);
    let ghost hr = out@;
    let mut j: usize = 0;
    while j < open.len()
        invariant
            ledger.wf(),
            j <= open.len(),
            hr == helper_roles(citizens@, helpers@),
            out@ == hr + open_roles(*ledger, open@.take(j as int), room, panic_only),
        decreases open.len() - j,
    {
        let role = match ledger.get_current_or_old_request(open[j]) {
            Some(found) => {
                if panic_only && !(match found.0.data {
                    RequestData::Citizen(c) => c.resolve_panic,
                    _ => false,
                }) {
                    Role::Other
                } else {
                    role_of_request(&found.0.data, room)
                }
            },
            None => Role::Other,
        };
        out.push(role);
        assert(open_roles(*ledger, open@.take(j + 1), room, panic_only) =~= open_roles(
            *ledger,
            open@.take(j as int),
            room,
            panic_only,
        ).push(open_role(*ledger, open@[j as int], room, panic_only)));
        j += 1;
    }
    assert(open@.take(open.len() as int) == open@);
    out
}

pub fn count_roles(roles: &Vec<Role>, role: Role) -> (r: u64)
    ensures
        r == count_role(roles@, role),
{
    let mut n: u64 = 0;
    let mut i: usize = 0;
    while i < roles.len()
        invariant
            i <= roles.len(),
            n == count_role(roles@.take(i as int), role),
            n <= i,
        decreases roles.len() - i,
    {
        assert(roles@.take(i + 1).drop_last() == roles@.take(i as int));
        if roles[i] == role {
            n = n + 1;
        }
        i += 1;
    }
    assert(roles@.take(roles.len() as int) == roles@);
    n
}

fn farms_source(roles: &Vec<Role>, source: ObjId) -> (r: bool)
    ensures
        r == farms(roles@, source),
{
    let mut i: usize = 0;
    while i < roles.len()
        invariant
            i <= roles.len(),
            forall|j: int| 0 <= j < i ==> roles@[j] != Role::Farmer(source),
        decreases roles.len() - i,
    {
        if roles[i] == Role::Farmer(source) {
            return true;
        }
        i += 1;
    }
    false
}

pub(crate) fn any_farmer(roles: &Vec<Role>) -> (r: bool)
    ensures
        r == has_farmer(roles@),
{
    let mut i: usize = 0;
    while i < roles.len()
        invariant
            i <= roles.len(),
            forall|j: int| 0 <= j < i ==> !(roles@[j] is Farmer),
        decreases roles.len() - i,
    {
        if let Role::Farmer(_) = roles[i] {
            return true;
        }
        i += 1;
    }
    false
}

fn find_unfarmed(sources: &Vec<ObjId>, roles: &Vec<Role>) -> (r: Option<ObjId>)
    ensures
        r == first_unfarmed(sources@, roles@),
{
    let mut found: Option<ObjId> = None;
    let mut i: usize = 0;
    while i < sources.len()
        invariant
            i <= sources.len(),
            found == first_unfarmed(sources@.take(i as int), roles@),
        decreases sources.len() - i,
    {
        assert(sources@.take(i + 1).drop_last() == sources@.take(i as int));
        if found.is_none() && !farms_source(roles, sources[i]) {
            found = Some(sources[i]);
        }
        i += 1;
    }
    assert(sources@.take(sources.len() as int) == sources@);
    found
}

fn citizen_req(room: RoomName, job: OokCreepJob, panic: bool) -> (r: RequestData)
    ensures
        r == citizen_request(room, job, panic),
{
    RequestData::Citizen(
        Citizen {
            target_room_name: room,
            spawning_creep_name: None,
            initial_job: job,
            resolve_panic: panic,
        },
    )
}

/// What a region asks for to reach its target population, given the roles of its
/// helpers and open requests.
pub fn plan_population(room: RoomName, targets: TargetSpawns, sources: &Vec<ObjId>, roles: &Vec<Role>) -> (r:
    Vec<RequestData>)
    ensures
        r@ == population_plan(room, targets, sources@, roles@),
{
    let farm = find_unfarmed(sources, roles);
    let carrier_short = count_roles(roles, Role::Carrier) < targets.carrier as u64;
    let worker_short = count_roles(roles, Role::Worker) < targets.worker as u64;
    let mut out: Vec<RequestData> = Vec::new();
    match farm {
        Some(src) => {
            out.push(
                citizen_req(
                    room,
                    OokCreepJob::FarmSource(FarmSource { target_room: room, target_source: src }),
                    false,
                ),
            );
        },
        None => {},
    }
    if carrier_short {
        out.push(citizen_req(room, OokCreepJob::RoomLogistics { target_room: room }, false));
    }
    if worker_short && farm.is_none() && !carrier_short {
        out.push(citizen_req(room, OokCreepJob::BootstrapRoom { target_room: room }, false));
    }
    proof {
        let p = population_plan(room, targets, sources@, roles@);
        assert(out@ =~= p);
    }
    out
}

/// What a panicking region asks for, given the roles of its helpers and of its open
/// requests that resolve a panic.
pub fn plan_panic(room: RoomName, sources: &Vec<ObjId>, roles: &Vec<Role>) -> (r: Vec<RequestData>)
    ensures
        r@ == panic_plan(room, sources@, roles@),
{
    let mut out: Vec<RequestData> = Vec::new();
    if !any_farmer(roles) && sources.len() > 0 {
        out.push(
            citizen_req(
                room,
                OokCreepJob::FarmSource(FarmSource { target_room: room, target_source: sources[0] }),
                true,
            ),
        );
    }
    if count_roles(roles, Role::Carrier) == 0 {
        out.push(citizen_req(room, OokCreepJob::RoomLogistics { target_room: room }, true));
    }
    proof {
        assert(out@ =~= panic_plan(room, sources@, roles@));
    }
    out
}

/// Gives each planned request a fresh identity, in order.
pub fn issue_requests(plan: Vec<RequestData>, ids: &mut TickIds) -> (r: Vec<Request>)
    requires
        old(ids).next + plan@.len() <= u32::MAX,
    ensures
        r@.len() == plan@.len(),
        forall|i: int|
            0 <= i < r@.len() ==> (#[trigger] r@[i]).data == plan@[i] && r@[i].request_id == (
            UniqId { tick: old(ids).tick, seq: (old(ids).next + i) as u32 }),
        final(ids).tick == old(ids).tick,
        final(ids).next == old(ids).next + plan@.len(),
{
    let mut out: Vec<Request> = Vec::new();
    let mut i: usize = 0;
    while i < plan.len()
        invariant
            i <= plan@.len(),
            old(ids).next + plan@.len() <= u32::MAX,
            ids.tick == old(ids).tick,
            ids.next == old(ids).next + i,
            out@.len() == i,
            forall|k: int|
                0 <= k < i ==> (#[trigger] out@[k]).data == plan@[k] && out@[k].request_id == (
                UniqId { tick: old(ids).tick, seq: (old(ids).next + k) as u32 }),
        decreases plan@.len() - i,
    {
        let q = Request::new(plan[i], ids);
        out.push(q);
        i += 1;
    }
    out
}

/// Advances a panic counter by one tick; the counter passes `limit` by one at most.
pub fn advance_panic_countdown(c: Option<u32>, farmer: bool, carrier: bool, limit: u32) -> (r: Option<
    u32,
>)
    requires
        limit < u32::MAX,
    ensures
        r == next_panic_countdown(c, farmer, carrier, limit),
{
    if farmer && carrier {
        None
    } else {
        match c {
            Some(n) => {
                if n <= limit {
                    Some(n + 1)
                } else {
                    Some(n)
                }
            },
            None => Some(1),
        }
    }
}

fn find_spawned(s: &Vec<SpawnedCreep>, name: CreepName) -> (r: Option<ObjId>)
    ensures
        r == lookup_spawned(s@, name),
{
    let mut found: Option<ObjId> = None;
    let mut i: usize = 0;
    while i < s.len()
        invariant
            i <= s.len(),
            found == lookup_spawned(s@.take(i as int), name),
        decreases s.len() - i,
    {
        assert(s@.take(i + 1).drop_last() == s@.take(i as int));
        if s[i].name == name {
            found = Some(s[i].id);
        }
        i += 1;
    }
    assert(s@.take(s.len() as int) == s@);
    found
}

/// Closes the open requests that were resolved at `now` with a spawned agent, and
/// records the agents they brought as helpers. Other open requests stay open.
pub fn close_handled_requests(
    open: &mut Vec<UniqId>,
    helpers: &mut Vec<ObjId>,
    ledger: &RequestLedger,
    now: u32,
    spawned: &Vec<SpawnedCreep>,
)
    requires
        ledger.wf(),
    ensures
        final(open)@ == still_open(*ledger, now, old(open)@),
        final(helpers)@ == old(helpers)@ + new_helpers(*ledger, now, old(open)@, spawned@),
{
    let mut kept: Vec<UniqId> = Vec::new();
    let mut i: usize = 0;
    let ghost h0 = helpers@;
    while i < open.len()
        invariant
            ledger.wf(),
            i <= open.len(),
            kept@ == still_open(*ledger, now, open@.take(i as int)),
            helpers@ == h0 + new_helpers(*ledger, now, open@.take(i as int), spawned@),
        decreases open.len() - i,
    {
        let id = open[i];
        assert(open@.take(i + 1).drop_last() == open@.take(i as int));
        assert(open@.take(i + 1).last() == id);
        let mut closing = false;
        match ledger.get_current_or_old_request(id) {
            Some(found) => {
                let name = match found.0.data {
                    RequestData::BootstrapWorkerCitizen(b) => b.spawning_creep_name,
                    RequestData::Citizen(c) => c.spawning_creep_name,
                };
                if found.1 == Some(now) {
                    match name {
                        Some(n) => {
                            closing = true;
                            match find_spawned(spawned, n) {
                                Some(cid) => {
                                    helpers.push(cid);
                                },
                                None => {},
                            }
                        },
                        None => {},
                    }
                }
            },
            None => {},
        }
        if !closing {
            kept.push(id);
        }
        proof {
            assert(helpers@ =~= h0 + new_helpers(*ledger, now, open@.take(i + 1), spawned@));
        }
        i += 1;
    }
    assert(open@.take(open.len() as int) == open@);
    *open = kept;
}

/// Drops the helpers that are no longer alive.
pub fn retain_alive(helpers: &mut Vec<ObjId>, alive: &Vec<ObjId>)
    ensures
        final(helpers)@ == keep_alive(old(helpers)@, alive@),
{
    let mut kept: Vec<ObjId> = Vec::new();
    let mut i: usize = 0;
    while i < helpers.len()
        invariant
            i <= helpers.len(),
            kept@ == keep_alive(helpers@.take(i as int), alive@),
        decreases helpers.len() - i,
    {
        assert(helpers@.take(i + 1).drop_last() == helpers@.take(i as int));
        if contains_id(alive, helpers[i]) {
            kept.push(helpers[i]);
        }
        i += 1;
    }
    assert(helpers@.take(helpers.len() as int) == helpers@);
    *helpers = kept;
}

pub fn contains_id(v: &Vec<ObjId>, id: ObjId) -> (r: bool)
    ensures
        r == v@.contains(id),
{
    let mut i: usize = 0;
    while i < v.len()
        invariant
            i <= v.len(),
            forall|j: int| 0 <= j < i ==> v@[j] != id,
        decreases v.len() - i,
    {
        if v[i] == id {
            assert(v@[i as int] == id);
            return true;
        }
        i += 1;
    }
    false
}

} // verus!
