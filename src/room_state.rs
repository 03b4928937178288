use vstd::prelude::*;

use crate::provider::ResourceProvider;
use crate::region::{
    CitizenInfo, Role, SpawnedCreep, TargetSpawns, PANIC_THRESHOLD_TICKS, advance_panic_countdown,
    any_farmer, close_handled_requests, count_role, count_roles, find_citizen,
    get_population_roles, has_farmer, helper_roles, issue_requests, keep_alive, lookup_citizen,
    new_helpers, next_panic_countdown, plan_population, population_plan, population_roles,
    retain_alive, still_open, panic_plan, plan_panic,
};
use crate::requests::RequestData;
use crate::requests::{Request, RequestLedger, TickIds, UniqId};
use crate::world::{ObjId, RoomName};

verus! {

#[derive(Clone, Copy, Debug, PartialEq, Eq, Structural)]
pub enum RoomStateKind {
    Base,
    SetupBase,
}

pub open spec fn room_state_kind_code(k: RoomStateKind) -> i32 {
    match k {
        RoomStateKind::Base => 0,
        RoomStateKind::SetupBase => 1,
    }
}

impl RoomStateKind {
    pub fn code(&self) -> (r: i32)
        ensures
            r == room_state_kind_code(*self),
    {
        match self {
            RoomStateKind::Base => 0,
            RoomStateKind::SetupBase => 1,
        }
    }
}

/// What a region's state machine asks of its owner after an update.
#[derive(Clone, Copy, Debug, PartialEq, Eq, Structural)]
pub enum RoomStateChange {
    /// The region has finished its setup.
    FinishSetup,
    /// The region can no longer spawn and needs help.
    Helpless,
    Unchanged,
}

#[derive(Clone, Copy, Debug, PartialEq, Eq, Structural)]
pub enum RoomStateError {
    MissingStateKind,
    WrongStateKind(i32),
    MissingRoomName,
}

/// The persisted fields of a region, as read back at the start of a tick.
#[derive(Clone, Debug, PartialEq, Eq)]
pub struct RoomMemory {
    pub state_kind: Option<i32>,
    pub room_name: Option<RoomName>,
    pub target_spawns: Option<TargetSpawns>,
    pub helping_citizens: Vec<ObjId>,
    pub open_requests: Vec<UniqId>,
    pub panic_countdown: Option<u32>,
}

/// What is seen of a region this tick, when it is visible.
pub struct RoomSight {
    pub resource_providers: Vec<ResourceProvider>,
    pub sources: Vec<ObjId>,
    pub spawn_count: u32,
}

/// The room name and targets after reading persisted fields: only the targets are
/// taken over, and only when present; the helpers stay as they are.
pub open spec fn memory_update(
    kind: RoomStateKind,
    name: RoomName,
    targets: TargetSpawns,
    mem: RoomMemory,
) -> Result<(RoomName, TargetSpawns), RoomStateError> {
    match mem.state_kind {
        None => Err(RoomStateError::MissingStateKind),
        Some(k) => if k != room_state_kind_code(kind) {
            Err(RoomStateError::WrongStateKind(k))
        } else {
            match mem.room_name {
                None => Err(RoomStateError::MissingRoomName),
                Some(n) => Ok(
                    (
                        n,
                        match mem.target_spawns {
                            Some(t) => t,
                            None => targets,
                        },
                    ),
                ),
            }
        },
    }
}

fn apply_memory(kind: RoomStateKind, name: RoomName, targets: TargetSpawns, mem: &RoomMemory) -> (r:
    Result<(RoomName, TargetSpawns), RoomStateError>)
    ensures
        r == memory_update(kind, name, targets, *mem),
{
    match mem.state_kind {
        None => Err(RoomStateError::MissingStateKind),
        Some(k) => {
            if k != kind.code() {
                Err(RoomStateError::WrongStateKind(k))
            } else {
                match mem.room_name {
                    None => Err(RoomStateError::MissingRoomName),
                    Some(n) => Ok(
                        (
                            n,
                            match mem.target_spawns {
                                Some(t) => t,
                                None => targets,
                            },
                        ),
                    ),
                }
            }
        },
    }
}

/// Reading the same persisted fields a second time changes nothing more: the update
/// overwrites, it does not add.
pub proof fn lemma_memory_update_idempotent(
    kind: RoomStateKind,
    name: RoomName,
    targets: TargetSpawns,
    mem: RoomMemory,
)
    ensures
        memory_update(kind, name, targets, mem) matches Ok(once) ==> memory_update(
            kind,
            once.0,
            once.1,
            mem,
        ) == Ok::<(RoomName, TargetSpawns), RoomStateError>(once),
        memory_update(kind, name, targets, mem) is Err ==> memory_update(kind, name, targets, mem)
            == memory_update(kind, name, targets, mem),
{
}

fn copy_ids(v: &Vec<ObjId>) -> (r: Vec<ObjId>)
    ensures
        r@ == v@,
{
    let mut out: Vec<ObjId> = Vec::new();
    let mut i: usize = 0;
    while i < v.len()
        invariant
            i <= v.len(),
            out@ == v@.take(i as int),
        decreases v.len() - i,
    {
        out.push(v[i]);
        assert(v@.take(i + 1) =~= v@.take(i as int).push(v@[i as int]));
        i += 1;
    }
    assert(v@.take(v.len() as int) == v@);
    out
}


fn copy_uniq_ids(v: &Vec<UniqId>) -> (r: Vec<UniqId>)
    ensures
        r@ == v@,
{
    let mut out: Vec<UniqId> = Vec::new();
    let mut i: usize = 0;
    while i < v.len()
        invariant
            i <= v.len(),
            out@ == v@.take(i as int),
        decreases v.len() - i,
    {
        out.push(v[i]);
        assert(v@.take(i + 1) =~= v@.take(i as int).push(v@[i as int]));
        i += 1;
    }
    assert(v@.take(v.len() as int) =~= v@);
    out
}

/// Reads the kind and name of persisted fields: an error when either is missing or the
/// kind is not `kind`.
pub open spec fn memory_identity(kind: RoomStateKind, mem: RoomMemory) -> Result<RoomName, RoomStateError> {
    match mem.state_kind {
        None => Err(RoomStateError::MissingStateKind),
        Some(k) => if k != room_state_kind_code(kind) {
            Err(RoomStateError::WrongStateKind(k))
        } else {
            match mem.room_name {
                None => Err(RoomStateError::MissingRoomName),
                Some(n) => Ok(n),
            }
        },
    }
}

fn read_identity(kind: RoomStateKind, mem: &RoomMemory) -> (r: Result<RoomName, RoomStateError>)
    ensures
        r == memory_identity(kind, *mem),
{
    match mem.state_kind {
        None => Err(RoomStateError::MissingStateKind),
        Some(k) => {
            if k != kind.code() {
                Err(RoomStateError::WrongStateKind(k))
            } else {
                match mem.room_name {
                    None => Err(RoomStateError::MissingRoomName),
                    Some(n) => Ok(n),
                }
            }
        },
    }
}

/// The persisted part of a base.
pub struct BaseData {
    pub helping_citizens: Vec<ObjId>,
    pub target_spawns: TargetSpawns,
    /// Agents filling the spawn suppliers right now.
    pub supplier_fillers: Vec<ObjId>,
}

/// A region in full operation.
pub struct BaseState {
    pub room_name: RoomName,
    pub resource_providers: Vec<ResourceProvider>,
    pub sources: Vec<ObjId>,
    pub data: BaseData,
    /// The requests of this region that are not closed yet, so it does not ask twice.
    pub open_requests: Vec<UniqId>,
    pub panic_countdown: Option<u32>,
}

/// Keeps the fillers that are carriers still running a supplies run.
pub open spec fn active_fillers(cs: Seq<CitizenInfo>, fillers: Seq<ObjId>) -> Seq<ObjId>
    decreases fillers.len(),
{
    if fillers.len() == 0 {
        Seq::empty()
    } else {
        let prefix = active_fillers(cs, fillers.drop_last());
        match lookup_citizen(cs, fillers.last()) {
            Some(c) => if c.race == crate::races::OokRaceKind::Carrier && c.filling_suppliers {
                prefix.push(fillers.last())
            } else {
                prefix
            },
            None => prefix,
        }
    }
}

pub open spec fn without_id(v: Seq<ObjId>, id: ObjId) -> Seq<ObjId>
    decreases v.len(),
{
    if v.len() == 0 {
        Seq::empty()
    } else if v.last() == id {
        without_id(v.drop_last(), id)
    } else {
        without_id(v.drop_last(), id).push(v.last())
    }
}

impl BaseState {
    pub fn new(room_name: RoomName, sight: RoomSight) -> (r: BaseState)
        ensures
            r.room_name == room_name,
            r.resource_providers@ == sight.resource_providers@,
            r.sources@ == sight.sources@,
            r.data.helping_citizens@.len() == 0,
            r.data.supplier_fillers@.len() == 0,
            r.data.target_spawns == (TargetSpawns { carrier: 0, farmer: 0, worker: 0 }),
            r.open_requests@.len() == 0,
            r.panic_countdown is None,
    {
        BaseState {
            room_name,
            resource_providers: sight.resource_providers,
            sources: sight.sources,
            data: BaseData {
                helping_citizens: Vec::new(),
                target_spawns: TargetSpawns::new(),
                supplier_fillers: Vec::new(),
            },
            open_requests: Vec::new(),
            panic_countdown: None,
        }
    }

    pub open spec fn roles(&self, cs: Seq<CitizenInfo>, l: RequestLedger) -> Seq<Role> {
        population_roles(cs, self.data.helping_citizens@, l, self.open_requests@, self.room_name, false)
    }

    /// The requests that bring the base towards its target population.
    pub fn spawn_citizens_up_to_target(
        &self,
        citizens: &Vec<CitizenInfo>,
        ledger: &RequestLedger,
        ids: &mut TickIds,
    ) -> (r: Vec<Request>)
        requires
            ledger.wf(),
            old(ids).next + 3 <= u32::MAX,
        ensures
            r@.map_values(|q: Request| q.data) == population_plan(
                self.room_name,
                self.data.target_spawns,
                self.sources@,
                self.roles(citizens@, *ledger),
            ),
            forall|i: int|
                0 <= i < r@.len() ==> (#[trigger] r@[i]).request_id == (UniqId {
                    tick: old(ids).tick,
                    seq: (old(ids).next + i) as u32,
                }),
            final(ids).tick == old(ids).tick,
            final(ids).next == old(ids).next + r@.len(),
    {
        let roles = get_population_roles(
            citizens,
            &self.data.helping_citizens,
            ledger,
            &self.open_requests,
            self.room_name,
            false,
        );
        let plan = plan_population(self.room_name, self.data.target_spawns, &self.sources, &roles);
        let ghost p = plan@;
        let r = issue_requests(plan, ids);
        assert(r@.map_values(|q: Request| q.data) =~= p);
        r
    }

    /// The base's read pass: the requests it proposes this tick. Nothing is changed.
    pub fn run(&self, citizens: &Vec<CitizenInfo>, ledger: &RequestLedger, ids: &mut TickIds) -> (r:
        Vec<Request>)
        requires
            ledger.wf(),
            old(ids).next + 3 <= u32::MAX,
        ensures
            r@.map_values(|q: Request| q.data) == population_plan(
                self.room_name,
                self.data.target_spawns,
                self.sources@,
                self.roles(citizens@, *ledger),
            ),
            forall|i: int|
                0 <= i < r@.len() ==> (#[trigger] r@[i]).request_id == (UniqId {
                    tick: old(ids).tick,
                    seq: (old(ids).next + i) as u32,
                }),
            final(ids).tick == old(ids).tick,
            final(ids).next == old(ids).next + r@.len(),
    {
        self.spawn_citizens_up_to_target(citizens, ledger, ids)
    }

    /// Updates the panic counter from the helpers present: it runs while a farmer or a
    /// carrier is missing, up to the threshold.
    pub fn check_room_status(&mut self, citizens: &Vec<CitizenInfo>)
        ensures
            ({
                let roles = helper_roles(citizens@, old(self).data.helping_citizens@);
                final(self).panic_countdown == next_panic_countdown(
                    old(self).panic_countdown,
                    has_farmer(roles),
                    count_role(roles, Role::Carrier) > 0,
                    (PANIC_THRESHOLD_TICKS - 1) as u32,
                )
            }),
            final(self).data.helping_citizens@ == old(self).data.helping_citizens@,
            final(self).open_requests@ == old(self).open_requests@,
            final(self).room_name == old(self).room_name,
    {
        let empty_ledger = RequestLedger::new();
        let empty_open: Vec<UniqId> = Vec::new();
        let roles = get_population_roles(
            citizens,
            &self.data.helping_citizens,
            &empty_ledger,
            &empty_open,
            self.room_name,
            false,
        );
        assert(roles@ =~= helper_roles(citizens@, self.data.helping_citizens@));
        let farmer = any_farmer(&roles);
        let carrier = count_roles(&roles, Role::Carrier) > 0;
        self.panic_countdown = advance_panic_countdown(
            self.panic_countdown,
            farmer,
            carrier,
            PANIC_THRESHOLD_TICKS - 1,
        );
    }

    /// Keeps as supplier fillers only the carriers that still run a supplies run.
    pub fn check_supplier_fillers(&mut self, citizens: &Vec<CitizenInfo>)
        ensures
            final(self).data.supplier_fillers@ == active_fillers(
                citizens@,
                old(self).data.supplier_fillers@,
            ),
            final(self).data.helping_citizens@ == old(self).data.helping_citizens@,
            final(self).open_requests@ == old(self).open_requests@,
            final(self).room_name == old(self).room_name,
    {
        let mut kept: Vec<ObjId> = Vec::new();
        let mut i: usize = 0;
        while i < self.data.supplier_fillers.len()
            invariant
                i <= self.data.supplier_fillers.len(),
                self.data.supplier_fillers@ == old(self).data.supplier_fillers@,
                kept@ == active_fillers(citizens@, self.data.supplier_fillers@.take(i as int)),
            decreases self.data.supplier_fillers.len() - i,
        {
            let id = self.data.supplier_fillers[i];
            assert(self.data.supplier_fillers@.take(i + 1).drop_last()
                == self.data.supplier_fillers@.take(i as int));
            match find_citizen(citizens, id) {
                Some(c) => {
                    if c.race == crate::races::OokRaceKind::Carrier && c.filling_suppliers {
                        kept.push(id);
                    }
                },
                None => {},
            }
            i += 1;
        }
        assert(self.data.supplier_fillers@.take(self.data.supplier_fillers.len() as int)
            == self.data.supplier_fillers@);
        self.data.supplier_fillers = kept;
    }

    pub fn creep_handles_filling_extensions(&mut self, creep_id: ObjId)
        ensures
            final(self).data.supplier_fillers@ == old(self).data.supplier_fillers@.push(creep_id),
            final(self).data.helping_citizens@ == old(self).data.helping_citizens@,
            final(self).open_requests@ == old(self).open_requests@,
            final(self).room_name == old(self).room_name,
    {
        self.data.supplier_fillers.push(creep_id);
    }

    pub fn creep_done_handling_filling_extensions(&mut self, creep_id: ObjId)
        ensures
            final(self).data.supplier_fillers@ == without_id(
                old(self).data.supplier_fillers@,
                creep_id,
            ),
            final(self).data.helping_citizens@ == old(self).data.helping_citizens@,
            final(self).open_requests@ == old(self).open_requests@,
            final(self).room_name == old(self).room_name,
    {
        let mut kept: Vec<ObjId> = Vec::new();
        let mut i: usize = 0;
        while i < self.data.supplier_fillers.len()
            invariant
                i <= self.data.supplier_fillers.len(),
                self.data.supplier_fillers@ == old(self).data.supplier_fillers@,
                kept@ == without_id(self.data.supplier_fillers@.take(i as int), creep_id),
            decreases self.data.supplier_fillers.len() - i,
        {
            assert(self.data.supplier_fillers@.take(i + 1).drop_last()
                == self.data.supplier_fillers@.take(i as int));
            if self.data.supplier_fillers[i] != creep_id {
                kept.push(self.data.supplier_fillers[i]);
            }
            i += 1;
        }
        assert(self.data.supplier_fillers@.take(self.data.supplier_fillers.len() as int)
            == self.data.supplier_fillers@);
        self.data.supplier_fillers = kept;
    }

    /// Refreshes the base from what is seen of it, drops helpers that are gone, and closes
    /// the requests resolved at `now`. A base that cannot be seen or has no spawn left is
    /// helpless.
    pub fn update(
        &mut self,
        sight: Option<RoomSight>,
        alive: &Vec<ObjId>,
        ledger: &RequestLedger,
        now: u32,
        spawned: &Vec<SpawnedCreep>,
    ) -> (r: RoomStateChange)
        requires
            ledger.wf(),
        ensures
            r == (match sight {
                Some(s) => if s.spawn_count < 1 {
                    RoomStateChange::Helpless
                } else {
                    RoomStateChange::Unchanged
                },
                None => RoomStateChange::Helpless,
            }),
            sight matches Some(s) ==> final(self).resource_providers@ == s.resource_providers@
                && final(self).sources@ == s.sources@,
            sight is None ==> final(self).resource_providers@.len() == 0 && final(self).sources@
                == old(self).sources@,
            final(self).open_requests@ == still_open(*ledger, now, old(self).open_requests@),
            final(self).data.helping_citizens@ == keep_alive(
                old(self).data.helping_citizens@,
                alive@,
            ) + new_helpers(*ledger, now, old(self).open_requests@, spawned@),
            final(self).room_name == old(self).room_name,
            final(self).data.target_spawns == old(self).data.target_spawns,
            final(self).panic_countdown == old(self).panic_countdown,
    {
        let change = match sight {
            Some(s) => {
                let c = if s.spawn_count < 1 {
                    RoomStateChange::Helpless
                } else {
                    RoomStateChange::Unchanged
                };
                self.resource_providers = s.resource_providers;
                self.sources = s.sources;
                c
            },
            None => {
                self.resource_providers = Vec::new();
                RoomStateChange::Helpless
            },
        };
        retain_alive(&mut self.data.helping_citizens, alive);
        close_handled_requests(
            &mut self.open_requests,
            &mut self.data.helping_citizens,
            ledger,
            now,
            spawned,
        );
        change
    }

    pub fn request_logged(&mut self, request_id: UniqId)
        ensures
            final(self).open_requests@ == old(self).open_requests@.push(request_id),
            final(self).room_name == old(self).room_name,
            final(self).data.helping_citizens@ == old(self).data.helping_citizens@,
    {
        self.open_requests.push(request_id);
    }

    /// Takes over the persisted room name and targets; helpers are left as they are.
    /// Rebuilds a base from persisted fields and what is seen of it now: name, targets
    /// (none when missing), helpers, open requests and panic counter come from memory.
    pub fn load_from_memory(memory: &RoomMemory, sight: RoomSight) -> (r: Result<BaseState, RoomStateError>)
        ensures
            memory_identity(RoomStateKind::Base, *memory) matches Err(e) ==> r == Err::<BaseState, RoomStateError>(e),
            memory_identity(RoomStateKind::Base, *memory) matches Ok(n) ==> r matches Ok(b) && b.room_name == n
                && b.data.target_spawns == (match memory.target_spawns {
                    Some(t) => t,
                    None => TargetSpawns { carrier: 0, farmer: 0, worker: 0 },
                }) && b.data.helping_citizens@ == memory.helping_citizens@
                && b.open_requests@ == memory.open_requests@ && b.panic_countdown == memory.panic_countdown
                && b.data.supplier_fillers@.len() == 0 && b.resource_providers@ == sight.resource_providers@
                && b.sources@ == sight.sources@,
    {
        let name = match read_identity(RoomStateKind::Base, memory) {
            Ok(n) => n,
            Err(e) => {
                return Err(e);
            },
        };
        let target_spawns = match memory.target_spawns {
            Some(t) => t,
            None => TargetSpawns::new(),
        };
        Ok(BaseState {
            room_name: name,
            resource_providers: sight.resource_providers,
            sources: sight.sources,
            data: BaseData {
                helping_citizens: copy_ids(&memory.helping_citizens),
                target_spawns,
                supplier_fillers: Vec::new(),
            },
            open_requests: copy_uniq_ids(&memory.open_requests),
            panic_countdown: memory.panic_countdown,
        })
    }

    /// Takes over the persisted room name and targets (see `base_with_memory`); every
    /// other field is left as it is, and nothing at all changes on an error.
    pub fn update_from_memory(&mut self, memory: &RoomMemory) -> (r: Result<(), RoomStateError>)
        ensures
            *final(self) == base_with_memory(*old(self), *memory),
            r == (match memory_update(RoomStateKind::Base, old(self).room_name, old(self).data.target_spawns, *memory) {
                Ok(_) => Ok::<(), RoomStateError>(()),
                Err(e) => Err(e),
            }),
    {
        match apply_memory(RoomStateKind::Base, self.room_name, self.data.target_spawns, memory) {
            Ok((n, t)) => {
                self.room_name = n;
                self.data.target_spawns = t;
                Ok(())
            },
            Err(e) => Err(e),
        }
    }

    pub fn to_memory(&self) -> (r: RoomMemory)
        ensures
            r.state_kind == Some(room_state_kind_code(RoomStateKind::Base)),
            r.room_name == Some(self.room_name),
            r.target_spawns == Some(self.data.target_spawns),
            r.helping_citizens@ == self.data.helping_citizens@,
            r.open_requests@ == self.open_requests@,
            r.panic_countdown == self.panic_countdown,
    {
        RoomMemory {
            state_kind: Some(RoomStateKind::Base.code()),
            room_name: Some(self.room_name),
            target_spawns: Some(self.data.target_spawns),
            helping_citizens: copy_ids(&self.data.helping_citizens),
            open_requests: copy_uniq_ids(&self.open_requests),
            panic_countdown: self.panic_countdown,
        }
    }
}


/// What a region in setup sees of itself.
pub enum SetupBaseStateVisibility {
    Visible { resource_providers: Vec<ResourceProvider>, sources: Vec<ObjId> },
    NotVisible,
}

pub open spec fn visible_sources(v: SetupBaseStateVisibility) -> Seq<ObjId> {
    match v {
        SetupBaseStateVisibility::Visible { sources, .. } => sources@,
        SetupBaseStateVisibility::NotVisible => Seq::empty(),
    }
}

/// The persisted part of a region in setup.
pub struct SetupBaseData {
    pub helping_citizens: Vec<ObjId>,
    pub target_spawns: TargetSpawns,
}

/// A region that is bootstrapping; it may not be visible.
pub struct SetupBaseState {
    pub room_name: RoomName,
    pub state: SetupBaseStateVisibility,
    pub data: SetupBaseData,
    /// The requests of this region that are not closed yet, so it does not ask twice.
    pub open_requests: Vec<UniqId>,
    pub panic_countdown: Option<u32>,
}

pub open spec fn is_panicking(c: Option<u32>) -> bool {
    c matches Some(n) && n > PANIC_THRESHOLD_TICKS
}

/// The requests of a region in setup: while it panics, its panic requests come first and
/// alone; otherwise, and when a panic needs nothing more, it asks as a base does.
pub open spec fn setup_plan(
    room: RoomName,
    targets: TargetSpawns,
    sources: Seq<ObjId>,
    roles: Seq<Role>,
    panic_roles: Seq<Role>,
    panicking: bool,
) -> Seq<RequestData> {
    let p = panic_plan(room, sources, panic_roles);
    if panicking && p.len() > 0 {
        p
    } else {
        population_plan(room, targets, sources, roles)
    }
}

fn sight_to_visibility(sight: Option<RoomSight>) -> (r: SetupBaseStateVisibility)
    ensures
        sight matches Some(s) ==> (r matches SetupBaseStateVisibility::Visible {
            resource_providers,
            sources,
        } && resource_providers@ == s.resource_providers@ && sources@ == s.sources@),
        sight is None ==> r is NotVisible,
{
    match sight {
        Some(s) => SetupBaseStateVisibility::Visible {
            resource_providers: s.resource_providers,
            sources: s.sources,
        },
        None => SetupBaseStateVisibility::NotVisible,
    }
}

impl SetupBaseState {
    pub fn new(room_name: RoomName, sight: Option<RoomSight>) -> (r: SetupBaseState)
        ensures
            r.room_name == room_name,
            sight matches Some(s) ==> visible_sources(r.state) == s.sources@,
            sight is None ==> r.state is NotVisible,
            r.data.helping_citizens@.len() == 0,
            r.data.target_spawns == (TargetSpawns { carrier: 0, farmer: 0, worker: 0 }),
            r.open_requests@.len() == 0,
            r.panic_countdown is None,
    {
        SetupBaseState {
            room_name,
            state: sight_to_visibility(sight),
            data: SetupBaseData { helping_citizens: Vec::new(), target_spawns: TargetSpawns::new() },
            open_requests: Vec::new(),
            panic_countdown: None,
        }
    }

    pub open spec fn roles(&self, cs: Seq<CitizenInfo>, l: RequestLedger, panic_only: bool) -> Seq<
        Role,
    > {
        population_roles(
            cs,
            self.data.helping_citizens@,
            l,
            self.open_requests@,
            self.room_name,
            panic_only,
        )
    }

    /// The panic counter has passed its threshold.
    pub fn panicing(&self) -> (r: bool)
        ensures
            r == is_panicking(self.panic_countdown),
    {
        match self.panic_countdown {
            Some(n) => n > PANIC_THRESHOLD_TICKS,
            None => false,
        }
    }

    fn sources_seen(&self) -> (r: Vec<ObjId>)
        ensures
            r@ == visible_sources(self.state),
    {
        match &self.state {
            SetupBaseStateVisibility::Visible { sources, .. } => copy_ids(sources),
            SetupBaseStateVisibility::NotVisible => Vec::new(),
        }
    }

    /// The requests that end a panic: a farmer for the first known source and a carrier,
    /// each unless one is present or already asked for with panic; all resolve the panic.
    pub fn spawn_panicing_citizens(
        &self,
        citizens: &Vec<CitizenInfo>,
        ledger: &RequestLedger,
        ids: &mut TickIds,
    ) -> (r: Vec<Request>)
        requires
            ledger.wf(),
            old(ids).next + 2 <= u32::MAX,
        ensures
            r@.map_values(|q: Request| q.data) == panic_plan(
                self.room_name,
                visible_sources(self.state),
                self.roles(citizens@, *ledger, true),
            ),
            forall|i: int|
                0 <= i < r@.len() ==> (#[trigger] r@[i]).request_id == (UniqId {
                    tick: old(ids).tick,
                    seq: (old(ids).next + i) as u32,
                }),
            final(ids).tick == old(ids).tick,
            final(ids).next == old(ids).next + r@.len(),
    {
        let roles = get_population_roles(
            citizens,
            &self.data.helping_citizens,
            ledger,
            &self.open_requests,
            self.room_name,
            true,
        );
        let sources = self.sources_seen();
        let plan = plan_panic(self.room_name, &sources, &roles);
        let ghost p = plan@;
        let r = issue_requests(plan, ids);
        assert(r@.map_values(|q: Request| q.data) =~= p);
        r
    }

    /// The requests that bring the region towards its target population, panic first.
    pub fn spawn_citizens_up_to_target(
        &self,
        citizens: &Vec<CitizenInfo>,
        ledger: &RequestLedger,
        ids: &mut TickIds,
    ) -> (r: Vec<Request>)
        requires
            ledger.wf(),
            old(ids).next + 3 <= u32::MAX,
        ensures
            r@.map_values(|q: Request| q.data) == setup_plan(
                self.room_name,
                self.data.target_spawns,
                visible_sources(self.state),
                self.roles(citizens@, *ledger, false),
                self.roles(citizens@, *ledger, true),
                is_panicking(self.panic_countdown),
            ),
            forall|i: int|
                0 <= i < r@.len() ==> (#[trigger] r@[i]).request_id == (UniqId {
                    tick: old(ids).tick,
                    seq: (old(ids).next + i) as u32,
                }),
            final(ids).tick == old(ids).tick,
            final(ids).next == old(ids).next + r@.len(),
    {
        let sources = self.sources_seen();
        let panic_roles = get_population_roles(
            citizens,
            &self.data.helping_citizens,
            ledger,
            &self.open_requests,
            self.room_name,
            true,
        );
        let panic = plan_panic(self.room_name, &sources, &panic_roles);
        let plan = if self.panicing() && panic.len() > 0 {
            panic
        } else {
            let roles = get_population_roles(
                citizens,
                &self.data.helping_citizens,
                ledger,
                &self.open_requests,
                self.room_name,
                false,
            );
            plan_population(self.room_name, self.data.target_spawns, &sources, &roles)
        };
        let ghost p = plan@;
        let r = issue_requests(plan, ids);
        assert(r@.map_values(|q: Request| q.data) =~= p);
        r
    }

    /// The region's read pass: the requests it proposes this tick. Nothing is changed.
    pub fn run(&self, citizens: &Vec<CitizenInfo>, ledger: &RequestLedger, ids: &mut TickIds) -> (r:
        Vec<Request>)
        requires
            ledger.wf(),
            old(ids).next + 3 <= u32::MAX,
        ensures
            r@.map_values(|q: Request| q.data) == setup_plan(
                self.room_name,
                self.data.target_spawns,
                visible_sources(self.state),
                self.roles(citizens@, *ledger, false),
                self.roles(citizens@, *ledger, true),
                is_panicking(self.panic_countdown),
            ),
            forall|i: int|
                0 <= i < r@.len() ==> (#[trigger] r@[i]).request_id == (UniqId {
                    tick: old(ids).tick,
                    seq: (old(ids).next + i) as u32,
                }),
            final(ids).tick == old(ids).tick,
            final(ids).next == old(ids).next + r@.len(),
    {
        self.spawn_citizens_up_to_target(citizens, ledger, ids)
    }

    /// Updates the panic counter from the helpers present: it runs while a farmer or a
    /// carrier is missing, until it has passed the threshold.
    pub fn check_room_status(&mut self, citizens: &Vec<CitizenInfo>)
        ensures
            ({
                let roles = helper_roles(citizens@, old(self).data.helping_citizens@);
                final(self).panic_countdown == next_panic_countdown(
                    old(self).panic_countdown,
                    has_farmer(roles),
                    count_role(roles, Role::Carrier) > 0,
                    PANIC_THRESHOLD_TICKS,
                )
            }),
            final(self).data.helping_citizens@ == old(self).data.helping_citizens@,
            final(self).open_requests@ == old(self).open_requests@,
            final(self).room_name == old(self).room_name,
            visible_sources(final(self).state) == visible_sources(old(self).state),
            final(self).data.target_spawns == old(self).data.target_spawns,
    {
        let empty_ledger = RequestLedger::new();
        let empty_open: Vec<UniqId> = Vec::new();
        let roles = get_population_roles(
            citizens,
            &self.data.helping_citizens,
            &empty_ledger,
            &empty_open,
            self.room_name,
            false,
        );
        assert(roles@ =~= helper_roles(citizens@, self.data.helping_citizens@));
        let farmer = any_farmer(&roles);
        let carrier = count_roles(&roles, Role::Carrier) > 0;
        self.panic_countdown = advance_panic_countdown(
            self.panic_countdown,
            farmer,
            carrier,
            PANIC_THRESHOLD_TICKS,
        );
    }

    /// Refreshes what is seen of the region, drops helpers that are gone, and closes the
    /// requests resolved at `now`.
    pub fn update(
        &mut self,
        sight: Option<RoomSight>,
        alive: &Vec<ObjId>,
        ledger: &RequestLedger,
        now: u32,
        spawned: &Vec<SpawnedCreep>,
    ) -> (r: RoomStateChange)
        requires
            ledger.wf(),
        ensures
            r == RoomStateChange::Unchanged,
            sight matches Some(s) ==> visible_sources(final(self).state) == s.sources@,
            sight is None ==> final(self).state is NotVisible,
            final(self).open_requests@ == still_open(*ledger, now, old(self).open_requests@),
            final(self).data.helping_citizens@ == keep_alive(
                old(self).data.helping_citizens@,
                alive@,
            ) + new_helpers(*ledger, now, old(self).open_requests@, spawned@),
            final(self).room_name == old(self).room_name,
            final(self).data.target_spawns == old(self).data.target_spawns,
            final(self).panic_countdown == old(self).panic_countdown,
    {
        self.state = sight_to_visibility(sight);
        retain_alive(&mut self.data.helping_citizens, alive);
        close_handled_requests(
            &mut self.open_requests,
            &mut self.data.helping_citizens,
            ledger,
            now,
            spawned,
        );
        RoomStateChange::Unchanged
    }

    pub fn request_logged(&mut self, request_id: UniqId)
        ensures
            final(self).open_requests@ == old(self).open_requests@.push(request_id),
            final(self).room_name == old(self).room_name,
            final(self).data.helping_citizens@ == old(self).data.helping_citizens@,
    {
        self.open_requests.push(request_id);
    }

    /// Takes over the persisted room name and targets; helpers are left as they are.
    /// Rebuilds a region in setup from persisted fields and what is seen of it now (see
    /// `BaseState::load_from_memory`).
    pub fn load_from_memory(memory: &RoomMemory, sight: Option<RoomSight>) -> (r: Result<SetupBaseState, RoomStateError>)
        ensures
            memory_identity(RoomStateKind::SetupBase, *memory) matches Err(e) ==> r == Err::<SetupBaseState, RoomStateError>(e),
            memory_identity(RoomStateKind::SetupBase, *memory) matches Ok(n) ==> r matches Ok(s) && s.room_name == n
                && s.data.target_spawns == (match memory.target_spawns {
                    Some(t) => t,
                    None => TargetSpawns { carrier: 0, farmer: 0, worker: 0 },
                }) && s.data.helping_citizens@ == memory.helping_citizens@
                && s.open_requests@ == memory.open_requests@ && s.panic_countdown == memory.panic_countdown
                && (sight matches Some(v) ==> visible_sources(s.state) == v.sources@)
                && (sight is None ==> s.state is NotVisible),
    {
        let name = match read_identity(RoomStateKind::SetupBase, memory) {
            Ok(n) => n,
            Err(e) => {
                return Err(e);
            },
        };
        let target_spawns = match memory.target_spawns {
            Some(t) => t,
            None => TargetSpawns::new(),
        };
        Ok(SetupBaseState {
            room_name: name,
            state: sight_to_visibility(sight),
            data: SetupBaseData { helping_citizens: copy_ids(&memory.helping_citizens), target_spawns },
            open_requests: copy_uniq_ids(&memory.open_requests),
            panic_countdown: memory.panic_countdown,
        })
    }

    /// Takes over the persisted room name and targets (see `setup_with_memory`); every
    /// other field is left as it is, and nothing at all changes on an error.
    pub fn update_from_memory(&mut self, memory: &RoomMemory) -> (r: Result<(), RoomStateError>)
        ensures
            *final(self) == setup_with_memory(*old(self), *memory),
            r == (match memory_update(RoomStateKind::SetupBase, old(self).room_name, old(self).data.target_spawns, *memory) {
                Ok(_) => Ok::<(), RoomStateError>(()),
                Err(e) => Err(e),
            }),
    {
        match apply_memory(
            RoomStateKind::SetupBase,
            self.room_name,
            self.data.target_spawns,
            memory,
        ) {
            Ok((n, t)) => {
                self.room_name = n;
                self.data.target_spawns = t;
                Ok(())
            },
            Err(e) => Err(e),
        }
    }

    pub fn to_memory(&self) -> (r: RoomMemory)
        ensures
            r.state_kind == Some(room_state_kind_code(RoomStateKind::SetupBase)),
            r.room_name == Some(self.room_name),
            r.target_spawns == Some(self.data.target_spawns),
            r.helping_citizens@ == self.data.helping_citizens@,
            r.open_requests@ == self.open_requests@,
            r.panic_countdown == self.panic_countdown,
    {
        RoomMemory {
            state_kind: Some(RoomStateKind::SetupBase.code()),
            room_name: Some(self.room_name),
            target_spawns: Some(self.data.target_spawns),
            helping_citizens: copy_ids(&self.data.helping_citizens),
            open_requests: copy_uniq_ids(&self.open_requests),
            panic_countdown: self.panic_countdown,
        }
    }
}


/// A base after reading persisted fields: the room name and targets taken over when the
/// fields are valid for a base, the base unchanged otherwise.
pub open spec fn base_with_memory(b: BaseState, m: RoomMemory) -> BaseState {
    match memory_update(RoomStateKind::Base, b.room_name, b.data.target_spawns, m) {
        Ok(u) => BaseState {
            room_name: u.0,
            data: BaseData { target_spawns: u.1, ..b.data },
            ..b
        },
        Err(_) => b,
    }
}

/// A region in setup after reading persisted fields (as `base_with_memory`).
pub open spec fn setup_with_memory(s: SetupBaseState, m: RoomMemory) -> SetupBaseState {
    match memory_update(RoomStateKind::SetupBase, s.room_name, s.data.target_spawns, m) {
        Ok(u) => SetupBaseState {
            room_name: u.0,
            data: SetupBaseData { target_spawns: u.1, ..s.data },
            ..s
        },
        Err(_) => s,
    }
}

/// A region after reading persisted fields.
pub open spec fn room_with_memory(rs: RoomState, m: RoomMemory) -> RoomState {
    match rs {
        RoomState::Base(b) => RoomState::Base(base_with_memory(b, m)),
        RoomState::SetupBase(s) => RoomState::SetupBase(setup_with_memory(s, m)),
    }
}

/// Reading the same persisted fields twice leaves a region exactly as reading them once:
/// the update overwrites, it does not add.
pub proof fn lemma_room_memory_replay(rs: RoomState, m: RoomMemory)
    ensures
        room_with_memory(room_with_memory(rs, m), m) == room_with_memory(rs, m),
{
    match rs {
        RoomState::Base(b) => {
            lemma_memory_update_idempotent(RoomStateKind::Base, b.room_name, b.data.target_spawns, m);
        },
        RoomState::SetupBase(s) => {
            lemma_memory_update_idempotent(RoomStateKind::SetupBase, s.room_name, s.data.target_spawns, m);
        },
    }
}

/// A region's state machine.
pub enum RoomState {
    Base(BaseState),
    SetupBase(SetupBaseState),
}

impl RoomState {
    pub open spec fn name(&self) -> RoomName {
        match self {
            RoomState::Base(b) => b.room_name,
            RoomState::SetupBase(s) => s.room_name,
        }
    }

    pub open spec fn open_ids(&self) -> Seq<UniqId> {
        match self {
            RoomState::Base(b) => b.open_requests@,
            RoomState::SetupBase(s) => s.open_requests@,
        }
    }

    pub fn room_name(&self) -> (r: RoomName)
        ensures
            r == self.name(),
    {
        match self {
            RoomState::Base(b) => b.room_name,
            RoomState::SetupBase(s) => s.room_name,
        }
    }

    pub fn kind(&self) -> (r: RoomStateKind)
        ensures
            r == RoomStateKind::Base <==> self is Base,
    {
        match self {
            RoomState::Base(_) => RoomStateKind::Base,
            RoomState::SetupBase(_) => RoomStateKind::SetupBase,
        }
    }

    pub fn open_requests(&self) -> (r: &Vec<UniqId>)
        ensures
            r@ == self.open_ids(),
    {
        match self {
            RoomState::Base(b) => &b.open_requests,
            RoomState::SetupBase(s) => &s.open_requests,
        }
    }

    /// Replaces the open request identities.
    pub fn set_open_requests(&mut self, ids: Vec<UniqId>)
        ensures
            final(self).open_ids() == ids@,
            final(self).name() == old(self).name(),
            (*final(self) is Base) == (*old(self) is Base),
    {
        match self {
            RoomState::Base(b) => {
                b.open_requests = ids;
            },
            RoomState::SetupBase(s) => {
                s.open_requests = ids;
            },
        }
    }

    /// Takes over the persisted room name and targets (see `room_with_memory`).
    pub fn update_from_memory(&mut self, memory: &RoomMemory) -> (r: Result<(), RoomStateError>)
        ensures
            *final(self) == room_with_memory(*old(self), *memory),
            r is Ok <==> (match *old(self) {
                RoomState::Base(b) => memory_update(RoomStateKind::Base, b.room_name, b.data.target_spawns, *memory) is Ok,
                RoomState::SetupBase(s) => memory_update(RoomStateKind::SetupBase, s.room_name, s.data.target_spawns, *memory) is Ok,
            }),
    {
        match self {
            RoomState::Base(b) => b.update_from_memory(memory),
            RoomState::SetupBase(s) => s.update_from_memory(memory),
        }
    }

    pub fn request_logged(&mut self, request_id: UniqId)
        ensures
            final(self).open_ids() == old(self).open_ids().push(request_id),
            final(self).name() == old(self).name(),
            (*final(self) is Base) == (*old(self) is Base),
    {
        match self {
            RoomState::Base(b) => b.request_logged(request_id),
            RoomState::SetupBase(s) => s.request_logged(request_id),
        }
    }

    /// The providers the region last saw (none while it is out of sight).
    pub open spec fn providers(&self) -> Seq<ResourceProvider> {
        match self {
            RoomState::Base(b) => b.resource_providers@,
            RoomState::SetupBase(s) => match s.state {
                SetupBaseStateVisibility::Visible { resource_providers, .. } => resource_providers@,
                SetupBaseStateVisibility::NotVisible => Seq::empty(),
            },
        }
    }

    /// The first provider with this identity among those the region last saw.
    pub fn resource_provider(&self, id: ObjId) -> (r: Option<ResourceProvider>)
        ensures
            r is None <==> forall|i: int| 0 <= i < self.providers().len() ==> (#[trigger] self.providers()[i]).obj_id != id,
            r matches Some(p) ==> exists|i: int| 0 <= i < self.providers().len() && self.providers()[i] == p && p.obj_id == id
                && forall|j: int| 0 <= j < i ==> (#[trigger] self.providers()[j]).obj_id != id,
    {
        let providers: &Vec<ResourceProvider> = match self {
            RoomState::Base(b) => &b.resource_providers,
            RoomState::SetupBase(s) => match &s.state {
                SetupBaseStateVisibility::Visible { resource_providers, .. } => resource_providers,
                SetupBaseStateVisibility::NotVisible => {
                    return None;
                },
            },
        };
        assert(providers@ == self.providers());
        let mut i: usize = 0;
        while i < providers.len()
            invariant
                i <= providers.len(),
                providers@ == self.providers(),
                forall|j: int| 0 <= j < i ==> (#[trigger] providers@[j]).obj_id != id,
            decreases providers.len() - i,
        {
            if providers[i].obj_id == id {
                return Some(providers[i]);
            }
            i += 1;
        }
        None
    }
}

} // verus!
