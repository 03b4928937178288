use vstd::prelude::*;

use crate::jobs::OokCreepJob;
use crate::provider::{ProviderKind, ResourceProvider};
use crate::world::{ObjId, Position, RoomName, within_range, in_range_to};

verus! {

/// How a task's owner goes on after running it.
#[derive(Clone, Copy, Debug, PartialEq, Eq, Structural)]
pub enum OokTaskRunnableResult {
    /// Keep the task for the next tick.
    Continue,
    /// Done this tick; derive a new task next tick.
    Finish,
    /// Done without having acted; derive another task in this same tick.
    CancelAndDoAnother,
}

/// The command an agent issues this tick.
#[derive(Clone, Copy, Debug, PartialEq, Eq, Structural)]
pub enum TaskAction {
    /// Stand by (the agent signals that it waits).
    Wait,
    MoveTo(Position),
    Harvest(ObjId),
    Withdraw { target: ObjId, amount: u32 },
    Pickup(ObjId),
    Build(ObjId),
    UpgradeController(Position),
    ClaimController(Position),
    Transfer { target: ObjId, amount: u32 },
}

#[derive(Clone, Copy, Debug, PartialEq, Eq, Structural)]
pub struct TaskOutcome {
    pub action: TaskAction,
    pub result: OokTaskRunnableResult,
}

/// What a harvest command answered.
#[derive(Clone, Copy, Debug, PartialEq, Eq, Structural)]
pub enum HarvestResult {
    Done,
    NotEnough,
    NotInRange,
    Other,
}

/// What an agent that fetches energy sees this tick. `best_provider` is the provider
/// the scorer picked for it now; `target_present` and `target_stored` speak of the
/// provider its task holds, if any.
#[derive(Clone, Copy, Debug, PartialEq, Eq, Structural)]
pub struct EnergyView {
    pub creep_pos: Position,
    pub free_capacity: u32,
    pub used_capacity: u32,
    pub best_provider: Option<ResourceProvider>,
    pub target_present: bool,
    pub target_stored: u32,
}

/// The command that takes energy from a provider: a source is harvested, a dropped pile
/// picked up, a store withdrawn from (as much as it holds and the agent can carry).
pub open spec fn take_action(p: ResourceProvider, stored: u32, free: u32) -> TaskAction {
    if p.kind == ProviderKind::EnergyFarm {
        TaskAction::Harvest(p.obj_id)
    } else if p.litter {
        TaskAction::Pickup(p.obj_id)
    } else {
        TaskAction::Withdraw { target: p.obj_id, amount: if stored < free { stored } else { free } }
    }
}

fn take_from(p: &ResourceProvider, stored: u32, free: u32) -> (r: TaskAction)
    ensures
        r == take_action(*p, stored, free),
{
    match p.kind {
        ProviderKind::EnergyFarm => TaskAction::Harvest(p.obj_id),
        _ => {
            if p.litter {
                TaskAction::Pickup(p.obj_id)
            } else {
                TaskAction::Withdraw {
                    target: p.obj_id,
                    amount: if stored < free {
                        stored
                    } else {
                        free
                    },
                }
            }
        },
    }
}

fn outcome(action: TaskAction, result: OokTaskRunnableResult) -> (r: TaskOutcome)
    ensures
        r == (TaskOutcome { action, result }),
{
    TaskOutcome { action, result }
}

/// A construction site to build.
#[derive(Clone, Copy, Debug, PartialEq, Eq, Structural)]
pub struct BuildTarget {
    pub id: ObjId,
    pub pos: Position,
}

#[derive(Clone, Copy, Debug, PartialEq, Eq, Structural)]
pub enum BuildStep {
    GetEnergy { target: ResourceProvider, build_target: BuildTarget },
    Build { build_target: BuildTarget },
    WaitForResource { build_target: BuildTarget },
}

/// What a builder sees this tick besides its energy: whether its construction site still
/// resolves, and the room it stands in.
#[derive(Clone, Copy, Debug, PartialEq, Eq, Structural)]
pub struct BuildView {
    pub energy: EnergyView,
    pub site_present: bool,
    pub creep_room: RoomName,
}

pub open spec fn build_target_of(s: BuildStep) -> BuildTarget {
    match s {
        BuildStep::GetEnergy { build_target, .. } => build_target,
        BuildStep::Build { build_target } => build_target,
        BuildStep::WaitForResource { build_target } => build_target,
    }
}

/// The step a build task moves to before acting: full agents build, empty builders fetch
/// from the best provider (or wait when there is none), waiting ones fetch once a
/// provider is there.
pub open spec fn build_precheck(s: BuildStep, v: EnergyView) -> BuildStep {
    match s {
        BuildStep::GetEnergy { build_target, .. } => if v.free_capacity == 0 {
            BuildStep::Build { build_target }
        } else {
            s
        },
        BuildStep::Build { build_target } => if v.used_capacity == 0 {
            match v.best_provider {
                Some(p) => BuildStep::GetEnergy { target: p, build_target },
                None => BuildStep::WaitForResource { build_target },
            }
        } else {
            s
        },
        BuildStep::WaitForResource { build_target } => match v.best_provider {
            Some(p) => BuildStep::GetEnergy { target: p, build_target },
            None => s,
        },
    }
}

/// One tick of a build task on its prechecked step.
pub open spec fn build_act(s: BuildStep, v: BuildView) -> (BuildStep, TaskOutcome) {
    let e = v.energy;
    match s {
        BuildStep::GetEnergy { target, build_target } => if !e.target_present {
            (
                BuildStep::WaitForResource { build_target },
                TaskOutcome { action: TaskAction::Wait, result: OokTaskRunnableResult::Continue },
            )
        } else if within_range(e.creep_pos, target.pos, 1) {
            (
                if target.kind == ProviderKind::EnergyFarm {
                    s
                } else {
                    BuildStep::Build { build_target }
                },
                TaskOutcome {
                    action: take_action(target, e.target_stored, e.free_capacity),
                    result: OokTaskRunnableResult::Continue,
                },
            )
        } else {
            (
                s,
                TaskOutcome {
                    action: TaskAction::MoveTo(target.pos),
                    result: OokTaskRunnableResult::Continue,
                },
            )
        },
        BuildStep::Build { build_target } => if v.site_present {
            (
                s,
                TaskOutcome {
                    action: if within_range(e.creep_pos, build_target.pos, 3) {
                        TaskAction::Build(build_target.id)
                    } else {
                        TaskAction::MoveTo(build_target.pos)
                    },
                    result: OokTaskRunnableResult::Continue,
                },
            )
        } else if v.creep_room != build_target.pos.room {
            (
                s,
                TaskOutcome {
                    action: TaskAction::MoveTo(build_target.pos),
                    result: OokTaskRunnableResult::Continue,
                },
            )
        } else {
            (
                s,
                TaskOutcome {
                    action: TaskAction::Wait,
                    result: OokTaskRunnableResult::CancelAndDoAnother,
                },
            )
        },
        BuildStep::WaitForResource { .. } => (
            s,
            TaskOutcome { action: TaskAction::Wait, result: OokTaskRunnableResult::Continue },
        ),
    }
}

/// A task that fetches energy and builds one construction site.
#[derive(Clone, Copy, Debug, PartialEq, Eq, Structural)]
pub struct BuildTask {
    pub step: BuildStep,
}

fn build_precheck_exec(s: BuildStep, v: &EnergyView) -> (r: BuildStep)
    ensures
        r == build_precheck(s, *v),
{
    match s {
        BuildStep::GetEnergy { build_target, .. } => {
            if v.free_capacity == 0 {
                BuildStep::Build { build_target }
            } else {
                s
            }
        },
        BuildStep::Build { build_target } => {
            if v.used_capacity == 0 {
                match v.best_provider {
                    Some(p) => BuildStep::GetEnergy { target: p, build_target },
                    None => BuildStep::WaitForResource { build_target },
                }
            } else {
                s
            }
        },
        BuildStep::WaitForResource { build_target } => match v.best_provider {
            Some(p) => BuildStep::GetEnergy { target: p, build_target },
            None => s,
        },
    }
}

impl BuildTask {
    /// Starts waiting for energy for the site, then corrects itself at once.
    pub fn new(build_target: BuildTarget, v: &EnergyView) -> (r: BuildTask)
        ensures
            r.step == build_precheck(BuildStep::WaitForResource { build_target }, *v),
    {
        BuildTask { step: build_precheck_exec(BuildStep::WaitForResource { build_target }, v) }
    }

    /// Advances the task by one tick.
    pub fn run(&mut self, v: &BuildView) -> (r: TaskOutcome)
        ensures
            (final(self).step, r) == build_act(build_precheck(old(self).step, v.energy), *v),
    {
        let s = build_precheck_exec(self.step, &v.energy);
        let e = &v.energy;
        let (next, out) = match s {
            BuildStep::GetEnergy { target, build_target } => {
                if !e.target_present {
                    (
                        BuildStep::WaitForResource { build_target },
                        outcome(TaskAction::Wait, OokTaskRunnableResult::Continue),
                    )
                } else if in_range_to(&e.creep_pos, &target.pos, 1) {
                    let next = match target.kind {
                        ProviderKind::EnergyFarm => s,
                        _ => BuildStep::Build { build_target },
                    };
                    (
                        next,
                        outcome(
                            take_from(&target, e.target_stored, e.free_capacity),
                            OokTaskRunnableResult::Continue,
                        ),
                    )
                } else {
                    (s, outcome(TaskAction::MoveTo(target.pos), OokTaskRunnableResult::Continue))
                }
            },
            BuildStep::Build { build_target } => {
                if v.site_present {
                    let action = if in_range_to(&e.creep_pos, &build_target.pos, 3) {
                        TaskAction::Build(build_target.id)
                    } else {
                        TaskAction::MoveTo(build_target.pos)
                    };
                    (s, outcome(action, OokTaskRunnableResult::Continue))
                } else if v.creep_room != build_target.pos.room {
                    (
                        s,
                        outcome(
                            TaskAction::MoveTo(build_target.pos),
                            OokTaskRunnableResult::Continue,
                        ),
                    )
                } else {
                    (s, outcome(TaskAction::Wait, OokTaskRunnableResult::CancelAndDoAnother))
                }
            },
            BuildStep::WaitForResource { .. } => (
                s,
                outcome(TaskAction::Wait, OokTaskRunnableResult::Continue),
            ),
        };
        self.step = next;
        out
    }

    /// Takes in what the harvest command of this tick answered: a source that has run
    /// dry sends the builder to build with what it carries.
    pub fn on_harvest_result(&mut self, code: HarvestResult)
        ensures
            final(self).step == (match old(self).step {
                BuildStep::GetEnergy { build_target, .. } => if code == HarvestResult::NotEnough {
                    BuildStep::Build { build_target }
                } else {
                    old(self).step
                },
                _ => old(self).step,
            }),
    {
        match self.step {
            BuildStep::GetEnergy { build_target, .. } => {
                if code == HarvestResult::NotEnough {
                    self.step = BuildStep::Build { build_target };
                }
            },
            _ => {},
        }
    }
}

/// A build task whose construction site no longer resolves, in a room the agent can see,
/// cancels and lets its owner pick another task in the same tick.
pub proof fn lemma_build_site_gone_cancels(step: BuildStep, v: BuildView)
    requires
        build_precheck(step, v.energy) is Build,
        !v.site_present,
        v.creep_room == build_target_of(step).pos.room,
    ensures
        build_act(build_precheck(step, v.energy), v).1.result
            == OokTaskRunnableResult::CancelAndDoAnother,
{
}

#[derive(Clone, Copy, Debug, PartialEq, Eq, Structural)]
pub enum UpgradeStep {
    GetEnergy { target: ResourceProvider, controller_pos: Position },
    Upgrade { controller_pos: Position },
    WaitForResource { controller_pos: Position },
}

pub open spec fn upgrade_precheck(s: UpgradeStep, v: EnergyView) -> UpgradeStep {
    match s {
        UpgradeStep::GetEnergy { controller_pos, .. } => if v.free_capacity == 0 {
            UpgradeStep::Upgrade { controller_pos }
        } else {
            s
        },
        UpgradeStep::Upgrade { controller_pos } => if v.used_capacity == 0 {
            match v.best_provider {
                Some(p) => UpgradeStep::GetEnergy { target: p, controller_pos },
                None => UpgradeStep::WaitForResource { controller_pos },
            }
        } else {
            s
        },
        UpgradeStep::WaitForResource { controller_pos } => match v.best_provider {
            Some(p) => UpgradeStep::GetEnergy { target: p, controller_pos },
            None => s,
        },
    }
}

/// One tick of an upgrade task on its prechecked step; the task never finishes.
pub open spec fn upgrade_act(s: UpgradeStep, e: EnergyView) -> (UpgradeStep, TaskAction) {
    match s {
        UpgradeStep::GetEnergy { target, controller_pos } => if !e.target_present {
            (UpgradeStep::WaitForResource { controller_pos }, TaskAction::Wait)
        } else if within_range(e.creep_pos, target.pos, 1) {
            (
                if target.kind == ProviderKind::EnergyFarm {
                    s
                } else {
                    UpgradeStep::Upgrade { controller_pos }
                },
                take_action(target, e.target_stored, e.free_capacity),
            )
        } else {
            (s, TaskAction::MoveTo(target.pos))
        },
        UpgradeStep::Upgrade { controller_pos } => (
            s,
            if within_range(e.creep_pos, controller_pos, 3) {
                TaskAction::UpgradeController(controller_pos)
            } else {
                TaskAction::MoveTo(controller_pos)
            },
        ),
        UpgradeStep::WaitForResource { .. } => (s, TaskAction::Wait),
    }
}

/// A task that cycles between fetching energy and upgrading a controller.
#[derive(Clone, Copy, Debug, PartialEq, Eq, Structural)]
pub struct UpgradeTask {
    pub step: UpgradeStep,
}

fn upgrade_precheck_exec(s: UpgradeStep, v: &EnergyView) -> (r: UpgradeStep)
    ensures
        r == upgrade_precheck(s, *v),
{
    match s {
        UpgradeStep::GetEnergy { controller_pos, .. } => {
            if v.free_capacity == 0 {
                UpgradeStep::Upgrade { controller_pos }
            } else {
                s
            }
        },
        UpgradeStep::Upgrade { controller_pos } => {
            if v.used_capacity == 0 {
                match v.best_provider {
                    Some(p) => UpgradeStep::GetEnergy { target: p, controller_pos },
                    None => UpgradeStep::WaitForResource { controller_pos },
                }
            } else {
                s
            }
        },
        UpgradeStep::WaitForResource { controller_pos } => match v.best_provider {
            Some(p) => UpgradeStep::GetEnergy { target: p, controller_pos },
            None => s,
        },
    }
}

impl UpgradeTask {
    pub fn new(controller_pos: Position, v: &EnergyView) -> (r: UpgradeTask)
        ensures
            r.step == upgrade_precheck(UpgradeStep::WaitForResource { controller_pos }, *v),
    {
        UpgradeTask {
            step: upgrade_precheck_exec(UpgradeStep::WaitForResource { controller_pos }, v),
        }
    }

    /// Advances the task by one tick; it always continues.
    pub fn run(&mut self, v: &EnergyView) -> (r: TaskOutcome)
        ensures
            ({
                let (next, action) = upgrade_act(upgrade_precheck(old(self).step, *v), *v);
                final(self).step == next && r == (TaskOutcome {
                    action,
                    result: OokTaskRunnableResult::Continue,
                })
            }),
    {
        let s = upgrade_precheck_exec(self.step, v);
        let (next, action) = match s {
            UpgradeStep::GetEnergy { target, controller_pos } => {
                if !v.target_present {
                    (UpgradeStep::WaitForResource { controller_pos }, TaskAction::Wait)
                } else if in_range_to(&v.creep_pos, &target.pos, 1) {
                    let next = match target.kind {
                        ProviderKind::EnergyFarm => s,
                        _ => UpgradeStep::Upgrade { controller_pos },
                    };
                    (next, take_from(&target, v.target_stored, v.free_capacity))
                } else {
                    (s, TaskAction::MoveTo(target.pos))
                }
            },
            UpgradeStep::Upgrade { controller_pos } => {
                let action = if in_range_to(&v.creep_pos, &controller_pos, 3) {
                    TaskAction::UpgradeController(controller_pos)
                } else {
                    TaskAction::MoveTo(controller_pos)
                };
                (s, action)
            },
            UpgradeStep::WaitForResource { .. } => (s, TaskAction::Wait),
        };
        self.step = next;
        outcome(action, OokTaskRunnableResult::Continue)
    }
}

/// A tile from which a source is harvested.
#[derive(Clone, Copy, Debug, PartialEq, Eq, Structural)]
pub enum FarmPositionKind {
    /// On a container: what is harvested drops into it.
    Dropping,
    /// Next to a container or link to shift energy into.
    Shifting,
    /// Energy has to be carried away.
    Running,
}

#[derive(Clone, Copy, Debug, PartialEq, Eq, Structural)]
pub struct FarmPosition {
    pub kind: FarmPositionKind,
    pub position: Position,
    pub for_source: ObjId,
}


/// The kind of a tile next to a source, if a farmer can stand there: on a container it
/// drops into it; next to a container or link it shifts into that; else energy has to be
/// carried away.
pub open spec fn farm_tile_kind(walkable: bool, on_container: bool, next_to_store: bool) -> Option<FarmPositionKind> {
    if !walkable {
        None
    } else if on_container {
        Some(FarmPositionKind::Dropping)
    } else if next_to_store {
        Some(FarmPositionKind::Shifting)
    } else {
        Some(FarmPositionKind::Running)
    }
}

pub fn classify_farm_tile(walkable: bool, on_container: bool, next_to_store: bool) -> (r: Option<FarmPositionKind>)
    ensures
        r == farm_tile_kind(walkable, on_container, next_to_store),
{
    if !walkable {
        None
    } else if on_container {
        Some(FarmPositionKind::Dropping)
    } else if next_to_store {
        Some(FarmPositionKind::Shifting)
    } else {
        Some(FarmPositionKind::Running)
    }
}

/// Dropping positions first, the others after, each group in its given order.
pub open spec fn prioritized_spec(ps: Seq<FarmPosition>) -> Seq<FarmPosition> {
    ps.filter(|p: FarmPosition| p.kind == FarmPositionKind::Dropping) + ps.filter(
        |p: FarmPosition| p.kind != FarmPositionKind::Dropping,
    )
}

pub fn prioritized_farm_positions(farm_positions: &Vec<FarmPosition>) -> (r: Vec<FarmPosition>)
    ensures
        r@ == prioritized_spec(farm_positions@),
{
    let ghost ps = farm_positions@;
    let mut dropping: Vec<FarmPosition> = Vec::new();
    let mut others: Vec<FarmPosition> = Vec::new();
    let mut i: usize = 0;
    while i < farm_positions.len()
        invariant
            i <= farm_positions.len(),
            ps == farm_positions@,
            dropping@ == ps.take(i as int).filter(
                |p: FarmPosition| p.kind == FarmPositionKind::Dropping,
            ),
            others@ == ps.take(i as int).filter(
                |p: FarmPosition| p.kind != FarmPositionKind::Dropping,
            ),
        decreases farm_positions.len() - i,
    {
        let p = farm_positions[i];
        proof {
            assert(ps.take(i + 1).drop_last() =~= ps.take(i as int));
            reveal(Seq::filter);
        }
        match p.kind {
            FarmPositionKind::Dropping => dropping.push(p),
            _ => others.push(p),
        }
        i += 1;
    }
    assert(ps.take(ps.len() as int) =~= ps);
    let mut out = dropping;
    let mut j: usize = 0;
    let ghost d = out@;
    while j < others.len()
        invariant
            j <= others.len(),
            out@ == d + others@.take(j as int),
        decreases others.len() - j,
    {
        out.push(others[j]);
        assert(others@.take(j + 1) =~= others@.take(j as int).push(others@[j as int]));
        j += 1;
    }
    assert(others@.take(others.len() as int) =~= others@);
    out
}

#[derive(Clone, Copy, Debug, PartialEq, Eq, Structural)]
pub enum FarmStep {
    Walk { target: FarmPosition },
    Harvest { target: FarmPosition },
}

pub open spec fn farm_precheck(s: FarmStep, creep_pos: Position) -> FarmStep {
    match s {
        FarmStep::Walk { target } => if creep_pos == target.position {
            FarmStep::Harvest { target }
        } else {
            s
        },
        FarmStep::Harvest { .. } => s,
    }
}

/// One tick of a farm task on its prechecked step. A source that no longer resolves
/// cancels the task.
pub open spec fn farm_act(s: FarmStep, source_present: bool) -> TaskOutcome {
    match s {
        FarmStep::Walk { target } => TaskOutcome {
            action: TaskAction::MoveTo(target.position),
            result: OokTaskRunnableResult::Continue,
        },
        FarmStep::Harvest { target } => if source_present {
            TaskOutcome {
                action: TaskAction::Harvest(target.for_source),
                result: OokTaskRunnableResult::Continue,
            }
        } else {
            TaskOutcome { action: TaskAction::Wait, result: OokTaskRunnableResult::CancelAndDoAnother }
        },
    }
}

/// A task that walks to a farm position and harvests its source there.
#[derive(Clone, Copy, Debug, PartialEq, Eq, Structural)]
pub struct FarmTask {
    pub step: FarmStep,
}

impl FarmTask {
    /// Farms the source from the first of its prioritized positions; `None` when the
    /// source has no position.
    pub fn new(positions: &Vec<FarmPosition>, creep_pos: Position) -> (r: Option<FarmTask>)
        ensures
            prioritized_spec(positions@).len() == 0 <==> r is None,
            r matches Some(t) ==> t.step == farm_precheck(
                FarmStep::Walk { target: prioritized_spec(positions@)[0] },
                creep_pos,
            ),
    {
        let prio = prioritized_farm_positions(positions);
        if prio.len() == 0 {
            return None;
        }
        let target = prio[0];
        let step = if creep_pos == target.position {
            FarmStep::Harvest { target }
        } else {
            FarmStep::Walk { target }
        };
        Some(FarmTask { step })
    }

    pub fn run(&mut self, creep_pos: Position, source_present: bool) -> (r: TaskOutcome)
        ensures
            final(self).step == farm_precheck(old(self).step, creep_pos),
            r == farm_act(farm_precheck(old(self).step, creep_pos), source_present),
    {
        let s = match self.step {
            FarmStep::Walk { target } => {
                if creep_pos == target.position {
                    FarmStep::Harvest { target }
                } else {
                    self.step
                }
            },
            FarmStep::Harvest { .. } => self.step,
        };
        self.step = s;
        match s {
            FarmStep::Walk { target } => outcome(
                TaskAction::MoveTo(target.position),
                OokTaskRunnableResult::Continue,
            ),
            FarmStep::Harvest { target } => {
                if source_present {
                    outcome(TaskAction::Harvest(target.for_source), OokTaskRunnableResult::Continue)
                } else {
                    outcome(TaskAction::Wait, OokTaskRunnableResult::CancelAndDoAnother)
                }
            },
        }
    }

    /// A harvest that answers "not in range" sends the farmer walking again.
    pub fn on_harvest_result(&mut self, code: HarvestResult)
        ensures
            final(self).step == (match old(self).step {
                FarmStep::Harvest { target } => if code == HarvestResult::NotInRange {
                    FarmStep::Walk { target }
                } else {
                    old(self).step
                },
                _ => old(self).step,
            }),
    {
        match self.step {
            FarmStep::Harvest { target } => {
                if code == HarvestResult::NotInRange {
                    self.step = FarmStep::Walk { target };
                }
            },
            _ => {},
        }
    }
}

/// Where a claimer heads: a room whose controller it has not seen, or the controller.
#[derive(Clone, Copy, Debug, PartialEq, Eq, Structural)]
pub enum ControllerPosToClaim {
    InRoom { room_name: RoomName },
    KnowingPos { pos: Position },
}

#[derive(Clone, Copy, Debug, PartialEq, Eq, Structural)]
pub enum ClaimStep {
    Move { pos: ControllerPosToClaim },
    Claim { controller_pos: Position },
}

/// What a claimer sees: where it stands, and the controller of its room, if any.
#[derive(Clone, Copy, Debug, PartialEq, Eq, Structural)]
pub struct ClaimView {
    pub creep_pos: Position,
    pub room_controller: Option<Position>,
}

/// The step a claim task moves to before acting, or `None` when the room it reached has
/// no controller to claim.
pub open spec fn claim_precheck(s: ClaimStep, v: ClaimView) -> Option<ClaimStep> {
    match s {
        ClaimStep::Move { pos } => match pos {
            ControllerPosToClaim::InRoom { room_name } => if v.creep_pos.room == room_name {
                match v.room_controller {
                    Some(c) => Some(ClaimStep::Move { pos: ControllerPosToClaim::KnowingPos { pos: c } }),
                    None => None,
                }
            } else {
                Some(s)
            },
            ControllerPosToClaim::KnowingPos { pos } => if within_range(pos, v.creep_pos, 1) {
                match v.room_controller {
                    Some(c) => Some(ClaimStep::Claim { controller_pos: c }),
                    None => None,
                }
            } else {
                Some(s)
            },
        },
        ClaimStep::Claim { controller_pos } => if within_range(controller_pos, v.creep_pos, 3) {
            Some(s)
        } else {
            Some(ClaimStep::Move { pos: ControllerPosToClaim::KnowingPos { pos: controller_pos } })
        },
    }
}

/// The middle of a room, where a claimer heads before it knows the controller.
pub const ROOM_CENTER: u32 = 25;

pub open spec fn claim_act(s: ClaimStep) -> TaskAction {
    match s {
        ClaimStep::Move { pos } => match pos {
            ControllerPosToClaim::InRoom { room_name } => TaskAction::MoveTo(
                Position { room: room_name, x: ROOM_CENTER, y: ROOM_CENTER },
            ),
            ControllerPosToClaim::KnowingPos { pos } => TaskAction::MoveTo(pos),
        },
        ClaimStep::Claim { controller_pos } => TaskAction::ClaimController(controller_pos),
    }
}

/// A task that walks a claimer to a room's controller and claims it.
#[derive(Clone, Copy, Debug, PartialEq, Eq, Structural)]
pub struct ClaimTask {
    pub step: ClaimStep,
}

fn claim_precheck_exec(s: ClaimStep, v: &ClaimView) -> (r: Option<ClaimStep>)
    ensures
        r == claim_precheck(s, *v),
{
    match s {
        ClaimStep::Move { pos } => match pos {
            ControllerPosToClaim::InRoom { room_name } => {
                if v.creep_pos.room == room_name {
                    match v.room_controller {
                        Some(c) => Some(
                            ClaimStep::Move { pos: ControllerPosToClaim::KnowingPos { pos: c } },
                        ),
                        None => None,
                    }
                } else {
                    Some(s)
                }
            },
            ControllerPosToClaim::KnowingPos { pos } => {
                if in_range_to(&pos, &v.creep_pos, 1) {
                    match v.room_controller {
                        Some(c) => Some(ClaimStep::Claim { controller_pos: c }),
                        None => None,
                    }
                } else {
                    Some(s)
                }
            },
        },
        ClaimStep::Claim { controller_pos } => {
            if in_range_to(&controller_pos, &v.creep_pos, 3) {
                Some(s)
            } else {
                Some(
                    ClaimStep::Move {
                        pos: ControllerPosToClaim::KnowingPos { pos: controller_pos },
                    },
                )
            }
        },
    }
}

impl ClaimTask {
    /// Heads for the controller when its position is known, else for its room.
    pub fn new(target_room: RoomName, known_controller: Option<Position>) -> (r: ClaimTask)
        ensures
            r.step == (match known_controller {
                Some(pos) => ClaimStep::Move { pos: ControllerPosToClaim::KnowingPos { pos } },
                None => ClaimStep::Move {
                    pos: ControllerPosToClaim::InRoom { room_name: target_room },
                },
            }),
    {
        let pos = match known_controller {
            Some(pos) => ControllerPosToClaim::KnowingPos { pos },
            None => ControllerPosToClaim::InRoom { room_name: target_room },
        };
        ClaimTask { step: ClaimStep::Move { pos } }
    }

    /// Advances the task by one tick. A room without a controller cancels the task and
    /// leaves its step as it was.
    pub fn run(&mut self, v: &ClaimView) -> (r: TaskOutcome)
        ensures
            claim_precheck(old(self).step, *v) matches Some(s) ==> final(self).step == s && r == (
            TaskOutcome { action: claim_act(s), result: OokTaskRunnableResult::Continue }),
            claim_precheck(old(self).step, *v) is None ==> final(self).step == old(self).step
                && r == (TaskOutcome {
                action: TaskAction::Wait,
                result: OokTaskRunnableResult::CancelAndDoAnother,
            }),
    {
        match claim_precheck_exec(self.step, v) {
            None => outcome(TaskAction::Wait, OokTaskRunnableResult::CancelAndDoAnother),
            Some(s) => {
                self.step = s;
                let action = match s {
                    ClaimStep::Move { pos } => match pos {
                        ControllerPosToClaim::InRoom { room_name } => TaskAction::MoveTo(
                            Position { room: room_name, x: ROOM_CENTER, y: ROOM_CENTER },
                        ),
                        ControllerPosToClaim::KnowingPos { pos } => TaskAction::MoveTo(pos),
                    },
                    ClaimStep::Claim { controller_pos } => TaskAction::ClaimController(
                        controller_pos,
                    ),
                };
                outcome(action, OokTaskRunnableResult::Continue)
            },
        }
    }
}


/// The kinds of task, with the numbers they are stored under.
#[derive(Clone, Copy, Debug, PartialEq, Eq, Structural)]
pub enum OokCreepTaskKind {
    UpgradeController,
    MaintainResource,
    FarmSource,
    MaintainStructures,
    ClaimRoom,
    DefendRoom,
    BootstrapRoom,
    Build,
    FetchForConsumer,
}

#[derive(Clone, Copy, Debug, PartialEq, Eq, Structural)]
pub enum TaskError {
    UnknownTaskKind(i32),
}

pub open spec fn task_kind_code(k: OokCreepTaskKind) -> i32 {
    match k {
        OokCreepTaskKind::UpgradeController => 0,
        OokCreepTaskKind::MaintainResource => 1,
        OokCreepTaskKind::FarmSource => 2,
        OokCreepTaskKind::MaintainStructures => 3,
        OokCreepTaskKind::ClaimRoom => 4,
        OokCreepTaskKind::DefendRoom => 5,
        OokCreepTaskKind::BootstrapRoom => 6,
        OokCreepTaskKind::Build => 7,
        OokCreepTaskKind::FetchForConsumer => 8,
    }
}

impl OokCreepTaskKind {
    pub fn try_from(val: i32) -> (r: Result<OokCreepTaskKind, TaskError>)
        ensures
            0 <= val <= 8 <==> r is Ok,
            r matches Ok(k) ==> task_kind_code(k) == val,
            !(0 <= val <= 8) ==> r == Err::<OokCreepTaskKind, TaskError>(TaskError::UnknownTaskKind(val)),
    {
        match val {
            0 => Ok(OokCreepTaskKind::UpgradeController),
            1 => Ok(OokCreepTaskKind::MaintainResource),
            2 => Ok(OokCreepTaskKind::FarmSource),
            3 => Ok(OokCreepTaskKind::MaintainStructures),
            4 => Ok(OokCreepTaskKind::ClaimRoom),
            5 => Ok(OokCreepTaskKind::DefendRoom),
            6 => Ok(OokCreepTaskKind::BootstrapRoom),
            7 => Ok(OokCreepTaskKind::Build),
            8 => Ok(OokCreepTaskKind::FetchForConsumer),
            _ => Err(TaskError::UnknownTaskKind(val)),
        }
    }

    pub fn code(&self) -> (r: i32)
        ensures
            r == task_kind_code(*self),
    {
        match self {
            OokCreepTaskKind::UpgradeController => 0,
            OokCreepTaskKind::MaintainResource => 1,
            OokCreepTaskKind::FarmSource => 2,
            OokCreepTaskKind::MaintainStructures => 3,
            OokCreepTaskKind::ClaimRoom => 4,
            OokCreepTaskKind::DefendRoom => 5,
            OokCreepTaskKind::BootstrapRoom => 6,
            OokCreepTaskKind::Build => 7,
            OokCreepTaskKind::FetchForConsumer => 8,
        }
    }
}

/// The task an agent runs now; a cache that can always be derived again from its job.
#[derive(Clone, Copy, Debug, PartialEq, Eq, Structural)]
pub enum OokCreepTask {
    UpgradeController(UpgradeTask),
    MaintainResource,
    FarmSource(FarmTask),
    MaintainStructures,
    ClaimController(ClaimTask),
    Build(BuildTask),
}

/// What an agent without a task sees when it derives one from its job.
pub struct JobView {
    pub energy: EnergyView,
    /// The controller of the job's target room, when that room is visible.
    pub target_controller: Option<Position>,
    /// The first construction site of the room the agent stands in.
    pub construction_site: Option<BuildTarget>,
    /// Where the job's source is, when it is visible.
    pub source_pos: Option<Position>,
    /// The farm positions of the job's source.
    pub farm_positions: Vec<FarmPosition>,
}

/// What an agent does about its job when it has no task.
#[derive(Clone, Copy, Debug, PartialEq, Eq, Structural)]
pub enum JobDecision {
    /// Begin the given task and run it in the same tick.
    Start(OokCreepTask),
    /// Walk there first, without a task.
    MoveTo(Position),
    /// Nothing to do this tick.
    Idle,
    /// The race has no way to do this job: skip the agent this tick.
    Unhandled,
}

pub open spec fn room_center(room: RoomName) -> Position {
    Position { room, x: ROOM_CENTER, y: ROOM_CENTER }
}

/// How a worker turns its job into a task: upgrading goes straight to the controller;
/// bootstrapping builds the first construction site of the room or else upgrades, once
/// the agent is in the room; farming starts only where the source is in sight and in
/// the agent's room, from its best farm position.
pub open spec fn worker_decision(job: OokCreepJob, v: JobView) -> JobDecision {
    let e = v.energy;
    match job {
        OokCreepJob::UpgradeController { target_room } => match v.target_controller {
            Some(c) => JobDecision::Start(
                OokCreepTask::UpgradeController(
                    UpgradeTask {
                        step: upgrade_precheck(UpgradeStep::WaitForResource { controller_pos: c }, e),
                    },
                ),
            ),
            None => JobDecision::MoveTo(room_center(target_room)),
        },
        OokCreepJob::BootstrapRoom { target_room } => {
            let pos = match v.target_controller {
                Some(c) => c,
                None => room_center(target_room),
            };
            if e.creep_pos.room != target_room {
                JobDecision::MoveTo(pos)
            } else {
                match v.construction_site {
                    Some(site) => JobDecision::Start(
                        OokCreepTask::Build(
                            BuildTask {
                                step: build_precheck(
                                    BuildStep::WaitForResource { build_target: site },
                                    e,
                                ),
                            },
                        ),
                    ),
                    None => JobDecision::Start(
                        OokCreepTask::UpgradeController(
                            UpgradeTask {
                                step: upgrade_precheck(
                                    UpgradeStep::WaitForResource { controller_pos: pos },
                                    e,
                                ),
                            },
                        ),
                    ),
                }
            }
        },
        OokCreepJob::FarmSource(f) => match v.source_pos {
            Some(sp) => if e.creep_pos.room == sp.room {
                let prio = prioritized_spec(v.farm_positions@);
                if prio.len() > 0 {
                    JobDecision::Start(
                        OokCreepTask::FarmSource(
                            FarmTask {
                                step: farm_precheck(FarmStep::Walk { target: prio[0] }, e.creep_pos),
                            },
                        ),
                    )
                } else {
                    JobDecision::Idle
                }
            } else {
                JobDecision::Idle
            },
            None => JobDecision::MoveTo(room_center(f.target_room)),
        },
        _ => JobDecision::Unhandled,
    }
}

/// Derives a worker's task from its job (see `worker_decision`).
pub fn worker_next_task(job: &OokCreepJob, v: &JobView) -> (r: JobDecision)
    ensures
        r == worker_decision(*job, *v),
{
    let e = &v.energy;
    match job {
        OokCreepJob::UpgradeController { target_room } => match v.target_controller {
            Some(c) => JobDecision::Start(
                OokCreepTask::UpgradeController(UpgradeTask::new(c, e)),
            ),
            None => JobDecision::MoveTo(
                Position { room: *target_room, x: ROOM_CENTER, y: ROOM_CENTER },
            ),
        },
        OokCreepJob::BootstrapRoom { target_room } => {
            let pos = match v.target_controller {
                Some(c) => c,
                None => Position { room: *target_room, x: ROOM_CENTER, y: ROOM_CENTER },
            };
            if e.creep_pos.room != *target_room {
                JobDecision::MoveTo(pos)
            } else {
                match v.construction_site {
                    Some(site) => JobDecision::Start(OokCreepTask::Build(BuildTask::new(site, e))),
                    None => JobDecision::Start(
                        OokCreepTask::UpgradeController(UpgradeTask::new(pos, e)),
                    ),
                }
            }
        },
        OokCreepJob::FarmSource(f) => match v.source_pos {
            Some(sp) => {
                if e.creep_pos.room == sp.room {
                    match FarmTask::new(&v.farm_positions, e.creep_pos) {
                        Some(t) => JobDecision::Start(OokCreepTask::FarmSource(t)),
                        None => JobDecision::Idle,
                    }
                } else {
                    JobDecision::Idle
                }
            },
            None => JobDecision::MoveTo(
                Position { room: f.target_room, x: ROOM_CENTER, y: ROOM_CENTER },
            ),
        },
        _ => JobDecision::Unhandled,
    }
}

/// A claimer only claims: its claim job becomes a claim task, any other job is unhandled.
pub fn claimer_next_task(job: &OokCreepJob, target_controller: Option<Position>) -> (r: JobDecision)
    ensures
        *job matches OokCreepJob::ClaimRoom { target_room } ==> r == JobDecision::Start(
            OokCreepTask::ClaimController(
                ClaimTask {
                    step: ClaimStep::Move {
                        pos: match target_controller {
                            Some(pos) => ControllerPosToClaim::KnowingPos { pos },
                            None => ControllerPosToClaim::InRoom { room_name: target_room },
                        },
                    },
                },
            ),
        ),
        !(*job is ClaimRoom) ==> r == JobDecision::Unhandled,
{
    match job {
        OokCreepJob::ClaimRoom { target_room } => JobDecision::Start(
            OokCreepTask::ClaimController(ClaimTask::new(*target_room, target_controller)),
        ),
        _ => JobDecision::Unhandled,
    }
}


/// What a carrier without a task takes on for its job.
#[derive(Clone, Copy, Debug, PartialEq, Eq, Structural)]
pub enum CarrierDecision {
    /// Fill the spawn suppliers of its base.
    SuppliesRun,
    /// Fetch energy for the consumer that needs it most.
    FetchForConsumer,
    /// The region has no state here, or the job is not a carrier's: skip the agent.
    Unhandled,
}

/// A carrier's logistics job: in a base with supplier points left to fill it runs the
/// suppliers, otherwise (and in a region in setup) it fetches for consumers.
pub open spec fn carrier_decision(job: OokCreepJob, region: Option<bool>, open_points: nat) -> CarrierDecision {
    match job {
        OokCreepJob::RoomLogistics { .. } => match region {
            Some(is_base) => if is_base && open_points > 0 {
                CarrierDecision::SuppliesRun
            } else {
                CarrierDecision::FetchForConsumer
            },
            None => CarrierDecision::Unhandled,
        },
        _ => CarrierDecision::Unhandled,
    }
}

/// Derives a carrier's task from its job; `region` tells whether the job's region is a
/// base (`None` when it has no state here).
pub fn carrier_next_task(job: &OokCreepJob, region: Option<bool>, open_points: usize) -> (r: CarrierDecision)
    ensures
        r == carrier_decision(*job, region, open_points as nat),
{
    match job {
        OokCreepJob::RoomLogistics { .. } => match region {
            Some(is_base) => {
                if is_base && open_points > 0 {
                    CarrierDecision::SuppliesRun
                } else {
                    CarrierDecision::FetchForConsumer
                }
            },
            None => CarrierDecision::Unhandled,
        },
        _ => CarrierDecision::Unhandled,
    }
}

/// What the owner of a task does with it after a run: keep it, and whether to derive
/// another one in this same tick.
pub open spec fn keeps_task(r: OokTaskRunnableResult) -> bool {
    r == OokTaskRunnableResult::Continue
}

pub fn after_run(r: OokTaskRunnableResult) -> (res: (bool, bool))
    ensures
        res.0 == keeps_task(r),
        res.1 == (r == OokTaskRunnableResult::CancelAndDoAnother),
{
    match r {
        OokTaskRunnableResult::Continue => (true, false),
        OokTaskRunnableResult::Finish => (false, false),
        OokTaskRunnableResult::CancelAndDoAnother => (false, true),
    }
}

/// When the object a task stands on is gone, running the task still yields an outcome:
/// the task cancels, or falls back to a defined step. A fetch from a vanished provider
/// falls back to waiting for energy; a build site that is gone cancels once its room
/// is in sight; a vanished source cancels farming; a room without a controller cancels
/// claiming.
pub proof fn lemma_vanished_objects_fall_back(
    b: BuildStep,
    bv: BuildView,
    u: UpgradeStep,
    uv: EnergyView,
    f: FarmStep,
    creep_pos: Position,
)
    ensures
        build_precheck(b, bv.energy) is GetEnergy && !bv.energy.target_present ==> build_act(
            build_precheck(b, bv.energy),
            bv,
        ).0 is WaitForResource && build_act(build_precheck(b, bv.energy), bv).1.result
            == OokTaskRunnableResult::Continue,
        build_precheck(b, bv.energy) is Build && !bv.site_present ==> ({
            let out = build_act(build_precheck(b, bv.energy), bv).1;
            out.result == OokTaskRunnableResult::CancelAndDoAnother || out.action
                == TaskAction::MoveTo(build_target_of(b).pos)
        }),
        upgrade_precheck(u, uv) is GetEnergy && !uv.target_present ==> upgrade_act(
            upgrade_precheck(u, uv),
            uv,
        ).0 is WaitForResource,
        farm_precheck(f, creep_pos) is Harvest ==> farm_act(farm_precheck(f, creep_pos), false).result
            == OokTaskRunnableResult::CancelAndDoAnother,
{
}

} // verus!
