use vstd::prelude::*;

use crate::jobs::OokCreepJob;

verus! {

/// The most body parts an agent can have.
pub const MAX_CREEP_SIZE: u32 = 50;

/// Ticks of spawning per body part.
pub const CREEP_SPAWN_TIME: u32 = 3;

/// A body part of an agent.
#[derive(Clone, Copy, Debug, PartialEq, Eq, Structural)]
pub enum Part {
    Move,
    Work,
    Carry,
    Attack,
    RangedAttack,
    Tough,
    Heal,
    Claim,
}

pub open spec fn part_cost(p: Part) -> int {
    match p {
        Part::Move => 50,
        Part::Work => 100,
        Part::Carry => 50,
        Part::Attack => 80,
        Part::RangedAttack => 150,
        Part::Tough => 10,
        Part::Heal => 250,
        Part::Claim => 600,
    }
}

impl Part {
    /// The energy one part of this kind costs to spawn.
    pub fn cost(&self) -> (r: u32)
        ensures
            r == part_cost(*self),
    {
        match self {
            Part::Move => 50,
            Part::Work => 100,
            Part::Carry => 50,
            Part::Attack => 80,
            Part::RangedAttack => 150,
            Part::Tough => 10,
            Part::Heal => 250,
            Part::Claim => 600,
        }
    }
}

#[derive(Clone, Copy, Debug, PartialEq, Eq, Structural)]
pub enum OokRaceKind {
    Worker,
    StaticWorker,
    Carrier,
    Attacker,
    CloseCombatDefender,
    Claimer,
}

#[derive(Clone, Copy, Debug, PartialEq, Eq, Structural)]
pub enum RacesError {
    /// The agent's memory holds no race.
    MemRaceKindMissing,
    /// The agent's memory holds a race number that names no race.
    UnknownRace(i32),
}

pub open spec fn race_code(k: OokRaceKind) -> i32 {
    match k {
        OokRaceKind::Worker => 0,
        OokRaceKind::StaticWorker => 1,
        OokRaceKind::Carrier => 2,
        OokRaceKind::Attacker => 3,
        OokRaceKind::CloseCombatDefender => 4,
        OokRaceKind::Claimer => 5,
    }
}

impl OokRaceKind {
    pub fn try_from(val: i32) -> (r: Result<OokRaceKind, RacesError>)
        ensures
            0 <= val <= 5 <==> r is Ok,
            r matches Ok(k) ==> race_code(k) == val,
            !(0 <= val <= 5) ==> r == Err::<OokRaceKind, RacesError>(RacesError::UnknownRace(val)),
    {
        match val {
            0 => Ok(OokRaceKind::Worker),
            1 => Ok(OokRaceKind::StaticWorker),
            2 => Ok(OokRaceKind::Carrier),
            3 => Ok(OokRaceKind::Attacker),
            4 => Ok(OokRaceKind::CloseCombatDefender),
            5 => Ok(OokRaceKind::Claimer),
            _ => Err(RacesError::UnknownRace(val)),
        }
    }

    pub fn code(&self) -> (r: i32)
        ensures
            r == race_code(*self),
    {
        match self {
            OokRaceKind::Worker => 0,
            OokRaceKind::StaticWorker => 1,
            OokRaceKind::Carrier => 2,
            OokRaceKind::Attacker => 3,
            OokRaceKind::CloseCombatDefender => 4,
            OokRaceKind::Claimer => 5,
        }
    }
}

/// What an agent did this tick.
#[derive(Clone, Copy, Debug, PartialEq, Eq, Structural)]
pub enum DoJobResult {
    Done,
}

/// Options for sizing a body.
#[derive(Clone, Copy, Debug, PartialEq, Eq, Structural)]
pub struct CalcPartsOptions {
    pub limit_work_parts: Option<u8>,
}

impl CalcPartsOptions {
    pub fn new() -> (r: CalcPartsOptions)
        ensures
            r.limit_work_parts is None,
    {
        CalcPartsOptions { limit_work_parts: None }
    }
}

/// The parts of one unit of a body; a body is a whole number of units.
#[derive(Clone, Copy, Debug, PartialEq, Eq, Structural)]
pub struct OokRaceBodyComposition {
    pub mov: u32,
    pub carry: u32,
    pub work: u32,
    pub attack: u32,
    pub ranged_attack: u32,
    pub heal: u32,
    pub tough: u32,
    pub claim: u32,
}

pub open spec fn unit_count(c: OokRaceBodyComposition) -> int {
    c.mov + c.carry + c.work + c.attack + c.ranged_attack + c.heal + c.tough + c.claim
}

pub open spec fn unit_cost(c: OokRaceBodyComposition) -> int {
    c.mov * 50 + c.carry * 50 + c.work * 100 + c.attack * 80 + c.ranged_attack * 150 + c.heal
        * 250 + c.tough * 10 + c.claim * 600
}

pub open spec fn repeat_part(p: Part, n: int) -> Seq<Part> {
    Seq::new(n as nat, |_i: int| p)
}

/// The body of `n` units: the parts of each kind together, in a fixed order of kinds.
pub open spec fn body_for_units(c: OokRaceBodyComposition, n: int) -> Seq<Part> {
    repeat_part(Part::Move, c.mov * n) + repeat_part(Part::Carry, c.carry * n) + repeat_part(
        Part::Work,
        c.work * n,
    ) + repeat_part(Part::Attack, c.attack * n) + repeat_part(
        Part::RangedAttack,
        c.ranged_attack * n,
    ) + repeat_part(Part::Heal, c.heal * n) + repeat_part(Part::Tough, c.tough * n)
        + repeat_part(Part::Claim, c.claim * n)
}

/// How many units a body can have for the energy, limited by the largest body.
pub open spec fn units_for_energy(c: OokRaceBodyComposition, energy: int) -> int {
    let by_size = MAX_CREEP_SIZE as int / unit_count(c);
    let by_energy = energy / unit_cost(c);
    if by_size < by_energy {
        by_size
    } else {
        by_energy
    }
}

fn push_parts(v: &mut Vec<Part>, p: Part, n: u32)
    ensures
        final(v)@ == old(v)@ + repeat_part(p, n as int),
{
    let mut i: u32 = 0;
    while i < n
        invariant
            i <= n,
            v@ == old(v)@ + repeat_part(p, i as int),
        decreases n - i,
    {
        v.push(p);
        assert(repeat_part(p, (i + 1) as int) =~= repeat_part(p, i as int).push(p));
        i += 1;
    }
}

impl OokRaceBodyComposition {
    pub fn single_parts_unit_count(&self) -> (r: u32)
        requires
            unit_count(*self) <= u32::MAX,
        ensures
            r == unit_count(*self),
    {
        self.mov + self.carry + self.work + self.attack + self.ranged_attack + self.heal
            + self.tough + self.claim
    }

    pub fn single_parts_unit_cost(&self) -> (r: u32)
        requires
            unit_cost(*self) <= u32::MAX,
        ensures
            r == unit_cost(*self),
    {
        let total: u64 = self.mov as u64 * 50 + self.carry as u64 * 50 + self.work as u64 * 100
            + self.attack as u64 * 80 + self.ranged_attack as u64 * 150 + self.heal as u64 * 250
            + self.tough as u64 * 10 + self.claim as u64 * 600;
        total as u32
    }

    pub fn parts_for_x_units(&self, unit_count: u32) -> (r: Vec<Part>)
        requires
            unit_count * crate::races::unit_count(*self) <= MAX_CREEP_SIZE,
        ensures
            r@ == body_for_units(*self, unit_count as int),
    {
        proof {
            let c = *self;
            let n = unit_count as int;
            assert(c.mov * n <= MAX_CREEP_SIZE && c.carry * n <= MAX_CREEP_SIZE && c.work * n
                <= MAX_CREEP_SIZE && c.attack * n <= MAX_CREEP_SIZE && c.ranged_attack * n
                <= MAX_CREEP_SIZE && c.heal * n <= MAX_CREEP_SIZE && c.tough * n <= MAX_CREEP_SIZE
                && c.claim * n <= MAX_CREEP_SIZE) by (nonlinear_arith)
                requires
                    n * (c.mov + c.carry + c.work + c.attack + c.ranged_attack + c.heal + c.tough
                        + c.claim) <= MAX_CREEP_SIZE,
                    n >= 0,
                    c.mov >= 0, c.carry >= 0, c.work >= 0, c.attack >= 0, c.ranged_attack >= 0,
                    c.heal >= 0, c.tough >= 0, c.claim >= 0,
            ;
        }
        let mut v: Vec<Part> = Vec::new();
        push_parts(&mut v, Part::Move, self.mov * unit_count);
        push_parts(&mut v, Part::Carry, self.carry * unit_count);
        push_parts(&mut v, Part::Work, self.work * unit_count);
        push_parts(&mut v, Part::Attack, self.attack * unit_count);
        push_parts(&mut v, Part::RangedAttack, self.ranged_attack * unit_count);
        push_parts(&mut v, Part::Heal, self.heal * unit_count);
        push_parts(&mut v, Part::Tough, self.tough * unit_count);
        push_parts(&mut v, Part::Claim, self.claim * unit_count);
        v
    }

    /// The largest body of whole units that the energy pays for and that fits the size
    /// limit, with its cost; `None` when not even one unit fits.
    pub fn parts_for_x_energy(&self, target_energy: u32) -> (r: Option<(Vec<Part>, u32)>)
        requires
            unit_cost(*self) <= u32::MAX,
        ensures
            unit_count(*self) == 0 ==> r is None,
            unit_count(*self) > 0 ==> {
                let n = units_for_energy(*self, target_energy as int);
                &&& (n == 0 <==> r is None)
                &&& r matches Some(body) ==> body.0@ == body_for_units(*self, n) && body.1 == n
                    * unit_cost(*self)
            },
    {
        if self.mov == 0 && self.carry == 0 && self.work == 0 && self.attack == 0
            && self.ranged_attack == 0 && self.heal == 0 && self.tough == 0 && self.claim == 0 {
            return None;
        }
        assert(unit_count(*self) <= unit_cost(*self));
        let count = self.single_parts_unit_count();
        let cost = self.single_parts_unit_cost();
        let by_size: u32 = MAX_CREEP_SIZE / count;
        let by_energy: u32 = target_energy / cost;
        let n: u32 = if by_size < by_energy {
            by_size
        } else {
            by_energy
        };
        if n == 0 {
            return None;
        }
        proof {
            let c = count as int;
            assert(n * c <= MAX_CREEP_SIZE) by (nonlinear_arith)
                requires
                    n <= MAX_CREEP_SIZE as int / c,
                    c > 0,
            ;
            assert(n * (cost as int) <= target_energy) by (nonlinear_arith)
                requires
                    n <= target_energy as int / (cost as int),
                    cost > 0,
            ;
        }
        let parts = self.parts_for_x_units(n);
        Some((parts, n * cost))
    }
}

/// Ticks a body of `n` parts takes to spawn.
pub fn get_spawn_time(part_count: usize) -> (r: usize)
    requires
        part_count * CREEP_SPAWN_TIME <= usize::MAX,
    ensures
        r == part_count * CREEP_SPAWN_TIME,
{
    part_count * CREEP_SPAWN_TIME as usize
}

#[derive(Clone, Copy, Debug, PartialEq, Eq, Structural)]
pub enum SpawnPlanError {
    /// No body is defined for agents created with this job.
    UnhandledJob,
}

/// The per-unit composition and race of an agent created for a job, and the energy
/// cap that the job puts on its body; `None` for jobs that get no body here.
pub open spec fn composition_for_job(job: OokCreepJob) -> Option<
    (OokRaceKind, OokRaceBodyComposition, Option<u32>),
> {
    let none = OokRaceBodyComposition {
        mov: 0,
        carry: 0,
        work: 0,
        attack: 0,
        ranged_attack: 0,
        heal: 0,
        tough: 0,
        claim: 0,
    };
    match job {
        OokCreepJob::UpgradeController { .. } => Some(
            (OokRaceKind::Worker, OokRaceBodyComposition { mov: 1, carry: 1, work: 1, ..none }, None),
        ),
        OokCreepJob::BootstrapRoom { .. } => Some(
            (OokRaceKind::Worker, OokRaceBodyComposition { mov: 1, carry: 1, work: 1, ..none }, None),
        ),
        OokCreepJob::RoomLogistics { .. } => Some(
            (OokRaceKind::Carrier, OokRaceBodyComposition { mov: 1, carry: 2, ..none }, None),
        ),
        OokCreepJob::FarmSource(_) => Some(
            (
                OokRaceKind::Worker,
                OokRaceBodyComposition { mov: 1, work: 2, ..none },
                Some(FARMER_ENERGY_CAP),
            ),
        ),
        _ => None,
    }
}

/// A farmer's body is sized for at most this much energy.
pub const FARMER_ENERGY_CAP: u32 = 900;

fn comp(mov: u32, carry: u32, work: u32) -> (r: OokRaceBodyComposition)
    ensures
        r == (OokRaceBodyComposition {
            mov,
            carry,
            work,
            attack: 0,
            ranged_attack: 0,
            heal: 0,
            tough: 0,
            claim: 0,
        }),
{
    OokRaceBodyComposition {
        mov,
        carry,
        work,
        attack: 0,
        ranged_attack: 0,
        heal: 0,
        tough: 0,
        claim: 0,
    }
}

/// The race and body of an agent created for `job` with `target_energy_usage` to spend;
/// `Ok(None)` when the energy does not pay for one unit.
pub fn creep_spawn_options_from_job(job: &OokCreepJob, target_energy_usage: u32) -> (r: Result<
    Option<(OokRaceKind, Vec<Part>)>,
    SpawnPlanError,
>)
    ensures
        composition_for_job(*job) is None <==> r is Err,
        composition_for_job(*job) matches Some(rc) ==> {
            let energy = match rc.2 {
                Some(cap) => if target_energy_usage < cap {
                    target_energy_usage as int
                } else {
                    cap as int
                },
                None => target_energy_usage as int,
            };
            let n = units_for_energy(rc.1, energy);
            &&& r is Ok
            &&& (n == 0 <==> r->Ok_0 is None)
            &&& r->Ok_0 matches Some(plan) ==> plan.0 == rc.0 && plan.1@ == body_for_units(
                rc.1,
                n,
            )
        },
{
    let (race, c, energy) = match job {
        OokCreepJob::UpgradeController { .. } => (
            OokRaceKind::Worker,
            comp(1, 1, 1),
            target_energy_usage,
        ),
        OokCreepJob::BootstrapRoom { .. } => (
            OokRaceKind::Worker,
            comp(1, 1, 1),
            target_energy_usage,
        ),
        OokCreepJob::RoomLogistics { .. } => (
            OokRaceKind::Carrier,
            comp(1, 2, 0),
            target_energy_usage,
        ),
        OokCreepJob::FarmSource(_) => {
            let e = if target_energy_usage < FARMER_ENERGY_CAP {
                target_energy_usage
            } else {
                FARMER_ENERGY_CAP
            };
            (OokRaceKind::Worker, comp(1, 0, 2), e)
        },
        _ => {
            return Err(SpawnPlanError::UnhandledJob);
        },
    };
    match c.parts_for_x_energy(energy) {
        Some((parts, _cost)) => Ok(Some((race, parts))),
        None => Ok(None),
    }
}

/// The energy a spawn for a request may use: a request that resolves a panic spends
/// what the room has now (but plans for at least a minimal body), any other the
/// room's full capacity.
pub fn spawn_energy_target(resolve_panic: bool, energy_available: u32, energy_capacity: u32) -> (r:
    u32)
    ensures
        resolve_panic ==> r == (if energy_available > MIN_PANIC_SPAWN_ENERGY {
            energy_available
        } else {
            MIN_PANIC_SPAWN_ENERGY
        }),
        !resolve_panic ==> r == energy_capacity,
{
    if resolve_panic {
        if energy_available > MIN_PANIC_SPAWN_ENERGY {
            energy_available
        } else {
            MIN_PANIC_SPAWN_ENERGY
        }
    } else {
        energy_capacity
    }
}

/// The energy a panic spawn plans for, even when the room holds less.
pub const MIN_PANIC_SPAWN_ENERGY: u32 = 300;

} // verus!
