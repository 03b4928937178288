use vstd::prelude::*;

use crate::jobs::OokCreepJob;
use crate::races::{
    OokRaceKind, Part, body_for_units, composition_for_job, creep_spawn_options_from_job,
    spawn_energy_target, units_for_energy, MIN_PANIC_SPAWN_ENERGY,
};
use crate::requests::{CreepName, Request, RequestData};

verus! {

/// What a region does about the request it took on this tick.
pub enum SpawnPlan {
    /// Spawn an agent of this race and body, with this job.
    Spawn { race: OokRaceKind, parts: Vec<Part>, job: OokCreepJob },
    /// The energy does not pay for a body yet; the request stays open.
    Skip,
    /// No body is defined for the request's job.
    Unhandled,
}

/// The job an agent spawned for a request starts with.
pub open spec fn request_job(d: RequestData) -> OokCreepJob {
    match d {
        RequestData::BootstrapWorkerCitizen(b) => OokCreepJob::BootstrapRoom { target_room: b.target_room_name },
        RequestData::Citizen(c) => c.initial_job,
    }
}

/// The energy a spawn for a request plans with: a request that resolves a panic spends
/// what the room has now (at least a minimal body's worth), any other the full capacity.
pub open spec fn request_energy(d: RequestData, available: u32, capacity: u32) -> u32 {
    match d {
        RequestData::Citizen(c) => if c.resolve_panic {
            if available > MIN_PANIC_SPAWN_ENERGY { available } else { MIN_PANIC_SPAWN_ENERGY }
        } else {
            capacity
        },
        _ => capacity,
    }
}

/// Plans the agent for a request: its job, and the body that energy buys for it.
pub fn plan_spawn(data: &RequestData, energy_available: u32, energy_capacity: u32) -> (r: SpawnPlan)
    ensures
        ({
            let job = request_job(*data);
            let energy = request_energy(*data, energy_available, energy_capacity);
            match composition_for_job(job) {
                None => r is Unhandled,
                Some(rc) => {
                    let e = match rc.2 {
                        Some(cap) => if energy < cap { energy as int } else { cap as int },
                        None => energy as int,
                    };
                    let n = units_for_energy(rc.1, e);
                    if n == 0 {
                        r is Skip
                    } else {
                        r matches SpawnPlan::Spawn { race, parts, job: j } && race == rc.0
                            && parts@ == body_for_units(rc.1, n) && j == job
                    }
                },
            }
        }),
{
    let (job, energy) = match data {
        RequestData::BootstrapWorkerCitizen(b) => (
            OokCreepJob::BootstrapRoom { target_room: b.target_room_name },
            energy_capacity,
        ),
        RequestData::Citizen(c) => (
            c.initial_job,
            spawn_energy_target(c.resolve_panic, energy_available, energy_capacity),
        ),
    };
    match creep_spawn_options_from_job(&job, energy) {
        Err(_) => SpawnPlan::Unhandled,
        Ok(None) => SpawnPlan::Skip,
        Ok(Some((race, parts))) => SpawnPlan::Spawn { race, parts, job },
    }
}

/// A request's data carrying the name of the agent spawned for it.
pub open spec fn named_request_data(d: RequestData, name: CreepName) -> RequestData {
    match d {
        RequestData::BootstrapWorkerCitizen(b) => RequestData::BootstrapWorkerCitizen(
            crate::requests::BootstrapWorkerCitizen { spawning_creep_name: Some(name), ..b },
        ),
        RequestData::Citizen(c) => RequestData::Citizen(
            crate::requests::Citizen { spawning_creep_name: Some(name), ..c },
        ),
    }
}

/// The request as handled: it carries the name of the agent spawned for it.
pub fn with_spawned_name(request: &Request, name: CreepName) -> (r: Request)
    ensures
        r == (Request { request_id: request.request_id, data: named_request_data(request.data, name) }),
{
    let data = match request.data {
        RequestData::BootstrapWorkerCitizen(b) => RequestData::BootstrapWorkerCitizen(
            crate::requests::BootstrapWorkerCitizen {
                target_room_name: b.target_room_name,
                spawning_creep_name: Some(name),
            },
        ),
        RequestData::Citizen(c) => RequestData::Citizen(
            crate::requests::Citizen {
                target_room_name: c.target_room_name,
                spawning_creep_name: Some(name),
                initial_job: c.initial_job,
                resolve_panic: c.resolve_panic,
            },
        ),
    };
    Request { request_id: request.request_id, data }
}

} // verus!
