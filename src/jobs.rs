use vstd::prelude::*;

use crate::world::{ObjId, RoomName};

verus! {

#[derive(Clone, Copy, Debug, PartialEq, Eq, Structural)]
pub enum OokCreepJobKind {
    UpgradeController,
    RoomLogistics,
    FarmSource,
    FarmExtensionRoom,
    LogisticsExtensionRoom,
    MaintainStructures,
    ClaimRoom,
    BootstrapRoom,
}

#[derive(Clone, Copy, Debug, PartialEq, Eq, Structural)]
pub enum JobError {
    /// A stored job kind number that names no job.
    UnknownJobKind(i32),
}

/// The stored number of each job kind.
pub open spec fn job_kind_code(k: OokCreepJobKind) -> i32 {
    match k {
        OokCreepJobKind::UpgradeController => 1,
        OokCreepJobKind::RoomLogistics => 2,
        OokCreepJobKind::FarmSource => 3,
        OokCreepJobKind::FarmExtensionRoom => 4,
        OokCreepJobKind::LogisticsExtensionRoom => 5,
        OokCreepJobKind::MaintainStructures => 6,
        OokCreepJobKind::ClaimRoom => 7,
        OokCreepJobKind::BootstrapRoom => 8,
    }
}

impl OokCreepJobKind {
    pub fn try_from(val: i32) -> (r: Result<OokCreepJobKind, JobError>)
        ensures
            1 <= val <= 8 <==> r is Ok,
            r matches Ok(k) ==> job_kind_code(k) == val,
            !(1 <= val <= 8) ==> r == Err::<OokCreepJobKind, JobError>(JobError::UnknownJobKind(val)),
    {
        match val {
            1 => Ok(OokCreepJobKind::UpgradeController),
            2 => Ok(OokCreepJobKind::RoomLogistics),
            3 => Ok(OokCreepJobKind::FarmSource),
            4 => Ok(OokCreepJobKind::FarmExtensionRoom),
            5 => Ok(OokCreepJobKind::LogisticsExtensionRoom),
            6 => Ok(OokCreepJobKind::MaintainStructures),
            7 => Ok(OokCreepJobKind::ClaimRoom),
            8 => Ok(OokCreepJobKind::BootstrapRoom),
            _ => Err(JobError::UnknownJobKind(val)),
        }
    }

    pub fn code(&self) -> (r: i32)
        ensures
            r == job_kind_code(*self),
    {
        match self {
            OokCreepJobKind::UpgradeController => 1,
            OokCreepJobKind::RoomLogistics => 2,
            OokCreepJobKind::FarmSource => 3,
            OokCreepJobKind::FarmExtensionRoom => 4,
            OokCreepJobKind::LogisticsExtensionRoom => 5,
            OokCreepJobKind::MaintainStructures => 6,
            OokCreepJobKind::ClaimRoom => 7,
            OokCreepJobKind::BootstrapRoom => 8,
        }
    }
}

#[derive(Clone, Copy, Debug, PartialEq, Eq, Structural)]
pub struct FarmSource {
    pub target_room: RoomName,
    pub target_source: ObjId,
}

/// An agent's long-term intent, fixed when it is created.
#[derive(Clone, Copy, Debug, PartialEq, Eq, Structural)]
pub enum OokCreepJob {
    UpgradeController { target_room: RoomName },
    /// Carry energy between things.
    RoomLogistics { target_room: RoomName },
    FarmSource(FarmSource),
    FarmExtensionRoom { target_room: RoomName },
    LogisticsExtensionRoom { extension_room: RoomName, target_room: RoomName },
    /// Repair existing structures, build new ones.
    MaintainStructures { target_room: RoomName },
    ClaimRoom { target_room: RoomName },
    BootstrapRoom { target_room: RoomName },
}

pub open spec fn job_kind(job: OokCreepJob) -> OokCreepJobKind {
    match job {
        OokCreepJob::UpgradeController { .. } => OokCreepJobKind::UpgradeController,
        OokCreepJob::RoomLogistics { .. } => OokCreepJobKind::RoomLogistics,
        OokCreepJob::FarmSource(_) => OokCreepJobKind::FarmSource,
        OokCreepJob::FarmExtensionRoom { .. } => OokCreepJobKind::FarmExtensionRoom,
        OokCreepJob::LogisticsExtensionRoom { .. } => OokCreepJobKind::LogisticsExtensionRoom,
        OokCreepJob::MaintainStructures { .. } => OokCreepJobKind::MaintainStructures,
        OokCreepJob::ClaimRoom { .. } => OokCreepJobKind::ClaimRoom,
        OokCreepJob::BootstrapRoom { .. } => OokCreepJobKind::BootstrapRoom,
    }
}

pub open spec fn job_target_room(job: OokCreepJob) -> RoomName {
    match job {
        OokCreepJob::UpgradeController { target_room } => target_room,
        OokCreepJob::RoomLogistics { target_room } => target_room,
        OokCreepJob::FarmSource(f) => f.target_room,
        OokCreepJob::FarmExtensionRoom { target_room } => target_room,
        OokCreepJob::LogisticsExtensionRoom { target_room, .. } => target_room,
        OokCreepJob::MaintainStructures { target_room } => target_room,
        OokCreepJob::ClaimRoom { target_room } => target_room,
        OokCreepJob::BootstrapRoom { target_room } => target_room,
    }
}

impl OokCreepJob {
    pub fn kind(&self) -> (r: OokCreepJobKind)
        ensures
            r == job_kind(*self),
    {
        match self {
            OokCreepJob::UpgradeController { .. } => OokCreepJobKind::UpgradeController,
            OokCreepJob::RoomLogistics { .. } => OokCreepJobKind::RoomLogistics,
            OokCreepJob::FarmSource(_) => OokCreepJobKind::FarmSource,
            OokCreepJob::FarmExtensionRoom { .. } => OokCreepJobKind::FarmExtensionRoom,
            OokCreepJob::LogisticsExtensionRoom { .. } => OokCreepJobKind::LogisticsExtensionRoom,
            OokCreepJob::MaintainStructures { .. } => OokCreepJobKind::MaintainStructures,
            OokCreepJob::ClaimRoom { .. } => OokCreepJobKind::ClaimRoom,
            OokCreepJob::BootstrapRoom { .. } => OokCreepJobKind::BootstrapRoom,
        }
    }

    pub fn target_room(&self) -> (r: RoomName)
        ensures
            r == job_target_room(*self),
    {
        match self {
            OokCreepJob::UpgradeController { target_room } => *target_room,
            OokCreepJob::RoomLogistics { target_room } => *target_room,
            OokCreepJob::FarmSource(f) => f.target_room,
            OokCreepJob::FarmExtensionRoom { target_room } => *target_room,
            OokCreepJob::LogisticsExtensionRoom { target_room, .. } => *target_room,
            OokCreepJob::MaintainStructures { target_room } => *target_room,
            OokCreepJob::ClaimRoom { target_room } => *target_room,
            OokCreepJob::BootstrapRoom { target_room } => *target_room,
        }
    }
}

/// The population role that a job, given at creation, fills.
#[derive(Clone, Copy, Debug, PartialEq, Eq, Structural)]
pub enum TargetSpawnKind {
    Carrier,
    Farmer,
    Worker,
}

pub open spec fn spawn_kind_of(job: OokCreepJob) -> TargetSpawnKind {
    match job {
        OokCreepJob::RoomLogistics { .. } => TargetSpawnKind::Carrier,
        OokCreepJob::LogisticsExtensionRoom { .. } => TargetSpawnKind::Carrier,
        OokCreepJob::FarmSource(_) => TargetSpawnKind::Farmer,
        OokCreepJob::FarmExtensionRoom { .. } => TargetSpawnKind::Farmer,
        _ => TargetSpawnKind::Worker,
    }
}

impl TargetSpawnKind {
    pub fn from_job(job: &OokCreepJob) -> (r: TargetSpawnKind)
        ensures
            r == spawn_kind_of(*job),
    {
        match job {
            OokCreepJob::RoomLogistics { .. } => TargetSpawnKind::Carrier,
            OokCreepJob::LogisticsExtensionRoom { .. } => TargetSpawnKind::Carrier,
            OokCreepJob::FarmSource(_) => TargetSpawnKind::Farmer,
            OokCreepJob::FarmExtensionRoom { .. } => TargetSpawnKind::Farmer,
            _ => TargetSpawnKind::Worker,
        }
    }
}

} // verus!
