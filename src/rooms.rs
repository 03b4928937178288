use vstd::prelude::*;

use crate::world::{ObjId, RoomName};

verus! {

/// The map coordinates of the main room.
pub const MAIN_ROOM_X: i32 = -13;

pub const MAIN_ROOM_Y: i32 = -16;

/// The rooms this colony is configured for.
#[derive(Clone, Copy, Debug, PartialEq, Eq, Structural, Hash)]
pub enum MyRoom {
    Main,
}

pub open spec fn my_room_name(room: MyRoom) -> RoomName {
    match room {
        MyRoom::Main => RoomName { x: MAIN_ROOM_X, y: MAIN_ROOM_Y },
    }
}

impl MyRoom {
    pub fn name(room: MyRoom) -> (r: RoomName)
        ensures
            r == my_room_name(room),
    {
        match room {
            MyRoom::Main => RoomName { x: MAIN_ROOM_X, y: MAIN_ROOM_Y },
        }
    }

    /// The configured room with this name, if any.
    pub fn by_name(room: RoomName) -> (r: Option<MyRoom>)
        ensures
            r is Some <==> room == my_room_name(MyRoom::Main),
            r matches Some(m) ==> my_room_name(m) == room,
    {
        if room.x == MAIN_ROOM_X && room.y == MAIN_ROOM_Y {
            Some(MyRoom::Main)
        } else {
            None
        }
    }
}

#[derive(Clone, Copy, Debug, PartialEq, Eq, Structural)]
pub enum RoomError {
    RoomNotFound(RoomName),
    RoomNotConfigured(RoomName),
    RoomQueueNotPrioritized,
    FarmPositionSourceNotFound,
    FarmPositionForSourceNotFound,
}

/// A piece of upkeep in a room.
#[derive(Clone, Copy, Debug, PartialEq, Eq, Structural)]
pub enum RoomMaintenance {
    NewBuild { object_id: ObjId },
    Repair { object_id: ObjId },
}

impl RoomMaintenance {
    pub fn object_id(&self) -> (r: ObjId)
        ensures
            r == (match *self {
                RoomMaintenance::NewBuild { object_id } => object_id,
                RoomMaintenance::Repair { object_id } => object_id,
            }),
    {
        match self {
            RoomMaintenance::NewBuild { object_id } => *object_id,
            RoomMaintenance::Repair { object_id } => *object_id,
        }
    }
}

pub enum MaintenanceQueue {
    /// In order of priority.
    Prioritized(Vec<RoomMaintenance>),
    /// Not sorted yet.
    Unsorted(Vec<RoomMaintenance>),
}

pub open spec fn queue_items(q: MaintenanceQueue) -> Seq<RoomMaintenance> {
    match q {
        MaintenanceQueue::Prioritized(v) => v@,
        MaintenanceQueue::Unsorted(v) => v@,
    }
}

impl MaintenanceQueue {
    pub fn items_len(&self) -> (r: usize)
        ensures
            r == queue_items(*self).len(),
    {
        match self {
            MaintenanceQueue::Prioritized(v) => v.len(),
            MaintenanceQueue::Unsorted(v) => v.len(),
        }
    }
}

/// The settings of a configured room.
pub struct RoomSettings {
    pub name: MyRoom,
    pub spawns: Vec<ObjId>,
    pub maintenance: MaintenanceQueue,
}

pub open spec fn new_builds(sites: Seq<ObjId>) -> Seq<RoomMaintenance> {
    sites.map_values(|id: ObjId| RoomMaintenance::NewBuild { object_id: id })
}

/// A queue that builds each construction site, in the order found.
pub fn init_maintenance_queue(construction_sites: &Vec<ObjId>) -> (r: MaintenanceQueue)
    ensures
        r is Prioritized,
        queue_items(r) == new_builds(construction_sites@),
{
    let mut items: Vec<RoomMaintenance> = Vec::new();
    let mut i: usize = 0;
    while i < construction_sites.len()
        invariant
            i <= construction_sites.len(),
            items@ == new_builds(construction_sites@.take(i as int)),
        decreases construction_sites.len() - i,
    {
        items.push(RoomMaintenance::NewBuild { object_id: construction_sites[i] });
        assert(new_builds(construction_sites@.take(i + 1)) =~= new_builds(
            construction_sites@.take(i as int),
        ).push(RoomMaintenance::NewBuild { object_id: construction_sites@[i as int] }));
        i += 1;
    }
    assert(construction_sites@.take(construction_sites.len() as int) =~= construction_sites@);
    MaintenanceQueue::Prioritized(items)
}

/// Replaces the maintenance queue of a configured room with one built from its current
/// construction sites; a room without settings is an error and changes nothing.
pub fn update_maintenance(
    settings: &mut Vec<RoomSettings>,
    room_ident: MyRoom,
    construction_sites: &Vec<ObjId>,
) -> (r: Result<(), RoomError>)
    ensures
        final(settings)@.len() == old(settings)@.len(),
        (exists|i: int| 0 <= i < old(settings)@.len() && old(settings)@[i].name == room_ident)
            <==> r is Ok,
        r is Err ==> r == Err::<(), RoomError>(RoomError::RoomNotFound(my_room_name(room_ident)))
            && final(settings)@ == old(settings)@,
        r is Ok ==> exists|i: int|
            0 <= i < old(settings)@.len() && old(settings)@[i].name == room_ident && (forall|j: int|
                0 <= j < i ==> old(settings)@[j].name != room_ident) && final(settings)@[i].name
                == room_ident && final(settings)@[i].spawns@ == old(settings)@[i].spawns@
                && final(settings)@[i].maintenance is Prioritized && queue_items(
                final(settings)@[i].maintenance,
            ) == new_builds(construction_sites@) && (forall|j: int|
                0 <= j < old(settings)@.len() && j != i ==> final(settings)@[j] == old(
                    settings,
                )@[j]),
{
    let mut i: usize = 0;
    while i < settings.len()
        invariant
            i <= settings.len(),
            settings@ == old(settings)@,
            forall|j: int| 0 <= j < i ==> settings@[j].name != room_ident,
        decreases settings.len() - i,
    {
        if settings[i].name == room_ident {
            let ghost before = settings@;
            let old_entry = settings.remove(i);
            let entry = RoomSettings {
                name: old_entry.name,
                spawns: old_entry.spawns,
                maintenance: init_maintenance_queue(construction_sites),
            };
            settings.insert(i, entry);
            proof {
                assert(settings@ =~= before.update(i as int, entry));
            }
            return Ok(());
        }
        i += 1;
    }
    Err(RoomError::RoomNotFound(MyRoom::name(room_ident)))
}

} // verus!
