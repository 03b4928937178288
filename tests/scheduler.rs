use ook_colony::jobs::{FarmSource, OokCreepJob};
use ook_colony::provider::{ProviderKind, ResourceProvider};
use ook_colony::races::OokRaceKind;
use ook_colony::region::{CitizenInfo, SpawnedCreep, TargetSpawns, PANIC_THRESHOLD_TICKS};
use ook_colony::requests::{
    BootstrapWorkerCitizen, Citizen, CreepName, Request, RequestData, RequestError,
    RequestHandledOpts, RequestLedger, TickIds, UniqId,
};
use ook_colony::room_state::{
    BaseState, RoomMemory, RoomSight, RoomState, RoomStateChange, RoomStateError,
    SetupBaseState,
};
use ook_colony::state::BWState;
use ook_colony::world::{Position, RoomName};

const SOURCE: u128 = 0xabc;

fn home() -> RoomName {
    RoomName { x: 5, y: 5 }
}

fn sight(sources: Vec<u128>, spawn_count: u32) -> RoomSight {
    RoomSight { resource_providers: vec![], sources, spawn_count }
}

fn citizen_data(req: &Request) -> Citizen {
    match req.data {
        RequestData::Citizen(c) => c,
        _ => panic!("not a citizen request"),
    }
}

fn with_name(req: &Request, name: CreepName) -> Request {
    let mut c = citizen_data(req);
    c.spawning_creep_name = Some(name);
    Request { request_id: req.request_id, data: RequestData::Citizen(c) }
}

#[test]
fn base_first_tick_requests_farmer_and_carrier_then_confirms_them() {
    let mut st = BWState::new(1);
    let mut base = BaseState::new(home(), sight(vec![SOURCE], 1));
    base.data.target_spawns = TargetSpawns { carrier: 1, farmer: 0, worker: 1 };
    assert!(st.add_room(RoomState::Base(base)));

    // tick 1: exactly a farmer for the source and a carrier
    let proposals = match &st.room_states[0] {
        RoomState::Base(b) => b.run(&st.citizens, &st.requests, &mut st.ids),
        _ => unreachable!(),
    };
    assert_eq!(proposals.len(), 2);
    let farm = citizen_data(&proposals[0]);
    assert_eq!(
        farm.initial_job,
        OokCreepJob::FarmSource(FarmSource { target_room: home(), target_source: SOURCE })
    );
    assert!(!farm.resolve_panic);
    let logistics = citizen_data(&proposals[1]);
    assert_eq!(logistics.initial_job, OokCreepJob::RoomLogistics { target_room: home() });
    assert_ne!(proposals[0].request_id, proposals[1].request_id);
    for p in proposals.iter() {
        assert_eq!(st.log_request(0, *p), Ok(()));
    }
    assert_eq!(st.room_states[0].open_requests().len(), 2);

    // the region takes on its own requests and spawns for them, confirmed next tick
    let assigned = st.assign_requests();
    assert_eq!(assigned.len(), 1);
    assert!(assigned[0].is_some());
    let farmer_name = CreepName { race: OokRaceKind::Worker, id: UniqId { tick: 1, seq: 10 } };
    let carrier_name = CreepName { race: OokRaceKind::Carrier, id: UniqId { tick: 1, seq: 11 } };
    assert!(st.request_handled(with_name(&proposals[0], farmer_name), RequestHandledOpts::DelayHandleForOneTick, 1));
    assert!(st.request_handled(with_name(&proposals[1], carrier_name), RequestHandledOpts::DelayHandleForOneTick, 1));
    assert!(st.requests.requests.is_empty());

    // nothing is confirmed at the tick of the spawn
    let change = st.update_room(0, Some(sight(vec![SOURCE], 1)), &vec![], 1, &vec![]);
    assert_eq!(change, RoomStateChange::Unchanged);
    assert_eq!(st.room_states[0].open_requests().len(), 2);

    // tick 2: both close and two helpers are recorded
    st.next_tick();
    let spawned = vec![
        SpawnedCreep { name: farmer_name, id: 501 },
        SpawnedCreep { name: carrier_name, id: 502 },
    ];
    let change = st.update_room(0, Some(sight(vec![SOURCE], 1)), &vec![], 2, &spawned);
    assert_eq!(change, RoomStateChange::Unchanged);
    assert!(st.room_states[0].open_requests().is_empty());
    match &st.room_states[0] {
        RoomState::Base(b) => assert_eq!(b.data.helping_citizens, vec![501, 502]),
        _ => unreachable!(),
    }
}

#[test]
fn base_asks_for_worker_only_without_farmer_or_carrier_deficit() {
    let ledger = RequestLedger::new();
    let mut ids = TickIds::new(3);
    let mut base = BaseState::new(home(), sight(vec![SOURCE], 1));
    base.data.target_spawns = TargetSpawns { carrier: 1, farmer: 0, worker: 2 };
    base.data.helping_citizens = vec![1, 2, 3];
    let citizens = vec![
        CitizenInfo {
            id: 1,
            race: OokRaceKind::Worker,
            job: OokCreepJob::FarmSource(FarmSource { target_room: home(), target_source: SOURCE }),
            filling_suppliers: false,
        },
        CitizenInfo {
            id: 2,
            race: OokRaceKind::Carrier,
            job: OokCreepJob::RoomLogistics { target_room: home() },
            filling_suppliers: false,
        },
        CitizenInfo {
            id: 3,
            race: OokRaceKind::Worker,
            job: OokCreepJob::UpgradeController { target_room: home() },
            filling_suppliers: false,
        },
    ];
    let reqs = base.spawn_citizens_up_to_target(&citizens, &ledger, &mut ids);
    assert_eq!(reqs.len(), 1);
    assert_eq!(citizen_data(&reqs[0]).initial_job, OokCreepJob::BootstrapRoom { target_room: home() });
    assert_eq!(reqs[0].request_id, UniqId { tick: 3, seq: 0 });
    assert_eq!(ids.next, 1);

    base.data.target_spawns.worker = 1;
    assert!(base.spawn_citizens_up_to_target(&citizens, &ledger, &mut ids).is_empty());
}

#[test]
fn setup_base_panic_requests_farmer_and_carrier_together() {
    let ledger = RequestLedger::new();
    let mut ids = TickIds::new(9);
    let mut setup = SetupBaseState::new(home(), Some(sight(vec![SOURCE, 0xdef], 0)));
    let citizens: Vec<CitizenInfo> = vec![];
    for _ in 0..(PANIC_THRESHOLD_TICKS + 1) {
        setup.check_room_status(&citizens);
    }
    assert_eq!(setup.panic_countdown, Some(PANIC_THRESHOLD_TICKS + 1));
    assert!(setup.panicing());
    let reqs = setup.spawn_panicing_citizens(&citizens, &ledger, &mut ids);
    assert_eq!(reqs.len(), 2);
    let farm = citizen_data(&reqs[0]);
    assert_eq!(
        farm.initial_job,
        OokCreepJob::FarmSource(FarmSource { target_room: home(), target_source: SOURCE })
    );
    assert!(farm.resolve_panic);
    let carrier = citizen_data(&reqs[1]);
    assert_eq!(carrier.initial_job, OokCreepJob::RoomLogistics { target_room: home() });
    assert!(carrier.resolve_panic);

    // while panicking, the regular run proposes the same pair
    let run = setup.run(&citizens, &ledger, &mut ids);
    assert_eq!(run.len(), 2);
    assert!(citizen_data(&run[0]).resolve_panic && citizen_data(&run[1]).resolve_panic);
}

#[test]
fn panic_counter_clears_once_farmer_and_carrier_exist() {
    let mut setup = SetupBaseState::new(home(), None);
    let none: Vec<CitizenInfo> = vec![];
    setup.check_room_status(&none);
    assert_eq!(setup.panic_countdown, Some(1));
    assert!(!setup.panicing());
    setup.data.helping_citizens = vec![1, 2];
    let both = vec![
        CitizenInfo {
            id: 1,
            race: OokRaceKind::Worker,
            job: OokCreepJob::FarmSource(FarmSource { target_room: home(), target_source: SOURCE }),
            filling_suppliers: false,
        },
        CitizenInfo {
            id: 2,
            race: OokRaceKind::Carrier,
            job: OokCreepJob::RoomLogistics { target_room: home() },
            filling_suppliers: true,
        },
    ];
    setup.check_room_status(&both);
    assert_eq!(setup.panic_countdown, None);
}

#[test]
fn base_panic_counter_stops_at_threshold() {
    let mut base = BaseState::new(home(), sight(vec![], 1));
    for _ in 0..300 {
        base.check_room_status(&vec![]);
    }
    assert_eq!(base.panic_countdown, Some(PANIC_THRESHOLD_TICKS));
}

#[test]
fn panic_request_preferred_over_queued_plain_request() {
    let mut st = BWState::new(4);
    assert!(st.add_room(RoomState::SetupBase(SetupBaseState::new(home(), None))));
    let plain = Request::new(
        RequestData::Citizen(Citizen {
            target_room_name: home(),
            spawning_creep_name: None,
            initial_job: OokCreepJob::RoomLogistics { target_room: home() },
            resolve_panic: false,
        }),
        &mut st.ids,
    );
    let urgent = Request::new(
        RequestData::Citizen(Citizen {
            target_room_name: home(),
            spawning_creep_name: None,
            initial_job: OokCreepJob::RoomLogistics { target_room: home() },
            resolve_panic: true,
        }),
        &mut st.ids,
    );
    assert_eq!(st.log_request(0, plain), Ok(()));
    assert_eq!(st.log_request(0, urgent), Ok(()));
    let assigned = st.assign_requests();
    assert_eq!(assigned[0], Some(urgent));
}

#[test]
fn bootstrap_request_for_unknown_room_goes_to_closest_base() {
    let mut st = BWState::new(4);
    assert!(st.add_room(RoomState::Base(BaseState::new(RoomName { x: 0, y: 0 }, sight(vec![], 1)))));
    assert!(st.add_room(RoomState::SetupBase(SetupBaseState::new(RoomName { x: 9, y: 9 }, None))));
    assert!(st.add_room(RoomState::Base(BaseState::new(RoomName { x: 8, y: 7 }, sight(vec![], 1)))));
    let req = Request::new(
        RequestData::BootstrapWorkerCitizen(BootstrapWorkerCitizen {
            target_room_name: RoomName { x: 10, y: 10 },
            spawning_creep_name: None,
        }),
        &mut st.ids,
    );
    assert_eq!(st.log_request(1, req), Ok(()));
    let assigned = st.assign_requests();
    assert_eq!(assigned, vec![None, None, Some(req)]);
}

#[test]
fn request_id_is_never_open_twice() {
    let mut st = BWState::new(4);
    assert!(st.add_room(RoomState::Base(BaseState::new(RoomName { x: 0, y: 0 }, sight(vec![], 1)))));
    assert!(st.add_room(RoomState::Base(BaseState::new(RoomName { x: 1, y: 0 }, sight(vec![], 1)))));
    assert!(!st.add_room(RoomState::Base(BaseState::new(RoomName { x: 1, y: 0 }, sight(vec![], 1)))));
    let req = Request::new(
        RequestData::BootstrapWorkerCitizen(BootstrapWorkerCitizen {
            target_room_name: RoomName { x: 0, y: 0 },
            spawning_creep_name: None,
        }),
        &mut st.ids,
    );
    assert_eq!(st.log_request(0, req), Ok(()));
    assert_eq!(st.log_request(1, req), Err(RequestError::DuplicateRequest(req.request_id)));
    assert!(st.room_states[1].open_requests().is_empty());
    assert_eq!(st.room_states[0].open_requests().len(), 1);
}

#[test]
fn helpless_base_becomes_setup_base() {
    let mut st = BWState::new(4);
    assert!(st.add_room(RoomState::Base(BaseState::new(home(), sight(vec![SOURCE], 1)))));
    let change = st.update_room(0, Some(sight(vec![SOURCE], 0)), &vec![], 4, &vec![]);
    assert_eq!(change, RoomStateChange::Helpless);
    assert!(matches!(st.room_states[0], RoomState::SetupBase(_)));
    assert_eq!(st.room_states[0].room_name(), home());
    let change = st.update_room(0, None, &vec![], 4, &vec![]);
    assert_eq!(change, RoomStateChange::Unchanged);
}

#[test]
fn update_from_memory_overwrites_targets() {
    let mut base = BaseState::new(home(), sight(vec![SOURCE], 1));
    base.data.helping_citizens = vec![77];
    base.data.supplier_fillers = vec![78];
    base.panic_countdown = Some(4);
    let mem = RoomMemory {
        state_kind: Some(0),
        room_name: Some(home()),
        target_spawns: Some(TargetSpawns { carrier: 2, farmer: 1, worker: 3 }),
        helping_citizens: vec![1, 2],
        open_requests: vec![],
        panic_countdown: None,
    };
    assert_eq!(base.update_from_memory(&mem), Ok(()));
    let once = base.data.target_spawns;
    assert_eq!(base.update_from_memory(&mem), Ok(()));
    assert_eq!(base.data.target_spawns, once);
    assert_eq!(once, TargetSpawns { carrier: 2, farmer: 1, worker: 3 });
    assert_eq!(base.data.helping_citizens, vec![77]);
    assert_eq!(base.data.supplier_fillers, vec![78]);
    assert_eq!(base.panic_countdown, Some(4));
    assert_eq!(base.sources, vec![SOURCE]);

    let wrong = RoomMemory { state_kind: Some(1), ..mem.clone() };
    assert_eq!(base.update_from_memory(&wrong), Err(RoomStateError::WrongStateKind(1)));
    let missing = RoomMemory { state_kind: None, ..mem.clone() };
    assert_eq!(base.update_from_memory(&missing), Err(RoomStateError::MissingStateKind));
    let nameless = RoomMemory { room_name: None, ..mem.clone() };
    assert_eq!(base.update_from_memory(&nameless), Err(RoomStateError::MissingRoomName));
    assert_eq!(base.data.target_spawns, once);

    let mut setup = RoomState::SetupBase(SetupBaseState::new(home(), None));
    let setup_mem = RoomMemory { state_kind: Some(1), ..mem.clone() };
    assert_eq!(setup.update_from_memory(&setup_mem), Ok(()));
    assert_eq!(setup.update_from_memory(&setup_mem), Ok(()));
    match &setup {
        RoomState::SetupBase(s) => {
            assert_eq!(s.data.target_spawns, TargetSpawns { carrier: 2, farmer: 1, worker: 3 });
            assert!(s.data.helping_citizens.is_empty());
        }
        _ => unreachable!(),
    }
}

#[test]
fn room_memory_round_trips_helpers_open_requests_and_panic_counter() {
    let mut base = BaseState::new(home(), sight(vec![SOURCE], 1));
    base.data.target_spawns = TargetSpawns { carrier: 1, farmer: 0, worker: 2 };
    base.data.helping_citizens = vec![5, 6];
    base.open_requests = vec![UniqId { tick: 3, seq: 1 }];
    base.panic_countdown = Some(7);
    let mem = base.to_memory();
    let loaded = BaseState::load_from_memory(&mem, sight(vec![SOURCE], 1)).unwrap();
    assert_eq!(loaded.room_name, base.room_name);
    assert_eq!(loaded.data.target_spawns, base.data.target_spawns);
    assert_eq!(loaded.data.helping_citizens, base.data.helping_citizens);
    assert_eq!(loaded.open_requests, base.open_requests);
    assert_eq!(loaded.panic_countdown, base.panic_countdown);
    assert!(BaseState::load_from_memory(&RoomMemory { state_kind: Some(1), ..mem.clone() }, sight(vec![], 1)).is_err());

    let mut setup = SetupBaseState::new(home(), None);
    setup.panic_countdown = Some(101);
    setup.data.helping_citizens = vec![9];
    let smem = setup.to_memory();
    let back = SetupBaseState::load_from_memory(&smem, None).unwrap();
    assert_eq!(back.panic_countdown, Some(101));
    assert_eq!(back.data.helping_citizens, vec![9]);
    assert_eq!(SetupBaseState::load_from_memory(&mem, None).err(), Some(RoomStateError::WrongStateKind(0)));
}

#[test]
fn loaded_room_keeps_only_known_unclaimed_open_requests() {
    let mut st = BWState::new(4);
    let req = Request::new(
        RequestData::BootstrapWorkerCitizen(BootstrapWorkerCitizen { target_room_name: home(), spawning_creep_name: None }),
        &mut st.ids,
    );
    assert!(st.add_room(RoomState::Base(BaseState::new(RoomName { x: 0, y: 0 }, sight(vec![], 1)))));
    assert_eq!(st.log_request(0, req), Ok(()));
    let mut loaded = BaseState::new(home(), sight(vec![], 1));
    let stale = UniqId { tick: 1, seq: 9 };
    loaded.open_requests = vec![stale, req.request_id];
    assert!(st.add_room(RoomState::Base(loaded)));
    // the stale one is unknown, the other is already open in the first region
    assert!(st.room_states[1].open_requests().is_empty());
}

#[test]
fn recorded_spawn_resolves_next_tick_with_the_agent_name() {
    let mut st = BWState::new(6);
    assert!(st.add_room(RoomState::Base(BaseState::new(home(), sight(vec![], 1)))));
    let req = Request::new(
        RequestData::Citizen(Citizen {
            target_room_name: home(),
            spawning_creep_name: None,
            initial_job: OokCreepJob::RoomLogistics { target_room: home() },
            resolve_panic: false,
        }),
        &mut st.ids,
    );
    assert_eq!(st.log_request(0, req), Ok(()));
    let name = CreepName { race: OokRaceKind::Carrier, id: UniqId { tick: 6, seq: 4 } };
    assert!(st.record_spawn(req, name, 6));
    assert!(st.requests.requests.is_empty());
    let h = st.requests.handled_requests[0];
    assert_eq!(h.tick, 7);
    assert_eq!(h.request.request_id, req.request_id);
    assert_eq!(citizen_data(&h.request).spawning_creep_name, Some(name));
    assert!(!st.record_spawn(req, name, 6));
}

#[test]
fn ledger_moves_handled_requests_and_finds_them() {
    let mut ledger = RequestLedger::new();
    let mut ids = TickIds::new(12);
    let req = Request::new(
        RequestData::BootstrapWorkerCitizen(BootstrapWorkerCitizen {
            target_room_name: home(),
            spawning_creep_name: None,
        }),
        &mut ids,
    );
    assert_eq!(ledger.add_request(req), Ok(()));
    assert_eq!(ledger.get_current_or_old_request(req.request_id), Some((req, None)));
    assert!(ledger.request_handled(req, RequestHandledOpts::Immediate, 12));
    assert!(!ledger.request_handled(req, RequestHandledOpts::Immediate, 12));
    assert_eq!(ledger.get_current_or_old_request(req.request_id), Some((req, Some(12))));
    assert_eq!(ledger.add_request(req), Err(RequestError::DuplicateRequest(req.request_id)));
    assert_eq!(ledger.get_current_or_old_request(UniqId { tick: 0, seq: 0 }), None);
}

#[test]
fn supplier_fillers_bookkeeping() {
    let mut base = BaseState::new(home(), sight(vec![], 1));
    base.creep_handles_filling_extensions(1);
    base.creep_handles_filling_extensions(2);
    base.creep_handles_filling_extensions(1);
    base.creep_done_handling_filling_extensions(1);
    assert_eq!(base.data.supplier_fillers, vec![2]);
    base.creep_handles_filling_extensions(3);
    let citizens = vec![
        CitizenInfo {
            id: 2,
            race: OokRaceKind::Carrier,
            job: OokCreepJob::RoomLogistics { target_room: home() },
            filling_suppliers: true,
        },
        CitizenInfo {
            id: 3,
            race: OokRaceKind::Carrier,
            job: OokCreepJob::RoomLogistics { target_room: home() },
            filling_suppliers: false,
        },
    ];
    base.check_supplier_fillers(&citizens);
    assert_eq!(base.data.supplier_fillers, vec![2]);
}

#[test]
fn room_state_finds_provider_by_identity() {
    let p = ResourceProvider {
        kind: ProviderKind::LongTermStorage,
        obj_id: 44,
        pos: Position { room: home(), x: 3, y: 3 },
        litter: false,
    };
    let rs = RoomState::Base(BaseState::new(
        home(),
        RoomSight { resource_providers: vec![p], sources: vec![], spawn_count: 1 },
    ));
    assert_eq!(rs.resource_provider(44), Some(p));
    assert_eq!(rs.resource_provider(45), None);
    assert_eq!(RoomState::SetupBase(SetupBaseState::new(home(), None)).resource_provider(44), None);
}

#[test]
fn logging_a_batch_skips_known_requests() {
    let mut st = BWState::new(8);
    assert!(st.add_room(RoomState::Base(BaseState::new(home(), sight(vec![], 1)))));
    let a = Request::new(
        RequestData::BootstrapWorkerCitizen(BootstrapWorkerCitizen { target_room_name: home(), spawning_creep_name: None }),
        &mut st.ids,
    );
    let b = Request::new(
        RequestData::BootstrapWorkerCitizen(BootstrapWorkerCitizen { target_room_name: home(), spawning_creep_name: None }),
        &mut st.ids,
    );
    assert_eq!(st.log_requests(0, &vec![a, b, a]), 2);
    assert_eq!(st.room_states[0].open_requests(), &vec![a.request_id, b.request_id]);
}
