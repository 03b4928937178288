use ook_colony::jobs::{FarmSource, OokCreepJob};
use ook_colony::rooms::{
    init_maintenance_queue, update_maintenance, MaintenanceQueue, MyRoom, RoomError,
    RoomMaintenance, RoomSettings,
};
use ook_colony::state::{BWContext, BWState, ContextError};
use ook_colony::tasks::{
    after_run, carrier_next_task, claimer_next_task, worker_next_task, BuildStep, CarrierDecision, BuildTarget, ClaimStep,
    ControllerPosToClaim, EnergyView, FarmPosition, FarmPositionKind, FarmStep, JobDecision,
    JobView, OokCreepTask, OokCreepTaskKind, OokTaskRunnableResult, TaskError, UpgradeStep,
};
use ook_colony::world::{Position, RoomName};

fn home() -> RoomName {
    RoomName { x: 2, y: 2 }
}

fn at(room: RoomName, x: u32, y: u32) -> Position {
    Position { room, x, y }
}

fn job_view(creep_pos: Position) -> JobView {
    JobView {
        energy: EnergyView {
            creep_pos,
            free_capacity: 50,
            used_capacity: 0,
            best_provider: None,
            target_present: true,
            target_stored: 0,
        },
        target_controller: None,
        construction_site: None,
        source_pos: None,
        farm_positions: vec![],
    }
}

#[test]
fn my_room_names_round_trip() {
    let name = MyRoom::name(MyRoom::Main);
    assert_eq!(MyRoom::by_name(name), Some(MyRoom::Main));
    assert_eq!(MyRoom::by_name(RoomName { x: 0, y: 0 }), None);
}

#[test]
fn update_maintenance_rebuilds_queue_of_configured_room() {
    let mut settings = vec![RoomSettings {
        name: MyRoom::Main,
        spawns: vec![9],
        maintenance: MaintenanceQueue::Unsorted(vec![RoomMaintenance::Repair { object_id: 1 }]),
    }];
    assert_eq!(update_maintenance(&mut settings, MyRoom::Main, &vec![5, 6]), Ok(()));
    assert_eq!(settings[0].maintenance.items_len(), 2);
    match &settings[0].maintenance {
        MaintenanceQueue::Prioritized(items) => {
            assert_eq!(items[0], RoomMaintenance::NewBuild { object_id: 5 });
            assert_eq!(items[1].object_id(), 6);
        }
        _ => panic!("queue should be prioritized"),
    }
    assert_eq!(settings[0].spawns, vec![9]);
    let mut none: Vec<RoomSettings> = vec![];
    assert_eq!(
        update_maintenance(&mut none, MyRoom::Main, &vec![5]),
        Err(RoomError::RoomNotFound(MyRoom::name(MyRoom::Main)))
    );
    assert_eq!(init_maintenance_queue(&vec![]).items_len(), 0);
}

#[test]
fn context_gives_state_only_once_initialized() {
    let mut ctx = BWContext::Initializing;
    assert_eq!(ctx.state().err(), Some(ContextError::ContextNotInitialized));
    ctx.initialize(BWState::new(7));
    assert_eq!(ctx.state().unwrap().ids.tick, 7);
}

#[test]
fn task_kinds_have_stored_numbers() {
    assert_eq!(OokCreepTaskKind::try_from(7), Ok(OokCreepTaskKind::Build));
    assert_eq!(OokCreepTaskKind::FetchForConsumer.code(), 8);
    assert_eq!(OokCreepTaskKind::try_from(9), Err(TaskError::UnknownTaskKind(9)));
}

#[test]
fn worker_derives_task_from_job() {
    let ctrl = at(home(), 20, 20);
    let mut v = job_view(at(home(), 3, 3));
    v.target_controller = Some(ctrl);
    let up = worker_next_task(&OokCreepJob::UpgradeController { target_room: home() }, &v);
    assert_eq!(
        up,
        JobDecision::Start(OokCreepTask::UpgradeController(ook_colony::tasks::UpgradeTask {
            step: UpgradeStep::WaitForResource { controller_pos: ctrl }
        }))
    );

    let site = BuildTarget { id: 77, pos: at(home(), 8, 8) };
    v.construction_site = Some(site);
    match worker_next_task(&OokCreepJob::BootstrapRoom { target_room: home() }, &v) {
        JobDecision::Start(OokCreepTask::Build(t)) => {
            assert_eq!(t.step, BuildStep::WaitForResource { build_target: site })
        }
        other => panic!("expected a build task, got {:?}", other),
    }
    let away = job_view(at(RoomName { x: 0, y: 0 }, 3, 3));
    assert_eq!(
        worker_next_task(&OokCreepJob::BootstrapRoom { target_room: home() }, &away),
        JobDecision::MoveTo(at(home(), 25, 25))
    );

    let farm_job = OokCreepJob::FarmSource(FarmSource { target_room: home(), target_source: 4 });
    assert_eq!(worker_next_task(&farm_job, &away), JobDecision::MoveTo(at(home(), 25, 25)));
    let mut seen = job_view(at(home(), 3, 3));
    seen.source_pos = Some(at(home(), 10, 10));
    let fp = FarmPosition { kind: FarmPositionKind::Running, position: at(home(), 9, 10), for_source: 4 };
    seen.farm_positions = vec![fp];
    assert_eq!(
        worker_next_task(&farm_job, &seen),
        JobDecision::Start(OokCreepTask::FarmSource(ook_colony::tasks::FarmTask {
            step: FarmStep::Walk { target: fp }
        }))
    );
    assert_eq!(
        worker_next_task(&OokCreepJob::ClaimRoom { target_room: home() }, &seen),
        JobDecision::Unhandled
    );
}

#[test]
fn claimer_only_claims() {
    match claimer_next_task(&OokCreepJob::ClaimRoom { target_room: home() }, None) {
        JobDecision::Start(OokCreepTask::ClaimController(t)) => assert_eq!(
            t.step,
            ClaimStep::Move { pos: ControllerPosToClaim::InRoom { room_name: home() } }
        ),
        other => panic!("expected a claim task, got {:?}", other),
    }
    assert_eq!(
        claimer_next_task(&OokCreepJob::UpgradeController { target_room: home() }, None),
        JobDecision::Unhandled
    );
}

#[test]
fn run_results_decide_what_happens_to_the_task() {
    assert_eq!(after_run(OokTaskRunnableResult::Continue), (true, false));
    assert_eq!(after_run(OokTaskRunnableResult::Finish), (false, false));
    assert_eq!(after_run(OokTaskRunnableResult::CancelAndDoAnother), (false, true));
}

#[test]
fn task_derivation_is_the_same_for_the_same_snapshot() {
    let mut v = job_view(at(home(), 3, 3));
    v.target_controller = Some(at(home(), 20, 20));
    v.construction_site = Some(BuildTarget { id: 5, pos: at(home(), 6, 6) });
    let job = OokCreepJob::BootstrapRoom { target_room: home() };
    let first = worker_next_task(&job, &v);
    let again = worker_next_task(&job, &v);
    assert_eq!(first, again);
}

#[test]
fn carriers_fill_suppliers_in_bases_and_fetch_otherwise() {
    let job = OokCreepJob::RoomLogistics { target_room: home() };
    assert_eq!(carrier_next_task(&job, Some(true), 3), CarrierDecision::SuppliesRun);
    assert_eq!(carrier_next_task(&job, Some(true), 0), CarrierDecision::FetchForConsumer);
    assert_eq!(carrier_next_task(&job, Some(false), 3), CarrierDecision::FetchForConsumer);
    assert_eq!(carrier_next_task(&job, None, 3), CarrierDecision::Unhandled);
    assert_eq!(
        carrier_next_task(&OokCreepJob::UpgradeController { target_room: home() }, Some(true), 3),
        CarrierDecision::Unhandled
    );
}
