use ook_colony::jobs::{FarmSource, JobError, OokCreepJob, OokCreepJobKind, TargetSpawnKind};
use ook_colony::provider::{ProviderKind, ResourceProvider};
use ook_colony::races::{
    creep_spawn_options_from_job, get_spawn_time, spawn_energy_target, OokRaceBodyComposition,
    OokRaceKind, Part, RacesError, SpawnPlanError,
};
use ook_colony::requests::{create_creep_name, get_in_tick_unique_id, TickIds, UniqId};
use ook_colony::tasks::{
    prioritized_farm_positions, BuildStep, BuildTarget, BuildTask, BuildView, ClaimStep,
    ClaimTask, ClaimView, ControllerPosToClaim, EnergyView, FarmPosition, FarmPositionKind,
    FarmStep, FarmTask, HarvestResult, OokTaskRunnableResult, TaskAction, UpgradeStep,
    UpgradeTask,
};
use ook_colony::world::{Position, RoomName};

fn room() -> RoomName {
    RoomName { x: -2, y: 7 }
}

fn pos(x: u32, y: u32) -> Position {
    Position { room: room(), x, y }
}

fn container(id: u128, x: u32, y: u32) -> ResourceProvider {
    ResourceProvider { kind: ProviderKind::SourceDump, obj_id: id, pos: pos(x, y), litter: false }
}

fn view(at: Position, free: u32, used: u32, best: Option<ResourceProvider>) -> EnergyView {
    EnergyView {
        creep_pos: at,
        free_capacity: free,
        used_capacity: used,
        best_provider: best,
        target_present: true,
        target_stored: 400,
    }
}

fn comp(mov: u32, carry: u32, work: u32) -> OokRaceBodyComposition {
    OokRaceBodyComposition { mov, carry, work, attack: 0, ranged_attack: 0, heal: 0, tough: 0, claim: 0 }
}

#[test]
fn build_task_cancels_when_site_is_gone_in_visible_room() {
    let target = BuildTarget { id: 99, pos: pos(20, 20) };
    let mut task = BuildTask { step: BuildStep::Build { build_target: target } };
    let v = BuildView { energy: view(pos(19, 19), 0, 50, None), site_present: false, creep_room: room() };
    let out = task.run(&v);
    assert_eq!(out.result, OokTaskRunnableResult::CancelAndDoAnother);
}

#[test]
fn build_task_keeps_moving_when_site_room_is_not_visible() {
    let target = BuildTarget { id: 99, pos: pos(20, 20) };
    let mut task = BuildTask { step: BuildStep::Build { build_target: target } };
    let elsewhere = RoomName { x: 0, y: 0 };
    let v = BuildView {
        energy: view(Position { room: elsewhere, x: 1, y: 1 }, 0, 50, None),
        site_present: false,
        creep_room: elsewhere,
    };
    let out = task.run(&v);
    assert_eq!(out.result, OokTaskRunnableResult::Continue);
    assert_eq!(out.action, TaskAction::MoveTo(target.pos));
}

#[test]
fn build_task_cycles_between_energy_and_building() {
    let target = BuildTarget { id: 99, pos: pos(20, 20) };
    let dump = container(5, 10, 10);
    let mut task = BuildTask::new(target, &view(pos(1, 1), 50, 0, Some(dump)));
    assert_eq!(task.step, BuildStep::GetEnergy { target: dump, build_target: target });

    let far = BuildView { energy: view(pos(1, 1), 50, 0, Some(dump)), site_present: true, creep_room: room() };
    assert_eq!(task.run(&far).action, TaskAction::MoveTo(dump.pos));

    let near = BuildView { energy: view(pos(11, 11), 50, 0, Some(dump)), site_present: true, creep_room: room() };
    let out = task.run(&near);
    assert_eq!(out.action, TaskAction::Withdraw { target: 5, amount: 50 });
    assert_eq!(task.step, BuildStep::Build { build_target: target });

    let in_range = BuildView { energy: view(pos(18, 17), 0, 50, None), site_present: true, creep_room: room() };
    assert_eq!(task.run(&in_range).action, TaskAction::Build(99));

    let empty = BuildView { energy: view(pos(18, 17), 50, 0, None), site_present: true, creep_room: room() };
    let out = task.run(&empty);
    assert_eq!(task.step, BuildStep::WaitForResource { build_target: target });
    assert_eq!(out, ook_colony::tasks::TaskOutcome { action: TaskAction::Wait, result: OokTaskRunnableResult::Continue });
}

#[test]
fn build_task_falls_back_when_provider_vanished() {
    let target = BuildTarget { id: 99, pos: pos(20, 20) };
    let dump = container(5, 10, 10);
    let mut task = BuildTask { step: BuildStep::GetEnergy { target: dump, build_target: target } };
    let mut e = view(pos(10, 11), 50, 0, None);
    e.target_present = false;
    let out = task.run(&BuildView { energy: e, site_present: true, creep_room: room() });
    assert_eq!(out.result, OokTaskRunnableResult::Continue);
    assert_eq!(task.step, BuildStep::WaitForResource { build_target: target });
}

#[test]
fn build_task_harvests_until_source_runs_dry() {
    let target = BuildTarget { id: 99, pos: pos(20, 20) };
    let source = ResourceProvider { kind: ProviderKind::EnergyFarm, obj_id: 8, pos: pos(3, 3), litter: false };
    let mut task = BuildTask { step: BuildStep::GetEnergy { target: source, build_target: target } };
    let out = task.run(&BuildView { energy: view(pos(4, 4), 40, 10, None), site_present: true, creep_room: room() });
    assert_eq!(out.action, TaskAction::Harvest(8));
    task.on_harvest_result(HarvestResult::Done);
    assert!(matches!(task.step, BuildStep::GetEnergy { .. }));
    task.on_harvest_result(HarvestResult::NotEnough);
    assert_eq!(task.step, BuildStep::Build { build_target: target });
}

#[test]
fn upgrade_task_never_finishes() {
    let controller = pos(30, 30);
    let litter = ResourceProvider { kind: ProviderKind::SourceDump, obj_id: 6, pos: pos(5, 5), litter: true };
    let mut task = UpgradeTask::new(controller, &view(pos(1, 1), 50, 0, None));
    assert_eq!(task.step, UpgradeStep::WaitForResource { controller_pos: controller });
    assert_eq!(task.run(&view(pos(1, 1), 50, 0, None)).action, TaskAction::Wait);
    let out = task.run(&view(pos(5, 6), 50, 0, Some(litter)));
    assert_eq!(out.action, TaskAction::Pickup(6));
    assert_eq!(task.step, UpgradeStep::Upgrade { controller_pos: controller });
    let out = task.run(&view(pos(10, 10), 0, 50, None));
    assert_eq!(out.action, TaskAction::MoveTo(controller));
    let out = task.run(&view(pos(27, 33), 0, 50, None));
    assert_eq!(out.action, TaskAction::UpgradeController(controller));
    assert_eq!(out.result, OokTaskRunnableResult::Continue);
}

#[test]
fn farm_positions_put_droppers_first() {
    let fp = |kind, x| FarmPosition { kind, position: pos(x, 1), for_source: 7 };
    let ps = vec![
        fp(FarmPositionKind::Running, 1),
        fp(FarmPositionKind::Dropping, 2),
        fp(FarmPositionKind::Shifting, 3),
        fp(FarmPositionKind::Dropping, 4),
    ];
    let prio = prioritized_farm_positions(&ps);
    let xs: Vec<u32> = prio.iter().map(|p| p.position.x).collect();
    assert_eq!(xs, vec![2, 4, 1, 3]);
}

#[test]
fn farm_task_walks_then_harvests_and_walks_again_out_of_range() {
    let fp = FarmPosition { kind: FarmPositionKind::Dropping, position: pos(9, 9), for_source: 7 };
    assert!(FarmTask::new(&vec![], pos(1, 1)).is_none());
    let mut task = FarmTask::new(&vec![fp], pos(1, 1)).unwrap();
    assert_eq!(task.step, FarmStep::Walk { target: fp });
    assert_eq!(task.run(pos(2, 2), true).action, TaskAction::MoveTo(fp.position));
    let out = task.run(pos(9, 9), true);
    assert_eq!(out.action, TaskAction::Harvest(7));
    task.on_harvest_result(HarvestResult::NotInRange);
    assert_eq!(task.step, FarmStep::Walk { target: fp });
    task.run(pos(9, 9), true);
    let gone = task.run(pos(9, 9), false);
    assert_eq!(gone.result, OokTaskRunnableResult::CancelAndDoAnother);
}

#[test]
fn claim_task_moves_then_claims() {
    let target_room = RoomName { x: 1, y: 1 };
    let mut task = ClaimTask::new(target_room, None);
    let outside = ClaimView { creep_pos: pos(1, 1), room_controller: None };
    let out = task.run(&outside);
    assert_eq!(out.action, TaskAction::MoveTo(Position { room: target_room, x: 25, y: 25 }));
    let ctrl = Position { room: target_room, x: 10, y: 40 };
    let entered = ClaimView { creep_pos: Position { room: target_room, x: 1, y: 20 }, room_controller: Some(ctrl) };
    assert_eq!(task.run(&entered).action, TaskAction::MoveTo(ctrl));
    assert_eq!(task.step, ClaimStep::Move { pos: ControllerPosToClaim::KnowingPos { pos: ctrl } });
    let near = ClaimView { creep_pos: Position { room: target_room, x: 11, y: 39 }, room_controller: Some(ctrl) };
    assert_eq!(task.run(&near).action, TaskAction::ClaimController(ctrl));
    let drifted = ClaimView { creep_pos: Position { room: target_room, x: 20, y: 39 }, room_controller: Some(ctrl) };
    assert_eq!(task.run(&drifted).action, TaskAction::MoveTo(ctrl));

    let mut barren = ClaimTask::new(target_room, None);
    let no_ctrl = ClaimView { creep_pos: Position { room: target_room, x: 5, y: 5 }, room_controller: None };
    assert_eq!(barren.run(&no_ctrl).result, OokTaskRunnableResult::CancelAndDoAnother);
}

#[test]
fn body_for_energy_is_whole_units_within_size() {
    let worker = comp(1, 1, 1);
    assert_eq!(worker.single_parts_unit_count(), 3);
    assert_eq!(worker.single_parts_unit_cost(), 200);
    let (parts, cost) = worker.parts_for_x_energy(450).unwrap();
    assert_eq!(cost, 400);
    assert_eq!(parts, vec![Part::Move, Part::Move, Part::Carry, Part::Carry, Part::Work, Part::Work]);
    assert!(worker.parts_for_x_energy(199).is_none());
    let (big, _) = worker.parts_for_x_energy(100000).unwrap();
    assert_eq!(big.len(), 48);
    assert!(comp(0, 0, 0).parts_for_x_energy(1000).is_none());
    assert_eq!(Part::Claim.cost(), 600);
    assert_eq!(get_spawn_time(big.len()), 144);
}

#[test]
fn spawn_options_follow_the_job() {
    let home = room();
    let (race, parts) = creep_spawn_options_from_job(
        &OokCreepJob::FarmSource(FarmSource { target_room: home, target_source: 1 }),
        5000,
    )
    .unwrap()
    .unwrap();
    assert_eq!(race, OokRaceKind::Worker);
    let works = parts.iter().filter(|p| **p == Part::Work).count();
    let moves = parts.iter().filter(|p| **p == Part::Move).count();
    assert_eq!((works, moves), (6, 3));
    let (race, parts) = creep_spawn_options_from_job(&OokCreepJob::RoomLogistics { target_room: home }, 300)
        .unwrap()
        .unwrap();
    assert_eq!(race, OokRaceKind::Carrier);
    assert_eq!(parts, vec![Part::Move, Part::Move, Part::Carry, Part::Carry, Part::Carry, Part::Carry]);
    assert_eq!(creep_spawn_options_from_job(&OokCreepJob::BootstrapRoom { target_room: home }, 150), Ok(None));
    assert_eq!(
        creep_spawn_options_from_job(&OokCreepJob::ClaimRoom { target_room: home }, 5000),
        Err(SpawnPlanError::UnhandledJob)
    );
    assert_eq!(spawn_energy_target(true, 120, 800), 300);
    assert_eq!(spawn_energy_target(true, 650, 800), 650);
    assert_eq!(spawn_energy_target(false, 120, 800), 800);
}

#[test]
fn kinds_round_trip_through_their_codes() {
    assert_eq!(OokCreepJobKind::try_from(3), Ok(OokCreepJobKind::FarmSource));
    assert_eq!(OokCreepJobKind::try_from(9), Err(JobError::UnknownJobKind(9)));
    assert_eq!(OokCreepJobKind::BootstrapRoom.code(), 8);
    assert_eq!(OokRaceKind::try_from(5), Ok(OokRaceKind::Claimer));
    assert_eq!(OokRaceKind::try_from(-1), Err(RacesError::UnknownRace(-1)));
    let job = OokCreepJob::LogisticsExtensionRoom { extension_room: RoomName { x: 0, y: 1 }, target_room: room() };
    assert_eq!(job.kind(), OokCreepJobKind::LogisticsExtensionRoom);
    assert_eq!(job.target_room(), room());
    assert_eq!(TargetSpawnKind::from_job(&job), TargetSpawnKind::Carrier);
}

#[test]
fn in_tick_ids_are_unique_and_reset_each_tick() {
    let mut ids = TickIds::new(40);
    assert_eq!(get_in_tick_unique_id(&mut ids), 0);
    assert_eq!(get_in_tick_unique_id(&mut ids), 1);
    let name = create_creep_name(OokRaceKind::Carrier, &mut ids);
    assert_eq!(name.id, UniqId { tick: 40, seq: 2 });
    ids.next_tick();
    assert_eq!(ids, TickIds { tick: 41, next: 0 });
}

#[test]
fn farm_tiles_are_classified_by_their_stores() {
    assert_eq!(ook_colony::tasks::classify_farm_tile(false, true, true), None);
    assert_eq!(ook_colony::tasks::classify_farm_tile(true, true, true), Some(FarmPositionKind::Dropping));
    assert_eq!(ook_colony::tasks::classify_farm_tile(true, false, true), Some(FarmPositionKind::Shifting));
    assert_eq!(ook_colony::tasks::classify_farm_tile(true, false, false), Some(FarmPositionKind::Running));
}
