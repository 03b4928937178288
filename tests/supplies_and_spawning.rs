use ook_colony::fulfillment::{plan_spawn, with_spawned_name, SpawnPlan};
use ook_colony::jobs::{FarmSource, OokCreepJob};
use ook_colony::provider::{ProviderKind, ResourceProvider};
use ook_colony::races::{OokRaceKind, Part};
use ook_colony::requests::{
    BootstrapWorkerCitizen, Citizen, CreepName, Request, RequestData, TickIds, UniqId,
};
use ook_colony::supplies::{
    plan_fill_points, plan_supplies_route, SupplierSpot, RouteInput, SpawnSuppliesRun, SuppliersReachPoint, SuppliesStep,
    SuppliesView,
};
use ook_colony::tasks::{EnergyView, OokTaskRunnableResult, TaskAction, TaskOutcome};
use ook_colony::world::{Position, RoomName};

fn room() -> RoomName {
    RoomName { x: 4, y: 4 }
}

fn pos(x: u32, y: u32) -> Position {
    Position { room: room(), x, y }
}

fn line_input(needed: Vec<u32>) -> RouteInput {
    // points on a line at x = 10, 20, 30, ...; the agent stands at x = 0
    let n = needed.len();
    let start_dist = (0..n).map(|i| 10 * (i as u32 + 1)).collect();
    let dist = (0..n)
        .map(|a| (0..n).map(|b| 10 * (a as i64 - b as i64).unsigned_abs() as u32).collect())
        .collect();
    RouteInput { start_dist, dist, needed }
}

#[test]
fn route_takes_closest_points_until_energy_is_used() {
    assert_eq!(plan_supplies_route(&line_input(vec![50, 50, 50, 50]), 120), vec![0, 1, 2]);
    assert_eq!(plan_supplies_route(&line_input(vec![50, 50, 50, 50]), 1000), vec![0, 1, 2, 3]);
    assert_eq!(plan_supplies_route(&line_input(vec![50, 50]), 50), vec![0]);
    assert_eq!(plan_supplies_route(&line_input(vec![]), 50), Vec::<usize>::new());
}

#[test]
fn route_stops_at_a_point_that_needs_nothing() {
    assert_eq!(plan_supplies_route(&line_input(vec![50, 0, 50]), 1000), vec![0]);
}

#[test]
fn route_goes_nearest_first_from_each_point() {
    // from the agent the middle point is closest, then the ends by distance
    let input = RouteInput {
        start_dist: vec![9, 1, 5],
        dist: vec![vec![0, 8, 3], vec![8, 0, 2], vec![3, 2, 0]],
        needed: vec![10, 10, 10],
    };
    assert_eq!(plan_supplies_route(&input, 100), vec![1, 2, 0]);
    let tie = RouteInput { start_dist: vec![4, 4], dist: vec![vec![0, 1], vec![1, 0]], needed: vec![1, 1] };
    assert_eq!(plan_supplies_route(&tie, 100), vec![0, 1]);
}

fn view(points: Vec<SuppliersReachPoint>, needed: Vec<u32>, free_at_next: Vec<Option<u32>>) -> SuppliesView {
    let input = line_input(needed);
    SuppliesView { points, route_input: input, free_at_next }
}

fn energy(at: Position, free: u32, used: u32) -> EnergyView {
    EnergyView {
        creep_pos: at,
        free_capacity: free,
        used_capacity: used,
        best_provider: None,
        target_present: true,
        target_stored: 500,
    }
}

#[test]
fn supplies_run_fetches_plans_and_fills() {
    let store = ResourceProvider { kind: ProviderKind::LongTermStorage, obj_id: 3, pos: pos(2, 2), litter: false };
    let mut run = SpawnSuppliesRun::new(room(), Some(store));
    let points = vec![
        SuppliersReachPoint { pos: pos(10, 0), suppliers: vec![100, 101] },
        SuppliersReachPoint { pos: pos(20, 0), suppliers: vec![102] },
    ];
    let v = view(points, vec![50, 50], vec![Some(0), Some(30)]);

    let (out, started) = run.run(&energy(pos(9, 9), 100, 0), &v);
    assert_eq!(out.action, TaskAction::MoveTo(store.pos));
    assert!(!started);

    let (out, started) = run.run(&energy(pos(3, 3), 100, 0), &v);
    assert_eq!(out.action, TaskAction::Withdraw { target: 3, amount: 100 });
    assert!(started);
    assert_eq!(run.handling_supplier_points(), vec![pos(10, 0), pos(20, 0)]);

    // at the first point: its second supplier has room
    let (out, _) = run.run(&energy(pos(10, 0), 0, 100), &v);
    assert_eq!(out, TaskOutcome { action: TaskAction::Transfer { target: 101, amount: 30 }, result: OokTaskRunnableResult::Continue });

    // full there: the point is done, go on to the next
    let full = view(vec![], vec![], vec![Some(0), Some(0)]);
    let full = SuppliesView { points: vec![], route_input: RouteInput { start_dist: vec![], dist: vec![], needed: vec![] }, ..full };
    let (out, _) = run.run(&energy(pos(10, 0), 0, 70), &full);
    assert_eq!(out.action, TaskAction::MoveTo(pos(20, 0)));
    assert_eq!(run.handling_supplier_points(), vec![pos(20, 0), pos(10, 0)]);

    // last point full too: the route is exhausted
    let (out, _) = run.run(&energy(pos(20, 0), 0, 70), &SuppliesView { free_at_next: vec![Some(0)], ..full });
    assert_eq!(out.result, OokTaskRunnableResult::CancelAndDoAnother);
    let (out, _) = run.run(&energy(pos(20, 0), 0, 70), &SuppliesView { points: vec![], route_input: RouteInput { start_dist: vec![], dist: vec![], needed: vec![] }, free_at_next: vec![] });
    assert_eq!(out.result, OokTaskRunnableResult::CancelAndDoAnother);
}

#[test]
fn supplies_run_cancels_empty_handed_and_restarts_on_vanished_provider() {
    let store = ResourceProvider { kind: ProviderKind::LongTermStorage, obj_id: 3, pos: pos(2, 2), litter: false };
    let mut run = SpawnSuppliesRun::new(room(), Some(store));
    let mut e = energy(pos(3, 3), 100, 0);
    e.target_present = false;
    let v = view(vec![SuppliersReachPoint { pos: pos(10, 0), suppliers: vec![1] }], vec![50], vec![Some(50)]);
    let (out, _) = run.run(&e, &v);
    assert_eq!(out.result, OokTaskRunnableResult::Continue);
    assert!(matches!(run.step, SuppliesStep::Created));

    let mut filling = SpawnSuppliesRun::new(room(), None);
    filling.start_filling(&v, 100);
    let (out, started) = filling.run(&energy(pos(10, 0), 100, 0), &v);
    assert_eq!(out.result, OokTaskRunnableResult::CancelAndDoAnother);
    assert!(!started);
}

fn citizen(job: OokCreepJob, panic: bool) -> RequestData {
    RequestData::Citizen(Citizen {
        target_room_name: room(),
        spawning_creep_name: None,
        initial_job: job,
        resolve_panic: panic,
    })
}

#[test]
fn spawn_plan_uses_capacity_or_panic_energy() {
    match plan_spawn(&citizen(OokCreepJob::RoomLogistics { target_room: room() }, false), 100, 450) {
        SpawnPlan::Spawn { race, parts, .. } => {
            assert_eq!(race, OokRaceKind::Carrier);
            assert_eq!(parts.len(), 9);
        }
        _ => panic!("expected a spawn"),
    }
    match plan_spawn(&citizen(OokCreepJob::RoomLogistics { target_room: room() }, true), 100, 450) {
        SpawnPlan::Spawn { parts, .. } => assert_eq!(parts, vec![Part::Move, Part::Move, Part::Carry, Part::Carry, Part::Carry, Part::Carry]),
        _ => panic!("expected a spawn"),
    }
    let farm = OokCreepJob::FarmSource(FarmSource { target_room: room(), target_source: 1 });
    assert!(matches!(plan_spawn(&citizen(farm, false), 0, 200), SpawnPlan::Skip));
    assert!(matches!(plan_spawn(&citizen(OokCreepJob::ClaimRoom { target_room: room() }, false), 0, 2000), SpawnPlan::Unhandled));
    let boot = RequestData::BootstrapWorkerCitizen(BootstrapWorkerCitizen { target_room_name: room(), spawning_creep_name: None });
    match plan_spawn(&boot, 0, 200) {
        SpawnPlan::Spawn { race, job, .. } => {
            assert_eq!(race, OokRaceKind::Worker);
            assert_eq!(job, OokCreepJob::BootstrapRoom { target_room: room() });
        }
        _ => panic!("expected a spawn"),
    }
}

#[test]
fn handled_request_carries_spawned_name() {
    let mut ids = TickIds::new(2);
    let req = Request::new(citizen(OokCreepJob::RoomLogistics { target_room: room() }, true), &mut ids);
    let name = CreepName { race: OokRaceKind::Carrier, id: UniqId { tick: 2, seq: 5 } };
    let handled = with_spawned_name(&req, name);
    assert_eq!(handled.request_id, req.request_id);
    match handled.data {
        RequestData::Citizen(c) => {
            assert_eq!(c.spawning_creep_name, Some(name));
            assert!(c.resolve_panic);
        }
        _ => panic!("kind changed"),
    }
}

#[test]
fn fill_points_take_busiest_tiles_first() {
    // three extensions in a row at x = 10, 11, 12 (y = 5); tiles above them at y = 4
    let spots = vec![
        SupplierSpot { id: 1, pos: pos(10, 5) },
        SupplierSpot { id: 2, pos: pos(11, 5) },
        SupplierSpot { id: 3, pos: pos(12, 5) },
        SupplierSpot { id: 4, pos: pos(20, 20) },
    ];
    let tiles = vec![pos(9, 4), pos(11, 4), pos(13, 4), pos(21, 21), pos(30, 30)];
    let plan = plan_fill_points(&tiles, &spots);
    // the tile above the middle reaches all three of the row; then the lone one
    assert_eq!(plan, vec![(1, vec![0, 1, 2]), (3, vec![3])]);
    assert!(plan_fill_points(&vec![], &spots).is_empty());
    assert!(plan_fill_points(&tiles, &vec![]).is_empty());
}

#[test]
fn fill_points_share_suppliers_between_equal_tiles_in_order() {
    let spots = vec![SupplierSpot { id: 1, pos: pos(10, 5) }, SupplierSpot { id: 2, pos: pos(12, 5) }];
    // both tiles reach both suppliers: the first takes them, the second is left out
    let tiles = vec![pos(11, 4), pos(11, 6)];
    assert_eq!(plan_fill_points(&tiles, &spots), vec![(0, vec![0, 1])]);
}

#[test]
fn open_points_need_energy_and_are_not_taken() {
    let positions = vec![pos(1, 1), pos(2, 2), pos(3, 3), pos(4, 4)];
    let needed = vec![50, 0, 20, 10];
    let handled = vec![pos(3, 3)];
    assert_eq!(ook_colony::supplies::open_supplier_points(&positions, &needed, &handled), vec![0, 3]);
    assert_eq!(ook_colony::supplies::total_free(&vec![50, 0, 200]), 250);
    assert_eq!(ook_colony::supplies::total_free(&vec![u32::MAX, u32::MAX]), 2 * u32::MAX as u64);
    assert_eq!(ook_colony::supplies::total_free(&vec![]), 0);
}

#[test]
fn supplies_run_ends_a_point_whose_supplier_vanished() {
    let mut run = SpawnSuppliesRun::new(room(), None);
    let points = vec![
        SuppliersReachPoint { pos: pos(10, 0), suppliers: vec![100, 101] },
        SuppliersReachPoint { pos: pos(20, 0), suppliers: vec![102] },
    ];
    run.start_filling(&view(points, vec![50, 50], vec![]), 100);
    // the first supplier is gone: no transfer to the second, the point is done
    let v = view(vec![], vec![], vec![None, Some(40)]);
    let (out, started) = run.run(&energy(pos(10, 0), 0, 100), &v);
    assert_eq!(out, TaskOutcome { action: TaskAction::MoveTo(pos(20, 0)), result: OokTaskRunnableResult::Continue });
    assert!(!started);
    assert_eq!(run.handling_supplier_points(), vec![pos(20, 0), pos(10, 0)]);
    // at the last point its only supplier is gone too: the run cancels without a transfer
    let v = view(vec![], vec![], vec![None]);
    let (out, _) = run.run(&energy(pos(20, 0), 0, 100), &v);
    assert_eq!(out, TaskOutcome { action: TaskAction::Wait, result: OokTaskRunnableResult::CancelAndDoAnother });
}

#[test]
fn supplies_run_from_created_takes_the_best_provider_and_fills_when_full() {
    let store = ResourceProvider { kind: ProviderKind::LongTermStorage, obj_id: 3, pos: pos(2, 2), litter: false };
    let mut run = SpawnSuppliesRun::new(room(), None);
    let points = vec![SuppliersReachPoint { pos: pos(10, 0), suppliers: vec![100] }];
    let v = view(points, vec![50], vec![Some(50)]);
    let mut e = energy(pos(9, 9), 100, 0);
    e.best_provider = Some(store);
    let (out, started) = run.run(&e, &v);
    assert_eq!(out, TaskOutcome { action: TaskAction::MoveTo(store.pos), result: OokTaskRunnableResult::Continue });
    assert!(!started);
    assert!(matches!(run.step, SuppliesStep::GetEnergy { target } if target == store));
    // already full: plan with what is carried and fill at once
    let (out, started) = run.run(&energy(pos(10, 0), 0, 80), &v);
    assert!(started);
    assert_eq!(out, TaskOutcome { action: TaskAction::Transfer { target: 100, amount: 50 }, result: OokTaskRunnableResult::Continue });
}
