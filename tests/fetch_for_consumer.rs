use ook_colony::fetch::{
    get_prio_deliver_target, get_prio_fetch_target, new_run, DeliverCandidate, DeliverKind,
    DeliverTarget, FetchCandidate, FetchForConsumer, FetchKind, FetchStep, FetchTarget, FetchView,
};
use ook_colony::tasks::{OokTaskRunnableResult, TaskAction};
use ook_colony::world::{Position, RoomName};

fn pos(x: u32, y: u32) -> Position {
    Position { room: RoomName { x: 1, y: 2 }, x, y }
}

fn fetch(kind: FetchKind, id: u128, energy: u32, path_len: u32) -> FetchCandidate {
    FetchCandidate { kind, id, pos: pos(id as u32, 1), energy, path_len, near_controller: false, holds_energy: true }
}

fn deliver(kind: DeliverKind, id: u128, free: u32, used: u32, path_len: u32) -> DeliverCandidate {
    DeliverCandidate { kind, id, pos: pos(id as u32, 9), free, used, path_len }
}

#[test]
fn fetch_prefers_ruins_then_largest_drop_then_containers_then_terminal() {
    let mut cs = vec![
        fetch(FetchKind::Terminal, 1, 50000, 1),
        fetch(FetchKind::FarmerContainer, 2, 800, 2),
        fetch(FetchKind::FarmerContainer, 3, 900, 4),
        fetch(FetchKind::DroppedSource, 4, 30, 9),
        fetch(FetchKind::DroppedSource, 5, 60, 9),
        fetch(FetchKind::Ruin, 6, 0, 1),
    ];
    assert_eq!(get_prio_fetch_target(&cs).map(|t| t.id), Some(5));
    cs[5].energy = 10;
    assert_eq!(get_prio_fetch_target(&cs).map(|t| t.id), Some(6));
    let containers = vec![cs[0], cs[1], cs[2]];
    // 800 - 200 beats 900 - 400
    assert_eq!(get_prio_fetch_target(&containers).map(|t| t.id), Some(2));
    let mut near = containers.clone();
    near[1].near_controller = true;
    near[2].energy = 90;
    let t = get_prio_fetch_target(&near).unwrap();
    assert_eq!((t.id, t.provides), (1, 40000));
    assert_eq!(get_prio_fetch_target(&vec![]), None);
}

#[test]
fn deliver_prefers_nearest_extension_then_emptiest_spawn_and_tower() {
    let cs = vec![
        deliver(DeliverKind::TempStorage, 1, 5000, 0, 1),
        deliver(DeliverKind::Tower, 2, 300, 700, 1),
        deliver(DeliverKind::Spawn, 3, 100, 200, 1),
        deliver(DeliverKind::Spawn, 4, 250, 50, 5),
        deliver(DeliverKind::Extension, 5, 50, 0, 8),
        deliver(DeliverKind::Extension, 6, 50, 0, 3),
        deliver(DeliverKind::Extension, 7, 0, 50, 1),
    ];
    assert_eq!(get_prio_deliver_target(&cs).map(|t| t.id), Some(6));
    let no_ext: Vec<DeliverCandidate> = cs.iter().copied().filter(|c| c.kind != DeliverKind::Extension).collect();
    let t = get_prio_deliver_target(&no_ext).unwrap();
    assert_eq!((t.id, t.requested), (4, 250));
    let rest = vec![cs[0], cs[1]];
    assert_eq!(get_prio_deliver_target(&rest).map(|t| t.id), Some(2));
    let terminal = vec![cs[0], deliver(DeliverKind::TradeTransactionFee, 9, 10000, 500, 1)];
    assert_eq!(get_prio_deliver_target(&terminal).map(|t| t.id), Some(9));
    assert_eq!(get_prio_deliver_target(&vec![cs[0]]).map(|t| t.id), Some(1));
    assert_eq!(get_prio_deliver_target(&vec![]), None);
}

fn targets() -> (FetchTarget, DeliverTarget) {
    (
        FetchTarget { kind: FetchKind::FarmerContainer, id: 11, pos: pos(10, 10), provides: 400 },
        DeliverTarget { kind: DeliverKind::Spawn, id: 22, pos: pos(30, 30), requested: 150 },
    )
}

#[test]
fn new_run_delivers_at_once_when_carrying_enough() {
    let (f, d) = targets();
    assert_eq!(new_run(Some(d), Some(f), 200), Some(FetchStep::Delivering { to: d, provided: 0 }));
    assert_eq!(new_run(Some(d), Some(f), 10), Some(FetchStep::Fetching { from: f, to: d }));
    assert_eq!(new_run(Some(d), None, 10), None);
    assert_eq!(new_run(None, Some(f), 10), None);
}

#[test]
fn fetch_for_consumer_fetches_delivers_and_finishes() {
    let (f, d) = targets();
    let plan = Some(FetchStep::Fetching { from: f, to: d });
    let mut task = FetchForConsumer::new(plan);
    let out = task.run(&FetchView { to_present: true, from_present: true, creep_pos: pos(1, 1), used: 0, free: 100, plan });
    assert_eq!(out.action, TaskAction::MoveTo(f.pos));
    let out = task.run(&FetchView { to_present: true, from_present: true, creep_pos: pos(11, 11), used: 0, free: 100, plan });
    assert_eq!(out.action, TaskAction::Withdraw { target: 11, amount: 100 });
    // full now: deliver
    let out = task.run(&FetchView { to_present: true, from_present: true, creep_pos: pos(12, 12), used: 100, free: 0, plan: None });
    assert_eq!(out.action, TaskAction::MoveTo(d.pos));
    let out = task.run(&FetchView { to_present: true, from_present: true, creep_pos: pos(29, 29), used: 100, free: 0, plan: None });
    assert_eq!(out.action, TaskAction::Transfer { target: 22, amount: 100 });
    assert_eq!(task.state, Some(FetchStep::Delivering { to: d, provided: 100 }));
    // carry hits zero: finished
    let out = task.run(&FetchView { to_present: true, from_present: true, creep_pos: pos(29, 29), used: 0, free: 100, plan: None });
    assert_eq!(out.result, OokTaskRunnableResult::Finish);
    assert_eq!(task.state, None);
    // nothing planned: finished too
    let mut idle = FetchForConsumer::new(None);
    assert_eq!(idle.run(&FetchView { to_present: true, from_present: true, creep_pos: pos(1, 1), used: 0, free: 100, plan: None }).result, OokTaskRunnableResult::Finish);
}

#[test]
fn fetch_for_consumer_finishes_once_request_is_met() {
    let (_, d) = targets();
    let mut task = FetchForConsumer::new(Some(FetchStep::Delivering { to: d, provided: 150 }));
    let out = task.run(&FetchView { to_present: true, from_present: true, creep_pos: pos(29, 29), used: 80, free: 20, plan: None });
    assert_eq!(out.result, OokTaskRunnableResult::Finish);
}

#[test]
fn fetch_for_consumer_falls_back_when_source_vanished() {
    let (f, d) = targets();
    let mut task = FetchForConsumer::new(Some(FetchStep::Fetching { from: f, to: d }));
    let other = FetchTarget { kind: FetchKind::Ruin, id: 12, pos: pos(5, 5), provides: 80 };
    let replan = Some(FetchStep::Fetching { from: other, to: d });
    let out = task.run(&FetchView { to_present: true, from_present: false, creep_pos: pos(1, 1), used: 0, free: 100, plan: replan });
    assert_eq!(out.result, OokTaskRunnableResult::Continue);
    assert_eq!(task.state, replan);
    let mut lone = FetchForConsumer::new(Some(FetchStep::Fetching { from: f, to: d }));
    let out = lone.run(&FetchView { to_present: true, from_present: false, creep_pos: pos(1, 1), used: 0, free: 100, plan: None });
    assert_eq!(out.result, OokTaskRunnableResult::CancelAndDoAnother);
    assert_eq!(lone.state, None);
}

#[test]
fn fetch_for_consumer_cancels_when_consumer_vanished() {
    let (f, d) = targets();
    let mut delivering = FetchForConsumer::new(Some(FetchStep::Delivering { to: d, provided: 0 }));
    let out = delivering.run(&FetchView { to_present: false, from_present: true, creep_pos: pos(29, 29), used: 100, free: 0, plan: None });
    assert_eq!(out.result, OokTaskRunnableResult::CancelAndDoAnother);
    assert_eq!(out.action, TaskAction::Wait);
    assert_eq!(delivering.state, None);
    let mut fetching = FetchForConsumer::new(Some(FetchStep::Fetching { from: f, to: d }));
    let out = fetching.run(&FetchView { to_present: false, from_present: true, creep_pos: pos(11, 11), used: 0, free: 100, plan: None });
    assert_eq!(out.result, OokTaskRunnableResult::CancelAndDoAnother);
    assert_eq!(out.action, TaskAction::Wait);
}
