use ook_colony::provider::{
    carrier_score, select_best_for_carrier, buffer_fill, calc_resource_providers, classify, creep_can_use, score, select_best,
    source_dump_fill, terminal_bonus, Candidate, ObjectClass, ProviderKind, ProviderReading,
    RoomObject, MISSING_SCORE, STORAGE_MIN_SCORE,
};
use ook_colony::world::{in_range_to, room_distance_squared, Position, RoomName};

fn room() -> RoomName {
    RoomName { x: 3, y: -4 }
}

fn pos(x: u32, y: u32) -> Position {
    Position { room: room(), x, y }
}

fn reading(kind: ProviderKind, fill: u32, path_len: u32) -> ProviderReading {
    ProviderReading { kind, fill: Some(fill), path_len }
}

#[test]
fn source_dump_fill_curve_bands() {
    assert_eq!(source_dump_fill(0), 0);
    assert_eq!(source_dump_fill(1), -1);
    assert_eq!(source_dump_fill(99), -99);
    assert_eq!(source_dump_fill(100), -20);
    assert_eq!(source_dump_fill(102), -20);
    assert_eq!(source_dump_fill(103), -21);
    assert_eq!(source_dump_fill(499), -100);
    assert_eq!(source_dump_fill(500), 5);
    assert_eq!(source_dump_fill(549), 5);
    assert_eq!(source_dump_fill(550), 6);
    assert_eq!(source_dump_fill(2000), 20);
}

#[test]
fn source_dump_score_adds_base_and_distance() {
    assert_eq!(score(&reading(ProviderKind::SourceDump, 0, 0)), 200);
    assert_eq!(score(&reading(ProviderKind::SourceDump, 50, 4)), 200 - 50 - 12);
    assert_eq!(score(&reading(ProviderKind::SourceDump, 250, 10)), 200 - 50 - 30);
    assert_eq!(score(&reading(ProviderKind::SourceDump, 1000, 1)), 200 + 10 - 3);
}

#[test]
fn buffer_fill_curve_has_smaller_middle_penalty() {
    assert_eq!(buffer_fill(0), 0);
    assert_eq!(buffer_fill(60), -60);
    assert_eq!(buffer_fill(100), -30);
    assert_eq!(buffer_fill(400), 30);
    assert_eq!(buffer_fill(700), 7);
    assert_eq!(score(&reading(ProviderKind::BufferControllerUpgrade, 400, 2)), 200 + 30 - 6);
}

#[test]
fn energy_farm_score_is_hundred_minus_path() {
    assert_eq!(score(&reading(ProviderKind::EnergyFarm, 3000, 0)), 100);
    assert_eq!(score(&reading(ProviderKind::EnergyFarm, 3000, 37)), 63);
}

#[test]
fn score_never_rises_with_path_length() {
    let kinds = [
        ProviderKind::EnergyFarm,
        ProviderKind::SourceDump,
        ProviderKind::BufferControllerUpgrade,
        ProviderKind::LongTermStorage,
        ProviderKind::TerminalOverflow,
    ];
    for kind in kinds.iter() {
        for fill in [0u32, 50, 300, 900, 15000, 50000].iter() {
            let near = score(&reading(*kind, *fill, 3));
            let far = score(&reading(*kind, *fill, 30));
            assert!(far <= near, "{:?} fill {}", kind, fill);
        }
    }
    assert!(score(&reading(ProviderKind::SourceDump, 300, 30)) < score(&reading(ProviderKind::SourceDump, 300, 3)));
}

#[test]
fn storage_below_low_reserve_scores_fixed_minimum() {
    assert_eq!(score(&reading(ProviderKind::LongTermStorage, 0, 0)), STORAGE_MIN_SCORE);
    assert_eq!(score(&reading(ProviderKind::LongTermStorage, 19999, 40)), STORAGE_MIN_SCORE);
    assert_eq!(score(&reading(ProviderKind::LongTermStorage, 19999, 1)), STORAGE_MIN_SCORE);
    assert_eq!(score(&reading(ProviderKind::LongTermStorage, 20000, 10)), 170);
    assert!(STORAGE_MIN_SCORE > 0);
}

#[test]
fn terminal_below_buffer_scores_negative() {
    assert_eq!(terminal_bonus(0), -250);
    assert_eq!(score(&reading(ProviderKind::TerminalOverflow, 500, 2)), -106);
    assert_eq!(terminal_bonus(10500), 0);
    assert_eq!(terminal_bonus(12000), 5);
    assert_eq!(terminal_bonus(100000), 9);
    assert_eq!(score(&reading(ProviderKind::TerminalOverflow, 100000, 0)), 159);
}

#[test]
fn vanished_provider_gets_sentinel_score() {
    let r = ProviderReading { kind: ProviderKind::SourceDump, fill: None, path_len: 1 };
    assert_eq!(score(&r), MISSING_SCORE);
}

#[test]
fn select_best_takes_highest_usable_and_first_on_ties() {
    let cands = vec![
        Candidate { usable: false, reading: reading(ProviderKind::EnergyFarm, 0, 0) },
        Candidate { usable: true, reading: reading(ProviderKind::EnergyFarm, 0, 10) },
        Candidate { usable: true, reading: reading(ProviderKind::EnergyFarm, 0, 5) },
        Candidate { usable: true, reading: reading(ProviderKind::EnergyFarm, 0, 5) },
    ];
    assert_eq!(select_best(&cands), Some(2));
    let none = vec![Candidate { usable: false, reading: reading(ProviderKind::SourceDump, 10, 1) }];
    assert_eq!(select_best(&none), None);
    assert_eq!(select_best(&vec![]), None);
}

#[test]
fn creep_can_use_gates_by_body() {
    assert!(creep_can_use(ProviderKind::EnergyFarm, 1, 0));
    assert!(!creep_can_use(ProviderKind::EnergyFarm, 0, 5));
    assert!(creep_can_use(ProviderKind::LongTermStorage, 0, 1));
    assert!(!creep_can_use(ProviderKind::SourceDump, 3, 0));
}

#[test]
fn classify_follows_precedence() {
    let sources = vec![pos(10, 10)];
    let controller = Some(pos(30, 30));
    let obj = |class, x, y| RoomObject { id: 7, class, pos: pos(x, y) };
    let by_source = classify(&obj(ObjectClass::Container, 11, 9), &sources, controller).unwrap();
    assert_eq!(by_source.kind, ProviderKind::SourceDump);
    assert!(!by_source.litter);
    let by_controller = classify(&obj(ObjectClass::Container, 33, 27), &sources, controller).unwrap();
    assert_eq!(by_controller.kind, ProviderKind::BufferControllerUpgrade);
    assert!(classify(&obj(ObjectClass::Container, 20, 20), &sources, controller).is_none());
    assert!(classify(&obj(ObjectClass::Container, 34, 30), &sources, controller).is_none());
    assert_eq!(classify(&obj(ObjectClass::Source, 10, 10), &sources, controller).unwrap().kind, ProviderKind::EnergyFarm);
    assert_eq!(classify(&obj(ObjectClass::Storage, 1, 1), &sources, controller).unwrap().kind, ProviderKind::LongTermStorage);
    assert_eq!(classify(&obj(ObjectClass::Terminal, 1, 2), &sources, controller).unwrap().kind, ProviderKind::TerminalOverflow);
    let litter = classify(&obj(ObjectClass::DroppedResource, 9, 11), &sources, controller).unwrap();
    assert_eq!(litter.kind, ProviderKind::SourceDump);
    assert!(litter.litter);
    assert!(classify(&obj(ObjectClass::DroppedResource, 8, 11), &sources, controller).is_none());
    assert!(classify(&obj(ObjectClass::Other, 10, 11), &sources, controller).is_none());
}

#[test]
fn calc_resource_providers_keeps_matched_in_order() {
    let sources = vec![pos(10, 10)];
    let objs = vec![
        RoomObject { id: 1, class: ObjectClass::Other, pos: pos(1, 1) },
        RoomObject { id: 2, class: ObjectClass::Storage, pos: pos(2, 2) },
        RoomObject { id: 3, class: ObjectClass::Source, pos: pos(10, 10) },
        RoomObject { id: 4, class: ObjectClass::DroppedResource, pos: pos(40, 40) },
    ];
    let provs = calc_resource_providers(&objs, &sources, None);
    assert_eq!(provs.len(), 2);
    assert_eq!(provs[0].ident(), 2);
    assert_eq!(provs[1].ident(), 3);
    assert_eq!(provs[1].kind, ProviderKind::EnergyFarm);
}

#[test]
fn ranges_and_room_distance() {
    assert!(in_range_to(&pos(5, 5), &pos(8, 2), 3));
    assert!(!in_range_to(&pos(5, 5), &pos(9, 5), 3));
    let other = Position { room: RoomName { x: 0, y: 0 }, x: 5, y: 5 };
    assert!(!in_range_to(&pos(5, 5), &other, 3));
    assert_eq!(room_distance_squared(RoomName { x: 1, y: 1 }, RoomName { x: 4, y: 5 }), 25);
    assert_eq!(
        room_distance_squared(RoomName { x: i32::MIN, y: 0 }, RoomName { x: i32::MAX, y: 0 }),
        (u32::MAX as u128) * (u32::MAX as u128)
    );
}

#[test]
fn carrier_scores_prefer_full_dumps_and_skip_sources() {
    assert_eq!(carrier_score(&reading(ProviderKind::EnergyFarm, 3000, 1)), MISSING_SCORE);
    assert_eq!(carrier_score(&reading(ProviderKind::SourceDump, 0, 4)), -4);
    assert_eq!(carrier_score(&reading(ProviderKind::SourceDump, 150, 4)), 46);
    assert_eq!(carrier_score(&reading(ProviderKind::SourceDump, 300, 4)), 156);
    assert_eq!(carrier_score(&reading(ProviderKind::SourceDump, 1000, 4)), 206);
    assert_eq!(carrier_score(&reading(ProviderKind::BufferControllerUpgrade, 50, 1)), -53);
    assert_eq!(carrier_score(&reading(ProviderKind::LongTermStorage, 5, 2)), 94);
    assert_eq!(carrier_score(&reading(ProviderKind::TerminalOverflow, 20000, 0)), 110);
    assert_eq!(carrier_score(&reading(ProviderKind::TerminalOverflow, 100, 0)), -100);
    let cands = vec![
        Candidate { usable: true, reading: reading(ProviderKind::LongTermStorage, 5, 2) },
        Candidate { usable: true, reading: reading(ProviderKind::SourceDump, 300, 4) },
        Candidate { usable: false, reading: reading(ProviderKind::SourceDump, 2000, 0) },
    ];
    assert_eq!(select_best_for_carrier(&cands), Some(1));
    for kind in [ProviderKind::SourceDump, ProviderKind::BufferControllerUpgrade, ProviderKind::LongTermStorage, ProviderKind::TerminalOverflow].iter() {
        assert!(carrier_score(&reading(*kind, 700, 20)) <= carrier_score(&reading(*kind, 700, 2)));
    }
}
