use seilespill::dock::{
    dock_menu, dock_menu_node, wire_dock_events, wire_sensor_events, Card, CollisionEvent, Dock,
    DockState, MenuCommand, PlayerData, MAX_DOCK_VEL, MAX_DOCK_VEL_SQUARED, MIN_UNDOCK_VEL,
    MIN_UNDOCK_VEL_SQUARED,
};
use seilespill::vector::Vec3;

const PLAYER: u64 = 1;
const ISLAND_1: u64 = 10;
const ISLAND_2: u64 = 20;
const ROCK: u64 = 30;

fn sensors() -> Vec<u64> {
    vec![ISLAND_1, ISLAND_2]
}

fn at(dock_state: DockState) -> PlayerData {
    PlayerData { dock_state }
}

/// A velocity straight along the `x` axis with the given speed over the
/// water, climbing besides.
fn along(speed: u64) -> Vec3 {
    Vec3::new(speed as i64, 7_000_000, 0)
}

#[test]
fn player_starts_too_far() {
    assert_eq!(DockState::default(), DockState::TooFar);
    assert_eq!(PlayerData::default().dock_state, DockState::TooFar);
    assert_eq!(DockState::TooFar.dock_target(), None);
    assert_eq!(DockState::CloseTo(4).dock_target(), Some(4));
    assert_eq!(DockState::DockedTo(5).dock_target(), Some(5));
}

#[test]
fn thresholds_leave_a_band() {
    assert_eq!(MAX_DOCK_VEL, 100_000);
    assert_eq!(MIN_UNDOCK_VEL, 500_000);
    assert!(MAX_DOCK_VEL < MIN_UNDOCK_VEL);
    assert_eq!(MAX_DOCK_VEL_SQUARED, MAX_DOCK_VEL as u128 * MAX_DOCK_VEL as u128);
    assert_eq!(MIN_UNDOCK_VEL_SQUARED, MIN_UNDOCK_VEL as u128 * MIN_UNDOCK_VEL as u128);
}

#[test]
fn close_boat_docks_below_the_low_threshold() {
    let mut player = at(DockState::CloseTo(ISLAND_1));
    assert_eq!(wire_dock_events(&mut player, &along(MAX_DOCK_VEL)), None);
    assert_eq!(player.dock_state, DockState::CloseTo(ISLAND_1));
    assert_eq!(wire_dock_events(&mut player, &along(MAX_DOCK_VEL - 1)), Some(Dock::Docking));
    assert_eq!(player.dock_state, DockState::DockedTo(ISLAND_1));
}

#[test]
fn docked_boat_casts_off_above_the_high_threshold() {
    let mut player = at(DockState::DockedTo(ISLAND_2));
    assert_eq!(wire_dock_events(&mut player, &along(MIN_UNDOCK_VEL)), None);
    assert_eq!(player.dock_state, DockState::DockedTo(ISLAND_2));
    assert_eq!(wire_dock_events(&mut player, &along(MIN_UNDOCK_VEL + 1)), Some(Dock::UnDocking));
    assert_eq!(player.dock_state, DockState::CloseTo(ISLAND_2));
}

#[test]
fn far_boat_ignores_speed() {
    for speed in [0, MAX_DOCK_VEL - 1, MIN_UNDOCK_VEL + 1, 9_000_000_000_000_000_000] {
        let mut player = at(DockState::TooFar);
        assert_eq!(wire_dock_events(&mut player, &along(speed)), None);
        assert_eq!(player.dock_state, DockState::TooFar);
    }
}

#[test]
fn docking_hysteresis_over_a_run_of_speeds() {
    let mut player = at(DockState::CloseTo(ISLAND_1));
    assert_eq!(wire_dock_events(&mut player, &along(99_999)), Some(Dock::Docking));
    for speed in [0, 100_000, 250_000, 499_999, 500_000, 100_001, 3] {
        assert_eq!(wire_dock_events(&mut player, &along(speed)), None);
        assert_eq!(player.dock_state, DockState::DockedTo(ISLAND_1));
    }
    assert_eq!(wire_dock_events(&mut player, &along(500_001)), Some(Dock::UnDocking));
    assert_eq!(player.dock_state, DockState::CloseTo(ISLAND_1));
    for speed in [500_001, 100_000, 300_000] {
        assert_eq!(wire_dock_events(&mut player, &along(speed)), None);
        assert_eq!(player.dock_state, DockState::CloseTo(ISLAND_1));
    }
}

#[test]
fn only_the_speed_over_the_water_counts() {
    // 0.06 and 0.08 across give 0.1 over the water: not below the threshold.
    let mut player = at(DockState::CloseTo(ISLAND_1));
    assert_eq!(wire_dock_events(&mut player, &Vec3::new(60_000, -9_000_000, 80_000)), None);
    assert_eq!(player.dock_state, DockState::CloseTo(ISLAND_1));
    assert_eq!(
        wire_dock_events(&mut player, &Vec3::new(60_000, 9_000_000, -79_999)),
        Some(Dock::Docking)
    );
    assert_eq!(player.dock_state, DockState::DockedTo(ISLAND_1));
    // 0.3 and 0.4 across give 0.5 over the water: not above the threshold.
    assert_eq!(wire_dock_events(&mut player, &Vec3::new(-300_000, 50_000_000, 400_000)), None);
    assert_eq!(player.dock_state, DockState::DockedTo(ISLAND_1));
    assert_eq!(
        wire_dock_events(&mut player, &Vec3::new(-300_002, 0, 400_000)),
        Some(Dock::UnDocking)
    );
    assert_eq!(player.dock_state, DockState::CloseTo(ISLAND_1));
}

#[test]
fn speeds_are_compared_exactly() {
    // 0.5 along and 0.001 across is faster than 0.5, by less than a raw step.
    let mut player = at(DockState::DockedTo(ISLAND_1));
    assert_eq!(
        wire_dock_events(&mut player, &Vec3::new(500_000, 0, 1_000)),
        Some(Dock::UnDocking)
    );
    assert_eq!(player.dock_state, DockState::CloseTo(ISLAND_1));
    let mut player = at(DockState::DockedTo(ISLAND_1));
    assert_eq!(wire_dock_events(&mut player, &Vec3::new(500_000, 0, 1)), Some(Dock::UnDocking));
    // 0.099999 along and 0.000447 across is just slower than 0.1, ...
    let mut player = at(DockState::CloseTo(ISLAND_2));
    assert_eq!(wire_dock_events(&mut player, &Vec3::new(99_999, 0, 447)), Some(Dock::Docking));
    // ... with 0.000448 across it is not.
    let mut player = at(DockState::CloseTo(ISLAND_2));
    assert_eq!(wire_dock_events(&mut player, &Vec3::new(99_999, 0, 448)), None);
    assert_eq!(player.dock_state, DockState::CloseTo(ISLAND_2));
}

#[test]
fn any_velocity_is_accepted() {
    let mut player = at(DockState::DockedTo(ISLAND_1));
    assert_eq!(
        wire_dock_events(&mut player, &Vec3::new(i64::MIN, i64::MIN, i64::MIN)),
        Some(Dock::UnDocking)
    );
    let mut player = at(DockState::CloseTo(ISLAND_1));
    assert_eq!(wire_dock_events(&mut player, &Vec3::new(i64::MAX, 0, i64::MIN)), None);
}

#[test]
fn same_speed_twice_changes_nothing_the_second_time() {
    let states = [DockState::TooFar, DockState::CloseTo(ISLAND_1), DockState::DockedTo(ISLAND_1)];
    for state in states {
        for speed in [0, 99_999, 100_000, 300_000, 500_000, 500_001] {
            let mut player = at(state);
            wire_dock_events(&mut player, &along(speed));
            let once = player.dock_state;
            assert_eq!(wire_dock_events(&mut player, &along(speed)), None);
            assert_eq!(player.dock_state, once);
            assert_eq!(once.dock_target(), state.dock_target());
        }
    }
}

#[test]
fn contact_with_a_sensor_brings_the_boat_close() {
    let mut player = at(DockState::TooFar);
    wire_sensor_events(
        &mut player,
        &vec![CollisionEvent::Started(PLAYER, ISLAND_2)],
        PLAYER,
        &sensors(),
    );
    assert_eq!(player.dock_state, DockState::CloseTo(ISLAND_2));
}

#[test]
fn end_of_contact_takes_the_boat_too_far() {
    for state in [DockState::CloseTo(ISLAND_1), DockState::DockedTo(ISLAND_1), DockState::TooFar] {
        let mut player = at(state);
        wire_sensor_events(
            &mut player,
            &vec![CollisionEvent::Stopped(PLAYER, ISLAND_1)],
            PLAYER,
            &sensors(),
        );
        assert_eq!(player.dock_state, DockState::TooFar);
    }
}

#[test]
fn other_contacts_change_nothing() {
    let events = vec![
        CollisionEvent::Started(PLAYER, ROCK),
        CollisionEvent::Stopped(PLAYER, ROCK),
        CollisionEvent::Started(ROCK, PLAYER),
        CollisionEvent::Stopped(ROCK, PLAYER),
        CollisionEvent::Started(ROCK, ISLAND_1),
        CollisionEvent::Stopped(ISLAND_2, ROCK),
        CollisionEvent::Started(ISLAND_1, ISLAND_2),
        CollisionEvent::Stopped(PLAYER, PLAYER),
    ];
    for state in [DockState::TooFar, DockState::CloseTo(ISLAND_1), DockState::DockedTo(ISLAND_2)] {
        let mut player = at(state);
        wire_sensor_events(&mut player, &events, PLAYER, &sensors());
        assert_eq!(player.dock_state, state);
        wire_sensor_events(&mut player, &Vec::new(), PLAYER, &sensors());
        assert_eq!(player.dock_state, state);
    }
    let mut player = at(DockState::DockedTo(ISLAND_1));
    wire_sensor_events(
        &mut player,
        &vec![CollisionEvent::Stopped(PLAYER, ISLAND_1)],
        PLAYER,
        &Vec::new(),
    );
    assert_eq!(player.dock_state, DockState::DockedTo(ISLAND_1));
}

#[test]
fn contact_counts_in_either_order() {
    let mut player = at(DockState::TooFar);
    wire_sensor_events(
        &mut player,
        &vec![CollisionEvent::Started(ISLAND_1, PLAYER)],
        PLAYER,
        &sensors(),
    );
    assert_eq!(player.dock_state, DockState::CloseTo(ISLAND_1));
    wire_dock_events(&mut player, &along(0));
    assert_eq!(player.dock_state, DockState::DockedTo(ISLAND_1));
    wire_sensor_events(
        &mut player,
        &vec![CollisionEvent::Stopped(ISLAND_1, PLAYER)],
        PLAYER,
        &sensors(),
    );
    assert_eq!(player.dock_state, DockState::TooFar);
}

#[test]
fn collision_events_apply_in_order() {
    let mut player = at(DockState::TooFar);
    wire_sensor_events(
        &mut player,
        &vec![
            CollisionEvent::Started(PLAYER, ISLAND_1),
            CollisionEvent::Stopped(PLAYER, ISLAND_1),
            CollisionEvent::Started(PLAYER, ISLAND_2),
        ],
        PLAYER,
        &sensors(),
    );
    assert_eq!(player.dock_state, DockState::CloseTo(ISLAND_2));
    wire_sensor_events(
        &mut player,
        &vec![CollisionEvent::Started(PLAYER, ISLAND_1), CollisionEvent::Stopped(PLAYER, ISLAND_2)],
        PLAYER,
        &sensors(),
    );
    assert_eq!(player.dock_state, DockState::TooFar);
}

#[test]
fn a_new_contact_replaces_the_dock_target() {
    let mut player = at(DockState::DockedTo(ISLAND_1));
    wire_sensor_events(
        &mut player,
        &vec![CollisionEvent::Started(PLAYER, ISLAND_2)],
        PLAYER,
        &sensors(),
    );
    assert_eq!(player.dock_state, DockState::CloseTo(ISLAND_2));
}

#[test]
fn docking_opens_the_menu_once() {
    assert_eq!(dock_menu(&vec![Dock::Docking], false), vec![MenuCommand::Spawn]);
    assert_eq!(dock_menu(&vec![Dock::Docking], true), Vec::new());
}

#[test]
fn casting_off_closes_an_open_menu() {
    assert_eq!(dock_menu(&vec![Dock::UnDocking], true), vec![MenuCommand::Despawn]);
    assert_eq!(dock_menu(&vec![Dock::UnDocking], false), Vec::new());
}

#[test]
fn menu_commands_follow_the_events_of_the_frame() {
    assert_eq!(dock_menu(&Vec::new(), false), Vec::new());
    assert_eq!(dock_menu(&Vec::new(), true), Vec::new());
    let events = vec![Dock::Docking, Dock::UnDocking, Dock::Docking];
    assert_eq!(dock_menu(&events, false), vec![MenuCommand::Spawn, MenuCommand::Spawn]);
    assert_eq!(dock_menu(&events, true), vec![MenuCommand::Despawn]);
}

#[test]
fn selected_card_is_larger() {
    let card = Card { person_name: "Kari".to_string(), task: "Row".to_string() };
    let plain = card.spawn_node(false);
    assert_eq!((plain.width_percent, plain.height_percent), (40, 80));
    assert_eq!(plain.texts, vec!["Kari".to_string(), "Row".to_string()]);
    let selected = card.spawn_node(true);
    assert_eq!((selected.width_percent, selected.height_percent), (50, 100));
    assert_eq!(selected.texts, vec!["Kari".to_string(), "Row".to_string()]);
}

#[test]
fn default_card_is_blank() {
    let card = Card::default();
    assert_eq!(card.person_name, "");
    assert_eq!(card.task, "");
    assert_eq!(card.spawn_node(false).texts, vec![String::new(), String::new()]);
}

#[test]
fn dock_menu_has_three_cards_with_the_middle_one_selected() {
    let menu = dock_menu_node();
    assert_eq!(
        (menu.width_percent, menu.height_percent, menu.left_percent, menu.top_percent),
        (50, 25, 25, 25)
    );
    assert_eq!(menu.cards.len(), 3);
    let sizes: Vec<(u32, u32)> =
        menu.cards.iter().map(|card| (card.width_percent, card.height_percent)).collect();
    assert_eq!(sizes, vec![(40, 80), (50, 100), (40, 80)]);
    let task = "Do you want to buy 5 bananas?".to_string();
    assert_eq!(menu.cards[0].texts, vec!["Bob Arne".to_string(), task.clone()]);
    assert_eq!(menu.cards[1].texts, vec!["Asbjørn Johann".to_string(), task.clone()]);
    assert_eq!(menu.cards[2].texts, vec!["Bob Arne".to_string(), task]);
}
