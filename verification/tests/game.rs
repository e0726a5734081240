use twinstick::game::{StepClock, TwinstickGame, SECTION_SIZE, SPAWN_HEIGHT};
use twinstick::input::Input;
use twinstick::objects::{Character, GenericObject, StaticObject};
use twinstick::section::{Section, FLOOR_THICKNESS, HALF, WALL_HEIGHT, WALL_THICKNESS};
use twinstick::vector::Vector3;
use twinstick::{FPS_60, UNIT};

fn obstacle(x: i64, y: i64, z: i64, sx: i64, sy: i64, sz: i64, model: &str) -> GenericObject {
    GenericObject::StaticObject(StaticObject::new(
        Vector3::new(x, y, z),
        Vector3::new(sx, sy, sz),
        model.to_string(),
    ))
}

fn spawned() -> GenericObject {
    GenericObject::Character(Character::new(
        Vector3::new(0, 10 * UNIT, 0),
        Vector3::new_same(UNIT),
    ))
}

#[test]
fn constants_of_the_world() {
    assert_eq!(SECTION_SIZE, 20 * UNIT);
    assert_eq!(SPAWN_HEIGHT, 10 * UNIT);
    assert_eq!(HALF, UNIT / 2);
    assert_eq!(WALL_HEIGHT, 10 * UNIT);
    assert_eq!(WALL_THICKNESS, UNIT / 2);
    assert_eq!(FLOOR_THICKNESS, UNIT);
}

#[test]
fn an_empty_section_contributes_nothing() {
    let s = Section::new(3, -4, 20 * UNIT);
    assert_eq!(
        s,
        Section {
            x: 3,
            z: -4,
            size: 20 * UNIT,
            has_floor: false,
            has_left_wall: false,
            has_right_wall: false,
            has_back_wall: false,
            has_front_wall: false,
        }
    );
    assert!(s.static_objects().is_empty());
}

#[test]
fn a_full_section_contributes_floor_and_walls_in_order() {
    let s = Section::new(-2, 1, 20 * UNIT).front_wall().back_wall().right_wall().left_wall().floor();
    let u = UNIT;
    assert_eq!(
        s.static_objects(),
        vec![
            obstacle(-40 * u, 0, 20 * u, 10 * u, u, 10 * u, "unit_floor"),
            obstacle(-30 * u, 10 * u, 20 * u, u / 2, 10 * u, 10 * u, "unit_cube"),
            obstacle(-50 * u, 10 * u, 20 * u, u / 2, 10 * u, 10 * u, "unit_cube"),
            obstacle(-40 * u, 10 * u, 10 * u, 10 * u, 10 * u, u / 2, "unit_cube"),
            obstacle(-40 * u, 10 * u, 30 * u, 10 * u, 10 * u, u / 2, "unit_cube"),
        ]
    );
}

#[test]
fn each_builder_sets_one_part() {
    let s = Section::new(0, 0, UNIT);
    assert_eq!(s.floor(), Section { has_floor: true, ..s });
    assert_eq!(s.left_wall(), Section { has_left_wall: true, ..s });
    assert_eq!(s.right_wall(), Section { has_right_wall: true, ..s });
    assert_eq!(s.back_wall(), Section { has_back_wall: true, ..s });
    assert_eq!(s.front_wall(), Section { has_front_wall: true, ..s });
    assert_eq!(s.floor().static_objects().len(), 1);
    assert_eq!(s.back_wall().front_wall().static_objects().len(), 2);
}

#[test]
fn a_section_far_out_is_clamped() {
    let s = Section::new(i32::MAX, i32::MIN, i64::MAX).floor();
    let objects = s.static_objects();
    assert_eq!(objects.len(), 1);
    assert_eq!(objects[0].position(), Vector3::new(i64::MAX, 0, i64::MIN));
    assert_eq!(objects[0].scale(), Vector3::new(i64::MAX / 2, UNIT, i64::MAX / 2));
}

#[test]
fn a_new_game_has_the_world_and_no_players() {
    let game = TwinstickGame::new();
    assert!(game.players().is_empty());
    let world = game.static_objects();
    assert_eq!(world.len(), 39);
    let u = UNIT;
    assert_eq!(world[0], obstacle(0, 0, 0, 10 * u, u, 10 * u, "unit_floor"));
    assert_eq!(world[1], obstacle(10 * u, 10 * u, 0, u / 2, 10 * u, 10 * u, "unit_cube"));
    assert_eq!(world[2], obstacle(0, 10 * u, -10 * u, 10 * u, 10 * u, u / 2, "unit_cube"));
    assert_eq!(world[3], obstacle(0, 10 * u, 10 * u, 10 * u, 10 * u, u / 2, "unit_cube"));
    assert_eq!(world[4], obstacle(-20 * u, 0, 0, 10 * u, u, 10 * u, "unit_floor"));
    assert_eq!(world[7], obstacle(-40 * u, 0, 0, 10 * u, u, 10 * u, "unit_floor"));
    assert_eq!(world[8], obstacle(-60 * u, 0, 0, 10 * u, u, 10 * u, "unit_floor"));
    assert_eq!(world[9], obstacle(-70 * u, 10 * u, 0, u / 2, 10 * u, 10 * u, "unit_cube"));
    assert_eq!(world[38], obstacle(-60 * u, 10 * u, 90 * u, 10 * u, 10 * u, u / 2, "unit_cube"));
    let floors = world.iter().filter(|o| o.model() == "unit_floor").count();
    assert_eq!(floors, 15);
    assert!(world.iter().all(|o| matches!(o, GenericObject::StaticObject(_))));
}

#[test]
fn players_join_at_the_spawn_point() {
    let mut game = TwinstickGame::new();
    game.add_player();
    game.add_player();
    assert_eq!(game.players(), &vec![spawned(), spawned()]);
    assert_eq!(game.static_objects().len(), 39);
}

#[test]
fn rotation_is_set_by_slot() {
    let mut game = TwinstickGame::new();
    game.add_player();
    game.add_player();
    game.set_player_rotation(1, 90 * UNIT);
    assert_eq!(game.players()[0].rotation(), 0);
    assert_eq!(game.players()[1].rotation(), 90 * UNIT);
    let before = game.players().clone();
    game.set_player_rotation(2, 45 * UNIT);
    game.set_player_rotation(usize::MAX, 45 * UNIT);
    assert_eq!(game.players(), &before);
}

#[test]
fn a_player_is_replaced_by_slot() {
    let mut game = TwinstickGame::new();
    game.add_player();
    game.add_player();
    let newcomer = Character::new(Vector3::new(1, 2, 3), Vector3::new_same(2 * UNIT));
    game.set_player(0, newcomer.clone());
    assert_eq!(game.players(), &vec![GenericObject::Character(newcomer.clone()), spawned()]);
    let before = game.players().clone();
    game.set_player(2, newcomer);
    assert_eq!(game.players(), &before);
}

#[test]
fn inputs_are_queued_by_slot() {
    let mut game = TwinstickGame::new();
    game.add_player();
    game.add_player();
    game.add_input(1, Input::W);
    game.add_input(1, Input::Space);
    game.add_input(2, Input::A);
    let mut second = Character::new(Vector3::new(0, 10 * UNIT, 0), Vector3::new_same(UNIT));
    second.inputs = vec![Input::W, Input::Space];
    assert_eq!(game.players(), &vec![spawned(), GenericObject::Character(second)]);
}

#[test]
fn removal_shifts_later_players_down() {
    let mut game = TwinstickGame::new();
    for rot in 0..5 {
        game.add_player();
        game.set_player_rotation(rot, rot as i64);
    }
    game.remove_player(2);
    let rotations: Vec<i64> = game.players().iter().map(|p| p.rotation()).collect();
    assert_eq!(rotations, vec![0, 1, 3, 4]);
    game.remove_player(3);
    game.remove_player(0);
    let rotations: Vec<i64> = game.players().iter().map(|p| p.rotation()).collect();
    assert_eq!(rotations, vec![1, 3]);
}

#[test]
fn update_walks_and_clears_inputs() {
    let mut game = TwinstickGame::new();
    game.add_player();
    game.add_input(0, Input::W);
    game.add_input(0, Input::D);
    game.add_input(0, Input::Space);
    game.update(FPS_60);
    let mut expected = Character::new(
        Vector3::new(-116_669, 10 * UNIT, -116_669),
        Vector3::new_same(UNIT),
    );
    expected.is_firing = true;
    assert_eq!(game.players(), &vec![GenericObject::Character(expected)]);
}

#[test]
fn a_player_walks_up_to_a_wall_and_no_further() {
    let mut game = TwinstickGame::new();
    game.add_player();
    for _ in 0..72 {
        game.add_input(0, Input::W);
        game.update(FPS_60);
    }
    assert_eq!(game.players()[0].position(), Vector3::new(0, 10 * UNIT, -72 * 116_669));
    for _ in 0..30 {
        game.add_input(0, Input::W);
        game.update(FPS_60);
        assert_eq!(game.players()[0].position(), Vector3::new(0, 10 * UNIT, -8_500_000));
    }
    for _ in 0..3 {
        game.update(FPS_60);
        assert_eq!(game.players()[0].position(), Vector3::new(0, 10 * UNIT, -8_500_000));
    }
}

#[test]
fn players_joining_on_the_same_spot_are_parted() {
    let mut game = TwinstickGame::new();
    game.add_player();
    game.add_player();
    game.update(FPS_60);
    assert_eq!(game.players()[0].position(), Vector3::new(2 * UNIT, 10 * UNIT, 0));
    assert_eq!(game.players()[1].position(), Vector3::new(0, 10 * UNIT, 0));
    let before = game.players().clone();
    game.update(FPS_60);
    assert_eq!(game.players(), &before);
}

#[test]
fn the_clock_says_when_a_step_is_due() {
    let mut clock = StepClock::new();
    assert!(!clock.advance(10_000));
    assert!(!clock.advance(6_666));
    assert!(clock.advance(1));
    assert!(!clock.advance(16_666));
    assert!(clock.advance(50_000));
    assert!(!clock.advance(0));
    assert!(clock.advance(FPS_60));
    assert!(!clock.advance(-5));
    assert!(!clock.advance(16_671));
    assert!(clock.advance(1));
    assert!(clock.advance(i64::MAX));
}
