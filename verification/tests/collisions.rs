use twinstick::collisions::{calculate_collisions, hitbox, intersects, resolve, Hitbox};
use twinstick::objects::{Character, GenericObject, StaticObject};
use twinstick::vector::Vector3;
use twinstick::UNIT;

fn player_at(x: i64, y: i64, z: i64) -> GenericObject {
    GenericObject::Character(Character::new(Vector3::new(x, y, z), Vector3::new_same(UNIT)))
}

fn block(x: i64, y: i64, z: i64, sx: i64, sy: i64, sz: i64) -> GenericObject {
    GenericObject::StaticObject(StaticObject::new(
        Vector3::new(x, y, z),
        Vector3::new(sx, sy, sz),
        "unit_cube".to_string(),
    ))
}

fn cube(x: i64, y: i64, z: i64, half: i64) -> Hitbox {
    Hitbox { centre: Vector3::new(x, y, z), half: Vector3::new_same(half) }
}

#[test]
fn hitbox_is_position_and_scale_times_factor() {
    let p = player_at(1, 2, 3);
    assert_eq!(
        hitbox(&p),
        Hitbox { centre: Vector3::new(1, 2, 3), half: Vector3::new_same(UNIT) }
    );
    let o = GenericObject::StaticObject(
        StaticObject::new(
            Vector3::new(0, 0, 0),
            Vector3::new(2 * UNIT, 4 * UNIT, 6 * UNIT),
            "unit_cube".to_string(),
        )
        .hitbox_scale(Vector3::new(500_000, 250_000, 2 * UNIT)),
    );
    assert_eq!(
        hitbox(&o),
        Hitbox { centre: Vector3::new(0, 0, 0), half: Vector3::new(UNIT, UNIT, 12 * UNIT) }
    );
}

#[test]
fn a_negative_size_gives_no_width() {
    let o = block(0, 0, 0, -2 * UNIT, 0, 3 * UNIT);
    assert_eq!(hitbox(&o).half, Vector3::new(0, 0, 3 * UNIT));
}

#[test]
fn overlap_needs_all_three_axes() {
    let a = cube(0, 0, 0, UNIT);
    assert!(intersects(&a, &cube(1_999_999, 0, 0, UNIT)));
    assert!(intersects(&a, &cube(1_999_999, -1_999_999, 1_999_999, UNIT)));
    assert!(!intersects(&a, &cube(2 * UNIT, 0, 0, UNIT)));
    assert!(!intersects(&a, &cube(0, 2 * UNIT, 0, UNIT)));
    assert!(!intersects(&a, &cube(0, 0, -2 * UNIT, UNIT)));
    assert!(!intersects(&a, &cube(5 * UNIT, 0, 0, UNIT)));
    assert!(intersects(&a, &a));
}

#[test]
fn overlap_of_three_tenths_along_x_moves_three_tenths_along_x() {
    let mut players = vec![player_at(0, 0, 0)];
    let walls = vec![block(1_700_000, 0, 0, UNIT, 5 * UNIT, 5 * UNIT)];
    calculate_collisions(&mut players, &walls);
    assert_eq!(players, vec![player_at(-300_000, 0, 0)]);

    let mut players = vec![player_at(0, 0, 0)];
    let walls = vec![block(-1_700_000, 0, 0, UNIT, 5 * UNIT, 5 * UNIT)];
    calculate_collisions(&mut players, &walls);
    assert_eq!(players, vec![player_at(300_000, 0, 0)]);
}

#[test]
fn resolution_moves_along_the_axis_of_least_depth() {
    let a = cube(0, 0, 0, UNIT);
    assert_eq!(resolve(&a, &cube(1_700_000, 100, 100, UNIT)), Vector3::new(-300_000, 0, 0));
    assert_eq!(resolve(&a, &cube(100, 1_700_000, 100, UNIT)), Vector3::new(0, -300_000, 0));
    assert_eq!(resolve(&a, &cube(100, 100, 1_700_000, UNIT)), Vector3::new(0, 0, -300_000));
    assert_eq!(resolve(&a, &cube(100, 100, -1_700_000, UNIT)), Vector3::new(0, 0, 300_000));
}

#[test]
fn ties_go_to_x_then_y() {
    let a = cube(0, 0, 0, UNIT);
    assert_eq!(resolve(&a, &cube(UNIT, UNIT, UNIT, UNIT)), Vector3::new(-UNIT, 0, 0));
    assert_eq!(resolve(&a, &cube(500_000, UNIT, UNIT, UNIT)), Vector3::new(0, -UNIT, 0));
    assert_eq!(resolve(&a, &cube(500_000, 400_000, UNIT, UNIT)), Vector3::new(0, 0, -UNIT));
}

#[test]
fn boxes_with_the_same_centre_part_towards_larger_coordinates() {
    let a = cube(5, 5, 5, UNIT);
    assert_eq!(resolve(&a, &cube(5, 5, 5, UNIT)), Vector3::new(5 + 2 * UNIT, 5, 5));
}

#[test]
fn separated_boxes_stay_where_they_are() {
    let a = cube(0, 0, 0, UNIT);
    assert_eq!(resolve(&a, &cube(2 * UNIT, 0, 0, UNIT)), Vector3::new(0, 0, 0));
    assert_eq!(resolve(&a, &cube(9 * UNIT, 9 * UNIT, 9 * UNIT, UNIT)), Vector3::new(0, 0, 0));
}

#[test]
fn resolution_stops_at_the_end_of_the_range() {
    let a = Hitbox { centre: Vector3::new(i64::MAX, 0, 0), half: Vector3::new_same(UNIT) };
    let b = Hitbox { centre: Vector3::new(i64::MAX - 10, 0, 0), half: Vector3::new_same(UNIT) };
    assert_eq!(resolve(&a, &b), Vector3::new(i64::MAX, 0, 0));
    let huge = Hitbox { centre: Vector3::new(0, 0, 0), half: Vector3::new_same(i64::MAX) };
    assert_eq!(resolve(&huge, &huge), Vector3::new(i64::MAX, 0, 0));
}

#[test]
fn a_second_pass_moves_nothing() {
    let mut players = vec![player_at(0, 0, 0), player_at(50 * UNIT, 0, 0)];
    let walls = vec![
        block(1_700_000, 0, 0, UNIT, 5 * UNIT, 5 * UNIT),
        block(0, -1_900_000, 0, 9 * UNIT, UNIT, 9 * UNIT),
    ];
    calculate_collisions(&mut players, &walls);
    let once = players.clone();
    assert_eq!(once, vec![player_at(-300_000, 100_000, 0), player_at(50 * UNIT, 0, 0)]);
    calculate_collisions(&mut players, &walls);
    assert_eq!(players, once);
    calculate_collisions(&mut players, &walls);
    assert_eq!(players, once);
}

#[test]
fn separated_objects_are_left_alone() {
    let mut players = vec![player_at(0, 0, 0), player_at(2 * UNIT, 0, 0), player_at(0, 0, 5 * UNIT)];
    let walls = vec![block(0, -2 * UNIT, 0, 9 * UNIT, UNIT, 9 * UNIT)];
    let before = players.clone();
    calculate_collisions(&mut players, &walls);
    assert_eq!(players, before);
    calculate_collisions(&mut players, &walls);
    assert_eq!(players, before);
}

#[test]
fn a_player_rests_on_a_floor() {
    let mut players = vec![player_at(0, 500_000, 0)];
    let walls = vec![block(0, -UNIT, 0, 10 * UNIT, UNIT, 10 * UNIT)];
    calculate_collisions(&mut players, &walls);
    assert_eq!(players, vec![player_at(0, UNIT, 0)]);
}

#[test]
fn obstacles_are_taken_in_order() {
    let mut players = vec![player_at(0, 0, 0)];
    let walls = vec![
        block(1_700_000, 0, 0, UNIT, 5 * UNIT, 5 * UNIT),
        block(-2_000_000, 0, 0, UNIT, 5 * UNIT, 5 * UNIT),
    ];
    calculate_collisions(&mut players, &walls);
    assert_eq!(players, vec![player_at(0, 0, 0)]);
}

#[test]
fn a_player_is_pushed_out_of_another_player() {
    let mut players = vec![player_at(0, 0, 0), player_at(1_500_000, 0, 0)];
    calculate_collisions(&mut players, &Vec::new());
    assert_eq!(players, vec![player_at(-500_000, 0, 0), player_at(1_500_000, 0, 0)]);
}

#[test]
fn only_the_position_of_a_player_changes() {
    let mut c = Character::new(Vector3::new(0, 0, 0), Vector3::new_same(UNIT));
    c.rotation = 33;
    c.is_firing = true;
    c.inputs = vec![twinstick::input::Input::W];
    c.velocity = Vector3::new(1, 2, 3);
    let mut expected = c.clone();
    expected.position = Vector3::new(-300_000, 0, 0);
    let mut players = vec![GenericObject::Character(c)];
    let walls = vec![block(1_700_000, 0, 0, UNIT, 5 * UNIT, 5 * UNIT)];
    let walls_before = walls.clone();
    calculate_collisions(&mut players, &walls);
    assert_eq!(players, vec![GenericObject::Character(expected)]);
    assert_eq!(walls, walls_before);
}

#[test]
fn the_hitbox_factor_decides_not_the_drawn_size() {
    let wall = GenericObject::StaticObject(
        StaticObject::new(
            Vector3::new(1_700_000, 0, 0),
            Vector3::new(UNIT, 5 * UNIT, 5 * UNIT),
            "unit_cube".to_string(),
        )
        .hitbox_scale(Vector3::new(500_000, UNIT, UNIT)),
    );
    let mut players = vec![player_at(0, 0, 0)];
    calculate_collisions(&mut players, &vec![wall]);
    assert_eq!(players, vec![player_at(0, 0, 0)]);
}

#[test]
fn no_players_and_no_obstacles() {
    let mut players: Vec<GenericObject> = Vec::new();
    calculate_collisions(&mut players, &vec![block(0, 0, 0, UNIT, UNIT, UNIT)]);
    assert!(players.is_empty());
    let mut players = vec![player_at(0, 0, 0)];
    calculate_collisions(&mut players, &Vec::new());
    assert_eq!(players, vec![player_at(0, 0, 0)]);
}
