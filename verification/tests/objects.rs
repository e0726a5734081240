use twinstick::input::Input;
use twinstick::objects::{Character, GenericObject, StaticObject};
use twinstick::send_structs::{
    SendDynamicObject, SendDynamicObjectUpdate, SendPlayerObjectUpdate, SendStaticObject,
};
use twinstick::vector::Vector3;
use twinstick::{FPS_60, UNIT};

const STEP: i64 = 116_669;

fn character() -> Character {
    Character::new(Vector3::new(0, 10 * UNIT, 0), Vector3::new_same(UNIT))
}

fn wall() -> StaticObject {
    StaticObject::new(
        Vector3::new(5 * UNIT, 0, 0),
        Vector3::new(UNIT, 2 * UNIT, 3 * UNIT),
        "unit_cube".to_string(),
    )
}

#[test]
fn a_new_character_is_at_rest() {
    let c = character();
    assert_eq!(c.position, Vector3::new(0, 10 * UNIT, 0));
    assert_eq!(c.scale, Vector3::new_same(UNIT));
    assert_eq!(c.hitbox_scale, Vector3::new_same(UNIT));
    assert_eq!(c.rotation, 0);
    assert_eq!(c.velocity, Vector3::new_same(0));
    assert_eq!(c.acceleration, Vector3::new_same(0));
    assert_eq!(c.model, "player");
    assert!(c.inputs.is_empty());
    assert!(!c.is_firing);
}

#[test]
fn a_new_static_object_has_the_hitbox_of_its_size() {
    let o = wall();
    assert_eq!(o.position, Vector3::new(5 * UNIT, 0, 0));
    assert_eq!(o.scale, Vector3::new(UNIT, 2 * UNIT, 3 * UNIT));
    assert_eq!(o.hitbox_scale, Vector3::new_same(UNIT));
    assert_eq!(o.model, "unit_cube");
    let o = o.hitbox_scale(Vector3::new(1, 2, 3));
    assert_eq!(o.hitbox_scale, Vector3::new(1, 2, 3));
    assert_eq!(o.position, Vector3::new(5 * UNIT, 0, 0));
    assert_eq!(o.scale, Vector3::new(UNIT, 2 * UNIT, 3 * UNIT));
    assert_eq!(o.model, "unit_cube");
}

#[test]
fn inputs_queue_in_order() {
    let mut c = character();
    c.add_input(Input::W);
    c.add_input(Input::Space);
    c.add_input(Input::A);
    assert_eq!(c.inputs, vec![Input::W, Input::Space, Input::A]);
    assert_eq!(c.position, Vector3::new(0, 10 * UNIT, 0));
}

#[test]
fn each_movement_input_moves_one_step_along_its_axis() {
    for (input, expected) in [
        (Input::W, Vector3::new(0, 10 * UNIT, -STEP)),
        (Input::S, Vector3::new(0, 10 * UNIT, STEP)),
        (Input::A, Vector3::new(STEP, 10 * UNIT, 0)),
        (Input::D, Vector3::new(-STEP, 10 * UNIT, 0)),
        (Input::Space, Vector3::new(0, 10 * UNIT, 0)),
    ] {
        let mut c = character();
        c.add_input(input);
        c.update(FPS_60);
        assert_eq!(c.position, expected);
        assert!(c.inputs.is_empty());
        assert_eq!(c.is_firing, input == Input::Space);
    }
}

#[test]
fn update_uses_up_every_queued_input() {
    let mut c = character();
    for input in [Input::W, Input::W, Input::A, Input::Space, Input::D, Input::D, Input::S] {
        c.add_input(input);
    }
    c.rotation = 30 * UNIT;
    c.update(FPS_60);
    assert_eq!(c.position, Vector3::new(-STEP, 10 * UNIT, -STEP));
    assert!(c.is_firing);
    assert!(c.inputs.is_empty());
    assert_eq!(c.rotation, 30 * UNIT);
    assert_eq!(c.scale, Vector3::new_same(UNIT));

    c.update(FPS_60);
    assert_eq!(c.position, Vector3::new(-STEP, 10 * UNIT, -STEP));
    assert!(!c.is_firing);
}

#[test]
fn step_length_follows_the_time_step() {
    let mut c = character();
    c.add_input(Input::S);
    c.update(UNIT);
    assert_eq!(c.position.z, 7 * UNIT);
    let mut c = character();
    c.add_input(Input::S);
    c.update(0);
    assert_eq!(c.position.z, 0);
    let mut c = character();
    c.add_input(Input::S);
    c.update(-UNIT);
    assert_eq!(c.position.z, -7 * UNIT);
}

#[test]
fn walking_stops_at_the_end_of_the_range() {
    let mut c = character();
    c.position.z = i64::MIN + 5;
    c.position.x = i64::MAX - 5;
    c.add_input(Input::W);
    c.add_input(Input::A);
    c.update(FPS_60);
    assert_eq!(c.position, Vector3::new(i64::MAX, 10 * UNIT, i64::MIN));
}

#[test]
fn drifting_integrates_acceleration_then_velocity() {
    let mut c = character();
    c.velocity = Vector3::new(UNIT, 0, 0);
    c.acceleration = Vector3::new(0, -2 * UNIT, 0);
    c.add_input(Input::W);
    c.physics_update(500_000);
    assert_eq!(c.velocity, Vector3::new(UNIT, -UNIT, 0));
    assert_eq!(c.position, Vector3::new(500_000, 9_500_000, 0));
    assert_eq!(c.acceleration, Vector3::new(0, -2 * UNIT, 0));
    assert_eq!(c.inputs, vec![Input::W]);
}

#[test]
fn a_character_at_rest_does_not_drift() {
    let mut c = character();
    c.physics_update(FPS_60);
    assert_eq!(c, character());
}

#[test]
fn a_clone_of_a_character_is_equal() {
    let mut c = character();
    c.add_input(Input::D);
    c.is_firing = true;
    c.rotation = 5;
    assert_eq!(c.clone(), c);
    assert_eq!(wall().clone(), wall());
    let o = GenericObject::Character(c);
    assert_eq!(o.clone(), o);
    let o = GenericObject::StaticObject(wall());
    assert_eq!(o.clone(), o);
}

#[test]
fn an_object_reports_what_its_variant_holds() {
    let mut c = character();
    c.rotation = 45 * UNIT;
    c.hitbox_scale = Vector3::new(1, 2, 3);
    let o = GenericObject::Character(c);
    assert_eq!(o.position(), Vector3::new(0, 10 * UNIT, 0));
    assert_eq!(o.scale(), Vector3::new_same(UNIT));
    assert_eq!(o.hitbox_scale(), Vector3::new(1, 2, 3));
    assert_eq!(o.rotation(), 45 * UNIT);
    assert_eq!(o.model(), "player");

    let o = GenericObject::StaticObject(wall());
    assert_eq!(o.position(), Vector3::new(5 * UNIT, 0, 0));
    assert_eq!(o.scale(), Vector3::new(UNIT, 2 * UNIT, 3 * UNIT));
    assert_eq!(o.hitbox_scale(), Vector3::new_same(UNIT));
    assert_eq!(o.rotation(), 0);
    assert_eq!(o.model(), "unit_cube");
}

#[test]
fn setters_change_one_thing() {
    let mut o = GenericObject::Character(character());
    o.set_position(Vector3::new(1, 2, 3));
    o.set_rotation(90 * UNIT);
    o.set_firing(true);
    o.add_input(Input::A);
    let mut expected = character();
    expected.position = Vector3::new(1, 2, 3);
    expected.rotation = 90 * UNIT;
    expected.is_firing = true;
    expected.inputs = vec![Input::A];
    assert_eq!(o, GenericObject::Character(expected));
}

#[test]
fn an_obstacle_only_moves_when_it_is_put_somewhere() {
    let mut o = GenericObject::StaticObject(wall());
    o.set_rotation(90 * UNIT);
    o.set_firing(true);
    o.add_input(Input::A);
    o.update(FPS_60);
    o.physics_update(FPS_60);
    assert_eq!(o, GenericObject::StaticObject(wall()));
    o.set_position(Vector3::new(1, 2, 3));
    let mut moved = wall();
    moved.position = Vector3::new(1, 2, 3);
    assert_eq!(o, GenericObject::StaticObject(moved));
}

#[test]
fn an_object_updates_as_its_character_does() {
    let mut o = GenericObject::Character(character());
    o.add_input(Input::S);
    o.add_input(Input::Space);
    o.update(FPS_60);
    let mut expected = character();
    expected.position.z = STEP;
    expected.is_firing = true;
    assert_eq!(o, GenericObject::Character(expected));
}

#[test]
fn snapshots_carry_the_state_of_the_object() {
    let mut c = character();
    c.position = Vector3::new(1, 2, 3);
    c.scale = Vector3::new(4, 5, 6);
    c.hitbox_scale = Vector3::new(7, 8, 9);
    c.rotation = 10;
    c.is_firing = true;
    let dynamic = SendDynamicObject {
        x: 1,
        y: 2,
        z: 3,
        size_x: 4,
        size_y: 5,
        size_z: 6,
        hitbox_x: 7,
        hitbox_y: 8,
        hitbox_z: 9,
        rotation: 10,
        model: "player".to_string(),
    };
    assert_eq!(c.send_dyn_obj(), dynamic);
    assert_eq!(
        c.send_player_update(),
        SendPlayerObjectUpdate { x: 1, y: 2, z: 3, rotation: 10, is_firing: true }
    );
    let o = GenericObject::Character(c);
    assert_eq!(o.send_dyn_obj(), dynamic);
    assert_eq!(
        o.send_player_update(),
        SendPlayerObjectUpdate { x: 1, y: 2, z: 3, rotation: 10, is_firing: true }
    );
    assert_eq!(o.send_dyn_obj_update(), SendDynamicObjectUpdate { x: 1, y: 2, z: 3, rotation: 10 });
    assert_eq!(
        o.send_static_object(),
        SendStaticObject {
            pos: Vector3::new(1, 2, 3),
            size: Vector3::new(4, 5, 6),
            hitbox_scale: Vector3::new(7, 8, 9),
            model: "player".to_string(),
        }
    );
}

#[test]
fn snapshots_of_an_obstacle_show_no_turn_and_no_fire() {
    let o = GenericObject::StaticObject(wall());
    assert_eq!(
        o.send_static_object(),
        SendStaticObject {
            pos: Vector3::new(5 * UNIT, 0, 0),
            size: Vector3::new(UNIT, 2 * UNIT, 3 * UNIT),
            hitbox_scale: Vector3::new_same(UNIT),
            model: "unit_cube".to_string(),
        }
    );
    assert_eq!(o.send_dyn_obj().rotation, 0);
    assert_eq!(o.send_dyn_obj().model, "unit_cube");
    assert_eq!(
        o.send_player_update(),
        SendPlayerObjectUpdate { x: 5 * UNIT, y: 0, z: 0, rotation: 0, is_firing: false }
    );
    assert_eq!(
        o.send_dyn_obj_update(),
        SendDynamicObjectUpdate { x: 5 * UNIT, y: 0, z: 0, rotation: 0 }
    );
    let u = o.send_dyn_obj_update();
    assert_eq!(u.position(), Vector3::new(5 * UNIT, 0, 0));
    assert_eq!(u.rotation(), 0);
}

#[test]
fn a_static_snapshot_round_trips_through_an_object() {
    let snapshot = SendStaticObject {
        pos: Vector3::new(1, 2, 3),
        size: Vector3::new(4, 5, 6),
        hitbox_scale: Vector3::new(7, 8, 9),
        model: "house".to_string(),
    };
    let object = GenericObject::StaticObject(snapshot.to_static_object());
    assert_eq!(object.send_static_object(), snapshot);
    assert_eq!(snapshot.clone(), snapshot);
}
