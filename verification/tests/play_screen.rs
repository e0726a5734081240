use twinstick::data_type::DataType;
use twinstick::input::Input;
use twinstick::objects::{Character, GenericObject, StaticObject};
use twinstick::play_screen::{Keys, PlayScreen};
use twinstick::send_structs::{SendDynamicObject, SendPlayerObjectUpdate, SendStaticObject};
use twinstick::transport::{Address, Incoming};
use twinstick::vector::Vector3;
use twinstick::{FPS_60, UNIT, VERSION};

fn server() -> Address {
    Address { ip: 0xFFFF_7F00_0001, port: 8008 }
}

fn from_server(message: DataType) -> Incoming {
    Incoming::Datagram(server(), message.serialise())
}

fn snapshot(x: i64, rotation: i64) -> SendDynamicObject {
    SendDynamicObject {
        x,
        y: 10 * UNIT,
        z: 0,
        size_x: 3 * UNIT,
        size_y: 3 * UNIT,
        size_z: 3 * UNIT,
        hitbox_x: UNIT,
        hitbox_y: UNIT,
        hitbox_z: UNIT,
        rotation,
        model: "player".to_string(),
    }
}

fn mirrored(x: i64, rotation: i64) -> Character {
    let mut c = Character::new(Vector3::new(x, 10 * UNIT, 0), Vector3::new_same(UNIT));
    c.rotation = rotation;
    c
}

fn with_players(n: usize) -> PlayScreen {
    let mut screen = PlayScreen::new("127.0.0.1:8008");
    for i in 0..n {
        screen.dispatch(&DataType::AddPlayer(snapshot(10 * UNIT * i as i64, i as i64)));
    }
    screen
}

fn rotations(screen: &PlayScreen) -> Vec<i64> {
    screen.players().iter().map(|p| p.rotation()).collect()
}

const NO_KEYS: Keys = Keys { w: false, s: false, a: false, d: false, space: false };

#[test]
fn a_new_session_is_empty_and_disconnected() {
    let screen = PlayScreen::new("127.0.0.1:8008");
    assert!(screen.players().is_empty());
    assert!(screen.static_objects().is_empty());
    assert_eq!(screen.character_idx(), None);
    assert_eq!(screen.local_player(), None);
    assert!(screen.client().disconnected());
    assert_eq!(screen.client().server(), "127.0.0.1:8008");
    assert_eq!(screen.connect(), Some(DataType::TryConnect(VERSION).serialise()));
    assert_eq!(screen.send_rotation(), None);
}

#[test]
fn removing_an_earlier_slot_shifts_local_control_down() {
    let mut screen = with_players(5);
    screen.dispatch(&DataType::PlayerNum(3));
    screen.dispatch(&DataType::RemovePlayer(2));
    assert_eq!(screen.character_idx(), Some(2));
    assert_eq!(rotations(&screen), vec![0, 1, 3, 4]);
    assert_eq!(screen.local_player(), Some(2));
}

#[test]
fn removing_a_later_slot_leaves_local_control() {
    let mut screen = with_players(5);
    screen.dispatch(&DataType::PlayerNum(2));
    screen.dispatch(&DataType::RemovePlayer(4));
    assert_eq!(screen.character_idx(), Some(2));
    assert_eq!(rotations(&screen), vec![0, 1, 2, 3]);
}

#[test]
fn removing_the_local_slot_clears_local_control() {
    let mut screen = with_players(5);
    screen.dispatch(&DataType::PlayerNum(3));
    screen.dispatch(&DataType::RemovePlayer(3));
    assert_eq!(screen.character_idx(), None);
    assert_eq!(screen.local_player(), None);
    assert_eq!(rotations(&screen), vec![0, 1, 2, 4]);
}

#[test]
fn removing_a_slot_that_the_mirror_lacks_still_shifts_control() {
    let mut screen = with_players(2);
    screen.dispatch(&DataType::PlayerNum(4));
    screen.dispatch(&DataType::RemovePlayer(3));
    assert_eq!(screen.character_idx(), Some(3));
    assert_eq!(rotations(&screen), vec![0, 1]);
    screen.dispatch(&DataType::RemovePlayer(7));
    assert_eq!(screen.character_idx(), Some(3));
    assert_eq!(rotations(&screen), vec![0, 1]);
    screen.remove_player(0);
    assert_eq!(screen.character_idx(), Some(2));
    assert_eq!(rotations(&screen), vec![1]);
}

#[test]
fn removal_without_local_control() {
    let mut screen = with_players(3);
    screen.dispatch(&DataType::RemovePlayer(1));
    assert_eq!(screen.character_idx(), None);
    assert_eq!(rotations(&screen), vec![0, 2]);
}

#[test]
fn the_assigned_slot_is_recorded() {
    let mut screen = with_players(1);
    screen.dispatch(&DataType::PlayerNum(0));
    assert_eq!(screen.character_idx(), Some(0));
    assert_eq!(screen.local_player(), Some(0));
    screen.dispatch(&DataType::PlayerNum(6));
    assert_eq!(screen.character_idx(), Some(6));
    assert_eq!(screen.local_player(), None);
}

#[test]
fn static_objects_are_appended() {
    let mut screen = PlayScreen::new("127.0.0.1:8008");
    let first = SendStaticObject {
        pos: Vector3::new(1, 2, 3),
        size: Vector3::new(4, 5, 6),
        hitbox_scale: Vector3::new(7, 8, 9),
        model: "unit_floor".to_string(),
    };
    let second = SendStaticObject {
        pos: Vector3::new(0, 0, 0),
        size: Vector3::new_same(UNIT),
        hitbox_scale: Vector3::new_same(UNIT),
        model: "unit_cube".to_string(),
    };
    screen.dispatch(&DataType::StaticObject(first.clone()));
    screen.dispatch(&DataType::StaticObject(second.clone()));
    assert_eq!(
        screen.static_objects(),
        &vec![
            GenericObject::StaticObject(
                StaticObject::new(
                    Vector3::new(1, 2, 3),
                    Vector3::new(4, 5, 6),
                    "unit_floor".to_string()
                )
                .hitbox_scale(Vector3::new(7, 8, 9))
            ),
            GenericObject::StaticObject(StaticObject::new(
                Vector3::new(0, 0, 0),
                Vector3::new_same(UNIT),
                "unit_cube".to_string()
            )),
        ]
    );
    assert!(screen.players().is_empty());
}

#[test]
fn a_joining_player_is_appended_at_the_next_slot() {
    let mut screen = PlayScreen::new("127.0.0.1:8008");
    screen.add_player(&snapshot(5, 90 * UNIT));
    screen.dispatch(&DataType::AddPlayer(snapshot(-5, 45 * UNIT)));
    assert_eq!(
        screen.players(),
        &vec![
            GenericObject::Character(mirrored(5, 90 * UNIT)),
            GenericObject::Character(mirrored(-5, 45 * UNIT)),
        ]
    );
}

#[test]
fn a_delta_overwrites_the_transform_of_its_slot() {
    let mut screen = with_players(3);
    let update = SendPlayerObjectUpdate { x: 1, y: 2, z: 3, rotation: 77, is_firing: true };
    screen.dispatch(&DataType::Player(update, 1));
    let mut expected = mirrored(0, 0);
    expected.position = Vector3::new(1, 2, 3);
    expected.rotation = 77;
    expected.is_firing = true;
    assert_eq!(screen.players()[1], GenericObject::Character(expected));
    assert_eq!(screen.players()[0], GenericObject::Character(mirrored(0, 0)));
    assert_eq!(screen.players()[2], GenericObject::Character(mirrored(20 * UNIT, 2)));
}

#[test]
fn the_delta_that_arrives_last_wins() {
    let mut screen = with_players(1);
    let newer = SendPlayerObjectUpdate { x: 9, y: 9, z: 9, rotation: 9, is_firing: false };
    let older = SendPlayerObjectUpdate { x: 1, y: 1, z: 1, rotation: 1, is_firing: true };
    screen.update_player(newer, 0);
    screen.update_player(older, 0);
    assert_eq!(screen.players()[0].send_player_update(), older);
}

#[test]
fn a_delta_for_a_slot_that_the_mirror_lacks_is_dropped() {
    let mut screen = with_players(2);
    let update = SendPlayerObjectUpdate { x: 1, y: 2, z: 3, rotation: 77, is_firing: true };
    screen.dispatch(&DataType::Player(update, 2));
    screen.update_player(update, usize::MAX);
    assert_eq!(
        screen.players(),
        &vec![
            GenericObject::Character(mirrored(0, 0)),
            GenericObject::Character(mirrored(10 * UNIT, 1)),
        ]
    );
}

#[test]
fn other_messages_leave_the_mirror_alone() {
    let mut screen = with_players(2);
    screen.dispatch(&DataType::PlayerNum(1));
    for message in [
        DataType::TryConnect(1),
        DataType::ConfirmConnect(1),
        DataType::Exit,
        DataType::Input(Input::W),
        DataType::PlayerRotation(5, 0),
        DataType::Error("no".to_string()),
    ] {
        screen.dispatch(&message);
    }
    assert_eq!(rotations(&screen), vec![0, 1]);
    assert_eq!(screen.character_idx(), Some(1));
    assert!(screen.static_objects().is_empty());
    assert!(screen.client().disconnected());
}

#[test]
fn reading_applies_messages_and_connects_on_confirmation() {
    let mut screen = PlayScreen::new("127.0.0.1:8008");
    assert_eq!(screen.recieve(&from_server(DataType::AddPlayer(snapshot(0, 0)))), None);
    assert_eq!(screen.recieve(&from_server(DataType::PlayerNum(0))), None);
    assert_eq!(screen.players().len(), 1);
    assert_eq!(screen.character_idx(), Some(0));
    assert!(screen.client().disconnected());
    assert_eq!(screen.recieve(&from_server(DataType::ConfirmConnect(VERSION))), None);
    assert!(!screen.client().disconnected());
    assert_eq!(screen.connect(), None);
    assert_eq!(screen.recieve(&Incoming::WouldBlock), None);
    assert_eq!(screen.recieve(&Incoming::Failed), None);
    assert_eq!(screen.recieve(&Incoming::Datagram(server(), vec![1, 2, 3])), None);
    assert_eq!(screen.players().len(), 1);
    assert!(!screen.client().disconnected());
}

#[test]
fn reading_an_error_reports_it_and_applies_nothing() {
    let mut screen = with_players(2);
    let fatal = screen.recieve(&from_server(DataType::Error("server full".to_string())));
    assert_eq!(fatal, Some("server full".to_string()));
    assert_eq!(rotations(&screen), vec![0, 1]);
}

#[test]
fn the_rotation_of_the_local_player_is_sent() {
    let mut screen = with_players(3);
    assert_eq!(screen.send_rotation(), None);
    screen.dispatch(&DataType::PlayerNum(2));
    assert_eq!(screen.send_rotation(), Some(DataType::PlayerRotation(2, 2).serialise()));
    screen.update_player_rotation(-90 * UNIT);
    assert_eq!(rotations(&screen), vec![0, 1, -90 * UNIT]);
    assert_eq!(screen.send_rotation(), Some(DataType::PlayerRotation(-90 * UNIT, 2).serialise()));
    screen.dispatch(&DataType::PlayerNum(3));
    assert_eq!(screen.send_rotation(), None);
    screen.update_player_rotation(5);
    assert_eq!(rotations(&screen), vec![0, 1, -90 * UNIT]);
}

#[test]
fn keys_become_inputs_for_the_server_and_the_local_player() {
    let mut screen = with_players(2);
    screen.dispatch(&DataType::PlayerNum(1));
    let sent = screen.process_player_input(&Keys { w: true, s: true, a: true, d: true, space: true });
    assert_eq!(
        sent,
        vec![
            DataType::Input(Input::W).serialise(),
            DataType::Input(Input::D).serialise(),
            DataType::Input(Input::Space).serialise(),
        ]
    );
    let mut local = mirrored(10 * UNIT, 1);
    local.inputs = vec![Input::W, Input::D, Input::Space];
    assert_eq!(
        screen.players(),
        &vec![GenericObject::Character(mirrored(0, 0)), GenericObject::Character(local)]
    );
}

#[test]
fn each_key_alone() {
    for (keys, input) in [
        (Keys { w: true, ..NO_KEYS }, Input::W),
        (Keys { s: true, ..NO_KEYS }, Input::S),
        (Keys { a: true, ..NO_KEYS }, Input::A),
        (Keys { d: true, ..NO_KEYS }, Input::D),
        (Keys { space: true, ..NO_KEYS }, Input::Space),
    ] {
        let mut screen = with_players(1);
        screen.dispatch(&DataType::PlayerNum(0));
        assert_eq!(screen.process_player_input(&keys), vec![DataType::Input(input).serialise()]);
        let mut local = mirrored(0, 0);
        local.inputs = vec![input];
        assert_eq!(screen.players(), &vec![GenericObject::Character(local)]);
    }
}

#[test]
fn no_keys_no_inputs() {
    let mut screen = with_players(1);
    screen.dispatch(&DataType::PlayerNum(0));
    assert!(screen.process_player_input(&NO_KEYS).is_empty());
    assert_eq!(screen.players(), &vec![GenericObject::Character(mirrored(0, 0))]);
}

#[test]
fn without_local_control_inputs_are_only_sent() {
    let mut screen = with_players(2);
    let sent = screen.process_player_input(&Keys { s: true, a: true, ..NO_KEYS });
    assert_eq!(
        sent,
        vec![DataType::Input(Input::S).serialise(), DataType::Input(Input::A).serialise()]
    );
    assert_eq!(
        screen.players(),
        &vec![
            GenericObject::Character(mirrored(0, 0)),
            GenericObject::Character(mirrored(10 * UNIT, 1)),
        ]
    );
}

#[test]
fn a_tick_walks_the_local_player_against_the_mirrored_world() {
    let mut screen = with_players(1);
    screen.dispatch(&DataType::PlayerNum(0));
    screen.dispatch(&DataType::StaticObject(SendStaticObject {
        pos: Vector3::new(0, 10 * UNIT, -10 * UNIT),
        size: Vector3::new(10 * UNIT, 10 * UNIT, UNIT / 2),
        hitbox_scale: Vector3::new_same(UNIT),
        model: "unit_cube".to_string(),
    }));
    screen.process_player_input(&Keys { w: true, ..NO_KEYS });
    screen.update(FPS_60);
    assert_eq!(screen.players()[0].position(), Vector3::new(0, 10 * UNIT, -116_669));
    for _ in 0..100 {
        screen.process_player_input(&Keys { w: true, ..NO_KEYS });
        screen.update(FPS_60);
    }
    assert_eq!(screen.players()[0].position(), Vector3::new(0, 10 * UNIT, -8_500_000));
    screen.update(FPS_60);
    assert_eq!(screen.players()[0].position(), Vector3::new(0, 10 * UNIT, -8_500_000));
    assert_eq!(screen.character_idx(), Some(0));
    assert_eq!(screen.static_objects().len(), 1);
}

#[test]
fn the_session_probes_only_while_connected() {
    let mut screen = with_players(2);
    assert_eq!(screen.send(), None);
    screen.recieve(&from_server(DataType::ConfirmConnect(VERSION)));
    assert_eq!(screen.send(), Some(vec![10, 9, 8, 7, 6, 5, 4, 3, 2, 1]));
    screen.sent(true);
    assert!(!screen.client().disconnected());
    screen.sent(false);
    assert!(screen.client().disconnected());
    assert_eq!(screen.send(), None);
    assert_eq!(rotations(&screen), vec![0, 1]);
    assert_eq!(screen.connect(), Some(DataType::TryConnect(VERSION).serialise()));
}

#[test]
fn the_session_says_farewell_once() {
    let mut screen = with_players(2);
    screen.dispatch(&DataType::PlayerNum(1));
    assert_eq!(screen.disconnect(), None);
    screen.recieve(&from_server(DataType::ConfirmConnect(VERSION)));
    assert_eq!(screen.disconnect(), Some(DataType::Exit.serialise()));
    assert_eq!(screen.disconnect(), None);
    assert!(screen.client().disconnected());
    assert_eq!(rotations(&screen), vec![0, 1]);
    assert_eq!(screen.character_idx(), Some(1));
}
