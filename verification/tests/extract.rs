use miuu_replay::{decode_replay_buffer, ReplayBuffer, ReplayError};

fn put_i32(out: &mut Vec<u8>, v: i32) {
    out.extend_from_slice(&v.to_le_bytes());
}

fn put_f32(out: &mut Vec<u8>, v: f32) {
    out.extend_from_slice(&v.to_le_bytes());
}

fn put_string(out: &mut Vec<u8>, s: &str) {
    put_i32(out, s.len() as i32);
    out.extend_from_slice(s.as_bytes());
}

fn buffer_of(names: &[(&str, &str)]) -> ReplayBuffer {
    let mut inner = Vec::new();
    put_i32(&mut inner, names.len() as i32);
    for (go, ty) in names {
        put_string(&mut inner, go);
        put_string(&mut inner, ty);
        for _ in 0..3 {
            put_f32(&mut inner, 0.0);
        }
        put_i32(&mut inner, 0); // no fields
    }
    let mut raw = Vec::new();
    put_i32(&mut raw, 1);
    put_i32(&mut raw, 2);
    raw.extend_from_slice(&miniz_oxide::deflate::compress_to_vec(&inner, 6));
    decode_replay_buffer(&raw).unwrap()
}

#[test]
fn get_marble_removes_the_first_match() {
    let mut buffer = buffer_of(&[
        ("a", "Powerup"),
        ("b", "MarbleController"),
        ("c", "MarbleController"),
    ]);
    let marble = buffer.get_marble().unwrap();
    assert_eq!(marble.inner.game_object_name, "b");
    // the first match is gone, the rest keeps its order
    assert_eq!(buffer.rewindables.len(), 2);
    assert_eq!(buffer.rewindables[0].game_object_name, "a");
    assert_eq!(buffer.rewindables[1].game_object_name, "c");
    // the permissive behavior: a second matching entry is still there
    let second = buffer.get_marble().unwrap();
    assert_eq!(second.inner.game_object_name, "c");
}

#[test]
fn get_marble_without_marble_fails() {
    let mut buffer = buffer_of(&[("a", "Powerup"), ("b", "BumperController")]);
    match buffer.get_marble() {
        Err(ReplayError::NoMarbleController) => {},
        other => panic!("expected NoMarbleController, got {:?}", other),
    }
    // nothing was removed
    assert_eq!(buffer.rewindables.len(), 2);
}

#[test]
fn get_powerups_removes_all_matches_in_order() {
    let mut buffer = buffer_of(&[
        ("p1", "Powerup"),
        ("m", "MarbleController"),
        ("p2", "Powerup"),
        ("e", "ElevatorMover"),
    ]);
    let powerups = buffer.get_powerups().unwrap();
    assert_eq!(powerups.len(), 2);
    assert_eq!(powerups[0].inner.game_object_name, "p1");
    assert_eq!(powerups[1].inner.game_object_name, "p2");
    assert_eq!(buffer.rewindables.len(), 2);
    assert_eq!(buffer.rewindables[0].game_object_name, "m");
    assert_eq!(buffer.rewindables[1].game_object_name, "e");
}

#[test]
fn get_powerups_on_empty_is_not_an_error() {
    let mut buffer = buffer_of(&[("m", "MarbleController")]);
    let powerups = buffer.get_powerups().unwrap();
    assert!(powerups.is_empty());
    assert_eq!(buffer.rewindables.len(), 1);
}

#[test]
fn get_bumpers_and_elevators() {
    let mut buffer = buffer_of(&[
        ("b1", "BumperController"),
        ("e1", "ElevatorMover"),
        ("b2", "BumperController"),
    ]);
    let bumpers = buffer.get_bumpers().unwrap();
    assert_eq!(bumpers.len(), 2);
    assert_eq!(bumpers[0].inner.game_object_name, "b1");
    assert_eq!(bumpers[1].inner.game_object_name, "b2");
    let elevators = buffer.get_elevators().unwrap();
    assert_eq!(elevators.len(), 1);
    assert_eq!(elevators[0].inner.game_object_name, "e1");
    assert!(buffer.rewindables.is_empty());
    // the declared count describes the original decode, not the remainder
    assert_eq!(buffer.rewindable_count, 3);
}
