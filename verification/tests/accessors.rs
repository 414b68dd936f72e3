use miuu_replay::{decode_replay_buffer, ReplayError, RewindCurveType};

fn put_i32(out: &mut Vec<u8>, v: i32) {
    out.extend_from_slice(&v.to_le_bytes());
}

fn put_f32(out: &mut Vec<u8>, v: f32) {
    out.extend_from_slice(&v.to_le_bytes());
}

fn put_string(out: &mut Vec<u8>, s: &str) {
    put_i32(out, s.len() as i32);
    out.extend_from_slice(s.as_bytes());
}

/// A one-sample scalar fitter of the given tag, with raw value bytes.
fn put_scalar_field(out: &mut Vec<u8>, index: i32, name: &str, tag: i32, value_bytes: &[u8]) {
    put_i32(out, index);
    put_string(out, name);
    put_i32(out, tag);
    put_i32(out, tag);
    out.push(1);
    put_i32(out, 1);
    out.push(1);
    put_f32(out, 0.0);
    out.extend_from_slice(value_bytes);
}

fn marble_buffer() -> Vec<u8> {
    let mut inner = Vec::new();
    put_i32(&mut inner, 1);
    put_string(&mut inner, "player");
    put_string(&mut inner, "MarbleController");
    for _ in 0..3 {
        put_f32(&mut inner, 0.0);
    }
    put_i32(&mut inner, 4);
    put_scalar_field(&mut inner, 0, "BonusTime", 0, &2.5f32.to_le_bytes());
    put_scalar_field(&mut inner, 1, "RespawnCounter", 1, &9i32.to_le_bytes());
    put_scalar_field(&mut inner, 2, "DoneFirstBounce", 2, &[1]);
    put_scalar_field(&mut inner, 3, "CollectedGems", 6, &42u16.to_le_bytes());
    let mut raw = Vec::new();
    put_i32(&mut raw, 1);
    put_i32(&mut raw, 2);
    raw.extend_from_slice(&miniz_oxide::deflate::compress_to_vec(&inner, 6));
    raw
}

#[test]
fn marble_typed_accessors_reach_the_decoded_fields() {
    let mut buffer = decode_replay_buffer(&marble_buffer()).unwrap();
    let marble = buffer.get_marble().unwrap();
    assert_eq!(
        *marble.bonus_time().unwrap().curve.values.get(0),
        2.5f32.to_bits()
    );
    assert_eq!(*marble.respawn_counter().unwrap().curve.values.get(0), 9);
    assert_eq!(*marble.done_first_bounce().unwrap().curve.values.get(0), true);
    assert_eq!(*marble.collected_gems().unwrap().curve.values.get(0), 42);
}

#[test]
fn marble_accessor_on_absent_field_fails_missing() {
    let mut buffer = decode_replay_buffer(&marble_buffer()).unwrap();
    let marble = buffer.get_marble().unwrap();
    assert_eq!(
        marble.position(),
        Err(ReplayError::MissingField("Position".to_string()))
    );
}

#[test]
fn mismatched_accessor_expectation_fails() {
    let mut inner = Vec::new();
    put_i32(&mut inner, 1);
    put_string(&mut inner, "pad");
    put_string(&mut inner, "Powerup");
    for _ in 0..3 {
        put_f32(&mut inner, 0.0);
    }
    put_i32(&mut inner, 1);
    // PointValue recorded as Float, though the accessor expects UShort
    put_scalar_field(&mut inner, 0, "PointValue", 0, &1.0f32.to_le_bytes());
    let mut raw = Vec::new();
    put_i32(&mut raw, 1);
    put_i32(&mut raw, 2);
    raw.extend_from_slice(&miniz_oxide::deflate::compress_to_vec(&inner, 6));
    let mut buffer = decode_replay_buffer(&raw).unwrap();
    let powerups = buffer.get_powerups().unwrap();
    assert_eq!(
        powerups[0].point_value(),
        Err(ReplayError::MismatchedCurveTypes {
            expected: RewindCurveType::UShort,
            found: RewindCurveType::Float,
        })
    );
}

#[test]
fn bumper_and_elevator_accessors() {
    let mut inner = Vec::new();
    put_i32(&mut inner, 2);
    put_string(&mut inner, "b");
    put_string(&mut inner, "BumperController");
    for _ in 0..3 {
        put_f32(&mut inner, 0.0);
    }
    put_i32(&mut inner, 1);
    put_scalar_field(&mut inner, 0, "StrikeTimeLeft", 0, &0.75f32.to_le_bytes());
    put_string(&mut inner, "e");
    put_string(&mut inner, "ElevatorMover");
    for _ in 0..3 {
        put_f32(&mut inner, 0.0);
    }
    put_i32(&mut inner, 2);
    put_scalar_field(&mut inner, 0, "T", 1, &5i32.to_le_bytes());
    put_scalar_field(&mut inner, 1, "Collapsing", 2, &[0]);
    let mut raw = Vec::new();
    put_i32(&mut raw, 1);
    put_i32(&mut raw, 2);
    raw.extend_from_slice(&miniz_oxide::deflate::compress_to_vec(&inner, 6));
    let mut buffer = decode_replay_buffer(&raw).unwrap();
    let bumpers = buffer.get_bumpers().unwrap();
    assert_eq!(
        *bumpers[0].strike_time_left().unwrap().curve.values.get(0),
        0.75f32.to_bits()
    );
    let elevators = buffer.get_elevators().unwrap();
    assert_eq!(*elevators[0].t().unwrap().curve.values.get(0), 5);
    assert_eq!(*elevators[0].collapsing().unwrap().curve.values.get(0), false);
}
