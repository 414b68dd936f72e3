use miuu_replay::{decode_replay_buffer, IRewindCurve, ReplayError};

fn put_i32(out: &mut Vec<u8>, v: i32) {
    out.extend_from_slice(&v.to_le_bytes());
}

fn put_f32(out: &mut Vec<u8>, v: f32) {
    out.extend_from_slice(&v.to_le_bytes());
}

fn put_string(out: &mut Vec<u8>, s: &str) {
    put_i32(out, s.len() as i32);
    out.extend_from_slice(s.as_bytes());
}

/// A float curve body: sample count, curve-level flag, timestamps, values.
fn put_float_curve(out: &mut Vec<u8>, interpolated: bool, samples: &[(f32, f32)]) {
    put_i32(out, samples.len() as i32);
    out.push(interpolated as u8);
    for (t, _) in samples {
        put_f32(out, *t);
    }
    for (_, v) in samples {
        put_f32(out, *v);
    }
}

/// A float fitter: tag, fitter-level flag, curve body.
fn put_float_fitter(out: &mut Vec<u8>, interpolated: bool, samples: &[(f32, f32)]) {
    put_i32(out, 0); // Float tag
    out.push(interpolated as u8);
    put_float_curve(out, interpolated, samples);
}

/// One Float-tagged field of a rewindable.
fn put_float_field(out: &mut Vec<u8>, index: i32, name: &str, samples: &[(f32, f32)]) {
    put_i32(out, index);
    put_string(out, name);
    put_i32(out, 0); // Float tag at the field level
    put_float_fitter(out, true, samples);
}

/// One rewindable with the given type name and Float fields.
fn put_rewindable(out: &mut Vec<u8>, go_name: &str, type_label: &str, fields: &[(&str, f32)]) {
    put_string(out, go_name);
    put_string(out, type_label);
    put_f32(out, 0.0);
    put_f32(out, 0.0);
    put_f32(out, 0.0);
    put_i32(out, fields.len() as i32);
    for (i, (name, v)) in fields.iter().enumerate() {
        put_float_field(out, i as i32, name, &[(0.5, *v)]);
    }
}

/// A whole replay buffer around the given decompressed content.
fn wrap_buffer(session: i32, version: i32, inner: &[u8]) -> Vec<u8> {
    let mut raw = Vec::new();
    put_i32(&mut raw, session);
    put_i32(&mut raw, version);
    raw.extend_from_slice(&miniz_oxide::deflate::compress_to_vec(inner, 6));
    raw
}

/// A buffer holding the given rewindables.
fn buffer_with(rewindables: &[(&str, &str, &[(&str, f32)])]) -> Vec<u8> {
    let mut inner = Vec::new();
    put_i32(&mut inner, rewindables.len() as i32);
    for (go, ty, fields) in rewindables {
        put_rewindable(&mut inner, go, ty, fields);
    }
    wrap_buffer(1, 2, &inner)
}

#[test]
fn empty_buffer_decodes_to_no_rewindables() {
    let mut inner = Vec::new();
    put_i32(&mut inner, 0);
    let raw = wrap_buffer(1, 2, &inner);
    let decoded = decode_replay_buffer(&raw).unwrap();
    assert_eq!(decoded.header.session, 1);
    assert_eq!(decoded.header.version, 2);
    assert_eq!(decoded.rewindable_count, 0);
    assert!(decoded.rewindables.is_empty());
}

#[test]
fn decoding_is_deterministic() {
    let raw = buffer_with(&[
        ("ball", "MarbleController", &[("BonusTime", 1.5), ("ElapsedTime", 7.25)]),
        ("pad", "Powerup", &[("PointValue", 3.0)]),
    ]);
    let first = decode_replay_buffer(&raw).unwrap();
    let second = decode_replay_buffer(&raw).unwrap();
    assert_eq!(first, second);
}

#[test]
fn float_field_round_trips_bit_patterns() {
    let raw = buffer_with(&[("ball", "MarbleController", &[("BonusTime", 1.5)])]);
    let decoded = decode_replay_buffer(&raw).unwrap();
    assert_eq!(decoded.rewindable_count, 1);
    let rw = &decoded.rewindables[0];
    assert_eq!(rw.game_object_name, "ball");
    assert_eq!(rw.type_label, "MarbleController");
    let field = rw.field_by_name("BonusTime").unwrap();
    assert_eq!(field.text, "BonusTime");
    let fitter = field.curve.as_float().unwrap();
    assert!(fitter.interpolated);
    assert_eq!(fitter.curve.times.size(), 1);
    assert_eq!(*fitter.curve.times.get(0), 0.5f32.to_bits());
    assert_eq!(*fitter.curve.values.get(0), 1.5f32.to_bits());
}

#[test]
fn missing_field_and_mismatched_narrowing() {
    let raw = buffer_with(&[("ball", "MarbleController", &[("BonusTime", 1.5)])]);
    let decoded = decode_replay_buffer(&raw).unwrap();
    let rw = &decoded.rewindables[0];
    assert_eq!(
        rw.field_by_name("Nothing"),
        Err(ReplayError::MissingField("Nothing".to_string()))
    );
    let field = rw.field_by_name("BonusTime").unwrap();
    assert_eq!(
        field.curve.as_int(),
        Err(ReplayError::MismatchedCurveTypes {
            expected: miuu_replay::RewindCurveType::Int,
            found: miuu_replay::RewindCurveType::Float,
        })
    );
}

#[test]
fn mismatched_inner_tag_fails() {
    // field level says Float, the fitter's own tag says Int
    let mut inner = Vec::new();
    put_i32(&mut inner, 1);
    put_string(&mut inner, "ball");
    put_string(&mut inner, "MarbleController");
    for _ in 0..3 {
        put_f32(&mut inner, 0.0);
    }
    put_i32(&mut inner, 1); // one field
    put_i32(&mut inner, 0); // field index
    put_string(&mut inner, "BonusTime");
    put_i32(&mut inner, 0); // field-level tag: Float
    put_i32(&mut inner, 1); // fitter-level tag: Int
    inner.push(1);
    put_float_curve(&mut inner, true, &[]);
    let raw = wrap_buffer(1, 2, &inner);
    assert_eq!(
        decode_replay_buffer(&raw),
        Err(ReplayError::MismatchedCurveTypes {
            expected: miuu_replay::RewindCurveType::Float,
            found: miuu_replay::RewindCurveType::Int,
        })
    );
}

#[test]
fn unknown_field_tag_fails() {
    let mut inner = Vec::new();
    put_i32(&mut inner, 1);
    put_string(&mut inner, "ball");
    put_string(&mut inner, "MarbleController");
    for _ in 0..3 {
        put_f32(&mut inner, 0.0);
    }
    put_i32(&mut inner, 1);
    put_i32(&mut inner, 0);
    put_string(&mut inner, "BonusTime");
    put_i32(&mut inner, 42); // outside the closed tag set
    let raw = wrap_buffer(1, 2, &inner);
    assert_eq!(decode_replay_buffer(&raw), Err(ReplayError::UnknownCurveType));
}

#[test]
fn short_sample_series_fails_with_eof() {
    // curve body declares three samples but supplies only two timestamps
    let mut inner = Vec::new();
    put_i32(&mut inner, 1);
    put_string(&mut inner, "ball");
    put_string(&mut inner, "MarbleController");
    for _ in 0..3 {
        put_f32(&mut inner, 0.0);
    }
    put_i32(&mut inner, 1);
    put_i32(&mut inner, 0);
    put_string(&mut inner, "BonusTime");
    put_i32(&mut inner, 0);
    put_i32(&mut inner, 0); // fitter tag Float
    inner.push(1); // fitter flag
    put_i32(&mut inner, 3); // sample_count = 3
    inner.push(1); // curve flag
    put_f32(&mut inner, 0.1);
    put_f32(&mut inner, 0.2); // ... and nothing more
    let raw = wrap_buffer(1, 2, &inner);
    match decode_replay_buffer(&raw) {
        // the offset is where the third timestamp's read would have begun
        Err(ReplayError::UnexpectedEof(off)) => assert_eq!(off, inner.len()),
        other => panic!("expected an eof failure, got {:?}", other),
    }
}

#[test]
fn negative_sample_count_fails() {
    let mut inner = Vec::new();
    put_i32(&mut inner, 1);
    put_string(&mut inner, "ball");
    put_string(&mut inner, "MarbleController");
    for _ in 0..3 {
        put_f32(&mut inner, 0.0);
    }
    put_i32(&mut inner, 1);
    put_i32(&mut inner, 0);
    put_string(&mut inner, "BonusTime");
    put_i32(&mut inner, 0);
    put_i32(&mut inner, 0);
    inner.push(0);
    put_i32(&mut inner, -4); // negative sample count
    inner.push(0);
    let raw = wrap_buffer(1, 2, &inner);
    assert_eq!(decode_replay_buffer(&raw), Err(ReplayError::MalformedCount));
}

#[test]
fn negative_rewindable_count_fails() {
    let mut inner = Vec::new();
    put_i32(&mut inner, -1);
    let raw = wrap_buffer(1, 2, &inner);
    assert_eq!(decode_replay_buffer(&raw), Err(ReplayError::MalformedCount));
}

#[test]
fn bad_boolean_byte_fails() {
    let mut inner = Vec::new();
    put_i32(&mut inner, 1);
    put_string(&mut inner, "ball");
    put_string(&mut inner, "MarbleController");
    for _ in 0..3 {
        put_f32(&mut inner, 0.0);
    }
    put_i32(&mut inner, 1);
    put_i32(&mut inner, 0);
    put_string(&mut inner, "BonusTime");
    put_i32(&mut inner, 0);
    put_i32(&mut inner, 0);
    inner.push(2); // fitter flag byte that is neither 0 nor 1
    let raw = wrap_buffer(1, 2, &inner);
    assert_eq!(decode_replay_buffer(&raw), Err(ReplayError::InvalidBoolEncoding));
}

#[test]
fn empty_payload_fails_decompression() {
    let mut raw = Vec::new();
    put_i32(&mut raw, 1);
    put_i32(&mut raw, 2);
    // no compressed bytes at all: not a well-formed deflate stream
    assert_eq!(decode_replay_buffer(&raw), Err(ReplayError::DecompressionError));
}

#[test]
fn header_truncations_fail_with_eof() {
    assert_eq!(decode_replay_buffer(&[]), Err(ReplayError::UnexpectedEof(0)));
    assert_eq!(decode_replay_buffer(&[1, 0]), Err(ReplayError::UnexpectedEof(0)));
    assert_eq!(decode_replay_buffer(&[1, 0, 0, 0, 2]), Err(ReplayError::UnexpectedEof(4)));
}

#[test]
fn truncations_never_panic_and_never_succeed_beyond_content() {
    let raw = buffer_with(&[("ball", "MarbleController", &[("BonusTime", 1.5)])]);
    for m in 0..raw.len() {
        let truncated = &raw[..m];
        let r = decode_replay_buffer(truncated);
        if m < 8 {
            match r {
                Err(ReplayError::UnexpectedEof(_)) => {},
                other => panic!("expected eof on {} bytes, got {:?}", m, other),
            }
        } else {
            // a shortened deflate stream must not produce a full decode
            assert!(r.is_err(), "truncation to {} bytes decoded successfully", m);
        }
    }
}

#[test]
fn truncated_inner_stream_fails_with_eof() {
    let mut inner = Vec::new();
    put_i32(&mut inner, 2);
    put_rewindable(&mut inner, "ball", "MarbleController", &[("BonusTime", 1.5)]);
    // the second declared rewindable is missing entirely
    let raw = wrap_buffer(1, 2, &inner);
    match decode_replay_buffer(&raw) {
        // the offset is the stream's end, where the next name would begin
        Err(ReplayError::UnexpectedEof(off)) => assert_eq!(off, inner.len()),
        other => panic!("expected an eof failure, got {:?}", other),
    }
}

#[test]
fn trailing_bytes_after_rewindables_are_ignored() {
    let mut inner = Vec::new();
    put_i32(&mut inner, 1);
    put_rewindable(&mut inner, "ball", "MarbleController", &[]);
    inner.extend_from_slice(&[0xAA, 0xBB, 0xCC]);
    let raw = wrap_buffer(1, 2, &inner);
    let decoded = decode_replay_buffer(&raw).unwrap();
    assert_eq!(decoded.rewindable_count, 1);
}

#[test]
fn invalid_utf8_in_a_name_fails() {
    let mut inner = Vec::new();
    put_i32(&mut inner, 1);
    put_i32(&mut inner, 2); // string length 2
    inner.extend_from_slice(&[0xFF, 0xFE]); // not UTF-8
    let raw = wrap_buffer(1, 2, &inner);
    assert_eq!(decode_replay_buffer(&raw), Err(ReplayError::InvalidStringEncoding));
}

#[test]
fn multibyte_utf8_names_decode() {
    let raw = buffer_with(&[("caf\u{e9}", "MarbleController", &[])]);
    let decoded = decode_replay_buffer(&raw).unwrap();
    assert_eq!(decoded.rewindables[0].game_object_name, "caf\u{e9}");
}

#[test]
fn negative_string_length_fails() {
    let mut inner = Vec::new();
    put_i32(&mut inner, 1);
    put_i32(&mut inner, -3); // string length
    let raw = wrap_buffer(1, 2, &inner);
    assert_eq!(decode_replay_buffer(&raw), Err(ReplayError::MalformedCount));
}

#[test]
fn ref_pos_bits_survive_decode() {
    let mut inner = Vec::new();
    put_i32(&mut inner, 1);
    put_string(&mut inner, "ball");
    put_string(&mut inner, "MarbleController");
    put_f32(&mut inner, 1.0);
    put_f32(&mut inner, -2.5);
    put_f32(&mut inner, 0.125);
    put_i32(&mut inner, 0); // no fields
    let raw = wrap_buffer(1, 2, &inner);
    let decoded = decode_replay_buffer(&raw).unwrap();
    let rw = &decoded.rewindables[0];
    assert_eq!(rw.ref_pos.x, 1.0f32.to_bits());
    assert_eq!(rw.ref_pos.y, (-2.5f32).to_bits());
    assert_eq!(rw.ref_pos.z, 0.125f32.to_bits());
}

#[test]
fn field_order_is_stream_order() {
    let raw = buffer_with(&[(
        "ball",
        "MarbleController",
        &[("A", 1.0), ("B", 2.0), ("C", 3.0)],
    )]);
    let decoded = decode_replay_buffer(&raw).unwrap();
    let rw = &decoded.rewindables[0];
    assert_eq!(rw.data.len(), 3);
    assert_eq!(rw.data[0].text, "A");
    assert_eq!(rw.data[1].text, "B");
    assert_eq!(rw.data[2].text, "C");
    assert_eq!(rw.data[0].index, 0);
    assert_eq!(rw.data[2].index, 2);
    for d in &rw.data {
        assert_eq!(d.rewind_type, miuu_replay::RewindCurveType::Float);
        assert!(matches!(d.curve, IRewindCurve::Float(_)));
    }
}
