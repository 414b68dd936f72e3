use miuu_replay::{decode_replay_buffer, ReplayError, RewindCurveType};

fn put_i32(out: &mut Vec<u8>, v: i32) {
    out.extend_from_slice(&v.to_le_bytes());
}

fn put_f32(out: &mut Vec<u8>, v: f32) {
    out.extend_from_slice(&v.to_le_bytes());
}

fn put_string(out: &mut Vec<u8>, s: &str) {
    put_i32(out, s.len() as i32);
    out.extend_from_slice(s.as_bytes());
}

/// One rewindable around a single field whose fitter bytes are given raw.
fn buffer_with_field(tag: i32, fitter_bytes: &[u8]) -> Vec<u8> {
    let mut inner = Vec::new();
    put_i32(&mut inner, 1);
    put_string(&mut inner, "obj");
    put_string(&mut inner, "Thing");
    for _ in 0..3 {
        put_f32(&mut inner, 0.0);
    }
    put_i32(&mut inner, 1);
    put_i32(&mut inner, 0);
    put_string(&mut inner, "Field");
    put_i32(&mut inner, tag);
    inner.extend_from_slice(fitter_bytes);
    let mut raw = Vec::new();
    put_i32(&mut raw, 7);
    put_i32(&mut raw, 8);
    raw.extend_from_slice(&miniz_oxide::deflate::compress_to_vec(&inner, 6));
    raw
}

/// A scalar fitter: tag, flag, count, flag, times, then raw value bytes.
fn scalar_fitter(tag: i32, times: &[f32], value_bytes: &[u8]) -> Vec<u8> {
    let mut out = Vec::new();
    put_i32(&mut out, tag);
    out.push(1);
    put_i32(&mut out, times.len() as i32);
    out.push(1);
    for t in times {
        put_f32(&mut out, *t);
    }
    out.extend_from_slice(value_bytes);
    out
}

#[test]
fn int_curve_decodes_signed_values() {
    let mut values = Vec::new();
    values.extend_from_slice(&(-7i32).to_le_bytes());
    values.extend_from_slice(&123456i32.to_le_bytes());
    let raw = buffer_with_field(1, &scalar_fitter(1, &[0.0, 1.0], &values));
    let decoded = decode_replay_buffer(&raw).unwrap();
    let field = decoded.rewindables[0].field_by_name("Field").unwrap();
    let fitter = field.curve.as_int().unwrap();
    assert_eq!(*fitter.curve.values.get(0), -7);
    assert_eq!(*fitter.curve.values.get(1), 123456);
}

#[test]
fn bool_curve_decodes_any_nonzero_byte_as_true() {
    let raw = buffer_with_field(2, &scalar_fitter(2, &[0.0, 1.0, 2.0], &[0, 1, 2]));
    let decoded = decode_replay_buffer(&raw).unwrap();
    let field = decoded.rewindables[0].field_by_name("Field").unwrap();
    let fitter = field.curve.as_bool().unwrap();
    assert_eq!(*fitter.curve.values.get(0), false);
    assert_eq!(*fitter.curve.values.get(1), true);
    assert_eq!(*fitter.curve.values.get(2), true);
}

#[test]
fn ushort_and_uint32_curves_decode() {
    let raw = buffer_with_field(6, &scalar_fitter(6, &[0.0], &0xBEEFu16.to_le_bytes()));
    let decoded = decode_replay_buffer(&raw).unwrap();
    let fitter = decoded.rewindables[0].data[0].curve.as_ushort().unwrap();
    assert_eq!(*fitter.curve.values.get(0), 0xBEEF);

    let raw = buffer_with_field(7, &scalar_fitter(7, &[0.0], &0xDEADBEEFu32.to_le_bytes()));
    let decoded = decode_replay_buffer(&raw).unwrap();
    let fitter = decoded.rewindables[0].data[0].curve.as_uint32().unwrap();
    assert_eq!(*fitter.curve.values.get(0), 0xDEADBEEF);
}

#[test]
fn vector_and_quaternion_curves_decode_componentwise() {
    let mut v2 = Vec::new();
    put_f32(&mut v2, 1.0);
    put_f32(&mut v2, 2.0);
    let raw = buffer_with_field(3, &scalar_fitter(3, &[0.0], &v2));
    let decoded = decode_replay_buffer(&raw).unwrap();
    let fitter = decoded.rewindables[0].data[0].curve.as_vector2().unwrap();
    let v = *fitter.curve.values.get(0);
    assert_eq!(v.x, 1.0f32.to_bits());
    assert_eq!(v.y, 2.0f32.to_bits());

    let mut v3 = Vec::new();
    put_f32(&mut v3, 1.0);
    put_f32(&mut v3, 2.0);
    put_f32(&mut v3, 3.0);
    let raw = buffer_with_field(4, &scalar_fitter(4, &[0.0], &v3));
    let decoded = decode_replay_buffer(&raw).unwrap();
    let fitter = decoded.rewindables[0].data[0].curve.as_vector3().unwrap();
    let v = *fitter.curve.values.get(0);
    assert_eq!(v.x, 1.0f32.to_bits());
    assert_eq!(v.y, 2.0f32.to_bits());
    assert_eq!(v.z, 3.0f32.to_bits());

    let mut q = Vec::new();
    put_f32(&mut q, 0.5);
    put_f32(&mut q, -0.5);
    put_f32(&mut q, 0.25);
    put_f32(&mut q, 1.0);
    let raw = buffer_with_field(5, &scalar_fitter(5, &[0.0], &q));
    let decoded = decode_replay_buffer(&raw).unwrap();
    let fitter = decoded.rewindables[0].data[0].curve.as_quaternion().unwrap();
    let v = *fitter.curve.values.get(0);
    assert_eq!(v.x, 0.5f32.to_bits());
    assert_eq!(v.y, (-0.5f32).to_bits());
    assert_eq!(v.z, 0.25f32.to_bits());
    assert_eq!(v.w, 1.0f32.to_bits());
}

#[test]
fn uint32_array_decodes_and_overrides_element_flags() {
    let mut fitter = Vec::new();
    put_i32(&mut fitter, 8); // UInt32Array tag
    fitter.push(1); // array-level flag: true
    put_i32(&mut fitter, 2); // two elements
    for n in [10u32, 20u32] {
        put_i32(&mut fitter, 7); // element tag: UInt32
        fitter.push(0); // element's own flag: false, to be overridden
        put_i32(&mut fitter, 1); // one sample
        fitter.push(0); // curve-level flag
        put_f32(&mut fitter, 0.0);
        fitter.extend_from_slice(&n.to_le_bytes());
    }
    let raw = buffer_with_field(8, &fitter);
    let decoded = decode_replay_buffer(&raw).unwrap();
    let arr = decoded.rewindables[0].data[0].curve.as_uint32_array().unwrap();
    assert_eq!(arr.count, 2);
    assert!(arr.interpolated);
    assert_eq!(arr.curves.len(), 2);
    for (i, expected) in [10u32, 20u32].iter().enumerate() {
        // every element carries the array's flag in place of its own
        assert!(arr.curves[i].interpolated);
        assert_eq!(*arr.curves[i].curve.values.get(0), *expected);
    }
}

#[test]
fn int32_array_element_with_wrong_tag_fails() {
    let mut fitter = Vec::new();
    put_i32(&mut fitter, 9); // Int32Array tag
    fitter.push(1);
    put_i32(&mut fitter, 1); // one element
    put_i32(&mut fitter, 7); // element claims UInt32, but Int is expected
    fitter.push(0);
    put_i32(&mut fitter, 0);
    fitter.push(0);
    let raw = buffer_with_field(9, &fitter);
    assert_eq!(
        decode_replay_buffer(&raw),
        Err(ReplayError::MismatchedCurveTypes {
            expected: RewindCurveType::Int,
            found: RewindCurveType::UInt32,
        })
    );
}

#[test]
fn negative_element_count_fails() {
    let mut fitter = Vec::new();
    put_i32(&mut fitter, 8);
    fitter.push(1);
    put_i32(&mut fitter, -2); // negative element count
    let raw = buffer_with_field(8, &fitter);
    assert_eq!(decode_replay_buffer(&raw), Err(ReplayError::MalformedCount));
}

#[test]
fn unknown_tag_minus_one_is_in_set_but_has_no_payload() {
    // -1 decodes to the Unknown tag, which names no payload
    let raw = buffer_with_field(-1, &[]);
    assert_eq!(decode_replay_buffer(&raw), Err(ReplayError::UnknownCurveType));
}
