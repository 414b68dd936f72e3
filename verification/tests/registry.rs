use miuu_replay::{ReplayError, RewindCurveType};

#[test]
fn from_i32_accepts_the_closed_set() {
    assert_eq!(RewindCurveType::from_i32(-1), Ok(RewindCurveType::Unknown));
    assert_eq!(RewindCurveType::from_i32(0), Ok(RewindCurveType::Float));
    assert_eq!(RewindCurveType::from_i32(1), Ok(RewindCurveType::Int));
    assert_eq!(RewindCurveType::from_i32(2), Ok(RewindCurveType::Bool));
    assert_eq!(RewindCurveType::from_i32(3), Ok(RewindCurveType::Vector2));
    assert_eq!(RewindCurveType::from_i32(4), Ok(RewindCurveType::Vector3));
    assert_eq!(RewindCurveType::from_i32(5), Ok(RewindCurveType::Quaternion));
    assert_eq!(RewindCurveType::from_i32(6), Ok(RewindCurveType::UShort));
    assert_eq!(RewindCurveType::from_i32(7), Ok(RewindCurveType::UInt32));
    assert_eq!(RewindCurveType::from_i32(8), Ok(RewindCurveType::UInt32Array));
    assert_eq!(RewindCurveType::from_i32(9), Ok(RewindCurveType::Int32Array));
}

#[test]
fn from_i32_rejects_everything_else() {
    assert_eq!(RewindCurveType::from_i32(10), Err(ReplayError::UnknownCurveType));
    assert_eq!(RewindCurveType::from_i32(-2), Err(ReplayError::UnknownCurveType));
    assert_eq!(RewindCurveType::from_i32(i32::MAX), Err(ReplayError::UnknownCurveType));
    assert_eq!(RewindCurveType::from_i32(i32::MIN), Err(ReplayError::UnknownCurveType));
}

#[test]
fn byte_widths_are_consistent() {
    let float = RewindCurveType::Float.size().unwrap();
    assert_eq!(float, 4);
    assert_eq!(RewindCurveType::Int.size(), Some(4));
    assert_eq!(RewindCurveType::Bool.size(), Some(1));
    assert_eq!(RewindCurveType::UShort.size(), Some(2));
    assert_eq!(RewindCurveType::UInt32.size(), Some(4));
    assert_eq!(RewindCurveType::Vector2.size(), Some(2 * float));
    assert_eq!(RewindCurveType::Vector3.size(), Some(3 * float));
    assert_eq!(RewindCurveType::Quaternion.size(), Some(4 * float));
    // array tags and the unknown tag expose no direct byte width
    assert_eq!(RewindCurveType::UInt32Array.size(), None);
    assert_eq!(RewindCurveType::Int32Array.size(), None);
    assert_eq!(RewindCurveType::Unknown.size(), None);
}

#[test]
fn element_tags_for_array_tags() {
    assert_eq!(
        RewindCurveType::UInt32Array.get_curve_type_for_array_type(),
        Ok(RewindCurveType::UInt32)
    );
    assert_eq!(
        RewindCurveType::Int32Array.get_curve_type_for_array_type(),
        Ok(RewindCurveType::Int)
    );
    assert_eq!(
        RewindCurveType::Float.get_curve_type_for_array_type(),
        Err(ReplayError::NotAnArrayType)
    );
    assert_eq!(
        RewindCurveType::Unknown.get_curve_type_for_array_type(),
        Err(ReplayError::NotAnArrayType)
    );
}
