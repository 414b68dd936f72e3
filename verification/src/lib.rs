//! Decoder for the replay-buffer format of a marble-rolling game: a header,
//! a raw-deflate-compressed payload, and a type-tag-driven stream of
//! per-object animation curves. Every decode function is specified against
//! a mathematical model of the wire format and proved to meet it; float
//! samples are carried as their IEEE 754 bit patterns, so no float
//! arithmetic happens while decoding.

mod circular_buffer;
mod cursor;
mod error;
mod objects;
mod quaternion;
mod replay;
mod replay_buffer;
mod rewind_curve;
mod rewind_curve_fitter;
mod rewind_curve_type;
mod rewindable;
mod vector2;
mod vector3;
mod wire;

pub use circular_buffer::{
    lemma_ring_buffer_push_order, lemma_ring_fill_in_order, spec_ring_fill, spec_ring_push_back,
    spec_ring_push_front, CircularBuffer,
};
pub use error::ReplayError;
pub use objects::{Bumper, Elevator, Marble, Powerup};
pub use quaternion::Quaternion;
pub use replay::ReplayCosmetics;
pub use replay_buffer::{
    decode_replay_buffer, inflate_of, lemma_decode_deterministic, lemma_short_header_fails,
    lemma_truncation_safety, spec_decode_inner, spec_decode_replay_buffer,
    spec_first_index_named, spec_named, spec_read_rewindables, spec_unnamed, ReplayBuffer,
    ReplayBufferV, ReplayHeader,
};
pub use rewind_curve::{IRewindCurve, IRewindCurveV, RewindCurve, RewindCurveV, spec_read_curve};
pub use rewind_curve_fitter::{
    lemma_fitter_tag_round_trip, spec_read_fitter, spec_read_fitter_array, spec_read_fitter_seq,
    RewindCurveFitter, RewindCurveFitterArray, RewindCurveFitterArrayV, RewindCurveFitterV,
};
pub use rewind_curve_type::{spec_read_variant, RewindCurveType, lemma_width_consistency};
pub use rewindable::{
    spec_first_field_named, spec_read_field, spec_read_field_list, spec_read_fields,
    spec_read_rewindable, Rewindable, RewindableData, RewindableDataV, RewindableV,
};
pub use vector2::Vector2;
pub use vector3::Vector3;
pub use wire::WireElem;
