use vstd::prelude::*;
use crate::error::ReplayError;
use crate::quaternion::Quaternion;
use crate::rewind_curve::IRewindCurveV;
use crate::rewind_curve_fitter::{RewindCurveFitter, RewindCurveFitterArray};
use crate::rewind_curve_type::RewindCurveType;
use crate::rewindable::{spec_first_field_named, Rewindable, RewindableV};
use crate::vector3::Vector3;

verus! {

/// The player-controlled marble object, extracted from a decoded replay
/// buffer by its type name.
#[derive(Debug, Clone, PartialEq)]
pub struct Marble {
    pub inner: Rewindable,
}

impl View for Marble {
    type V = RewindableV;

    open spec fn view(&self) -> RewindableV {
        self.inner@
    }
}

/// One powerup object, extracted from a decoded replay buffer by its type
/// name.
#[derive(Debug, Clone, PartialEq)]
pub struct Powerup {
    pub inner: Rewindable,
}

impl View for Powerup {
    type V = RewindableV;

    open spec fn view(&self) -> RewindableV {
        self.inner@
    }
}

/// One bumper object, extracted from a decoded replay buffer by its type
/// name.
#[derive(Debug, Clone, PartialEq)]
pub struct Bumper {
    pub inner: Rewindable,
}

impl View for Bumper {
    type V = RewindableV;

    open spec fn view(&self) -> RewindableV {
        self.inner@
    }
}

/// One elevator mover object, extracted from a decoded replay buffer by its
/// type name.
#[derive(Debug, Clone, PartialEq)]
pub struct Elevator {
    pub inner: Rewindable,
}

impl View for Elevator {
    type V = RewindableV;

    open spec fn view(&self) -> RewindableV {
        self.inner@
    }
}

impl Marble {
    /// The `StartingRemainingTicks` field, narrowed to its recorded case.
    pub fn starting_remaining_ticks(&self) -> (r: Result<&RewindCurveFitter<i32>, ReplayError>)
        ensures
            ({
                let idx = spec_first_field_named(self@.data, "StartingRemainingTicks"@);
                match r {
                    Ok(f) => idx >= 0 && self@.data[idx].curve == IRewindCurveV::Int(f@),
                    Err(e) => if idx == -1 {
                        e matches ReplayError::MissingField(s) && s@ == "StartingRemainingTicks"@
                    } else {
                        self@.data[idx].curve.tag() != RewindCurveType::Int && e == (
                        ReplayError::MismatchedCurveTypes {
                            expected: RewindCurveType::Int,
                            found: self@.data[idx].curve.tag(),
                        })
                    },
                }
            }),
    {
        let field = self.inner.field_by_name("StartingRemainingTicks")?;
        field.curve.as_int()
    }

    /// The `Mode` field, narrowed to its recorded case.
    pub fn mode(&self) -> (r: Result<&RewindCurveFitter<i32>, ReplayError>)
        ensures
            ({
                let idx = spec_first_field_named(self@.data, "Mode"@);
                match r {
                    Ok(f) => idx >= 0 && self@.data[idx].curve == IRewindCurveV::Int(f@),
                    Err(e) => if idx == -1 {
                        e matches ReplayError::MissingField(s) && s@ == "Mode"@
                    } else {
                        self@.data[idx].curve.tag() != RewindCurveType::Int && e == (
                        ReplayError::MismatchedCurveTypes {
                            expected: RewindCurveType::Int,
                            found: self@.data[idx].curve.tag(),
                        })
                    },
                }
            }),
    {
        let field = self.inner.field_by_name("Mode")?;
        field.curve.as_int()
    }

    /// The `InvokableEffectId` field, narrowed to its recorded case.
    pub fn invokable_effect_id(&self) -> (r: Result<&RewindCurveFitter<u16>, ReplayError>)
        ensures
            ({
                let idx = spec_first_field_named(self@.data, "InvokableEffectId"@);
                match r {
                    Ok(f) => idx >= 0 && self@.data[idx].curve == IRewindCurveV::UShort(f@),
                    Err(e) => if idx == -1 {
                        e matches ReplayError::MissingField(s) && s@ == "InvokableEffectId"@
                    } else {
                        self@.data[idx].curve.tag() != RewindCurveType::UShort && e == (
                        ReplayError::MismatchedCurveTypes {
                            expected: RewindCurveType::UShort,
                            found: self@.data[idx].curve.tag(),
                        })
                    },
                }
            }),
    {
        let field = self.inner.field_by_name("InvokableEffectId")?;
        field.curve.as_ushort()
    }

    /// The `InvokableSourceId` field, narrowed to its recorded case.
    pub fn invokable_source_id(&self) -> (r: Result<&RewindCurveFitter<u16>, ReplayError>)
        ensures
            ({
                let idx = spec_first_field_named(self@.data, "InvokableSourceId"@);
                match r {
                    Ok(f) => idx >= 0 && self@.data[idx].curve == IRewindCurveV::UShort(f@),
                    Err(e) => if idx == -1 {
                        e matches ReplayError::MissingField(s) && s@ == "InvokableSourceId"@
                    } else {
                        self@.data[idx].curve.tag() != RewindCurveType::UShort && e == (
                        ReplayError::MismatchedCurveTypes {
                            expected: RewindCurveType::UShort,
                            found: self@.data[idx].curve.tag(),
                        })
                    },
                }
            }),
    {
        let field = self.inner.field_by_name("InvokableSourceId")?;
        field.curve.as_ushort()
    }

    /// The `EffectState` field, narrowed to its recorded case.
    pub fn effect_state(&self) -> (r: Result<&RewindCurveFitterArray<u32>, ReplayError>)
        ensures
            ({
                let idx = spec_first_field_named(self@.data, "EffectState"@);
                match r {
                    Ok(f) => idx >= 0 && self@.data[idx].curve == IRewindCurveV::UInt32Array(f@),
                    Err(e) => if idx == -1 {
                        e matches ReplayError::MissingField(s) && s@ == "EffectState"@
                    } else {
                        self@.data[idx].curve.tag() != RewindCurveType::UInt32Array && e == (
                        ReplayError::MismatchedCurveTypes {
                            expected: RewindCurveType::UInt32Array,
                            found: self@.data[idx].curve.tag(),
                        })
                    },
                }
            }),
    {
        let field = self.inner.field_by_name("EffectState")?;
        field.curve.as_uint32_array()
    }

    /// The `EffectTicks` field, narrowed to its recorded case.
    pub fn effect_ticks(&self) -> (r: Result<&RewindCurveFitterArray<i32>, ReplayError>)
        ensures
            ({
                let idx = spec_first_field_named(self@.data, "EffectTicks"@);
                match r {
                    Ok(f) => idx >= 0 && self@.data[idx].curve == IRewindCurveV::Int32Array(f@),
                    Err(e) => if idx == -1 {
                        e matches ReplayError::MissingField(s) && s@ == "EffectTicks"@
                    } else {
                        self@.data[idx].curve.tag() != RewindCurveType::Int32Array && e == (
                        ReplayError::MismatchedCurveTypes {
                            expected: RewindCurveType::Int32Array,
                            found: self@.data[idx].curve.tag(),
                        })
                    },
                }
            }),
    {
        let field = self.inner.field_by_name("EffectTicks")?;
        field.curve.as_int32_array()
    }

    /// The `qW` field, narrowed to its recorded case.
    pub fn qw(&self) -> (r: Result<&RewindCurveFitter<Quaternion>, ReplayError>)
        ensures
            ({
                let idx = spec_first_field_named(self@.data, "qW"@);
                match r {
                    Ok(f) => idx >= 0 && self@.data[idx].curve == IRewindCurveV::Quaternion(f@),
                    Err(e) => if idx == -1 {
                        e matches ReplayError::MissingField(s) && s@ == "qW"@
                    } else {
                        self@.data[idx].curve.tag() != RewindCurveType::Quaternion && e == (
                        ReplayError::MismatchedCurveTypes {
                            expected: RewindCurveType::Quaternion,
                            found: self@.data[idx].curve.tag(),
                        })
                    },
                }
            }),
    {
        let field = self.inner.field_by_name("qW")?;
        field.curve.as_quaternion()
    }

    /// The `GravityQuat` field, narrowed to its recorded case.
    pub fn gravity_quat(&self) -> (r: Result<&RewindCurveFitter<Quaternion>, ReplayError>)
        ensures
            ({
                let idx = spec_first_field_named(self@.data, "GravityQuat"@);
                match r {
                    Ok(f) => idx >= 0 && self@.data[idx].curve == IRewindCurveV::Quaternion(f@),
                    Err(e) => if idx == -1 {
                        e matches ReplayError::MissingField(s) && s@ == "GravityQuat"@
                    } else {
                        self@.data[idx].curve.tag() != RewindCurveType::Quaternion && e == (
                        ReplayError::MismatchedCurveTypes {
                            expected: RewindCurveType::Quaternion,
                            found: self@.data[idx].curve.tag(),
                        })
                    },
                }
            }),
    {
        let field = self.inner.field_by_name("GravityQuat")?;
        field.curve.as_quaternion()
    }

    /// The `Position` field, narrowed to its recorded case.
    pub fn position(&self) -> (r: Result<&RewindCurveFitter<Vector3>, ReplayError>)
        ensures
            ({
                let idx = spec_first_field_named(self@.data, "Position"@);
                match r {
                    Ok(f) => idx >= 0 && self@.data[idx].curve == IRewindCurveV::Vector3(f@),
                    Err(e) => if idx == -1 {
                        e matches ReplayError::MissingField(s) && s@ == "Position"@
                    } else {
                        self@.data[idx].curve.tag() != RewindCurveType::Vector3 && e == (
                        ReplayError::MismatchedCurveTypes {
                            expected: RewindCurveType::Vector3,
                            found: self@.data[idx].curve.tag(),
                        })
                    },
                }
            }),
    {
        let field = self.inner.field_by_name("Position")?;
        field.curve.as_vector3()
    }

    /// The `Velocity` field, narrowed to its recorded case.
    pub fn velocity(&self) -> (r: Result<&RewindCurveFitter<Vector3>, ReplayError>)
        ensures
            ({
                let idx = spec_first_field_named(self@.data, "Velocity"@);
                match r {
                    Ok(f) => idx >= 0 && self@.data[idx].curve == IRewindCurveV::Vector3(f@),
                    Err(e) => if idx == -1 {
                        e matches ReplayError::MissingField(s) && s@ == "Velocity"@
                    } else {
                        self@.data[idx].curve.tag() != RewindCurveType::Vector3 && e == (
                        ReplayError::MismatchedCurveTypes {
                            expected: RewindCurveType::Vector3,
                            found: self@.data[idx].curve.tag(),
                        })
                    },
                }
            }),
    {
        let field = self.inner.field_by_name("Velocity")?;
        field.curve.as_vector3()
    }

    /// The `Omega` field, narrowed to its recorded case.
    pub fn omega(&self) -> (r: Result<&RewindCurveFitter<Vector3>, ReplayError>)
        ensures
            ({
                let idx = spec_first_field_named(self@.data, "Omega"@);
                match r {
                    Ok(f) => idx >= 0 && self@.data[idx].curve == IRewindCurveV::Vector3(f@),
                    Err(e) => if idx == -1 {
                        e matches ReplayError::MissingField(s) && s@ == "Omega"@
                    } else {
                        self@.data[idx].curve.tag() != RewindCurveType::Vector3 && e == (
                        ReplayError::MismatchedCurveTypes {
                            expected: RewindCurveType::Vector3,
                            found: self@.data[idx].curve.tag(),
                        })
                    },
                }
            }),
    {
        let field = self.inner.field_by_name("Omega")?;
        field.curve.as_vector3()
    }

    /// The `BonusTime` field, narrowed to its recorded case.
    pub fn bonus_time(&self) -> (r: Result<&RewindCurveFitter<u32>, ReplayError>)
        ensures
            ({
                let idx = spec_first_field_named(self@.data, "BonusTime"@);
                match r {
                    Ok(f) => idx >= 0 && self@.data[idx].curve == IRewindCurveV::Float(f@),
                    Err(e) => if idx == -1 {
                        e matches ReplayError::MissingField(s) && s@ == "BonusTime"@
                    } else {
                        self@.data[idx].curve.tag() != RewindCurveType::Float && e == (
                        ReplayError::MismatchedCurveTypes {
                            expected: RewindCurveType::Float,
                            found: self@.data[idx].curve.tag(),
                        })
                    },
                }
            }),
    {
        let field = self.inner.field_by_name("BonusTime")?;
        field.curve.as_float()
    }

    /// The `TimeSinceContact` field, narrowed to its recorded case.
    pub fn time_since_contact(&self) -> (r: Result<&RewindCurveFitter<u32>, ReplayError>)
        ensures
            ({
                let idx = spec_first_field_named(self@.data, "TimeSinceContact"@);
                match r {
                    Ok(f) => idx >= 0 && self@.data[idx].curve == IRewindCurveV::Float(f@),
                    Err(e) => if idx == -1 {
                        e matches ReplayError::MissingField(s) && s@ == "TimeSinceContact"@
                    } else {
                        self@.data[idx].curve.tag() != RewindCurveType::Float && e == (
                        ReplayError::MismatchedCurveTypes {
                            expected: RewindCurveType::Float,
                            found: self@.data[idx].curve.tag(),
                        })
                    },
                }
            }),
    {
        let field = self.inner.field_by_name("TimeSinceContact")?;
        field.curve.as_float()
    }

    /// The `BestContactNormal` field, narrowed to its recorded case.
    pub fn best_contact_normal(&self) -> (r: Result<&RewindCurveFitter<Vector3>, ReplayError>)
        ensures
            ({
                let idx = spec_first_field_named(self@.data, "BestContactNormal"@);
                match r {
                    Ok(f) => idx >= 0 && self@.data[idx].curve == IRewindCurveV::Vector3(f@),
                    Err(e) => if idx == -1 {
                        e matches ReplayError::MissingField(s) && s@ == "BestContactNormal"@
                    } else {
                        self@.data[idx].curve.tag() != RewindCurveType::Vector3 && e == (
                        ReplayError::MismatchedCurveTypes {
                            expected: RewindCurveType::Vector3,
                            found: self@.data[idx].curve.tag(),
                        })
                    },
                }
            }),
    {
        let field = self.inner.field_by_name("BestContactNormal")?;
        field.curve.as_vector3()
    }

    /// The `BestContactSurfaceVelocity` field, narrowed to its recorded case.
    pub fn best_contact_surface_velocity(&self) -> (r: Result<&RewindCurveFitter<Vector3>, ReplayError>)
        ensures
            ({
                let idx = spec_first_field_named(self@.data, "BestContactSurfaceVelocity"@);
                match r {
                    Ok(f) => idx >= 0 && self@.data[idx].curve == IRewindCurveV::Vector3(f@),
                    Err(e) => if idx == -1 {
                        e matches ReplayError::MissingField(s) && s@ == "BestContactSurfaceVelocity"@
                    } else {
                        self@.data[idx].curve.tag() != RewindCurveType::Vector3 && e == (
                        ReplayError::MismatchedCurveTypes {
                            expected: RewindCurveType::Vector3,
                            found: self@.data[idx].curve.tag(),
                        })
                    },
                }
            }),
    {
        let field = self.inner.field_by_name("BestContactSurfaceVelocity")?;
        field.curve.as_vector3()
    }

    /// The `ElapsedTime` field, narrowed to its recorded case.
    pub fn elapsed_time(&self) -> (r: Result<&RewindCurveFitter<u32>, ReplayError>)
        ensures
            ({
                let idx = spec_first_field_named(self@.data, "ElapsedTime"@);
                match r {
                    Ok(f) => idx >= 0 && self@.data[idx].curve == IRewindCurveV::Float(f@),
                    Err(e) => if idx == -1 {
                        e matches ReplayError::MissingField(s) && s@ == "ElapsedTime"@
                    } else {
                        self@.data[idx].curve.tag() != RewindCurveType::Float && e == (
                        ReplayError::MismatchedCurveTypes {
                            expected: RewindCurveType::Float,
                            found: self@.data[idx].curve.tag(),
                        })
                    },
                }
            }),
    {
        let field = self.inner.field_by_name("ElapsedTime")?;
        field.curve.as_float()
    }

    /// The `CollectedGems` field, narrowed to its recorded case.
    pub fn collected_gems(&self) -> (r: Result<&RewindCurveFitter<u16>, ReplayError>)
        ensures
            ({
                let idx = spec_first_field_named(self@.data, "CollectedGems"@);
                match r {
                    Ok(f) => idx >= 0 && self@.data[idx].curve == IRewindCurveV::UShort(f@),
                    Err(e) => if idx == -1 {
                        e matches ReplayError::MissingField(s) && s@ == "CollectedGems"@
                    } else {
                        self@.data[idx].curve.tag() != RewindCurveType::UShort && e == (
                        ReplayError::MismatchedCurveTypes {
                            expected: RewindCurveType::UShort,
                            found: self@.data[idx].curve.tag(),
                        })
                    },
                }
            }),
    {
        let field = self.inner.field_by_name("CollectedGems")?;
        field.curve.as_ushort()
    }

    /// The `MegaMarbleSizeScale` field, narrowed to its recorded case.
    pub fn mega_marble_size_scale(&self) -> (r: Result<&RewindCurveFitter<u32>, ReplayError>)
        ensures
            ({
                let idx = spec_first_field_named(self@.data, "MegaMarbleSizeScale"@);
                match r {
                    Ok(f) => idx >= 0 && self@.data[idx].curve == IRewindCurveV::Float(f@),
                    Err(e) => if idx == -1 {
                        e matches ReplayError::MissingField(s) && s@ == "MegaMarbleSizeScale"@
                    } else {
                        self@.data[idx].curve.tag() != RewindCurveType::Float && e == (
                        ReplayError::MismatchedCurveTypes {
                            expected: RewindCurveType::Float,
                            found: self@.data[idx].curve.tag(),
                        })
                    },
                }
            }),
    {
        let field = self.inner.field_by_name("MegaMarbleSizeScale")?;
        field.curve.as_float()
    }

    /// The `DoneFirstBounce` field, narrowed to its recorded case.
    pub fn done_first_bounce(&self) -> (r: Result<&RewindCurveFitter<bool>, ReplayError>)
        ensures
            ({
                let idx = spec_first_field_named(self@.data, "DoneFirstBounce"@);
                match r {
                    Ok(f) => idx >= 0 && self@.data[idx].curve == IRewindCurveV::Bool(f@),
                    Err(e) => if idx == -1 {
                        e matches ReplayError::MissingField(s) && s@ == "DoneFirstBounce"@
                    } else {
                        self@.data[idx].curve.tag() != RewindCurveType::Bool && e == (
                        ReplayError::MismatchedCurveTypes {
                            expected: RewindCurveType::Bool,
                            found: self@.data[idx].curve.tag(),
                        })
                    },
                }
            }),
    {
        let field = self.inner.field_by_name("DoneFirstBounce")?;
        field.curve.as_bool()
    }

    /// The `BlastCooldown` field, narrowed to its recorded case.
    pub fn blast_cooldown(&self) -> (r: Result<&RewindCurveFitter<u32>, ReplayError>)
        ensures
            ({
                let idx = spec_first_field_named(self@.data, "BlastCooldown"@);
                match r {
                    Ok(f) => idx >= 0 && self@.data[idx].curve == IRewindCurveV::Float(f@),
                    Err(e) => if idx == -1 {
                        e matches ReplayError::MissingField(s) && s@ == "BlastCooldown"@
                    } else {
                        self@.data[idx].curve.tag() != RewindCurveType::Float && e == (
                        ReplayError::MismatchedCurveTypes {
                            expected: RewindCurveType::Float,
                            found: self@.data[idx].curve.tag(),
                        })
                    },
                }
            }),
    {
        let field = self.inner.field_by_name("BlastCooldown")?;
        field.curve.as_float()
    }

    /// The `RespawnCounter` field, narrowed to its recorded case.
    pub fn respawn_counter(&self) -> (r: Result<&RewindCurveFitter<i32>, ReplayError>)
        ensures
            ({
                let idx = spec_first_field_named(self@.data, "RespawnCounter"@);
                match r {
                    Ok(f) => idx >= 0 && self@.data[idx].curve == IRewindCurveV::Int(f@),
                    Err(e) => if idx == -1 {
                        e matches ReplayError::MissingField(s) && s@ == "RespawnCounter"@
                    } else {
                        self@.data[idx].curve.tag() != RewindCurveType::Int && e == (
                        ReplayError::MismatchedCurveTypes {
                            expected: RewindCurveType::Int,
                            found: self@.data[idx].curve.tag(),
                        })
                    },
                }
            }),
    {
        let field = self.inner.field_by_name("RespawnCounter")?;
        field.curve.as_int()
    }
}

impl Powerup {
    /// The `AvailableForPickup` field, narrowed to its recorded case.
    pub fn available_for_pickup(&self) -> (r: Result<&RewindCurveFitter<bool>, ReplayError>)
        ensures
            ({
                let idx = spec_first_field_named(self@.data, "AvailableForPickup"@);
                match r {
                    Ok(f) => idx >= 0 && self@.data[idx].curve == IRewindCurveV::Bool(f@),
                    Err(e) => if idx == -1 {
                        e matches ReplayError::MissingField(s) && s@ == "AvailableForPickup"@
                    } else {
                        self@.data[idx].curve.tag() != RewindCurveType::Bool && e == (
                        ReplayError::MismatchedCurveTypes {
                            expected: RewindCurveType::Bool,
                            found: self@.data[idx].curve.tag(),
                        })
                    },
                }
            }),
    {
        let field = self.inner.field_by_name("AvailableForPickup")?;
        field.curve.as_bool()
    }

    /// The `PointValue` field, narrowed to its recorded case.
    pub fn point_value(&self) -> (r: Result<&RewindCurveFitter<u16>, ReplayError>)
        ensures
            ({
                let idx = spec_first_field_named(self@.data, "PointValue"@);
                match r {
                    Ok(f) => idx >= 0 && self@.data[idx].curve == IRewindCurveV::UShort(f@),
                    Err(e) => if idx == -1 {
                        e matches ReplayError::MissingField(s) && s@ == "PointValue"@
                    } else {
                        self@.data[idx].curve.tag() != RewindCurveType::UShort && e == (
                        ReplayError::MismatchedCurveTypes {
                            expected: RewindCurveType::UShort,
                            found: self@.data[idx].curve.tag(),
                        })
                    },
                }
            }),
    {
        let field = self.inner.field_by_name("PointValue")?;
        field.curve.as_ushort()
    }
}

impl Bumper {
    /// The `StrikeTimeLeft` field, narrowed to its recorded case.
    pub fn strike_time_left(&self) -> (r: Result<&RewindCurveFitter<u32>, ReplayError>)
        ensures
            ({
                let idx = spec_first_field_named(self@.data, "StrikeTimeLeft"@);
                match r {
                    Ok(f) => idx >= 0 && self@.data[idx].curve == IRewindCurveV::Float(f@),
                    Err(e) => if idx == -1 {
                        e matches ReplayError::MissingField(s) && s@ == "StrikeTimeLeft"@
                    } else {
                        self@.data[idx].curve.tag() != RewindCurveType::Float && e == (
                        ReplayError::MismatchedCurveTypes {
                            expected: RewindCurveType::Float,
                            found: self@.data[idx].curve.tag(),
                        })
                    },
                }
            }),
    {
        let field = self.inner.field_by_name("StrikeTimeLeft")?;
        field.curve.as_float()
    }
}

impl Elevator {
    /// The `T` field, narrowed to its recorded case.
    pub fn t(&self) -> (r: Result<&RewindCurveFitter<i32>, ReplayError>)
        ensures
            ({
                let idx = spec_first_field_named(self@.data, "T"@);
                match r {
                    Ok(f) => idx >= 0 && self@.data[idx].curve == IRewindCurveV::Int(f@),
                    Err(e) => if idx == -1 {
                        e matches ReplayError::MissingField(s) && s@ == "T"@
                    } else {
                        self@.data[idx].curve.tag() != RewindCurveType::Int && e == (
                        ReplayError::MismatchedCurveTypes {
                            expected: RewindCurveType::Int,
                            found: self@.data[idx].curve.tag(),
                        })
                    },
                }
            }),
    {
        let field = self.inner.field_by_name("T")?;
        field.curve.as_int()
    }

    /// The `Collapsing` field, narrowed to its recorded case.
    pub fn collapsing(&self) -> (r: Result<&RewindCurveFitter<bool>, ReplayError>)
        ensures
            ({
                let idx = spec_first_field_named(self@.data, "Collapsing"@);
                match r {
                    Ok(f) => idx >= 0 && self@.data[idx].curve == IRewindCurveV::Bool(f@),
                    Err(e) => if idx == -1 {
                        e matches ReplayError::MissingField(s) && s@ == "Collapsing"@
                    } else {
                        self@.data[idx].curve.tag() != RewindCurveType::Bool && e == (
                        ReplayError::MismatchedCurveTypes {
                            expected: RewindCurveType::Bool,
                            found: self@.data[idx].curve.tag(),
                        })
                    },
                }
            }),
    {
        let field = self.inner.field_by_name("Collapsing")?;
        field.curve.as_bool()
    }

    /// The `StopTime` field, narrowed to its recorded case.
    pub fn stop_time(&self) -> (r: Result<&RewindCurveFitter<u32>, ReplayError>)
        ensures
            ({
                let idx = spec_first_field_named(self@.data, "StopTime"@);
                match r {
                    Ok(f) => idx >= 0 && self@.data[idx].curve == IRewindCurveV::Float(f@),
                    Err(e) => if idx == -1 {
                        e matches ReplayError::MissingField(s) && s@ == "StopTime"@
                    } else {
                        self@.data[idx].curve.tag() != RewindCurveType::Float && e == (
                        ReplayError::MismatchedCurveTypes {
                            expected: RewindCurveType::Float,
                            found: self@.data[idx].curve.tag(),
                        })
                    },
                }
            }),
    {
        let field = self.inner.field_by_name("StopTime")?;
        field.curve.as_float()
    }

    /// The `EnableBob` field, narrowed to its recorded case.
    pub fn enable_bob(&self) -> (r: Result<&RewindCurveFitter<bool>, ReplayError>)
        ensures
            ({
                let idx = spec_first_field_named(self@.data, "EnableBob"@);
                match r {
                    Ok(f) => idx >= 0 && self@.data[idx].curve == IRewindCurveV::Bool(f@),
                    Err(e) => if idx == -1 {
                        e matches ReplayError::MissingField(s) && s@ == "EnableBob"@
                    } else {
                        self@.data[idx].curve.tag() != RewindCurveType::Bool && e == (
                        ReplayError::MismatchedCurveTypes {
                            expected: RewindCurveType::Bool,
                            found: self@.data[idx].curve.tag(),
                        })
                    },
                }
            }),
    {
        let field = self.inner.field_by_name("EnableBob")?;
        field.curve.as_bool()
    }

    /// The `GlobalTime` field, narrowed to its recorded case.
    pub fn global_time(&self) -> (r: Result<&RewindCurveFitter<i32>, ReplayError>)
        ensures
            ({
                let idx = spec_first_field_named(self@.data, "GlobalTime"@);
                match r {
                    Ok(f) => idx >= 0 && self@.data[idx].curve == IRewindCurveV::Int(f@),
                    Err(e) => if idx == -1 {
                        e matches ReplayError::MissingField(s) && s@ == "GlobalTime"@
                    } else {
                        self@.data[idx].curve.tag() != RewindCurveType::Int && e == (
                        ReplayError::MismatchedCurveTypes {
                            expected: RewindCurveType::Int,
                            found: self@.data[idx].curve.tag(),
                        })
                    },
                }
            }),
    {
        let field = self.inner.field_by_name("GlobalTime")?;
        field.curve.as_int()
    }
}

} // verus!
