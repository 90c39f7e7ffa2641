//! Distance-to-gain attenuation for spatial emitters.
//!
//! All quantities are fixed-point thousandths: a gain of `1000` is unity,
//! and distances are thousandths of a world unit.  Whatever the model, the
//! gain is `0` at and beyond `max_distance`, and it never increases as the
//! distance grows past `ref_distance`.

use vstd::prelude::*;

use vstd::arithmetic::div_mod::lemma_div_is_ordered;
use vstd::arithmetic::div_mod::lemma_div_is_ordered_by_denominator;
use vstd::arithmetic::div_mod::lemma_div_pos_is_pos;
use vstd::arithmetic::div_mod::lemma_multiply_divide_le;

use crate::components::AttenuationModel;

verus! {

/// The gain, in thousandths, that a source at `distance` receives under
/// `model`.  This is the mathematical definition the executable computation
/// and the laws below are held to.
///
/// - inverse distance: `ref_distance / (ref_distance + max(distance - ref_distance, 0))`
/// - linear: `1 - clamp(distance / max_distance, 0, 1)`
/// - exponential: `clamp((distance / ref_distance)^-2, 0, 1)`
///
/// and `0` at or beyond `max_distance` for every model.
pub open spec fn attenuation_gain(
    model: AttenuationModel,
    distance: int,
    ref_distance: int,
    max_distance: int,
) -> int
    recommends
        1 <= ref_distance,
        0 <= distance,
{
    if distance >= max_distance {
        0
    } else {
        match model {
            AttenuationModel::InverseDistance => {
                let denom = if distance > ref_distance { distance } else { ref_distance };
                1000 * ref_distance / denom
            },
            AttenuationModel::Linear => 1000 - 1000 * distance / max_distance,
            AttenuationModel::Exponential => {
                if distance == 0 {
                    1000
                } else {
                    let g = 1000 * ref_distance * ref_distance / (distance * distance);
                    if g > 1000 {
                        1000
                    } else {
                        g
                    }
                }
            },
        }
    }
}

/// Computes the attenuation gain of [`attenuation_gain`], in thousandths.
pub fn compute_attenuation(
    distance: u32,
    model: AttenuationModel,
    ref_distance: u32,
    max_distance: u32,
) -> (gain: u32)
    requires
        ref_distance >= 1,
    ensures
        gain == attenuation_gain(model, distance as int, ref_distance as int, max_distance as int),
        gain <= 1000,
{
    if distance >= max_distance {
        return 0;
    }

    match model {
        AttenuationModel::InverseDistance => {
            let denom: u64 = if distance > ref_distance { distance as u64 } else { ref_distance as u64 };
            let g: u64 = 1000 * (ref_distance as u64) / denom;
            proof {
                lemma_multiply_divide_le(1000 * (ref_distance as int), denom as int, 1000);
                assert(1000 * (ref_distance as int) <= (denom as int) * 1000) by (nonlinear_arith)
                    requires ref_distance as int <= denom as int;
            }
            g as u32
        },
        AttenuationModel::Linear => {
            let scaled: u64 = 1000 * (distance as u64) / (max_distance as u64);
            proof {
                lemma_multiply_divide_le(1000 * (distance as int), max_distance as int, 1000);
                assert(1000 * (distance as int) <= (max_distance as int) * 1000) by (nonlinear_arith)
                    requires distance as int <= max_distance as int;
            }
            1000 - (scaled as u32)
        },
        AttenuationModel::Exponential => {
            if distance == 0 {
                1000
            } else {
                proof {
                    assert(0 <= 1000 * (ref_distance as int) * (ref_distance as int)
                        <= 1000 * 0x1_0000_0000 * 0x1_0000_0000) by (nonlinear_arith)
                        requires 0 <= ref_distance as int <= 0xFFFF_FFFF;
                    assert(1 <= (distance as int) * (distance as int)
                        <= 0x1_0000_0000 * 0x1_0000_0000) by (nonlinear_arith)
                        requires 1 <= distance as int <= 0xFFFF_FFFF;
                }
                let num: u128 = 1000 * (ref_distance as u128) * (ref_distance as u128);
                let den: u128 = (distance as u128) * (distance as u128);
                let g: u128 = num / den;
                if g > 1000 {
                    1000
                } else {
                    g as u32
                }
            }
        },
    }
}

/// At `max_distance` and beyond, every model yields zero gain.
pub proof fn lemma_attenuation_zero_at_max(
    model: AttenuationModel,
    distance: int,
    ref_distance: int,
    max_distance: int,
)
    requires
        distance >= max_distance,
    ensures
        attenuation_gain(model, distance, ref_distance, max_distance) == 0,
{
}

/// The gain is always between zero and unity.
pub proof fn lemma_attenuation_bounds(
    model: AttenuationModel,
    distance: int,
    ref_distance: int,
    max_distance: int,
)
    requires
        1 <= ref_distance,
        0 <= distance,
    ensures
        0 <= attenuation_gain(model, distance, ref_distance, max_distance) <= 1000,
{
    if distance < max_distance {
        match model {
            AttenuationModel::InverseDistance => {
                let denom = if distance > ref_distance { distance } else { ref_distance };
                lemma_div_pos_is_pos(1000 * ref_distance, denom);
                lemma_multiply_divide_le(1000 * ref_distance, denom, 1000);
                assert(1000 * ref_distance <= denom * 1000) by (nonlinear_arith)
                    requires ref_distance <= denom;
            },
            AttenuationModel::Linear => {
                lemma_div_pos_is_pos(1000 * distance, max_distance);
                lemma_multiply_divide_le(1000 * distance, max_distance, 1000);
                assert(1000 * distance <= max_distance * 1000) by (nonlinear_arith)
                    requires distance <= max_distance;
            },
            AttenuationModel::Exponential => {
                if distance != 0 {
                    assert(distance * distance >= 1) by (nonlinear_arith)
                        requires distance >= 1;
                    lemma_div_pos_is_pos(1000 * ref_distance * ref_distance, distance * distance);
                }
            },
        }
    }
}

/// Past `ref_distance`, the gain never increases with distance, whatever
/// the model.
pub proof fn lemma_attenuation_non_increasing(
    model: AttenuationModel,
    near: int,
    far: int,
    ref_distance: int,
    max_distance: int,
)
    requires
        1 <= ref_distance,
        ref_distance <= near <= far,
    ensures
        attenuation_gain(model, far, ref_distance, max_distance)
            <= attenuation_gain(model, near, ref_distance, max_distance),
{
    lemma_attenuation_bounds(model, near, ref_distance, max_distance);
    lemma_attenuation_bounds(model, far, ref_distance, max_distance);
    if far < max_distance {
        match model {
            AttenuationModel::InverseDistance => {
                let dn = if near > ref_distance { near } else { ref_distance };
                let df = if far > ref_distance { far } else { ref_distance };
                lemma_div_is_ordered_by_denominator(1000 * ref_distance, dn, df);
            },
            AttenuationModel::Linear => {
                lemma_div_is_ordered(1000 * near, 1000 * far, max_distance);
            },
            AttenuationModel::Exponential => {
                assert(1 <= near * near <= far * far) by (nonlinear_arith)
                    requires 1 <= near <= far;
                lemma_div_is_ordered_by_denominator(
                    1000 * ref_distance * ref_distance,
                    near * near,
                    far * far,
                );
            },
        }
    }
}

} // verus!
