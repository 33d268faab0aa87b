use vstd::prelude::*;
use crate::scalar::Scalar;
use crate::vec3::Vec3;
use crate::rotation::{Quat, O3DRotation, quat_from_scaled_axis_spec, quat_scaled_axis_spec};
use crate::pose::O3DPose;

verus! {

/// The failure a malformed serialized pose produces: the wire form must hold
/// exactly six elements, and anything else is rejected rather than silently
/// truncated or padded.
#[derive(Clone, Copy, Debug, PartialEq, Eq, Structural)]
pub enum PoseDecodeError {
    WrongElementCount,
}

/// The compact wire form of a pose: exactly six scalars, in fixed order
/// `[tx, ty, tz, rx, ry, rz]`, where `(rx, ry, rz)` is the rotation's
/// scaled-axis vector.
pub open spec fn encode_spec<T: Scalar, P: O3DPose<T>>(p: P) -> Seq<T> {
    let t = p.spec_translation();
    let a = quat_scaled_axis_spec(p.spec_rotation());
    seq![t.x, t.y, t.z, a.x, a.y, a.z]
}

/// The translation a six-element wire form decodes to.
pub open spec fn decoded_translation_spec<T: Scalar>(s: Seq<T>) -> Vec3<T> {
    Vec3 { x: s[0], y: s[1], z: s[2] }
}

/// The rotation a six-element wire form decodes to: the scaled-axis
/// reconstruction from its last three elements.
pub open spec fn decoded_rotation_spec<T: Scalar>(s: Seq<T>) -> Quat<T> {
    quat_from_scaled_axis_spec(Vec3 { x: s[3], y: s[4], z: s[5] })
}

/// Encodes any pose as the fixed 6-element wire form `[tx, ty, tz, rx, ry,
/// rz]`: translation, then the rotation's scaled-axis vector.
///
/// This encoding trades full fidelity for compactness: a rotation survives
/// only up to scaled-axis equivalence, and when the scalar type carries
/// automatic-differentiation data, lowering the six values to the base
/// numeric type at the wire boundary keeps only their constant parts, so
/// derivative information does not survive a round trip.
pub fn o3d_pose_custom_serialize<T: Scalar, P: O3DPose<T>>(value: &P) -> (r: Vec<T>)
    ensures
        r@ == encode_spec::<T, P>(*value),
{
    let translation = value.translation();
    let rotation = value.rotation();
    let axis = rotation.scaled_axis_of_rotation();
    proof {
        rotation.law_scaled_axis_agrees();
    }
    let mut out: Vec<T> = Vec::new();
    out.push(translation.x);
    out.push(translation.y);
    out.push(translation.z);
    out.push(axis.x);
    out.push(axis.y);
    out.push(axis.z);
    proof {
        assert(out@ =~= encode_spec::<T, P>(*value));
    }
    out
}

/// Decodes the fixed 6-element wire form back into a pose: the first three
/// values are the translation, the last three the scaled-axis vector the
/// rotation is rebuilt from. Input of any other length is rejected with
/// [`PoseDecodeError::WrongElementCount`].
pub fn o3d_pose_custom_deserialize<T: Scalar, P: O3DPose<T>>(values: &[T]) -> (r: Result<
    P,
    PoseDecodeError,
>)
    ensures
        values@.len() == 6 ==> (r matches Ok(p) && p.spec_translation() == decoded_translation_spec(
            values@,
        ) && p.spec_rotation() == decoded_rotation_spec(values@)),
        values@.len() != 6 ==> r == Result::<P, PoseDecodeError>::Err(
            PoseDecodeError::WrongElementCount,
        ),
{
    if values.len() != 6 {
        return Err(PoseDecodeError::WrongElementCount);
    }
    let translation = Vec3::new(values[0], values[1], values[2]);
    let axis = Vec3::new(values[3], values[4], values[5]);
    proof {
        P::RotationType::law_from_scaled_axis_agrees(axis);
    }
    Ok(P::from_translation_and_rotation_constructor(&translation, &axis))
}

/// Round trip through the wire form: decoding an encoded pose reproduces the
/// translation exactly, and the rotation as the scaled-axis reconstruction of
/// the original rotation's scaled axis (equivalence up to full-turn
/// wraparound of the axis's magnitude).
pub proof fn lemma_codec_round_trip<T: Scalar, P: O3DPose<T>>(p: P)
    ensures
        encode_spec::<T, P>(p).len() == 6,
        decoded_translation_spec(encode_spec::<T, P>(p)) == p.spec_translation(),
        decoded_rotation_spec(encode_spec::<T, P>(p)) == quat_from_scaled_axis_spec(
            quat_scaled_axis_spec(p.spec_rotation()),
        ),
{
}

} // verus!
