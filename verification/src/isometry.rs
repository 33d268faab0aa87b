use vstd::prelude::*;
use crate::scalar::Scalar;
use crate::vec3::Vec3;
use crate::rotation::{Quat, O3DRotation, O3DRotationConstructor, lemma_from_scaled_axis_zero};
use crate::lie::generic_pose_ln;
use crate::pose::{
    O3DPose, O3DPoseType, se3_mul_spec, se3_inverse_spec, se3_interpolate_spec,
};

verus! {

/// The alternate pose representation: a composite rigid transform holding a
/// rotation part and a translation part, with its own native multiply,
/// inverse and interpolation operators. The pose contract is implemented by
/// delegating to those operators; only the distance metric goes through the
/// Lie-algebra kernel's logarithm, since the composite has no intrinsic
/// distance of its own.
#[derive(Clone, Debug)]
pub struct Isometry3<T> {
    rotation: Quat<T>,
    translation: Vec3<T>,
}

impl<T: Scalar> Isometry3<T> {
    /// Assembles the transform from its two parts.
    pub fn from_parts(translation: Vec3<T>, rotation: Quat<T>) -> (r: Self)
        ensures
            r.spec_translation() == translation,
            r.spec_rotation() == rotation,
    {
        Isometry3 { rotation, translation }
    }

    /// The native composition operator: this transform, then `other` in this
    /// transform's frame.
    pub fn compose(&self, other: &Self) -> (r: Self)
        ensures
            (r.spec_rotation(), r.spec_translation()) == se3_mul_spec(
                self.spec_rotation(),
                self.spec_translation(),
                other.spec_rotation(),
                other.spec_translation(),
            ),
    {
        Isometry3 {
            rotation: self.rotation.qmul(&other.rotation),
            translation: self.rotation.rotate(&other.translation).vadd(&self.translation),
        }
    }

    /// The native inverse operator.
    pub fn inverted(&self) -> (r: Self)
        ensures
            (r.spec_rotation(), r.spec_translation()) == se3_inverse_spec(
                self.spec_rotation(),
                self.spec_translation(),
            ),
    {
        let rotation = self.rotation.inverse();
        let translation = rotation.rotate(&self.translation.vneg());
        Isometry3 { rotation, translation }
    }

    /// The native interpolation operator: linear blend of the translation
    /// parts, spherical interpolation of the rotation parts.
    pub fn lerp_slerp(&self, other: &Self, t: T) -> (r: Self)
        ensures
            (r.spec_rotation(), r.spec_translation()) == se3_interpolate_spec(
                self.spec_rotation(),
                self.spec_translation(),
                other.spec_rotation(),
                other.spec_translation(),
                t,
            ),
    {
        Isometry3 {
            rotation: self.rotation.slerp(&other.rotation, t),
            translation: self.translation.scale(T::one().sub(t)).vadd(
                &other.translation.scale(t),
            ),
        }
    }
}

impl<T: Scalar> O3DPose<T> for Isometry3<T> {
    type RotationType = Quat<T>;

    closed spec fn spec_translation(&self) -> Vec3<T> {
        self.translation
    }

    closed spec fn spec_rotation(&self) -> Quat<T> {
        self.rotation
    }

    fn type_identifier() -> (r: O3DPoseType)
        ensures
            r == O3DPoseType::Isometry3,
    {
        O3DPoseType::Isometry3
    }

    fn identity() -> (r: Self) {
        let r = Self::from_translation_and_rotation_constructor(
            &Vec3::zeros(),
            &Vec3::<T>::zeros(),
        );
        proof {
            lemma_from_scaled_axis_zero::<T>();
        }
        r
    }

    fn from_translation_and_rotation<R: O3DRotation<T>>(translation: &Vec3<T>, rotation: &R) -> (r:
        Self) {
        let axis = rotation.scaled_axis_of_rotation();
        Self::from_parts(*translation, Quat::from_scaled_axis(&axis))
    }

    fn from_translation_and_rotation_constructor<
        RC: O3DRotationConstructor<T, Self::RotationType>,
    >(translation: &Vec3<T>, rotation_constructor: &RC) -> (r: Self) {
        Self::from_parts(*translation, rotation_constructor.construct())
    }

    fn translation(&self) -> (r: &Vec3<T>) {
        &self.translation
    }

    fn rotation(&self) -> (r: &Quat<T>) {
        &self.rotation
    }

    fn update_translation(&mut self, translation: &[T]) {
        self.translation = Vec3::new(translation[0], translation[1], translation[2]);
    }

    fn update_rotation_constructor<RC: O3DRotationConstructor<T, Self::RotationType>>(
        &mut self,
        rotation: &RC,
    ) {
        self.rotation = rotation.construct();
    }

    fn update_rotation_native(&mut self, rotation: &Quat<T>) {
        self.rotation = *rotation;
    }

    fn update_rotation_direct<R: O3DRotation<T>>(&mut self, rotation: &R) {
        self.rotation = Quat::from_scaled_axis(&rotation.scaled_axis_of_rotation());
    }

    fn mul(&self, other: &Self) -> (r: Self) {
        self.compose(other)
    }

    fn inverse(&self) -> (r: Self) {
        self.inverted()
    }

    fn displacement(&self, other: &Self) -> (r: Self) {
        self.inverted().compose(other)
    }

    fn dis(&self, other: &Self) -> (r: T) {
        let disp = self.displacement(other);
        generic_pose_ln(&disp.translation, &disp.rotation).norm()
    }

    fn interpolate(&self, to: &Self, t: T) -> (r: Self) {
        self.lerp_slerp(to, t)
    }
}

} // verus!
