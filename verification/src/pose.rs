use vstd::prelude::*;
use crate::scalar::Scalar;
use crate::vec3::{Vec3, vec3_zero_spec};
use crate::rotation::{
    Quat, O3DRotation, O3DRotationConstructor, quat_identity_spec, quat_from_scaled_axis_spec,
    quat_slerp_spec, lemma_from_scaled_axis_zero,
};
use crate::lie::{Twist, pose_ln_spec, pose_exp_spec, generic_pose_ln, generic_pose_exp};

verus! {

/// Identifies a concrete pose representation.
#[derive(Clone, Debug, Copy, PartialEq, Eq, Structural)]
pub enum O3DPoseType {
    ImplicitDualQuaternion,
    Isometry3,
}

/// Composition of two poses at the data level: rotations compose by the
/// Hamilton product, and the translation is `q1·t2 + t1` (rotate, then
/// translate).
pub open spec fn se3_mul_spec<T: Scalar>(
    q1: Quat<T>,
    t1: Vec3<T>,
    q2: Quat<T>,
    t2: Vec3<T>,
) -> (Quat<T>, Vec3<T>) {
    (q1.spec_qmul(q2), q1.spec_rotate(t2).spec_vadd(t1))
}

/// Inverse of a pose at the data level: `(q⁻¹, q⁻¹·(−t))`, with the unit
/// quaternion's inverse being its conjugate.
pub open spec fn se3_inverse_spec<T: Scalar>(q: Quat<T>, t: Vec3<T>) -> (Quat<T>, Vec3<T>) {
    let qc = q.spec_conj();
    (qc, qc.spec_rotate(t.spec_vneg()))
}

/// Displacement at the data level: the relative transform
/// `self.inverse().mul(other)` from the first pose to the second.
pub open spec fn se3_displacement_spec<T: Scalar>(
    q1: Quat<T>,
    t1: Vec3<T>,
    q2: Quat<T>,
    t2: Vec3<T>,
) -> (Quat<T>, Vec3<T>) {
    let inv = se3_inverse_spec(q1, t1);
    se3_mul_spec(inv.0, inv.1, q2, t2)
}

/// Distance at the data level: the Euclidean norm of the logarithm of the
/// displacement.
pub open spec fn se3_dis_spec<T: Scalar>(q1: Quat<T>, t1: Vec3<T>, q2: Quat<T>, t2: Vec3<T>) -> T {
    let disp = se3_displacement_spec(q1, t1, q2, t2);
    pose_ln_spec(disp.1, disp.0).spec_norm()
}

/// Interpolation at the data level: spherical interpolation on the rotation,
/// linear blend `(1−t)·t1 + t·t2` on the translation.
pub open spec fn se3_interpolate_spec<T: Scalar>(
    q1: Quat<T>,
    t1: Vec3<T>,
    q2: Quat<T>,
    t2: Vec3<T>,
    t: T,
) -> (Quat<T>, Vec3<T>) {
    (
        quat_slerp_spec(q1, q2, t),
        t1.spec_scale(T::spec_one().spec_sub(t)).spec_vadd(t2.spec_scale(t)),
    )
}

/// The capability contract every concrete SE(3) pose representation
/// satisfies: construction, accessors, in-place updates, composition,
/// inverse, displacement, distance and interpolation.
///
/// Each operation is pinned, through the representation's two data
/// specification functions, to one exact data-level formula. Distinct
/// representations therefore agree on every operation's result at the data
/// level, which is what lets callers switch representations freely.
///
/// No operation here fails: all the arithmetic involved is total.
pub trait O3DPose<T: Scalar>: Sized + Clone {
    /// The concrete rotation type this representation stores.
    type RotationType: O3DRotation<T>;

    /// The pose's translation data.
    spec fn spec_translation(&self) -> Vec3<T>;

    /// The pose's rotation data, read as a unit quaternion.
    spec fn spec_rotation(&self) -> Quat<T>;

    /// Which representation this is.
    fn type_identifier() -> (r: O3DPoseType);

    /// The neutral pose: zero translation, identity rotation.
    fn identity() -> (r: Self)
        ensures
            r.spec_translation() == vec3_zero_spec::<T>(),
            r.spec_rotation() == quat_identity_spec::<T>(),
    ;

    /// A pose with the given translation, and the rotation carried over from
    /// any rotation representation through its scaled-axis form.
    fn from_translation_and_rotation<R: O3DRotation<T>>(translation: &Vec3<T>, rotation: &R) -> (r:
        Self)
        ensures
            r.spec_translation() == *translation,
            r.spec_rotation() == quat_from_scaled_axis_spec(rotation.spec_scaled_axis()),
    ;

    /// A pose with the given translation, and the rotation produced by a
    /// deferred rotation constructor.
    fn from_translation_and_rotation_constructor<RC: O3DRotationConstructor<T, Self::RotationType>>(
        translation: &Vec3<T>,
        rotation_constructor: &RC,
    ) -> (r: Self)
        ensures
            r.spec_translation() == *translation,
            r.spec_rotation() == rotation_constructor.spec_construct().unit_quat_spec(),
    ;

    /// Read-only access to the translation.
    fn translation(&self) -> (r: &Vec3<T>)
        ensures
            *r == self.spec_translation(),
    ;

    /// Read-only access to the rotation.
    fn rotation(&self) -> (r: &Self::RotationType)
        ensures
            r.unit_quat_spec() == self.spec_rotation(),
    ;

    /// Overwrites the translation in place with the three given components.
    fn update_translation(&mut self, translation: &[T])
        requires
            translation@.len() == 3,
        ensures
            final(self).spec_translation() == (Vec3 {
                x: translation@[0],
                y: translation@[1],
                z: translation@[2],
            }),
            final(self).spec_rotation() == old(self).spec_rotation(),
    ;

    /// Overwrites the rotation in place with the one a deferred constructor
    /// produces.
    fn update_rotation_constructor<RC: O3DRotationConstructor<T, Self::RotationType>>(
        &mut self,
        rotation: &RC,
    )
        ensures
            final(self).spec_rotation() == rotation.spec_construct().unit_quat_spec(),
            final(self).spec_translation() == old(self).spec_translation(),
    ;

    /// Overwrites the rotation in place with a value of the representation's
    /// native rotation type.
    fn update_rotation_native(&mut self, rotation: &Self::RotationType)
        ensures
            final(self).spec_rotation() == rotation.unit_quat_spec(),
            final(self).spec_translation() == old(self).spec_translation(),
    ;

    /// Overwrites the rotation in place with a foreign rotation, carried over
    /// through its scaled-axis form.
    fn update_rotation_direct<R: O3DRotation<T>>(&mut self, rotation: &R)
        ensures
            final(self).spec_rotation() == quat_from_scaled_axis_spec(rotation.spec_scaled_axis()),
            final(self).spec_translation() == old(self).spec_translation(),
    ;

    /// Pose composition: this pose's frame, then `other`'s frame.
    fn mul(&self, other: &Self) -> (r: Self)
        ensures
            (r.spec_rotation(), r.spec_translation()) == se3_mul_spec(
                self.spec_rotation(),
                self.spec_translation(),
                other.spec_rotation(),
                other.spec_translation(),
            ),
    ;

    /// The inverse pose.
    fn inverse(&self) -> (r: Self)
        ensures
            (r.spec_rotation(), r.spec_translation()) == se3_inverse_spec(
                self.spec_rotation(),
                self.spec_translation(),
            ),
    ;

    /// The relative transform from this pose to `other`.
    fn displacement(&self, other: &Self) -> (r: Self)
        ensures
            (r.spec_rotation(), r.spec_translation()) == se3_displacement_spec(
                self.spec_rotation(),
                self.spec_translation(),
                other.spec_rotation(),
                other.spec_translation(),
            ),
    ;

    /// The distance between two poses: the norm of the logarithm of their
    /// displacement.
    fn dis(&self, other: &Self) -> (r: T)
        ensures
            r == se3_dis_spec(
                self.spec_rotation(),
                self.spec_translation(),
                other.spec_rotation(),
                other.spec_translation(),
            ),
    ;

    /// The pose at interpolation parameter `t` between this pose (`t = 0`)
    /// and `to` (`t = 1`).
    fn interpolate(&self, to: &Self, t: T) -> (r: Self)
        ensures
            (r.spec_rotation(), r.spec_translation()) == se3_interpolate_spec(
                self.spec_rotation(),
                self.spec_translation(),
                to.spec_rotation(),
                to.spec_translation(),
                t,
            ),
    ;
}

/// A pose representation that exposes the Lie-algebra logarithm and
/// exponential maps as public operations.
pub trait O3DLieAlgebraPose<T: Scalar>: O3DPose<T> {
    /// The type the logarithm is returned in.
    type LnVecType;

    /// The reading of a logarithm vector as a twist.
    spec fn spec_twist_of(v: &Self::LnVecType) -> Twist<T>;

    /// The SE(3) logarithm of this pose.
    fn ln(&self) -> (r: Self::LnVecType)
        ensures
            Self::spec_twist_of(&r) == pose_ln_spec(self.spec_translation(), self.spec_rotation()),
    ;

    /// The SE(3) exponential of a twist.
    fn exp(ln_vec: &Self::LnVecType) -> (r: Self)
        ensures
            ({
                let (t, q) = pose_exp_spec(Self::spec_twist_of(ln_vec));
                r.spec_translation() == t && r.spec_rotation() == q
            }),
    ;
}

/// The canonical pose representation: a raw 3-vector translation paired with
/// a unit-quaternion rotation, implementing the pose contract directly atop
/// the Lie-algebra kernel.
#[derive(Clone, Debug)]
pub struct ImplicitDualQuaternion<T> {
    translation: Vec3<T>,
    rotation: Quat<T>,
}

impl<T: Scalar> O3DPose<T> for ImplicitDualQuaternion<T> {
    type RotationType = Quat<T>;

    closed spec fn spec_translation(&self) -> Vec3<T> {
        self.translation
    }

    closed spec fn spec_rotation(&self) -> Quat<T> {
        self.rotation
    }

    fn type_identifier() -> (r: O3DPoseType)
        ensures
            r == O3DPoseType::ImplicitDualQuaternion,
    {
        O3DPoseType::ImplicitDualQuaternion
    }

    fn identity() -> (r: Self) {
        let r = Self::from_translation_and_rotation_constructor(
            &Vec3::zeros(),
            &Vec3::<T>::zeros(),
        );
        proof {
            lemma_from_scaled_axis_zero::<T>();
        }
        r
    }

    fn from_translation_and_rotation<R: O3DRotation<T>>(translation: &Vec3<T>, rotation: &R) -> (r:
        Self) {
        let axis = rotation.scaled_axis_of_rotation();
        let orientation = Quat::from_scaled_axis(&axis);
        ImplicitDualQuaternion { translation: *translation, rotation: orientation }
    }

    fn from_translation_and_rotation_constructor<
        RC: O3DRotationConstructor<T, Self::RotationType>,
    >(translation: &Vec3<T>, rotation_constructor: &RC) -> (r: Self) {
        let rotation = rotation_constructor.construct();
        ImplicitDualQuaternion { translation: *translation, rotation }
    }

    fn translation(&self) -> (r: &Vec3<T>) {
        &self.translation
    }

    fn rotation(&self) -> (r: &Quat<T>) {
        &self.rotation
    }

    fn update_translation(&mut self, translation: &[T]) {
        self.translation = Vec3::new(translation[0], translation[1], translation[2]);
    }

    fn update_rotation_constructor<RC: O3DRotationConstructor<T, Self::RotationType>>(
        &mut self,
        rotation: &RC,
    ) {
        self.rotation = rotation.construct();
    }

    fn update_rotation_native(&mut self, rotation: &Quat<T>) {
        self.rotation = *rotation;
    }

    fn update_rotation_direct<R: O3DRotation<T>>(&mut self, rotation: &R) {
        self.rotation = Quat::from_scaled_axis(&rotation.scaled_axis_of_rotation());
    }

    fn mul(&self, other: &Self) -> (r: Self) {
        let orientation = self.rotation.qmul(&other.rotation);
        let location = self.rotation.rotate(&other.translation).vadd(&self.translation);
        ImplicitDualQuaternion { translation: location, rotation: orientation }
    }

    fn inverse(&self) -> (r: Self) {
        let orientation = self.rotation.inverse();
        let location = orientation.rotate(&self.translation.vneg());
        ImplicitDualQuaternion { translation: location, rotation: orientation }
    }

    fn displacement(&self, other: &Self) -> (r: Self) {
        self.inverse().mul(other)
    }

    fn dis(&self, other: &Self) -> (r: T) {
        let disp = self.displacement(other);
        let l = generic_pose_ln(&disp.translation, &disp.rotation);
        l.norm()
    }

    fn interpolate(&self, to: &Self, t: T) -> (r: Self) {
        let orientation = self.rotation.slerp(&to.rotation, t);
        let location = self.translation.scale(T::one().sub(t)).vadd(&to.translation.scale(t));
        ImplicitDualQuaternion { translation: location, rotation: orientation }
    }
}

impl<T: Scalar> O3DLieAlgebraPose<T> for ImplicitDualQuaternion<T> {
    type LnVecType = Twist<T>;

    open spec fn spec_twist_of(v: &Twist<T>) -> Twist<T> {
        *v
    }

    fn ln(&self) -> (r: Twist<T>) {
        generic_pose_ln(&self.translation, &self.rotation)
    }

    fn exp(ln_vec: &Twist<T>) -> (r: Self) {
        let res = generic_pose_exp(ln_vec);
        ImplicitDualQuaternion { translation: res.0, rotation: res.1 }
    }
}

} // verus!
