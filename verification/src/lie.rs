use vstd::prelude::*;
use crate::scalar::Scalar;
use crate::vec3::{Vec3, vec3_zero_spec, lemma_zero_vec_scale, lemma_zero_vec_ops};
use crate::rotation::{Quat, quat_identity_spec};

verus! {

/// An element of the Lie algebra of SE(3): a 6-component twist. The first
/// three components (`rotation`) are the rotation generator (angle-axis
/// velocity), the last three (`translation`) the translation generator.
/// Twists are produced only by the logarithm map and consumed only by the
/// exponential map.
#[derive(Clone, Copy, Debug)]
pub struct Twist<T> {
    pub rotation: Vec3<T>,
    pub translation: Vec3<T>,
}

/// The zero twist.
pub open spec fn twist_zero_spec<T: Scalar>() -> Twist<T> {
    Twist { rotation: vec3_zero_spec::<T>(), translation: vec3_zero_spec::<T>() }
}

impl<T: Scalar> Twist<T> {
    /// Euclidean norm of the 6-vector, abstractly.
    pub open spec fn spec_norm(self) -> T {
        self.rotation.spec_dot(self.rotation).spec_add(
            self.translation.spec_dot(self.translation),
        ).spec_sqrt()
    }

    /// Euclidean norm of the 6-vector.
    pub fn norm(&self) -> (r: T)
        ensures
            r == self.spec_norm(),
    {
        self.rotation.dot(&self.rotation).add(self.translation.dot(&self.translation)).sqrt()
    }
}

/// The SE(3) logarithm, abstractly: the exact expression [`generic_pose_ln`]
/// computes, including its two small-angle branches.
pub open spec fn pose_ln_spec<T: Scalar>(translation: Vec3<T>, rotation: Quat<T>) -> Twist<T> {
    let h = Vec3 { x: rotation.x, y: rotation.y, z: rotation.z };
    let s = h.spec_norm();
    let c = rotation.w;
    let phi = s.spec_atan2(c);
    let a = if T::spec_zero().spec_lt(s) {
        phi.spec_div(s)
    } else {
        T::spec_zero()
    };
    let rot_gen = h.spec_scale(a);
    let phi2 = phi.spec_mul(phi);
    let phi4 = phi2.spec_mul(phi2);
    let mu_r = if s.spec_lt(T::spec_ratio(1, 100000000000000)) {
        T::spec_one().spec_sub(phi2.spec_mul(T::spec_ratio(1, 3))).spec_sub(
            phi4.spec_mul(T::spec_ratio(1, 45)),
        )
    } else {
        c.spec_mul(phi).spec_div(s)
    };
    let mu_d = if phi.spec_lt(T::spec_ratio(1, 100000000000000)) {
        T::spec_ratio(1, 3).spec_add(phi2.spec_mul(T::spec_ratio(1, 45))).spec_add(
            phi4.spec_mul(T::spec_ratio(2, 945)),
        )
    } else {
        T::spec_one().spec_sub(mu_r).spec_div(phi2)
    };
    let tmp = translation.spec_scale(T::spec_ratio(1, 2));
    let trans_gen = rot_gen.spec_scale(mu_d.spec_mul(tmp.spec_dot(rot_gen))).spec_vadd(
        tmp.spec_scale(mu_r),
    ).spec_vadd(tmp.spec_cross(rot_gen));
    Twist { rotation: rot_gen, translation: trans_gen }
}

/// The SE(3) exponential, abstractly: the exact expression
/// [`generic_pose_exp`] computes, including its small-angle branch. Returns
/// the translation and the rotation of the resulting pose.
pub open spec fn pose_exp_spec<T: Scalar>(tw: Twist<T>) -> (Vec3<T>, Quat<T>) {
    let w = tw.rotation;
    let v = tw.translation;
    let phi = w.spec_norm();
    let s = phi.spec_sin();
    let c = phi.spec_cos();
    let gamma = w.spec_dot(v);
    let phi2 = phi.spec_mul(phi);
    let phi4 = phi2.spec_mul(phi2);
    let two = T::spec_ratio(2, 1);
    let mu_r = if phi.spec_lt(T::spec_ratio(1, 100000000)) {
        T::spec_one().spec_sub(phi2.spec_mul(T::spec_ratio(1, 6))).spec_add(
            phi4.spec_mul(T::spec_ratio(1, 120)),
        )
    } else {
        s.spec_div(phi)
    };
    let mu_d = if phi.spec_lt(T::spec_ratio(1, 100000000)) {
        T::spec_ratio(4, 3).spec_sub(phi2.spec_mul(T::spec_ratio(4, 15))).spec_add(
            phi4.spec_mul(T::spec_ratio(8, 315)),
        )
    } else {
        two.spec_sub(c.spec_mul(two.spec_mul(mu_r))).spec_div(phi2)
    };
    let h = w.spec_scale(mu_r);
    let q = Quat { w: c, x: h.x, y: h.y, z: h.z };
    let t = h.spec_cross(v).spec_scale(mu_r).spec_scale(two).spec_vadd(
        v.spec_scale(c.spec_mul(two).spec_mul(mu_r)),
    ).spec_vadd(w.spec_scale(mu_d.spec_mul(gamma)));
    (t, q)
}

/// The SE(3) logarithm: maps a pose, given as translation and unit-quaternion
/// rotation, to its 6-component twist.
///
/// With `h = (x,y,z)`, `s = |h|`, `c = w` and `φ = atan2(s, c)`, the rotation
/// generator is `(φ/s)·h` (zero when `s` is zero), and the translation
/// generator is `μ_d·(½p·rotgen)·rotgen + μ_r·(½p) + ½p × rotgen`. The
/// coefficients `μ_r` and `μ_d` switch to truncated Taylor series (up to
/// fourth order in `φ`) below their small-angle thresholds, since their
/// closed forms have removable singularities there.
pub fn generic_pose_ln<T: Scalar>(translation: &Vec3<T>, rotation: &Quat<T>) -> (r: Twist<T>)
    ensures
        r == pose_ln_spec(*translation, *rotation),
{
    let h = Vec3::new(rotation.x, rotation.y, rotation.z);
    let s = h.norm();
    let c = rotation.w;
    let phi = s.atan2(c);
    let a = if T::zero().lt(s) {
        phi.div(s)
    } else {
        T::zero()
    };
    let rot_gen = h.scale(a);
    let phi2 = phi.mul(phi);
    let phi4 = phi2.mul(phi2);
    let mu_r = if s.lt(T::ratio(1, 100000000000000)) {
        T::one().sub(phi2.mul(T::ratio(1, 3))).sub(phi4.mul(T::ratio(1, 45)))
    } else {
        c.mul(phi).div(s)
    };
    let mu_d = if phi.lt(T::ratio(1, 100000000000000)) {
        T::ratio(1, 3).add(phi2.mul(T::ratio(1, 45))).add(phi4.mul(T::ratio(2, 945)))
    } else {
        T::one().sub(mu_r).div(phi2)
    };
    let tmp = translation.scale(T::ratio(1, 2));
    let trans_gen = rot_gen.scale(mu_d.mul(tmp.dot(&rot_gen))).vadd(&tmp.scale(mu_r)).vadd(
        &tmp.cross(&rot_gen),
    );
    Twist { rotation: rot_gen, translation: trans_gen }
}

/// The SE(3) exponential, the formal inverse of [`generic_pose_ln`]: splits
/// the twist into rotation generator `w` and translation generator `v`,
/// reconstructs the unit quaternion from `cos φ` and `μ_r·w` with
/// `φ = |w|`, and the translation as
/// `2·μ_r·(h×v) + 2c·μ_r·v + μ_d·(w·v)·w`, switching `μ_r` and `μ_d` to
/// truncated Taylor series below the small-angle threshold.
pub fn generic_pose_exp<T: Scalar>(ln_vec: &Twist<T>) -> (r: (Vec3<T>, Quat<T>))
    ensures
        r == pose_exp_spec(*ln_vec),
{
    let w = ln_vec.rotation;
    let v = ln_vec.translation;
    let phi = w.norm();
    let s = phi.sin();
    let c = phi.cos();
    let gamma = w.dot(&v);
    let phi2 = phi.mul(phi);
    let phi4 = phi2.mul(phi2);
    let two = T::ratio(2, 1);
    let mu_r = if phi.lt(T::ratio(1, 100000000)) {
        T::one().sub(phi2.mul(T::ratio(1, 6))).add(phi4.mul(T::ratio(1, 120)))
    } else {
        s.div(phi)
    };
    let mu_d = if phi.lt(T::ratio(1, 100000000)) {
        T::ratio(4, 3).sub(phi2.mul(T::ratio(4, 15))).add(phi4.mul(T::ratio(8, 315)))
    } else {
        two.sub(c.mul(two.mul(mu_r))).div(phi2)
    };
    let h = w.scale(mu_r);
    let q = Quat { w: c, x: h.x, y: h.y, z: h.z };
    let t = h.cross(&v).scale(mu_r).scale(two).vadd(&v.scale(c.mul(two).mul(mu_r))).vadd(
        &w.scale(mu_d.mul(gamma)),
    );
    (t, q)
}

/// The logarithm of the identity pose is the zero twist, whichever
/// small-angle branches are taken.
pub proof fn lemma_pose_ln_identity<T: Scalar>()
    ensures
        pose_ln_spec(vec3_zero_spec::<T>(), quat_identity_spec::<T>()) == twist_zero_spec::<T>(),
{
    let z = T::spec_zero();
    lemma_zero_vec_scale::<T>();
    lemma_zero_vec_ops::<T>();
    T::law_mul_zero(z);
    T::law_add_zero(z);
}

/// The exponential of the zero twist is the identity pose, whichever
/// small-angle branch is taken.
pub proof fn lemma_pose_exp_zero<T: Scalar>()
    ensures
        pose_exp_spec(twist_zero_spec::<T>()) == (vec3_zero_spec::<T>(), quat_identity_spec::<T>()),
{
    let z = T::spec_zero();
    lemma_zero_vec_scale::<T>();
    lemma_zero_vec_ops::<T>();
    T::law_mul_zero(z);
    T::law_add_zero(z);
    T::law_sqrt_zero();
    T::law_cos_zero();
}

} // verus!
