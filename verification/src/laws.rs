use vstd::prelude::*;
use crate::scalar::{
    Scalar, lemma_sub_zero, lemma_zero_add, lemma_zero_mul, lemma_one_mul, lemma_neg_mul,
    lemma_neg_add_self, lemma_sub_neg,
};
use crate::vec3::{
    Vec3, vec3_zero_spec, lemma_zero_vec_scale, lemma_zero_vec_ops, lemma_vadd_zero_right,
    lemma_vadd_zero_left, lemma_vadd_own_neg, lemma_scale_one, lemma_scale_by_zero,
    lemma_cross_zero_right, lemma_cross_zero_left, lemma_cross_neg_right, lemma_scale_neg,
    lemma_vneg_vadd, lemma_cross_neg_left, lemma_cross_vadd_right, lemma_cross_scale_right,
    lemma_scale_vadd, lemma_scale_scale, lemma_vneg_vneg, lemma_triple_product_zero,
    lemma_cross_cross_perp,
};
use crate::rotation::{Quat, quat_identity_spec};
use crate::lie::{
    twist_zero_spec, pose_ln_spec, pose_exp_spec, lemma_pose_ln_identity, lemma_pose_exp_zero,
};
use crate::pose::{
    se3_mul_spec, se3_inverse_spec, se3_displacement_spec, se3_dis_spec, se3_interpolate_spec,
};

verus! {

/// The identity rotation is neutral for the Hamilton product on the right.
pub proof fn lemma_qmul_identity_right<T: Scalar>(q: Quat<T>)
    ensures
        q.spec_qmul(quat_identity_spec::<T>()) == q,
{
    T::law_mul_one(q.w);
    T::law_mul_one(q.x);
    T::law_mul_one(q.y);
    T::law_mul_one(q.z);
    T::law_mul_zero(q.w);
    T::law_mul_zero(q.x);
    T::law_mul_zero(q.y);
    T::law_mul_zero(q.z);
    lemma_sub_zero::<T>(q.w);
    lemma_zero_add::<T>(q.x);
    T::law_add_zero(q.x);
    lemma_sub_zero::<T>(q.x);
    lemma_zero_add::<T>(q.y);
    T::law_add_zero(q.y);
    lemma_sub_zero::<T>(q.y);
    lemma_zero_add::<T>(q.z);
    T::law_add_zero(q.z);
    lemma_sub_zero::<T>(q.z);
}

/// The identity rotation is neutral for the Hamilton product on the left.
pub proof fn lemma_qmul_identity_left<T: Scalar>(q: Quat<T>)
    ensures
        quat_identity_spec::<T>().spec_qmul(q) == q,
{
    lemma_one_mul::<T>(q.w);
    lemma_one_mul::<T>(q.x);
    lemma_one_mul::<T>(q.y);
    lemma_one_mul::<T>(q.z);
    lemma_zero_mul::<T>(q.w);
    lemma_zero_mul::<T>(q.x);
    lemma_zero_mul::<T>(q.y);
    lemma_zero_mul::<T>(q.z);
    lemma_sub_zero::<T>(q.w);
    T::law_add_zero(q.x);
    lemma_sub_zero::<T>(q.x);
    T::law_add_zero(q.y);
    lemma_sub_zero::<T>(q.y);
    T::law_add_zero(q.z);
    lemma_sub_zero::<T>(q.z);
}

/// The identity rotation maps every vector to itself.
pub proof fn lemma_rotate_identity<T: Scalar>(v: Vec3<T>)
    ensures
        quat_identity_spec::<T>().spec_rotate(v) == v,
{
    lemma_cross_zero_left::<T>(v);
    lemma_zero_vec_scale::<T>();
    lemma_zero_vec_ops::<T>();
    lemma_cross_zero_right::<T>(vec3_zero_spec::<T>());
    lemma_vadd_zero_right::<T>(v);
    lemma_vadd_zero_right::<T>(v.spec_vadd(vec3_zero_spec::<T>()));
}

/// Every rotation maps the zero vector to the zero vector.
pub proof fn lemma_rotate_zero<T: Scalar>(q: Quat<T>)
    ensures
        q.spec_rotate(vec3_zero_spec::<T>()) == vec3_zero_spec::<T>(),
{
    let h = Vec3 { x: q.x, y: q.y, z: q.z };
    lemma_cross_zero_right::<T>(h);
    lemma_zero_vec_scale::<T>();
    lemma_zero_vec_ops::<T>();
    lemma_cross_zero_right::<T>(vec3_zero_spec::<T>());
}

/// Identity law for poses, at the data level: composing any pose with the
/// neutral pose, on either side, gives back the pose's own data.
pub proof fn lemma_pose_mul_identity<T: Scalar>(q: Quat<T>, t: Vec3<T>)
    ensures
        se3_mul_spec(q, t, quat_identity_spec::<T>(), vec3_zero_spec::<T>()) == (q, t),
        se3_mul_spec(quat_identity_spec::<T>(), vec3_zero_spec::<T>(), q, t) == (q, t),
{
    lemma_qmul_identity_right::<T>(q);
    lemma_qmul_identity_left::<T>(q);
    lemma_rotate_zero::<T>(q);
    lemma_vadd_zero_left::<T>(t);
    lemma_rotate_identity::<T>(t);
    lemma_vadd_zero_right::<T>(t);
}

/// Inverse law for rotations: a unit quaternion composed with its conjugate,
/// in either order, is the identity rotation.
pub proof fn lemma_qmul_conj<T: Scalar>(q: Quat<T>)
    requires
        q.spec_norm_sq() == T::spec_one(),
    ensures
        q.spec_qmul(q.spec_conj()) == quat_identity_spec::<T>(),
        q.spec_conj().spec_qmul(q) == quat_identity_spec::<T>(),
{
    let w = q.w;
    let x = q.x;
    let y = q.y;
    let z = q.z;
    // products that occur in the components
    T::law_mul_neg(x, x);
    T::law_mul_neg(y, y);
    T::law_mul_neg(z, z);
    lemma_neg_mul::<T>(x, x);
    lemma_neg_mul::<T>(y, y);
    lemma_neg_mul::<T>(z, z);
    // the scalar components reduce to the squared norm
    lemma_sub_neg::<T>(w.spec_mul(w), x.spec_mul(x));
    lemma_sub_neg::<T>(w.spec_mul(w).spec_add(x.spec_mul(x)), y.spec_mul(y));
    lemma_sub_neg::<T>(
        w.spec_mul(w).spec_add(x.spec_mul(x)).spec_add(y.spec_mul(y)),
        z.spec_mul(z),
    );
    // the vector components cancel pairwise
    T::law_mul_neg(w, x);
    T::law_mul_neg(w, y);
    T::law_mul_neg(w, z);
    T::law_mul_neg(y, z);
    T::law_mul_neg(z, y);
    T::law_mul_neg(z, x);
    T::law_mul_neg(x, z);
    T::law_mul_neg(x, y);
    T::law_mul_neg(y, x);
    lemma_neg_mul::<T>(x, w);
    lemma_neg_mul::<T>(y, w);
    lemma_neg_mul::<T>(z, w);
    lemma_neg_mul::<T>(y, z);
    lemma_neg_mul::<T>(z, y);
    lemma_neg_mul::<T>(z, x);
    lemma_neg_mul::<T>(x, z);
    lemma_neg_mul::<T>(x, y);
    lemma_neg_mul::<T>(y, x);
    T::law_mul_comm(x, w);
    T::law_mul_comm(y, w);
    T::law_mul_comm(z, w);
    T::law_mul_comm(z, y);
    T::law_mul_comm(x, z);
    T::law_mul_comm(y, x);
    T::law_add_neg(w.spec_mul(x));
    T::law_add_neg(w.spec_mul(y));
    T::law_add_neg(w.spec_mul(z));
    T::law_add_neg(y.spec_mul(z));
    T::law_add_neg(z.spec_mul(x));
    T::law_add_neg(x.spec_mul(y));
    lemma_neg_add_self::<T>(w.spec_mul(x));
    lemma_neg_add_self::<T>(w.spec_mul(y));
    lemma_neg_add_self::<T>(w.spec_mul(z));
    lemma_neg_add_self::<T>(y.spec_mul(z));
    lemma_neg_add_self::<T>(z.spec_mul(x));
    lemma_neg_add_self::<T>(x.spec_mul(y));
    lemma_zero_add::<T>(y.spec_mul(z).spec_neg());
    lemma_zero_add::<T>(z.spec_mul(x).spec_neg());
    lemma_zero_add::<T>(x.spec_mul(y).spec_neg());
    lemma_sub_neg::<T>(y.spec_mul(z).spec_neg(), z.spec_mul(y));
    lemma_sub_neg::<T>(z.spec_mul(x).spec_neg(), x.spec_mul(z));
    lemma_sub_neg::<T>(x.spec_mul(y).spec_neg(), y.spec_mul(x));
}

/// Rotations are odd in their argument: rotating a negated vector negates
/// the rotated vector.
pub proof fn lemma_rotate_neg<T: Scalar>(q: Quat<T>, v: Vec3<T>)
    ensures
        q.spec_rotate(v.spec_vneg()) == q.spec_rotate(v).spec_vneg(),
{
    let h = Vec3 { x: q.x, y: q.y, z: q.z };
    let u = h.spec_cross(v).spec_scale(T::spec_ratio(2, 1));
    lemma_cross_neg_right::<T>(h, v);
    lemma_scale_neg::<T>(h.spec_cross(v), T::spec_ratio(2, 1));
    lemma_scale_neg::<T>(u, q.w);
    lemma_cross_neg_right::<T>(h, u);
    lemma_vneg_vadd::<T>(v, u.spec_scale(q.w));
    lemma_vneg_vadd::<T>(v.spec_vadd(u.spec_scale(q.w)), h.spec_cross(u));
}

/// A rotation undoes its conjugate: applying a unit rotation to a vector the
/// conjugate rotation has produced gives the vector back.
#[verifier::rlimit(50)]
pub proof fn lemma_rotate_conj_cancels<T: Scalar>(q: Quat<T>, v: Vec3<T>)
    requires
        q.spec_norm_sq() == T::spec_one(),
    ensures
        q.spec_rotate(q.spec_conj().spec_rotate(v)) == v,
{
    let two = T::spec_ratio(2, 1);
    let w = q.w;
    let h = Vec3 { x: q.x, y: q.y, z: q.z };
    let hc = Vec3 { x: q.x.spec_neg(), y: q.y.spec_neg(), z: q.z.spec_neg() };
    let c = h.spec_cross(v);
    let n = h.spec_dot(h);
    // the inner rotation: r = v + w·u1 + hc × u1 with u1 = 2·(hc × v)
    let u1 = hc.spec_cross(v).spec_scale(two);
    let r = v.spec_vadd(u1.spec_scale(w)).spec_vadd(hc.spec_cross(u1));
    lemma_cross_neg_left::<T>(h, v);
    let c2 = c.spec_scale(two);
    lemma_scale_neg::<T>(c, two);
    let c2w = c2.spec_scale(w);
    lemma_scale_neg::<T>(c2, w);
    lemma_cross_neg_left::<T>(h, u1);
    lemma_cross_neg_right::<T>(h, c2);
    let d = h.spec_cross(c);
    lemma_cross_scale_right::<T>(h, c, two);
    let d2 = d.spec_scale(two);
    lemma_vneg_vneg::<T>(d2);
    // the outer rotation's cross with r, term by term
    let u2 = h.spec_cross(r).spec_scale(two);
    lemma_cross_vadd_right::<T>(h, v.spec_vadd(u1.spec_scale(w)), hc.spec_cross(u1));
    lemma_cross_vadd_right::<T>(h, v, u1.spec_scale(w));
    lemma_cross_neg_right::<T>(h, c2w);
    lemma_cross_scale_right::<T>(h, c2, w);
    let d2w = d2.spec_scale(w);
    lemma_cross_scale_right::<T>(h, d, two);
    lemma_triple_product_zero::<T>(h, v);
    lemma_cross_cross_perp::<T>(h, c);
    let cn = c.spec_scale(n);
    let cn2 = cn.spec_scale(two);
    lemma_scale_neg::<T>(cn, two);
    // u2 and its two uses, expanded over the established pieces
    lemma_scale_vadd::<T>(c.spec_vadd(d2w.spec_vneg()), cn2.spec_vneg(), two);
    lemma_scale_vadd::<T>(c, d2w.spec_vneg(), two);
    lemma_scale_neg::<T>(d2w, two);
    lemma_scale_neg::<T>(cn2, two);
    let d2w2 = d2w.spec_scale(two);
    let cn22 = cn2.spec_scale(two);
    lemma_scale_vadd::<T>(c2.spec_vadd(d2w2.spec_vneg()), cn22.spec_vneg(), w);
    lemma_scale_vadd::<T>(c2, d2w2.spec_vneg(), w);
    lemma_scale_neg::<T>(d2w2, w);
    lemma_scale_neg::<T>(cn22, w);
    let d2w2w = d2w2.spec_scale(w);
    let cn22w = cn22.spec_scale(w);
    lemma_cross_vadd_right::<T>(h, c2.spec_vadd(d2w2.spec_vneg()), cn22.spec_vneg());
    lemma_cross_vadd_right::<T>(h, c2, d2w2.spec_vneg());
    lemma_cross_neg_right::<T>(h, d2w2);
    lemma_cross_scale_right::<T>(h, d2w, two);
    lemma_cross_scale_right::<T>(h, d2, w);
    lemma_scale_neg::<T>(cn2, w);
    let cn2w = cn2.spec_scale(w);
    lemma_scale_neg::<T>(cn2w, two);
    let cn2w2 = cn2w.spec_scale(two);
    lemma_vneg_vneg::<T>(cn2w2);
    lemma_cross_neg_right::<T>(h, cn22);
    lemma_cross_scale_right::<T>(h, cn2, two);
    lemma_cross_scale_right::<T>(h, cn, two);
    lemma_cross_scale_right::<T>(h, c, n);
    let dn = d.spec_scale(n);
    let dn2 = dn.spec_scale(two);
    let dn22 = dn2.spec_scale(two);
    // the two antipodal scale chains on c agree
    lemma_scale_scale::<T>(cn, two, two);
    lemma_scale_scale::<T>(cn, two.spec_mul(two), w);
    lemma_scale_scale::<T>(cn, two, w);
    lemma_scale_scale::<T>(cn, two.spec_mul(w), two);
    T::law_mul_assoc(two, two, w);
    T::law_mul_comm(two, two.spec_mul(w));
    // the d coefficients collapse through the unit norm
    lemma_scale_scale::<T>(d, two, w);
    lemma_scale_scale::<T>(d, two.spec_mul(w), two);
    lemma_scale_scale::<T>(d, two.spec_mul(w).spec_mul(two), w);
    lemma_scale_scale::<T>(d, n, two);
    lemma_scale_scale::<T>(d, n.spec_mul(two), two);
    let k1 = two.spec_mul(w).spec_mul(two).spec_mul(w);
    let k2 = n.spec_mul(two).spec_mul(two);
    T::law_mul_assoc(two.spec_mul(two), w, w);
    T::law_mul_comm(n, two);
    T::law_mul_comm(two.spec_mul(n), two);
    T::law_mul_assoc(two, two, n);
    T::law_distrib(two.spec_mul(two), w.spec_mul(w), n);
    T::law_add_assoc(w.spec_mul(w), q.x.spec_mul(q.x), q.y.spec_mul(q.y));
    T::law_add_assoc(
        w.spec_mul(w),
        q.x.spec_mul(q.x).spec_add(q.y.spec_mul(q.y)),
        q.z.spec_mul(q.z),
    );
    T::law_mul_one(two.spec_mul(two));
    T::law_ratio_add(2, 2, 4, 1);
    T::law_ratio_mul(2, 1, 2, 1, 4, 1);
    // componentwise, the nine terms of the doubly rotated vector collapse
    lemma_neg_add_self::<T>(c2w.x);
    lemma_neg_add_self::<T>(c2w.y);
    lemma_neg_add_self::<T>(c2w.z);
    lemma_neg_add_self::<T>(cn2w2.x);
    lemma_neg_add_self::<T>(cn2w2.y);
    lemma_neg_add_self::<T>(cn2w2.z);
    crate::scalar::lemma_add_shuffle(d2.x, d2w2w.x.spec_neg(), d2.x, dn22.x.spec_neg());
    crate::scalar::lemma_add_shuffle(d2.y, d2w2w.y.spec_neg(), d2.y, dn22.y.spec_neg());
    crate::scalar::lemma_add_shuffle(d2.z, d2w2w.z.spec_neg(), d2.z, dn22.z.spec_neg());
    T::law_distrib(d.x, two, two);
    T::law_distrib(d.y, two, two);
    T::law_distrib(d.z, two, two);
    T::law_neg_add(d.x.spec_mul(k1), d.x.spec_mul(k2));
    T::law_neg_add(d.y.spec_mul(k1), d.y.spec_mul(k2));
    T::law_neg_add(d.z.spec_mul(k1), d.z.spec_mul(k2));
    T::law_distrib(d.x, k1, k2);
    T::law_distrib(d.y, k1, k2);
    T::law_distrib(d.z, k1, k2);
    T::law_add_neg(d.x.spec_mul(two.spec_add(two)));
    T::law_add_neg(d.y.spec_mul(two.spec_add(two)));
    T::law_add_neg(d.z.spec_mul(two.spec_add(two)));
    crate::scalar::lemma_nine_term_collapse(
        v.x,
        c2w.x.spec_neg(),
        d2.x,
        c2w.x,
        d2w2w.x.spec_neg(),
        cn22w.x.spec_neg(),
        d2.x,
        cn2w2.x,
        dn22.x.spec_neg(),
    );
    crate::scalar::lemma_nine_term_collapse(
        v.y,
        c2w.y.spec_neg(),
        d2.y,
        c2w.y,
        d2w2w.y.spec_neg(),
        cn22w.y.spec_neg(),
        d2.y,
        cn2w2.y,
        dn22.y.spec_neg(),
    );
    crate::scalar::lemma_nine_term_collapse(
        v.z,
        c2w.z.spec_neg(),
        d2.z,
        c2w.z,
        d2w2w.z.spec_neg(),
        cn22w.z.spec_neg(),
        d2.z,
        cn2w2.z,
        dn22.z.spec_neg(),
    );
    let rr = q.spec_rotate(r);
    assert(rr.x == v.x);
    assert(rr.y == v.y);
    assert(rr.z == v.z);
    assert(rr == v);
}

/// The displacement of a pose from itself is the neutral pose, at the data
/// level, for any pose whose rotation is unit-norm.
pub proof fn lemma_displacement_self<T: Scalar>(q: Quat<T>, t: Vec3<T>)
    requires
        q.spec_norm_sq() == T::spec_one(),
    ensures
        se3_displacement_spec(q, t, q, t) == (quat_identity_spec::<T>(), vec3_zero_spec::<T>()),
{
    let qc = q.spec_conj();
    lemma_qmul_conj::<T>(q);
    lemma_rotate_neg::<T>(qc, t);
    lemma_vadd_own_neg::<T>(qc.spec_rotate(t));
}

/// The norm of the zero twist is zero.
pub proof fn lemma_twist_zero_norm<T: Scalar>()
    ensures
        twist_zero_spec::<T>().spec_norm() == T::spec_zero(),
{
    lemma_zero_vec_ops::<T>();
    T::law_add_zero(T::spec_zero());
    T::law_sqrt_zero();
}

/// Identity of indiscernibles, one direction: the distance from any
/// unit-rotation pose to itself is exactly zero.
pub proof fn lemma_dis_self_zero<T: Scalar>(q: Quat<T>, t: Vec3<T>)
    requires
        q.spec_norm_sq() == T::spec_one(),
    ensures
        se3_dis_spec(q, t, q, t) == T::spec_zero(),
{
    lemma_displacement_self::<T>(q, t);
    lemma_pose_ln_identity::<T>();
    lemma_twist_zero_norm::<T>();
}

/// Identity of indiscernibles, stated over any two poses: whenever the
/// displacement between two poses is the neutral pose, their distance is
/// exactly zero. (The converse is an analytic fact about the scalar type's
/// square root and is checked numerically by the test suite.)
pub proof fn lemma_dis_zero_of_identity_displacement<T: Scalar>(
    q1: Quat<T>,
    t1: Vec3<T>,
    q2: Quat<T>,
    t2: Vec3<T>,
)
    requires
        se3_displacement_spec(q1, t1, q2, t2) == (quat_identity_spec::<T>(), vec3_zero_spec::<T>()),
    ensures
        se3_dis_spec(q1, t1, q2, t2) == T::spec_zero(),
{
    lemma_pose_ln_identity::<T>();
    lemma_twist_zero_norm::<T>();
}

/// Logarithm/exponential round trip at the neutral pose: the logarithm of
/// the neutral pose is the zero twist, and the exponential of the zero twist
/// is the neutral pose again, whichever small-angle branches are taken.
pub proof fn lemma_exp_ln_identity<T: Scalar>()
    ensures
        pose_ln_spec(vec3_zero_spec::<T>(), quat_identity_spec::<T>()) == twist_zero_spec::<T>(),
        pose_exp_spec(pose_ln_spec(vec3_zero_spec::<T>(), quat_identity_spec::<T>())) == (
            vec3_zero_spec::<T>(),
            quat_identity_spec::<T>(),
        ),
{
    lemma_pose_ln_identity::<T>();
    lemma_pose_exp_zero::<T>();
}

/// Interpolation boundaries, translation part: at parameter zero the blend
/// is the first translation, at parameter one it is the second.
pub proof fn lemma_interpolate_translation_boundaries<T: Scalar>(
    q1: Quat<T>,
    t1: Vec3<T>,
    q2: Quat<T>,
    t2: Vec3<T>,
)
    ensures
        se3_interpolate_spec(q1, t1, q2, t2, T::spec_zero()).1 == t1,
        se3_interpolate_spec(q1, t1, q2, t2, T::spec_one()).1 == t2,
{
    // at zero: (1 - 0)·t1 + 0·t2
    lemma_sub_zero::<T>(T::spec_one());
    lemma_scale_one::<T>(t1);
    lemma_scale_by_zero::<T>(t2);
    lemma_vadd_zero_right::<T>(t1);
    // at one: (1 - 1)·t1 + 1·t2
    crate::scalar::lemma_sub_self::<T>(T::spec_one());
    lemma_scale_by_zero::<T>(t1);
    lemma_scale_one::<T>(t2);
    lemma_vadd_zero_left::<T>(t2);
}

/// Inverse law for poses, at the data level: composing any unit-rotation
/// pose with its inverse gives the neutral pose, exactly.
pub proof fn lemma_pose_mul_inverse<T: Scalar>(q: Quat<T>, t: Vec3<T>)
    requires
        q.spec_norm_sq() == T::spec_one(),
    ensures
        se3_mul_spec(q, t, se3_inverse_spec(q, t).0, se3_inverse_spec(q, t).1) == (
            quat_identity_spec::<T>(),
            vec3_zero_spec::<T>(),
        ),
{
    let qc = q.spec_conj();
    lemma_qmul_conj::<T>(q);
    // the inverse's translation is the negated image of the pose's own
    lemma_rotate_neg::<T>(qc, t);
    // rotating it back through the pose gives the negated translation
    lemma_rotate_neg::<T>(q, qc.spec_rotate(t));
    lemma_rotate_conj_cancels::<T>(q, t);
    // which the pose's own translation then cancels
    lemma_neg_add_self::<T>(t.x);
    lemma_neg_add_self::<T>(t.y);
    lemma_neg_add_self::<T>(t.z);
}

} // verus!
