use vstd::prelude::*;
use crate::scalar::Scalar;

verus! {

/// A 3-vector of scalars: the translation type of every pose representation,
/// and also the scaled-axis form of a rotation (direction = rotation axis,
/// magnitude = rotation angle).
#[derive(Clone, Copy, Debug)]
pub struct Vec3<T> {
    pub x: T,
    pub y: T,
    pub z: T,
}

/// The zero vector.
pub open spec fn vec3_zero_spec<T: Scalar>() -> Vec3<T> {
    Vec3 { x: T::spec_zero(), y: T::spec_zero(), z: T::spec_zero() }
}

impl<T: Scalar> Vec3<T> {
    /// Componentwise addition, abstractly.
    pub open spec fn spec_vadd(self, o: Vec3<T>) -> Vec3<T> {
        Vec3 {
            x: self.x.spec_add(o.x),
            y: self.y.spec_add(o.y),
            z: self.z.spec_add(o.z),
        }
    }

    /// Componentwise negation, abstractly.
    pub open spec fn spec_vneg(self) -> Vec3<T> {
        Vec3 { x: self.x.spec_neg(), y: self.y.spec_neg(), z: self.z.spec_neg() }
    }

    /// Scaling by `k`, abstractly.
    pub open spec fn spec_scale(self, k: T) -> Vec3<T> {
        Vec3 { x: self.x.spec_mul(k), y: self.y.spec_mul(k), z: self.z.spec_mul(k) }
    }

    /// Dot product, abstractly.
    pub open spec fn spec_dot(self, o: Vec3<T>) -> T {
        self.x.spec_mul(o.x).spec_add(self.y.spec_mul(o.y)).spec_add(self.z.spec_mul(o.z))
    }

    /// Cross product, abstractly.
    pub open spec fn spec_cross(self, o: Vec3<T>) -> Vec3<T> {
        Vec3 {
            x: self.y.spec_mul(o.z).spec_sub(self.z.spec_mul(o.y)),
            y: self.z.spec_mul(o.x).spec_sub(self.x.spec_mul(o.z)),
            z: self.x.spec_mul(o.y).spec_sub(self.y.spec_mul(o.x)),
        }
    }

    /// Euclidean norm, abstractly.
    pub open spec fn spec_norm(self) -> T {
        self.spec_dot(self).spec_sqrt()
    }

    /// Builds a vector from its three components.
    pub fn new(x: T, y: T, z: T) -> (r: Vec3<T>)
        ensures
            r == (Vec3 { x, y, z }),
    {
        Vec3 { x, y, z }
    }

    /// The zero vector.
    pub fn zeros() -> (r: Vec3<T>)
        ensures
            r == vec3_zero_spec::<T>(),
    {
        let zero = T::zero();
        Vec3 { x: zero, y: zero, z: zero }
    }

    /// Componentwise addition.
    pub fn vadd(&self, o: &Vec3<T>) -> (r: Vec3<T>)
        ensures
            r == self.spec_vadd(*o),
    {
        Vec3 { x: self.x.add(o.x), y: self.y.add(o.y), z: self.z.add(o.z) }
    }

    /// Componentwise negation.
    pub fn vneg(&self) -> (r: Vec3<T>)
        ensures
            r == self.spec_vneg(),
    {
        Vec3 { x: self.x.neg(), y: self.y.neg(), z: self.z.neg() }
    }

    /// Scaling by `k`.
    pub fn scale(&self, k: T) -> (r: Vec3<T>)
        ensures
            r == self.spec_scale(k),
    {
        Vec3 { x: self.x.mul(k), y: self.y.mul(k), z: self.z.mul(k) }
    }

    /// Dot product.
    pub fn dot(&self, o: &Vec3<T>) -> (r: T)
        ensures
            r == self.spec_dot(*o),
    {
        self.x.mul(o.x).add(self.y.mul(o.y)).add(self.z.mul(o.z))
    }

    /// Cross product.
    pub fn cross(&self, o: &Vec3<T>) -> (r: Vec3<T>)
        ensures
            r == self.spec_cross(*o),
    {
        Vec3 {
            x: self.y.mul(o.z).sub(self.z.mul(o.y)),
            y: self.z.mul(o.x).sub(self.x.mul(o.z)),
            z: self.x.mul(o.y).sub(self.y.mul(o.x)),
        }
    }

    /// Euclidean norm.
    pub fn norm(&self) -> (r: T)
        ensures
            r == self.spec_norm(),
    {
        self.dot(self).sqrt()
    }
}

/// Scaling the zero vector yields the zero vector, whatever the factor.
pub proof fn lemma_zero_vec_scale<T: Scalar>()
    ensures
        forall|k: T| #[trigger] vec3_zero_spec::<T>().spec_scale(k) == vec3_zero_spec::<T>(),
{
    let z = T::spec_zero();
    assert forall|k: T| #[trigger] vec3_zero_spec::<T>().spec_scale(k) == vec3_zero_spec::<T>() by {
        T::law_mul_comm(z, k);
        T::law_mul_zero(k);
    }
}

/// The zero vector is neutral for vector addition on the right.
pub proof fn lemma_vadd_zero_right<T: Scalar>(v: Vec3<T>)
    ensures
        v.spec_vadd(vec3_zero_spec::<T>()) == v,
{
    T::law_add_zero(v.x);
    T::law_add_zero(v.y);
    T::law_add_zero(v.z);
}

/// The zero vector is neutral for vector addition on the left.
pub proof fn lemma_vadd_zero_left<T: Scalar>(v: Vec3<T>)
    ensures
        vec3_zero_spec::<T>().spec_vadd(v) == v,
{
    crate::scalar::lemma_zero_add(v.x);
    crate::scalar::lemma_zero_add(v.y);
    crate::scalar::lemma_zero_add(v.z);
}

/// A vector cancels against its negation.
pub proof fn lemma_vadd_own_neg<T: Scalar>(v: Vec3<T>)
    ensures
        v.spec_vadd(v.spec_vneg()) == vec3_zero_spec::<T>(),
{
    T::law_add_neg(v.x);
    T::law_add_neg(v.y);
    T::law_add_neg(v.z);
}

/// Scaling by one changes nothing.
pub proof fn lemma_scale_one<T: Scalar>(v: Vec3<T>)
    ensures
        v.spec_scale(T::spec_one()) == v,
{
    T::law_mul_one(v.x);
    T::law_mul_one(v.y);
    T::law_mul_one(v.z);
}

/// Scaling by zero gives the zero vector.
pub proof fn lemma_scale_by_zero<T: Scalar>(v: Vec3<T>)
    ensures
        v.spec_scale(T::spec_zero()) == vec3_zero_spec::<T>(),
{
    T::law_mul_zero(v.x);
    T::law_mul_zero(v.y);
    T::law_mul_zero(v.z);
}

/// The cross product with the zero vector on the right is zero.
pub proof fn lemma_cross_zero_right<T: Scalar>(v: Vec3<T>)
    ensures
        v.spec_cross(vec3_zero_spec::<T>()) == vec3_zero_spec::<T>(),
{
    T::law_mul_zero(v.x);
    T::law_mul_zero(v.y);
    T::law_mul_zero(v.z);
    crate::scalar::lemma_sub_self(T::spec_zero());
}

/// The cross product with the zero vector on the left is zero.
pub proof fn lemma_cross_zero_left<T: Scalar>(v: Vec3<T>)
    ensures
        vec3_zero_spec::<T>().spec_cross(v) == vec3_zero_spec::<T>(),
{
    crate::scalar::lemma_zero_mul(v.x);
    crate::scalar::lemma_zero_mul(v.y);
    crate::scalar::lemma_zero_mul(v.z);
    crate::scalar::lemma_sub_self(T::spec_zero());
}

/// Negating the right factor negates the cross product.
pub proof fn lemma_cross_neg_right<T: Scalar>(a: Vec3<T>, b: Vec3<T>)
    ensures
        a.spec_cross(b.spec_vneg()) == a.spec_cross(b).spec_vneg(),
{
    T::law_mul_neg(a.y, b.z);
    T::law_mul_neg(a.z, b.y);
    crate::scalar::lemma_neg_sub_neg(a.y.spec_mul(b.z), a.z.spec_mul(b.y));
    T::law_mul_neg(a.z, b.x);
    T::law_mul_neg(a.x, b.z);
    crate::scalar::lemma_neg_sub_neg(a.z.spec_mul(b.x), a.x.spec_mul(b.z));
    T::law_mul_neg(a.x, b.y);
    T::law_mul_neg(a.y, b.x);
    crate::scalar::lemma_neg_sub_neg(a.x.spec_mul(b.y), a.y.spec_mul(b.x));
}

/// Scaling a negated vector negates the scaled vector.
pub proof fn lemma_scale_neg<T: Scalar>(v: Vec3<T>, k: T)
    ensures
        v.spec_vneg().spec_scale(k) == v.spec_scale(k).spec_vneg(),
{
    crate::scalar::lemma_neg_mul(v.x, k);
    crate::scalar::lemma_neg_mul(v.y, k);
    crate::scalar::lemma_neg_mul(v.z, k);
}

/// Negation distributes over vector addition.
pub proof fn lemma_vneg_vadd<T: Scalar>(a: Vec3<T>, b: Vec3<T>)
    ensures
        a.spec_vadd(b).spec_vneg() == a.spec_vneg().spec_vadd(b.spec_vneg()),
{
    T::law_neg_add(a.x, b.x);
    T::law_neg_add(a.y, b.y);
    T::law_neg_add(a.z, b.z);
}

/// Negating the left factor negates the cross product.
pub proof fn lemma_cross_neg_left<T: Scalar>(a: Vec3<T>, b: Vec3<T>)
    ensures
        a.spec_vneg().spec_cross(b) == a.spec_cross(b).spec_vneg(),
{
    crate::scalar::lemma_neg_mul(a.y, b.z);
    crate::scalar::lemma_neg_mul(a.z, b.y);
    crate::scalar::lemma_neg_sub_neg(a.y.spec_mul(b.z), a.z.spec_mul(b.y));
    crate::scalar::lemma_neg_mul(a.z, b.x);
    crate::scalar::lemma_neg_mul(a.x, b.z);
    crate::scalar::lemma_neg_sub_neg(a.z.spec_mul(b.x), a.x.spec_mul(b.z));
    crate::scalar::lemma_neg_mul(a.x, b.y);
    crate::scalar::lemma_neg_mul(a.y, b.x);
    crate::scalar::lemma_neg_sub_neg(a.x.spec_mul(b.y), a.y.spec_mul(b.x));
}

/// The cross product distributes over addition in its right factor.
pub proof fn lemma_cross_vadd_right<T: Scalar>(a: Vec3<T>, u: Vec3<T>, w: Vec3<T>)
    ensures
        a.spec_cross(u.spec_vadd(w)) == a.spec_cross(u).spec_vadd(a.spec_cross(w)),
{
    T::law_distrib(a.y, u.z, w.z);
    T::law_distrib(a.z, u.y, w.y);
    crate::scalar::lemma_sub_shuffle(
        a.y.spec_mul(u.z),
        a.y.spec_mul(w.z),
        a.z.spec_mul(u.y),
        a.z.spec_mul(w.y),
    );
    T::law_distrib(a.z, u.x, w.x);
    T::law_distrib(a.x, u.z, w.z);
    crate::scalar::lemma_sub_shuffle(
        a.z.spec_mul(u.x),
        a.z.spec_mul(w.x),
        a.x.spec_mul(u.z),
        a.x.spec_mul(w.z),
    );
    T::law_distrib(a.x, u.y, w.y);
    T::law_distrib(a.y, u.x, w.x);
    crate::scalar::lemma_sub_shuffle(
        a.x.spec_mul(u.y),
        a.x.spec_mul(w.y),
        a.y.spec_mul(u.x),
        a.y.spec_mul(w.x),
    );
}

/// A scaling of the right factor scales the cross product.
pub proof fn lemma_cross_scale_right<T: Scalar>(a: Vec3<T>, v: Vec3<T>, k: T)
    ensures
        a.spec_cross(v.spec_scale(k)) == a.spec_cross(v).spec_scale(k),
{
    T::law_mul_assoc(a.y, v.z, k);
    T::law_mul_assoc(a.z, v.y, k);
    crate::scalar::lemma_sub_mul(a.y.spec_mul(v.z), a.z.spec_mul(v.y), k);
    T::law_mul_assoc(a.z, v.x, k);
    T::law_mul_assoc(a.x, v.z, k);
    crate::scalar::lemma_sub_mul(a.z.spec_mul(v.x), a.x.spec_mul(v.z), k);
    T::law_mul_assoc(a.x, v.y, k);
    T::law_mul_assoc(a.y, v.x, k);
    crate::scalar::lemma_sub_mul(a.x.spec_mul(v.y), a.y.spec_mul(v.x), k);
}

/// Scaling distributes over vector addition.
pub proof fn lemma_scale_vadd<T: Scalar>(u: Vec3<T>, w: Vec3<T>, k: T)
    ensures
        u.spec_vadd(w).spec_scale(k) == u.spec_scale(k).spec_vadd(w.spec_scale(k)),
{
    crate::scalar::lemma_add_mul(u.x, w.x, k);
    crate::scalar::lemma_add_mul(u.y, w.y, k);
    crate::scalar::lemma_add_mul(u.z, w.z, k);
}

/// Two scalings compose into one by the product of the factors.
pub proof fn lemma_scale_scale<T: Scalar>(v: Vec3<T>, k1: T, k2: T)
    ensures
        v.spec_scale(k1).spec_scale(k2) == v.spec_scale(k1.spec_mul(k2)),
{
    T::law_mul_assoc(v.x, k1, k2);
    T::law_mul_assoc(v.y, k1, k2);
    T::law_mul_assoc(v.z, k1, k2);
}

/// Vector negation is an involution.
pub proof fn lemma_vneg_vneg<T: Scalar>(v: Vec3<T>)
    ensures
        v.spec_vneg().spec_vneg() == v,
{
    T::law_neg_neg(v.x);
    T::law_neg_neg(v.y);
    T::law_neg_neg(v.z);
}

/// The scalar triple product with a repeated vector vanishes: a vector is
/// perpendicular to every cross product it enters.
pub proof fn lemma_triple_product_zero<T: Scalar>(h: Vec3<T>, v: Vec3<T>)
    ensures
        h.spec_dot(h.spec_cross(v)) == T::spec_zero(),
{
    crate::scalar::lemma_mul_sub(h.x, h.y.spec_mul(v.z), h.z.spec_mul(v.y));
    crate::scalar::lemma_mul_sub(h.y, h.z.spec_mul(v.x), h.x.spec_mul(v.z));
    crate::scalar::lemma_mul_sub(h.z, h.x.spec_mul(v.y), h.y.spec_mul(v.x));
    crate::scalar::lemma_mul_left_comm(h.y, h.x, v.z);
    crate::scalar::lemma_mul_left_comm(h.x, h.z, v.y);
    crate::scalar::lemma_mul_left_comm(h.z, h.y, v.x);
    crate::scalar::lemma_cyclic_cancel(
        h.x.spec_mul(h.y.spec_mul(v.z)),
        h.z.spec_mul(h.x.spec_mul(v.y)),
        h.y.spec_mul(h.z.spec_mul(v.x)),
    );
}

/// Crossing twice with the same vector, applied to a perpendicular vector,
/// scales it by the negated squared norm: `h × (h × u) == −(h·h)·u` whenever
/// `h·u == 0`.
pub proof fn lemma_cross_cross_perp<T: Scalar>(h: Vec3<T>, u: Vec3<T>)
    requires
        h.spec_dot(u) == T::spec_zero(),
    ensures
        h.spec_cross(h.spec_cross(u)) == u.spec_scale(h.spec_dot(h)).spec_vneg(),
{
    let xx = h.x.spec_mul(h.x);
    let yy = h.y.spec_mul(h.y);
    let zz = h.z.spec_mul(h.z);
    // the inner cross product, componentwise
    let dx = h.y.spec_mul(u.z).spec_sub(h.z.spec_mul(u.y));
    let dy = h.z.spec_mul(u.x).spec_sub(h.x.spec_mul(u.z));
    let dz = h.x.spec_mul(u.y).spec_sub(h.y.spec_mul(u.x));
    // perpendicularity, multiplied by each component of h in turn
    T::law_mul_zero(h.x);
    T::law_mul_zero(h.y);
    T::law_mul_zero(h.z);
    let sx = h.x.spec_mul(u.x);
    let sy = h.y.spec_mul(u.y);
    let sz = h.z.spec_mul(u.z);
    T::law_distrib(h.x, sx.spec_add(sy), sz);
    T::law_distrib(h.x, sx, sy);
    T::law_distrib(h.y, sx.spec_add(sy), sz);
    T::law_distrib(h.y, sx, sy);
    T::law_distrib(h.z, sx.spec_add(sy), sz);
    T::law_distrib(h.z, sx, sy);
    // normalize all triple products to a canonical first factor
    crate::scalar::lemma_mul_left_comm(h.x, h.y, u.y);
    crate::scalar::lemma_mul_left_comm(h.x, h.z, u.z);
    crate::scalar::lemma_mul_left_comm(h.y, h.x, u.x);
    crate::scalar::lemma_mul_left_comm(h.y, h.z, u.z);
    crate::scalar::lemma_mul_left_comm(h.z, h.x, u.x);
    crate::scalar::lemma_mul_left_comm(h.z, h.y, u.y);
    // squared terms, rewritten over the squares of h's components
    let a0x = h.x.spec_mul(sx);
    let a0y = h.y.spec_mul(sy);
    let a0z = h.z.spec_mul(sz);
    let px = h.y.spec_mul(h.x.spec_mul(u.y));
    let qx = h.y.spec_mul(h.y.spec_mul(u.x));
    let rx = h.z.spec_mul(h.z.spec_mul(u.x));
    let ssx = h.z.spec_mul(h.x.spec_mul(u.z));
    let py = h.z.spec_mul(h.y.spec_mul(u.z));
    let qy = h.z.spec_mul(h.z.spec_mul(u.y));
    let ry = h.x.spec_mul(h.x.spec_mul(u.y));
    let ssy = h.x.spec_mul(h.y.spec_mul(u.x));
    let pz = h.x.spec_mul(h.z.spec_mul(u.x));
    let qz = h.x.spec_mul(h.x.spec_mul(u.z));
    let rz = h.y.spec_mul(h.y.spec_mul(u.z));
    let ssz = h.y.spec_mul(h.z.spec_mul(u.y));
    // the x component: h.y·dz − h.z·dy
    crate::scalar::lemma_mul_sub(h.y, h.x.spec_mul(u.y), h.y.spec_mul(u.x));
    crate::scalar::lemma_mul_sub(h.z, h.z.spec_mul(u.x), h.x.spec_mul(u.z));
    T::law_sub_def(px.spec_sub(qx), qx.spec_neg().spec_neg());
    T::law_sub_def(h.y.spec_mul(dz), h.z.spec_mul(dy));
    T::law_sub_def(px, qx);
    T::law_sub_def(rx, ssx);
    T::law_neg_add(rx, ssx.spec_neg());
    T::law_neg_neg(ssx);
    T::law_add_comm(rx.spec_neg(), ssx);
    crate::scalar::lemma_add_shuffle(px, qx.spec_neg(), ssx, rx.spec_neg());
    T::law_add_assoc(a0x, px, ssx);
    crate::scalar::lemma_cancel_left(a0x, px.spec_add(ssx));
    T::law_neg_add(qx, rx);
    T::law_neg_add(a0x, qx.spec_add(rx));
    T::law_add_assoc(a0x, qx, rx);
    // the y component: h.z·dx − h.x·dz
    crate::scalar::lemma_mul_sub(h.z, h.y.spec_mul(u.z), h.z.spec_mul(u.y));
    crate::scalar::lemma_mul_sub(h.x, h.x.spec_mul(u.y), h.y.spec_mul(u.x));
    T::law_sub_def(h.z.spec_mul(dx), h.x.spec_mul(dz));
    T::law_sub_def(py, qy);
    T::law_sub_def(ry, ssy);
    T::law_neg_add(ry, ssy.spec_neg());
    T::law_neg_neg(ssy);
    T::law_add_comm(ry.spec_neg(), ssy);
    crate::scalar::lemma_add_shuffle(py, qy.spec_neg(), ssy, ry.spec_neg());
    T::law_add_comm(ssy, a0y);
    T::law_add_assoc(a0y, ssy, py);
    crate::scalar::lemma_cancel_left(a0y, ssy.spec_add(py));
    T::law_add_comm(ssy, py);
    T::law_neg_add(qy, ry);
    T::law_neg_add(a0y, qy.spec_add(ry));
    T::law_add_assoc(a0y, qy, ry);
    // the z component: h.x·dy − h.y·dx
    crate::scalar::lemma_mul_sub(h.x, h.z.spec_mul(u.x), h.x.spec_mul(u.z));
    crate::scalar::lemma_mul_sub(h.y, h.y.spec_mul(u.z), h.z.spec_mul(u.y));
    T::law_sub_def(h.x.spec_mul(dy), h.y.spec_mul(dx));
    T::law_sub_def(pz, qz);
    T::law_sub_def(rz, ssz);
    T::law_neg_add(rz, ssz.spec_neg());
    T::law_neg_neg(ssz);
    T::law_add_comm(rz.spec_neg(), ssz);
    crate::scalar::lemma_add_shuffle(pz, qz.spec_neg(), ssz, rz.spec_neg());
    T::law_add_comm(pz.spec_add(ssz), a0z);
    crate::scalar::lemma_cancel_left(a0z, pz.spec_add(ssz));
    T::law_neg_add(qz, rz);
    T::law_neg_add(a0z, qz.spec_add(rz));
    T::law_add_assoc(a0z, qz, rz);
    // every squared term equals the matching component of u scaled by a square
    T::law_mul_assoc(h.x, h.x, u.x);
    T::law_mul_assoc(h.y, h.y, u.x);
    T::law_mul_assoc(h.z, h.z, u.x);
    T::law_mul_assoc(h.x, h.x, u.y);
    T::law_mul_assoc(h.y, h.y, u.y);
    T::law_mul_assoc(h.z, h.z, u.y);
    T::law_mul_assoc(h.x, h.x, u.z);
    T::law_mul_assoc(h.y, h.y, u.z);
    T::law_mul_assoc(h.z, h.z, u.z);
    T::law_mul_comm(xx, u.x);
    T::law_mul_comm(yy, u.x);
    T::law_mul_comm(zz, u.x);
    T::law_mul_comm(xx, u.y);
    T::law_mul_comm(yy, u.y);
    T::law_mul_comm(zz, u.y);
    T::law_mul_comm(xx, u.z);
    T::law_mul_comm(yy, u.z);
    T::law_mul_comm(zz, u.z);
    // the scaled right-hand side, expanded over the squares
    T::law_distrib(u.x, xx.spec_add(yy), zz);
    T::law_distrib(u.x, xx, yy);
    T::law_distrib(u.y, xx.spec_add(yy), zz);
    T::law_distrib(u.y, xx, yy);
    T::law_distrib(u.z, xx.spec_add(yy), zz);
    T::law_distrib(u.z, xx, yy);
    // reassociate the three squared terms for each component
    crate::scalar::lemma_add_rot3(u.x.spec_mul(xx), u.x.spec_mul(yy), u.x.spec_mul(zz));
    T::law_add_assoc(u.x.spec_mul(yy), u.x.spec_mul(zz), u.x.spec_mul(xx));
    crate::scalar::lemma_add_rot3(u.y.spec_mul(yy), u.y.spec_mul(zz), u.y.spec_mul(xx));
    T::law_add_assoc(u.y.spec_mul(yy), u.y.spec_mul(zz), u.y.spec_mul(xx));
    crate::scalar::lemma_add_rot3(u.z.spec_mul(zz), u.z.spec_mul(xx), u.z.spec_mul(yy));
    T::law_add_assoc(u.z.spec_mul(zz), u.z.spec_mul(xx), u.z.spec_mul(yy));
    crate::scalar::lemma_add_rot3(u.y.spec_mul(xx), u.y.spec_mul(yy), u.y.spec_mul(zz));
    crate::scalar::lemma_add_rot3(u.z.spec_mul(xx), u.z.spec_mul(yy), u.z.spec_mul(zz));
    T::law_add_comm(u.y.spec_mul(zz), u.y.spec_mul(xx));
    T::law_add_comm(u.z.spec_mul(xx), u.z.spec_mul(yy));
    T::law_add_assoc(u.y.spec_mul(yy), u.y.spec_mul(xx), u.y.spec_mul(zz));
    T::law_add_assoc(u.z.spec_mul(zz), u.z.spec_mul(yy), u.z.spec_mul(xx));
}

/// Dot product, cross product and sum of two zero vectors are all zero.
pub proof fn lemma_zero_vec_ops<T: Scalar>()
    ensures
        vec3_zero_spec::<T>().spec_dot(vec3_zero_spec::<T>()) == T::spec_zero(),
        vec3_zero_spec::<T>().spec_cross(vec3_zero_spec::<T>()) == vec3_zero_spec::<T>(),
        vec3_zero_spec::<T>().spec_vadd(vec3_zero_spec::<T>()) == vec3_zero_spec::<T>(),
{
    let z = T::spec_zero();
    T::law_mul_zero(z);
    T::law_add_zero(z);
    T::law_sub_def(z, z);
    T::law_neg_zero();
}

} // verus!
