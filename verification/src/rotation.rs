use vstd::prelude::*;
use crate::scalar::Scalar;
use crate::vec3::{Vec3, vec3_zero_spec};

verus! {

/// A rotation stored as a quaternion `w + x·i + y·j + z·k`.
///
/// The intended invariant is that the quaternion is unit-norm
/// ([`Quat::spec_norm_sq`] equal to one); it cannot be established from the
/// abstract scalar operations alone (it is an analytic fact about sine and
/// cosine), so the lemmas that depend on it take it as a hypothesis, and the
/// test suite checks it numerically.
#[derive(Clone, Copy, Debug)]
pub struct Quat<T> {
    pub w: T,
    pub x: T,
    pub y: T,
    pub z: T,
}

/// The identity rotation.
pub open spec fn quat_identity_spec<T: Scalar>() -> Quat<T> {
    Quat {
        w: T::spec_one(),
        x: T::spec_zero(),
        y: T::spec_zero(),
        z: T::spec_zero(),
    }
}

/// The quaternion of the rotation whose axis is `v`'s direction and whose
/// angle is `v`'s magnitude: `(cos(φ/2), sin(φ/2)/φ · v)` with `φ = |v|`,
/// with a truncated series for `sin(φ/2)/φ` below the small-angle threshold.
pub open spec fn quat_from_scaled_axis_spec<T: Scalar>(v: Vec3<T>) -> Quat<T> {
    let phi = v.spec_norm();
    let half = T::spec_ratio(1, 2);
    let w = phi.spec_mul(half).spec_cos();
    let k = if phi.spec_lt(T::spec_ratio(1, 10000000000)) {
        half.spec_sub(phi.spec_mul(phi).spec_mul(T::spec_ratio(1, 48)))
    } else {
        phi.spec_mul(half).spec_sin().spec_div(phi)
    };
    let xyz = v.spec_scale(k);
    Quat { w, x: xyz.x, y: xyz.y, z: xyz.z }
}

/// The scaled-axis vector of a rotation: the axis `(x,y,z)/s` times the angle
/// `2·atan2(s, w)` where `s = |(x,y,z)|`; the zero vector when `s` is zero.
pub open spec fn quat_scaled_axis_spec<T: Scalar>(q: Quat<T>) -> Vec3<T> {
    let h = Vec3 { x: q.x, y: q.y, z: q.z };
    let s = h.spec_norm();
    if T::spec_zero().spec_lt(s) {
        h.spec_scale(T::spec_ratio(2, 1).spec_mul(s.spec_atan2(q.w)).spec_div(s))
    } else {
        vec3_zero_spec::<T>()
    }
}

/// Spherical linear interpolation between two unit quaternions, with the
/// usual sign flip onto the shorter arc and a linear blend when the two are
/// nearly aligned. The result of the linear blend is not renormalized: for
/// nearly aligned unit inputs its norm differs from one only beyond the
/// blending threshold's precision.
pub open spec fn quat_slerp_spec<T: Scalar>(a: Quat<T>, b: Quat<T>, t: T) -> Quat<T> {
    let d0 = a.spec_dot4(b);
    let b2 = if d0.spec_lt(T::spec_zero()) {
        b.spec_qneg()
    } else {
        b
    };
    let d = if d0.spec_lt(T::spec_zero()) {
        d0.spec_neg()
    } else {
        d0
    };
    let u = T::spec_one().spec_sub(t);
    if T::spec_one().spec_sub(T::spec_ratio(1, 1000000000)).spec_lt(d) {
        a.spec_qscale(u).spec_qadd(b2.spec_qscale(t))
    } else {
        let theta = d.spec_acos();
        let sin_theta = theta.spec_sin();
        let c1 = u.spec_mul(theta).spec_sin().spec_div(sin_theta);
        let c2 = t.spec_mul(theta).spec_sin().spec_div(sin_theta);
        a.spec_qscale(c1).spec_qadd(b2.spec_qscale(c2))
    }
}

impl<T: Scalar> Quat<T> {
    /// The Hamilton product, abstractly.
    pub open spec fn spec_qmul(self, o: Quat<T>) -> Quat<T> {
        Quat {
            w: self.w.spec_mul(o.w).spec_sub(self.x.spec_mul(o.x)).spec_sub(
                self.y.spec_mul(o.y),
            ).spec_sub(self.z.spec_mul(o.z)),
            x: self.w.spec_mul(o.x).spec_add(self.x.spec_mul(o.w)).spec_add(
                self.y.spec_mul(o.z),
            ).spec_sub(self.z.spec_mul(o.y)),
            y: self.w.spec_mul(o.y).spec_add(self.y.spec_mul(o.w)).spec_add(
                self.z.spec_mul(o.x),
            ).spec_sub(self.x.spec_mul(o.z)),
            z: self.w.spec_mul(o.z).spec_add(self.z.spec_mul(o.w)).spec_add(
                self.x.spec_mul(o.y),
            ).spec_sub(self.y.spec_mul(o.x)),
        }
    }

    /// The conjugate, abstractly. For a unit quaternion this is the inverse.
    pub open spec fn spec_conj(self) -> Quat<T> {
        Quat { w: self.w, x: self.x.spec_neg(), y: self.y.spec_neg(), z: self.z.spec_neg() }
    }

    /// The squared norm `w² + x² + y² + z²`, abstractly.
    pub open spec fn spec_norm_sq(self) -> T {
        self.w.spec_mul(self.w).spec_add(self.x.spec_mul(self.x)).spec_add(
            self.y.spec_mul(self.y),
        ).spec_add(self.z.spec_mul(self.z))
    }

    /// The image of the vector `v` under this rotation, abstractly:
    /// `v + w·u + h × u` with `h = (x,y,z)` and `u = 2·(h × v)`.
    pub open spec fn spec_rotate(self, v: Vec3<T>) -> Vec3<T> {
        let h = Vec3 { x: self.x, y: self.y, z: self.z };
        let u = h.spec_cross(v).spec_scale(T::spec_ratio(2, 1));
        v.spec_vadd(u.spec_scale(self.w)).spec_vadd(h.spec_cross(u))
    }

    /// The four-dimensional dot product, abstractly.
    pub open spec fn spec_dot4(self, o: Quat<T>) -> T {
        self.w.spec_mul(o.w).spec_add(self.x.spec_mul(o.x)).spec_add(
            self.y.spec_mul(o.y),
        ).spec_add(self.z.spec_mul(o.z))
    }

    /// Componentwise negation, abstractly. Represents the same rotation.
    pub open spec fn spec_qneg(self) -> Quat<T> {
        Quat {
            w: self.w.spec_neg(),
            x: self.x.spec_neg(),
            y: self.y.spec_neg(),
            z: self.z.spec_neg(),
        }
    }

    /// Componentwise addition, abstractly.
    pub open spec fn spec_qadd(self, o: Quat<T>) -> Quat<T> {
        Quat {
            w: self.w.spec_add(o.w),
            x: self.x.spec_add(o.x),
            y: self.y.spec_add(o.y),
            z: self.z.spec_add(o.z),
        }
    }

    /// Componentwise scaling, abstractly.
    pub open spec fn spec_qscale(self, k: T) -> Quat<T> {
        Quat {
            w: self.w.spec_mul(k),
            x: self.x.spec_mul(k),
            y: self.y.spec_mul(k),
            z: self.z.spec_mul(k),
        }
    }

    /// The identity rotation.
    pub fn identity() -> (r: Quat<T>)
        ensures
            r == quat_identity_spec::<T>(),
    {
        Quat { w: T::one(), x: T::zero(), y: T::zero(), z: T::zero() }
    }

    /// The Hamilton product: this rotation followed by `o` in this frame.
    pub fn qmul(&self, o: &Quat<T>) -> (r: Quat<T>)
        ensures
            r == self.spec_qmul(*o),
    {
        Quat {
            w: self.w.mul(o.w).sub(self.x.mul(o.x)).sub(self.y.mul(o.y)).sub(self.z.mul(o.z)),
            x: self.w.mul(o.x).add(self.x.mul(o.w)).add(self.y.mul(o.z)).sub(self.z.mul(o.y)),
            y: self.w.mul(o.y).add(self.y.mul(o.w)).add(self.z.mul(o.x)).sub(self.x.mul(o.z)),
            z: self.w.mul(o.z).add(self.z.mul(o.w)).add(self.x.mul(o.y)).sub(self.y.mul(o.x)),
        }
    }

    /// The inverse rotation: the conjugate, relying on the unit-norm reading
    /// of the quaternion.
    pub fn inverse(&self) -> (r: Quat<T>)
        ensures
            r == self.spec_conj(),
    {
        Quat { w: self.w, x: self.x.neg(), y: self.y.neg(), z: self.z.neg() }
    }

    /// The image of the vector `v` under this rotation.
    pub fn rotate(&self, v: &Vec3<T>) -> (r: Vec3<T>)
        ensures
            r == self.spec_rotate(*v),
    {
        let h = Vec3::new(self.x, self.y, self.z);
        let u = h.cross(v).scale(T::ratio(2, 1));
        v.vadd(&u.scale(self.w)).vadd(&h.cross(&u))
    }

    /// The four-dimensional dot product.
    pub fn dot4(&self, o: &Quat<T>) -> (r: T)
        ensures
            r == self.spec_dot4(*o),
    {
        self.w.mul(o.w).add(self.x.mul(o.x)).add(self.y.mul(o.y)).add(self.z.mul(o.z))
    }

    /// Componentwise negation: the antipodal representative of the same
    /// rotation.
    pub fn qneg(&self) -> (r: Quat<T>)
        ensures
            r == self.spec_qneg(),
    {
        Quat { w: self.w.neg(), x: self.x.neg(), y: self.y.neg(), z: self.z.neg() }
    }

    /// Componentwise addition.
    pub fn qadd(&self, o: &Quat<T>) -> (r: Quat<T>)
        ensures
            r == self.spec_qadd(*o),
    {
        Quat {
            w: self.w.add(o.w),
            x: self.x.add(o.x),
            y: self.y.add(o.y),
            z: self.z.add(o.z),
        }
    }

    /// Componentwise scaling.
    pub fn qscale(&self, k: T) -> (r: Quat<T>)
        ensures
            r == self.spec_qscale(k),
    {
        Quat { w: self.w.mul(k), x: self.x.mul(k), y: self.y.mul(k), z: self.z.mul(k) }
    }

    /// The squared norm `w² + x² + y² + z²`: one, up to the scalar type's
    /// precision, on every rotation the library constructs.
    pub fn norm_sq(&self) -> (r: T)
        ensures
            r == self.spec_norm_sq(),
    {
        self.w.mul(self.w).add(self.x.mul(self.x)).add(self.y.mul(self.y)).add(
            self.z.mul(self.z),
        )
    }

    /// Builds the rotation with scaled-axis vector `v`.
    pub fn from_scaled_axis(v: &Vec3<T>) -> (r: Quat<T>)
        ensures
            r == quat_from_scaled_axis_spec(*v),
    {
        let phi = v.norm();
        let half = T::ratio(1, 2);
        let w = phi.mul(half).cos();
        let k = if phi.lt(T::ratio(1, 10000000000)) {
            half.sub(phi.mul(phi).mul(T::ratio(1, 48)))
        } else {
            phi.mul(half).sin().div(phi)
        };
        let xyz = v.scale(k);
        Quat { w, x: xyz.x, y: xyz.y, z: xyz.z }
    }

    /// The scaled-axis vector of this rotation.
    pub fn scaled_axis(&self) -> (r: Vec3<T>)
        ensures
            r == quat_scaled_axis_spec(*self),
    {
        let h = Vec3::new(self.x, self.y, self.z);
        let s = h.norm();
        if T::zero().lt(s) {
            h.scale(T::ratio(2, 1).mul(s.atan2(self.w)).div(s))
        } else {
            Vec3::zeros()
        }
    }

    /// Spherical linear interpolation from this rotation (`t = 0`) towards
    /// `o` (`t = 1`) along the shorter arc.
    pub fn slerp(&self, o: &Quat<T>, t: T) -> (r: Quat<T>)
        ensures
            r == quat_slerp_spec(*self, *o, t),
    {
        let d0 = self.dot4(o);
        let flip = d0.lt(T::zero());
        let b2 = if flip {
            o.qneg()
        } else {
            *o
        };
        let d = if flip {
            d0.neg()
        } else {
            d0
        };
        let u = T::one().sub(t);
        if T::one().sub(T::ratio(1, 1000000000)).lt(d) {
            self.qscale(u).qadd(&b2.qscale(t))
        } else {
            let theta = d.acos();
            let sin_theta = theta.sin();
            let c1 = u.mul(theta).sin().div(sin_theta);
            let c2 = t.mul(theta).sin().div(sin_theta);
            self.qscale(c1).qadd(&b2.qscale(c2))
        }
    }
}

/// The scaled-axis construction applied to the zero vector yields the
/// identity rotation, whichever small-angle branch is taken.
pub proof fn lemma_from_scaled_axis_zero<T: Scalar>()
    ensures
        quat_from_scaled_axis_spec(vec3_zero_spec::<T>()) == quat_identity_spec::<T>(),
{
    let z = T::spec_zero();
    let half = T::spec_ratio(1, 2);
    T::law_mul_zero(z);
    T::law_add_zero(z);
    T::law_sqrt_zero();
    // the norm of the zero vector is zero, so the half angle is zero
    T::law_mul_comm(z, half);
    T::law_mul_zero(half);
    T::law_cos_zero();
    // whatever coefficient either branch produces, it scales the zero vector
    let k1 = half.spec_sub(z.spec_mul(z).spec_mul(T::spec_ratio(1, 48)));
    T::law_mul_comm(z, k1);
    T::law_mul_zero(k1);
    let k2 = z.spec_mul(half).spec_sin().spec_div(z);
    T::law_mul_comm(z, k2);
    T::law_mul_zero(k2);
}

/// The capability contract any concrete rotation representation must satisfy
/// to serve as a pose's rotation: scaled-axis construction and extraction,
/// pinned to the representation's own specification functions, which in turn
/// must agree with the representation's reading as a unit quaternion.
pub trait O3DRotation<T: Scalar>: Sized + Clone {
    /// The rotation's data read as a unit quaternion.
    spec fn unit_quat_spec(&self) -> Quat<T>;

    /// Abstract value of the scaled-axis extraction.
    spec fn spec_scaled_axis(&self) -> Vec3<T>;

    /// Abstract value of the scaled-axis construction.
    spec fn spec_from_scaled_axis(v: Vec3<T>) -> Self;

    /// The scaled-axis vector of this rotation.
    fn scaled_axis_of_rotation(&self) -> (r: Vec3<T>)
        ensures
            r == self.spec_scaled_axis(),
    ;

    /// Builds the rotation with scaled-axis vector `v`.
    fn from_scaled_axis_of_rotation(v: &Vec3<T>) -> (r: Self)
        ensures
            r == Self::spec_from_scaled_axis(*v),
    ;

    /// Composition of rotations: this rotation followed by `other` in this
    /// rotation's frame.
    fn mul(&self, other: &Self) -> (r: Self)
        ensures
            r.unit_quat_spec() == self.unit_quat_spec().spec_qmul(other.unit_quat_spec()),
    ;

    /// The inverse rotation.
    fn inverse(&self) -> (r: Self)
        ensures
            r.unit_quat_spec() == self.unit_quat_spec().spec_conj(),
    ;

    /// Spherical interpolation from this rotation (`t = 0`) towards `other`
    /// (`t = 1`).
    fn slerp(&self, other: &Self, t: T) -> (r: Self)
        ensures
            r.unit_quat_spec() == quat_slerp_spec(
                self.unit_quat_spec(),
                other.unit_quat_spec(),
                t,
            ),
    ;

    /// Extraction agrees with the quaternion reading of the rotation.
    proof fn law_scaled_axis_agrees(&self)
        ensures
            self.spec_scaled_axis() == quat_scaled_axis_spec(self.unit_quat_spec()),
    ;

    /// Construction agrees with the quaternion reading of the rotation.
    proof fn law_from_scaled_axis_agrees(v: Vec3<T>)
        ensures
            Self::spec_from_scaled_axis(v).unit_quat_spec() == quat_from_scaled_axis_spec(v),
    ;
}

impl<T: Scalar> O3DRotation<T> for Quat<T> {
    open spec fn unit_quat_spec(&self) -> Quat<T> {
        *self
    }

    open spec fn spec_scaled_axis(&self) -> Vec3<T> {
        quat_scaled_axis_spec(*self)
    }

    open spec fn spec_from_scaled_axis(v: Vec3<T>) -> Quat<T> {
        quat_from_scaled_axis_spec(v)
    }

    fn scaled_axis_of_rotation(&self) -> (r: Vec3<T>) {
        self.scaled_axis()
    }

    fn from_scaled_axis_of_rotation(v: &Vec3<T>) -> (r: Quat<T>) {
        Quat::from_scaled_axis(v)
    }

    fn mul(&self, other: &Quat<T>) -> (r: Quat<T>) {
        self.qmul(other)
    }

    fn inverse(&self) -> (r: Quat<T>) {
        Quat::inverse(self)
    }

    fn slerp(&self, other: &Quat<T>, t: T) -> (r: Quat<T>) {
        Quat::slerp(self, other, t)
    }

    proof fn law_scaled_axis_agrees(&self) {
    }

    proof fn law_from_scaled_axis_agrees(v: Vec3<T>) {
    }
}

/// A deferred way of producing a rotation of type `R`: decouples pose
/// construction from any concrete rotation type.
pub trait O3DRotationConstructor<T: Scalar, R: O3DRotation<T>>: Sized {
    /// Abstract value of the rotation this constructor produces.
    spec fn spec_construct(&self) -> R;

    /// Produces the rotation.
    fn construct(&self) -> (r: R)
        ensures
            r == self.spec_construct(),
    ;
}

/// A scaled-axis vector is a rotation constructor for any rotation
/// representation.
impl<T: Scalar, R: O3DRotation<T>> O3DRotationConstructor<T, R> for Vec3<T> {
    open spec fn spec_construct(&self) -> R {
        R::spec_from_scaled_axis(*self)
    }

    fn construct(&self) -> (r: R) {
        R::from_scaled_axis_of_rotation(self)
    }
}

} // verus!
