use optima_3d_pose::scalar::Scalar;
use optima_3d_pose::vec3::Vec3;
use optima_3d_pose::rotation::Quat;
use optima_3d_pose::pose::{ImplicitDualQuaternion, O3DLieAlgebraPose, O3DPose, O3DPoseType};
use optima_3d_pose::isometry::Isometry3;
use optima_3d_pose::lie::Twist;

/// Plain double-precision floating point as the scalar capability.
#[derive(Clone, Copy, Debug, PartialEq)]
struct F(f64);

impl Scalar for F {
    // The ghost members of the scalar capability survive compilation as
    // ordinary trait items; they are never called at run time, so each one
    // simply mirrors its executable counterpart, and the law obligations are
    // empty.
    fn spec_zero() -> F {
        F(0.0)
    }
    fn spec_one() -> F {
        F(1.0)
    }
    fn spec_ratio(num: i64, den: i64) -> F {
        F(num as f64 / den as f64)
    }
    fn spec_add(self, rhs: F) -> F {
        F(self.0 + rhs.0)
    }
    fn spec_sub(self, rhs: F) -> F {
        F(self.0 - rhs.0)
    }
    fn spec_mul(self, rhs: F) -> F {
        F(self.0 * rhs.0)
    }
    fn spec_div(self, rhs: F) -> F {
        F(self.0 / rhs.0)
    }
    fn spec_neg(self) -> F {
        F(-self.0)
    }
    fn spec_sqrt(self) -> F {
        F(self.0.sqrt())
    }
    fn spec_sin(self) -> F {
        F(self.0.sin())
    }
    fn spec_cos(self) -> F {
        F(self.0.cos())
    }
    fn spec_acos(self) -> F {
        F(self.0.acos())
    }
    fn spec_atan2(self, rhs: F) -> F {
        F(self.0.atan2(rhs.0))
    }
    fn spec_lt(self, rhs: F) -> bool {
        self.0 < rhs.0
    }
    fn law_add_comm(_a: F, _b: F) {}
    fn law_add_zero(_a: F) {}
    fn law_add_neg(_a: F) {}
    fn law_neg_add(_a: F, _b: F) {}
    fn law_neg_neg(_a: F) {}
    fn law_neg_zero() {}
    fn law_sub_def(_a: F, _b: F) {}
    fn law_mul_comm(_a: F, _b: F) {}
    fn law_mul_one(_a: F) {}
    fn law_mul_zero(_a: F) {}
    fn law_mul_neg(_a: F, _b: F) {}
    fn law_add_assoc(_a: F, _b: F, _c: F) {}
    fn law_mul_assoc(_a: F, _b: F, _c: F) {}
    fn law_distrib(_a: F, _b: F, _c: F) {}
    fn law_ratio_add(_n1: i64, _n2: i64, _s: i64, _d: i64) {}
    fn law_ratio_mul(_n1: i64, _d1: i64, _n2: i64, _d2: i64, _p: i64, _q: i64) {}
    fn law_sqrt_zero() {}
    fn law_cos_zero() {}

    fn zero() -> F {
        F(0.0)
    }
    fn one() -> F {
        F(1.0)
    }
    fn ratio(num: i64, den: i64) -> F {
        F(num as f64 / den as f64)
    }
    fn add(self, rhs: F) -> F {
        F(self.0 + rhs.0)
    }
    fn sub(self, rhs: F) -> F {
        F(self.0 - rhs.0)
    }
    fn mul(self, rhs: F) -> F {
        F(self.0 * rhs.0)
    }
    fn div(self, rhs: F) -> F {
        F(self.0 / rhs.0)
    }
    fn neg(self) -> F {
        F(-self.0)
    }
    fn sqrt(self) -> F {
        F(self.0.sqrt())
    }
    fn sin(self) -> F {
        F(self.0.sin())
    }
    fn cos(self) -> F {
        F(self.0.cos())
    }
    fn acos(self) -> F {
        F(self.0.acos())
    }
    fn atan2(self, rhs: F) -> F {
        F(self.0.atan2(rhs.0))
    }
    fn lt(self, rhs: F) -> bool {
        self.0 < rhs.0
    }
}

fn v(x: f64, y: f64, z: f64) -> Vec3<F> {
    Vec3::new(F(x), F(y), F(z))
}

fn close(a: f64, b: f64, tol: f64) -> bool {
    (a - b).abs() <= tol
}

fn pose_close(p: &ImplicitDualQuaternion<F>, q: &ImplicitDualQuaternion<F>, tol: f64) -> bool {
    let (pt, qt) = (p.translation(), q.translation());
    let (pr, qr) = (p.rotation(), q.rotation());
    close(pt.x.0, qt.x.0, tol) && close(pt.y.0, qt.y.0, tol) && close(pt.z.0, qt.z.0, tol)
        && close(pr.w.0, qr.w.0, tol) && close(pr.x.0, qr.x.0, tol) && close(pr.y.0, qr.y.0, tol)
        && close(pr.z.0, qr.z.0, tol)
}

/// A pose with the given translation and a rotation given by its scaled axis.
fn make_pose(t: [f64; 3], axis: [f64; 3]) -> ImplicitDualQuaternion<F> {
    let rotation = Quat::from_scaled_axis(&v(axis[0], axis[1], axis[2]));
    ImplicitDualQuaternion::from_translation_and_rotation(&v(t[0], t[1], t[2]), &rotation)
}

#[test]
fn identity_pose_is_neutral_data() {
    let id = ImplicitDualQuaternion::<F>::identity();
    let t = id.translation();
    let r = id.rotation();
    assert_eq!((t.x.0, t.y.0, t.z.0), (0.0, 0.0, 0.0));
    assert_eq!((r.w.0, r.x.0, r.y.0, r.z.0), (1.0, 0.0, 0.0, 0.0));
}

#[test]
fn type_identifiers() {
    assert_eq!(
        ImplicitDualQuaternion::<F>::type_identifier(),
        O3DPoseType::ImplicitDualQuaternion
    );
    assert_eq!(Isometry3::<F>::type_identifier(), O3DPoseType::Isometry3);
}

#[test]
fn mul_identity_left_and_right() {
    let p = make_pose([0.4, -2.5, 7.0], [0.3, -0.2, 0.9]);
    let id = ImplicitDualQuaternion::<F>::identity();
    assert!(pose_close(&p.mul(&id), &p, 1e-15));
    assert!(pose_close(&id.mul(&p), &p, 1e-15));
}

#[test]
fn mul_associativity_within_tolerance() {
    let a = make_pose([1.0, 2.0, 3.0], [0.1, 0.2, 0.3]);
    let b = make_pose([-4.0, 0.5, 2.0], [0.7, -0.1, 0.4]);
    let c = make_pose([0.0, -1.0, 5.0], [-0.3, 0.8, 0.2]);
    assert!(pose_close(&a.mul(&b).mul(&c), &a.mul(&b.mul(&c)), 1e-12));
}

#[test]
fn inverse_law_randomized_grid() {
    // a deterministic spread of translations in [-100, 100]^3 and varied rotations
    let mut seed: u64 = 0x2545F4914F6CDD1D;
    let mut next = || {
        seed ^= seed << 13;
        seed ^= seed >> 7;
        seed ^= seed << 17;
        (seed as f64 / u64::MAX as f64) * 2.0 - 1.0
    };
    for _ in 0..25 {
        let p = make_pose(
            [next() * 100.0, next() * 100.0, next() * 100.0],
            [next() * 3.0, next() * 3.0, next() * 3.0],
        );
        let e = p.mul(&p.inverse());
        assert!(pose_close(&e, &ImplicitDualQuaternion::<F>::identity(), 1e-9));
    }
}

#[test]
fn log_exp_round_trip_generic_poses() {
    let cases: [([f64; 3], [f64; 3]); 4] = [
        ([1.0, 2.0, 3.0], [0.4, -0.8, 0.3]),
        ([-5.0, 0.0, 9.0], [2.0, 1.0, -1.5]),
        ([0.0, 0.0, 0.0], [0.0, 0.0, 1.2]),
        ([3.0, -4.0, 5.0], [-0.9, 0.2, 0.6]),
    ];
    for (t, axis) in cases {
        let p = make_pose(t, axis);
        let back = ImplicitDualQuaternion::exp(&p.ln());
        assert!(pose_close(&back, &p, 1e-12));
    }
}

#[test]
fn log_exp_round_trip_near_identity() {
    let p = make_pose([0.5, -0.25, 0.125], [1e-11, -2e-11, 1.5e-11]);
    let back = ImplicitDualQuaternion::exp(&p.ln());
    assert!(pose_close(&back, &p, 1e-15));
}

#[test]
fn log_exp_round_trip_near_half_turn() {
    let angle = std::f64::consts::PI - 1e-7;
    let p = make_pose([2.0, -1.0, 4.0], [0.0, 0.0, angle]);
    let back = ImplicitDualQuaternion::exp(&p.ln());
    assert!(pose_close(&back, &p, 1e-8));
}

#[test]
fn dis_of_pose_with_itself_is_zero() {
    let p = make_pose([10.0, -3.0, 2.5], [0.5, 0.5, -0.5]);
    assert_eq!(p.dis(&p).0, 0.0);
}

#[test]
fn dis_zero_iff_displacement_identity() {
    let p = make_pose([1.0, 2.0, 3.0], [0.3, 0.1, -0.2]);
    let q = make_pose([1.0, 2.0, 3.0 + 1e-3], [0.3, 0.1, -0.2]);
    // distinct poses: displacement is not the identity, and dis is nonzero
    let d = p.dis(&q);
    assert!(d.0 > 1e-6);
    let disp = p.displacement(&q);
    assert!(!pose_close(&disp, &ImplicitDualQuaternion::<F>::identity(), 1e-6));
    // and for equal poses the displacement is numerically the identity
    let disp_self = p.displacement(&p);
    assert!(pose_close(&disp_self, &ImplicitDualQuaternion::<F>::identity(), 1e-12));
}

#[test]
fn interpolation_boundaries_and_unit_norm() {
    let p = make_pose([0.0, 1.0, -2.0], [0.2, 0.9, -0.4]);
    let q = make_pose([5.0, -3.0, 0.5], [-1.1, 0.3, 0.8]);
    assert!(pose_close(&p.interpolate(&q, F(0.0)), &p, 1e-12));
    assert!(pose_close(&p.interpolate(&q, F(1.0)), &q, 1e-12));
    let mut t = 0.0;
    while t <= 1.0 {
        let m = p.interpolate(&q, F(t));
        assert!(close(m.rotation().norm_sq().0, 1.0, 1e-9));
        t += 0.125;
    }
}

#[test]
fn concrete_scenario_quarter_turn_about_z() {
    // translation (1,0,0), rotation 90 degrees about Z
    let half_pi = std::f64::consts::FRAC_PI_2;
    let p = make_pose([1.0, 0.0, 0.0], [0.0, 0.0, half_pi]);
    let twice = p.mul(&p);
    let t = twice.translation();
    assert!(close(t.x.0, 1.0, 1e-12));
    assert!(close(t.y.0, 1.0, 1e-12));
    assert!(close(t.z.0, 0.0, 1e-12));
    let axis = twice.rotation().scaled_axis();
    assert!(close(axis.x.0, 0.0, 1e-12));
    assert!(close(axis.y.0, 0.0, 1e-12));
    assert!(close(axis.z.0, 2.0 * half_pi, 1e-12));
    // the original is at distance zero from its inverse composed with the result
    let back = p.inverse().mul(&twice);
    assert!(close(p.dis(&back).0, 0.0, 1e-12));
}

#[test]
fn displacement_composes_inverse_and_mul() {
    let p = make_pose([1.0, 2.0, 3.0], [0.2, -0.4, 0.6]);
    let q = make_pose([-2.0, 0.5, 1.5], [0.9, 0.1, -0.3]);
    let d1 = p.displacement(&q);
    let d2 = p.inverse().mul(&q);
    assert!(pose_close(&d1, &d2, 0.0));
}

#[test]
fn update_operations_replace_fields_in_place() {
    let mut p = make_pose([1.0, 2.0, 3.0], [0.3, 0.0, 0.0]);
    p.update_translation(&[F(9.0), F(8.0), F(7.0)]);
    let t = p.translation();
    assert_eq!((t.x.0, t.y.0, t.z.0), (9.0, 8.0, 7.0));

    let native = Quat::from_scaled_axis(&v(0.0, 0.5, 0.0));
    p.update_rotation_native(&native);
    assert_eq!(p.rotation().w.0, native.w.0);
    assert_eq!(p.rotation().y.0, native.y.0);

    // a scaled-axis vector acts as a rotation constructor
    p.update_rotation_constructor(&v(0.0, 0.0, 0.25));
    let expected = Quat::<F>::from_scaled_axis(&v(0.0, 0.0, 0.25));
    assert_eq!(p.rotation().w.0, expected.w.0);
    assert_eq!(p.rotation().z.0, expected.z.0);

    // a foreign rotation is carried over through its scaled axis
    let foreign = Quat::<F>::from_scaled_axis(&v(0.4, -0.2, 0.1));
    p.update_rotation_direct(&foreign);
    let rebuilt = Quat::from_scaled_axis(&foreign.scaled_axis());
    assert!(close(p.rotation().w.0, rebuilt.w.0, 0.0));
    assert!(close(p.rotation().x.0, rebuilt.x.0, 0.0));
}

#[test]
fn isometry_agrees_with_dual_quaternion_representation() {
    let cases: [([f64; 3], [f64; 3]); 3] = [
        ([1.0, 2.0, 3.0], [0.4, -0.8, 0.3]),
        ([-5.0, 0.0, 9.0], [1.2, 0.7, -0.5]),
        ([0.5, 0.25, -0.75], [0.0, 0.0, 1.0]),
    ];
    for (t, axis) in cases {
        let rot = Quat::<F>::from_scaled_axis(&v(axis[0], axis[1], axis[2]));
        let a1 = ImplicitDualQuaternion::from_translation_and_rotation(&v(t[0], t[1], t[2]), &rot);
        let b1 = Isometry3::from_translation_and_rotation(&v(t[0], t[1], t[2]), &rot);
        let a2 = a1.mul(&a1.inverse());
        let b2 = b1.mul(&b1.inverse());
        // both representations compute identical data for every operation
        assert_eq!(a2.translation().x.0, b2.translation().x.0);
        assert_eq!(a2.rotation().w.0, b2.rotation().w.0);
        assert_eq!(a1.dis(&a2).0, b1.dis(&b2).0);
        let ai = a1.interpolate(&a2, F(0.375));
        let bi = b1.interpolate(&b2, F(0.375));
        assert_eq!(ai.translation().y.0, bi.translation().y.0);
        assert_eq!(ai.rotation().z.0, bi.rotation().z.0);
    }
}

#[test]
fn slerp_takes_shorter_arc() {
    let a = Quat::<F>::from_scaled_axis(&v(0.0, 0.0, 0.1));
    // nearly a full turn the other way: the antipodal flip must kick in
    let b = Quat::<F>::from_scaled_axis(&v(0.0, 0.0, 2.0 * std::f64::consts::PI - 0.1));
    let mid = a.slerp(&b, F(0.5));
    let axis = mid.scaled_axis();
    // halfway along the short arc stays near angle zero, not near pi
    assert!(axis.z.0.abs() < 0.2);
}

#[test]
fn construct_via_rotation_constructor() {
    // a scaled-axis vector acts as a deferred rotation constructor
    let p = ImplicitDualQuaternion::<F>::from_translation_and_rotation_constructor(
        &v(1.0, 2.0, 3.0),
        &v(0.0, 0.0, 0.5),
    );
    let expected = Quat::<F>::from_scaled_axis(&v(0.0, 0.0, 0.5));
    assert_eq!(p.rotation().w.0, expected.w.0);
    assert_eq!(p.rotation().z.0, expected.z.0);
    assert_eq!(p.translation().x.0, 1.0);
    assert_eq!(p.translation().z.0, 3.0);
}

#[test]
fn vector_algebra_exact_values() {
    let a = v(1.0, 2.0, 3.0);
    let b = v(4.0, 5.0, 6.0);
    assert_eq!(a.dot(&b).0, 32.0);
    let c = a.cross(&b);
    assert_eq!((c.x.0, c.y.0, c.z.0), (-3.0, 6.0, -3.0));
    assert_eq!(v(1.0, 2.0, 2.0).norm().0, 3.0);
    let s = a.scale(F(2.0));
    assert_eq!((s.x.0, s.y.0, s.z.0), (2.0, 4.0, 6.0));
    let n = a.vneg();
    assert_eq!((n.x.0, n.y.0, n.z.0), (-1.0, -2.0, -3.0));
}

#[test]
fn twist_norm_exact_value() {
    let tw = Twist { rotation: v(1.0, 2.0, 2.0), translation: v(0.0, 4.0, 0.0) };
    // sqrt(1 + 4 + 4 + 16) = 5
    assert_eq!(tw.norm().0, 5.0);
}

#[test]
fn scaled_axis_of_identity_is_zero() {
    let id = Quat::<F>::identity();
    let axis = id.scaled_axis();
    assert_eq!((axis.x.0, axis.y.0, axis.z.0), (0.0, 0.0, 0.0));
    assert_eq!(id.norm_sq().0, 1.0);
}

#[test]
fn from_scaled_axis_small_angle_branch_round_trips() {
    let tiny = v(1e-12, -2e-12, 0.5e-12);
    let q = Quat::from_scaled_axis(&tiny);
    assert!(close(q.w.0, 1.0, 1e-20));
    let back = q.scaled_axis();
    assert!(close(back.x.0, 1e-12, 1e-24));
    assert!(close(back.y.0, -2e-12, 1e-24));
    assert!(close(back.z.0, 0.5e-12, 1e-24));
}

#[test]
fn scaled_axis_keeps_angles_beyond_half_turn() {
    // 270 degrees about Z: the extraction reports the same turn, not the
    // shorter opposite one, so the round trip is exact up to rounding
    let angle = 1.5 * std::f64::consts::PI;
    let q = Quat::<F>::from_scaled_axis(&v(0.0, 0.0, angle));
    assert!(q.w.0 < 0.0);
    let back = q.scaled_axis();
    assert!(close(back.z.0, angle, 1e-12));
    assert!(close(back.x.0, 0.0, 1e-12));
}

#[test]
fn isometry_native_operators_back_the_pose_contract() {
    let rot = Quat::<F>::from_scaled_axis(&v(0.4, -0.1, 0.3));
    let a = Isometry3::from_parts(v(1.0, -2.0, 0.5), rot);
    let rot_b = Quat::<F>::from_scaled_axis(&v(-0.2, 0.6, 0.1));
    let b = Isometry3::from_parts(v(3.0, 0.0, -1.0), rot_b);
    let via_native = a.compose(&b);
    let via_trait = a.mul(&b);
    assert_eq!(via_native.translation().x.0, via_trait.translation().x.0);
    assert_eq!(via_native.rotation().w.0, via_trait.rotation().w.0);
    let inv_native = a.inverted();
    let inv_trait = a.inverse();
    assert_eq!(inv_native.translation().y.0, inv_trait.translation().y.0);
    assert_eq!(inv_native.rotation().x.0, inv_trait.rotation().x.0);
    let m_native = a.lerp_slerp(&b, F(0.25));
    let m_trait = a.interpolate(&b, F(0.25));
    assert_eq!(m_native.translation().z.0, m_trait.translation().z.0);
    assert_eq!(m_native.rotation().z.0, m_trait.rotation().z.0);
}

#[test]
fn isometry_updates_replace_fields_in_place() {
    let mut p = Isometry3::from_parts(v(0.0, 0.0, 0.0), Quat::<F>::identity());
    p.update_translation(&[F(1.0), F(2.0), F(3.0)]);
    assert_eq!(p.translation().z.0, 3.0);
    let native = Quat::<F>::from_scaled_axis(&v(0.0, 0.3, 0.0));
    p.update_rotation_native(&native);
    assert_eq!(p.rotation().y.0, native.y.0);
    assert_eq!(p.translation().x.0, 1.0);
}

#[test]
fn lie_algebra_pose_exposes_kernel_maps() {
    let p = make_pose([2.0, 0.0, -1.0], [0.0, 0.7, 0.0]);
    let tw = p.ln();
    // the rotation generator is the half-angle scaled axis of the rotation
    assert!(close(tw.rotation.y.0, 0.35, 1e-12));
    assert!(close(tw.rotation.x.0, 0.0, 1e-12));
    let back = ImplicitDualQuaternion::exp(&tw);
    assert!(pose_close(&back, &p, 1e-12));
}
