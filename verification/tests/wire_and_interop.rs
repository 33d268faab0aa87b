use optima_3d_pose::scalar::Scalar;
use optima_3d_pose::vec3::Vec3;
use optima_3d_pose::rotation::Quat;
use optima_3d_pose::pose::{ImplicitDualQuaternion, O3DPose};
use optima_3d_pose::isometry::Isometry3;
use optima_3d_pose::codec::{
    o3d_pose_custom_deserialize, o3d_pose_custom_serialize, PoseDecodeError,
};

/// Plain double-precision floating point as the scalar capability.
#[derive(Clone, Copy, Debug, PartialEq)]
struct F(f64);

impl Scalar for F {
    // Ghost members of the capability survive compilation as ordinary trait
    // items; they are never called at run time, so each mirrors its
    // executable counterpart, and the law obligations are empty.
    fn spec_zero() -> F {
        F(0.0)
    }
    fn spec_one() -> F {
        F(1.0)
    }
    fn spec_ratio(num: i64, den: i64) -> F {
        F(num as f64 / den as f64)
    }
    fn spec_add(self, rhs: F) -> F {
        F(self.0 + rhs.0)
    }
    fn spec_sub(self, rhs: F) -> F {
        F(self.0 - rhs.0)
    }
    fn spec_mul(self, rhs: F) -> F {
        F(self.0 * rhs.0)
    }
    fn spec_div(self, rhs: F) -> F {
        F(self.0 / rhs.0)
    }
    fn spec_neg(self) -> F {
        F(-self.0)
    }
    fn spec_sqrt(self) -> F {
        F(self.0.sqrt())
    }
    fn spec_sin(self) -> F {
        F(self.0.sin())
    }
    fn spec_cos(self) -> F {
        F(self.0.cos())
    }
    fn spec_acos(self) -> F {
        F(self.0.acos())
    }
    fn spec_atan2(self, rhs: F) -> F {
        F(self.0.atan2(rhs.0))
    }
    fn spec_lt(self, rhs: F) -> bool {
        self.0 < rhs.0
    }
    fn law_add_comm(_a: F, _b: F) {}
    fn law_add_zero(_a: F) {}
    fn law_add_neg(_a: F) {}
    fn law_neg_add(_a: F, _b: F) {}
    fn law_neg_neg(_a: F) {}
    fn law_neg_zero() {}
    fn law_sub_def(_a: F, _b: F) {}
    fn law_mul_comm(_a: F, _b: F) {}
    fn law_mul_one(_a: F) {}
    fn law_mul_zero(_a: F) {}
    fn law_mul_neg(_a: F, _b: F) {}
    fn law_add_assoc(_a: F, _b: F, _c: F) {}
    fn law_mul_assoc(_a: F, _b: F, _c: F) {}
    fn law_distrib(_a: F, _b: F, _c: F) {}
    fn law_ratio_add(_n1: i64, _n2: i64, _s: i64, _d: i64) {}
    fn law_ratio_mul(_n1: i64, _d1: i64, _n2: i64, _d2: i64, _p: i64, _q: i64) {}
    fn law_sqrt_zero() {}
    fn law_cos_zero() {}

    fn zero() -> F {
        F(0.0)
    }
    fn one() -> F {
        F(1.0)
    }
    fn ratio(num: i64, den: i64) -> F {
        F(num as f64 / den as f64)
    }
    fn add(self, rhs: F) -> F {
        F(self.0 + rhs.0)
    }
    fn sub(self, rhs: F) -> F {
        F(self.0 - rhs.0)
    }
    fn mul(self, rhs: F) -> F {
        F(self.0 * rhs.0)
    }
    fn div(self, rhs: F) -> F {
        F(self.0 / rhs.0)
    }
    fn neg(self) -> F {
        F(-self.0)
    }
    fn sqrt(self) -> F {
        F(self.0.sqrt())
    }
    fn sin(self) -> F {
        F(self.0.sin())
    }
    fn cos(self) -> F {
        F(self.0.cos())
    }
    fn acos(self) -> F {
        F(self.0.acos())
    }
    fn atan2(self, rhs: F) -> F {
        F(self.0.atan2(rhs.0))
    }
    fn lt(self, rhs: F) -> bool {
        self.0 < rhs.0
    }
}

fn v(x: f64, y: f64, z: f64) -> Vec3<F> {
    Vec3::new(F(x), F(y), F(z))
}

fn close(a: f64, b: f64, tol: f64) -> bool {
    (a - b).abs() <= tol
}

fn make_pose(t: [f64; 3], axis: [f64; 3]) -> ImplicitDualQuaternion<F> {
    let rotation = Quat::from_scaled_axis(&v(axis[0], axis[1], axis[2]));
    ImplicitDualQuaternion::from_translation_and_rotation(&v(t[0], t[1], t[2]), &rotation)
}

#[test]
fn serialize_produces_six_values_in_wire_order() {
    let p = make_pose([1.5, -2.0, 0.25], [0.0, 0.0, 0.9]);
    let wire = o3d_pose_custom_serialize(&p);
    assert_eq!(wire.len(), 6);
    assert_eq!(wire[0].0, 1.5);
    assert_eq!(wire[1].0, -2.0);
    assert_eq!(wire[2].0, 0.25);
    let axis = p.rotation().scaled_axis();
    assert_eq!(wire[3].0, axis.x.0);
    assert_eq!(wire[4].0, axis.y.0);
    assert_eq!(wire[5].0, axis.z.0);
    assert!(close(wire[5].0, 0.9, 1e-12));
}

#[test]
fn decode_of_encode_reproduces_translation_exactly() {
    let p = make_pose([0.1 + 0.2, -7.25, 1e-30], [0.4, -0.5, 0.6]);
    let wire = o3d_pose_custom_serialize(&p);
    let back: ImplicitDualQuaternion<F> = o3d_pose_custom_deserialize(&wire).unwrap();
    // translation survives bit for bit
    assert_eq!(back.translation().x.0, p.translation().x.0);
    assert_eq!(back.translation().y.0, p.translation().y.0);
    assert_eq!(back.translation().z.0, p.translation().z.0);
    // rotation survives up to scaled-axis equivalence
    assert!(close(back.rotation().w.0, p.rotation().w.0, 1e-12));
    assert!(close(back.rotation().x.0, p.rotation().x.0, 1e-12));
    assert!(close(back.rotation().y.0, p.rotation().y.0, 1e-12));
    assert!(close(back.rotation().z.0, p.rotation().z.0, 1e-12));
}

#[test]
fn decode_rejects_wrong_element_count() {
    let short = [F(1.0), F(2.0), F(3.0), F(4.0), F(5.0)];
    let r: Result<ImplicitDualQuaternion<F>, PoseDecodeError> =
        o3d_pose_custom_deserialize(&short);
    assert_eq!(r.unwrap_err(), PoseDecodeError::WrongElementCount);
    let long = [F(0.0); 7];
    let r: Result<Isometry3<F>, PoseDecodeError> = o3d_pose_custom_deserialize(&long);
    assert_eq!(r.unwrap_err(), PoseDecodeError::WrongElementCount);
    let empty: [F; 0] = [];
    let r: Result<ImplicitDualQuaternion<F>, PoseDecodeError> =
        o3d_pose_custom_deserialize(&empty);
    assert_eq!(r.unwrap_err(), PoseDecodeError::WrongElementCount);
}

#[test]
fn wire_format_round_trips_through_json() {
    let p = make_pose([3.5, -1.25, 8.0], [0.2, 0.3, -0.4]);
    let wire = o3d_pose_custom_serialize(&p);
    // lower to the base numeric type and pass through a real wire format
    let as_f64: Vec<f64> = wire.iter().map(|e| e.0).collect();
    let json = format!(
        "[{},{},{},{},{},{}]",
        as_f64[0], as_f64[1], as_f64[2], as_f64[3], as_f64[4], as_f64[5]
    );
    let parsed: Vec<f64> = serde_json::from_str(&json).unwrap();
    let lifted: Vec<F> = parsed.into_iter().map(F).collect();
    let back: ImplicitDualQuaternion<F> = o3d_pose_custom_deserialize(&lifted).unwrap();
    assert!(close(back.translation().x.0, 3.5, 1e-12));
    assert!(close(back.translation().y.0, -1.25, 1e-12));
    assert!(close(back.translation().z.0, 8.0, 1e-12));
    assert!(close(back.rotation().w.0, p.rotation().w.0, 1e-12));
    assert!(close(back.rotation().z.0, p.rotation().z.0, 1e-12));
}

#[test]
fn codec_works_for_both_representations() {
    let rot = Quat::<F>::from_scaled_axis(&v(0.3, -0.6, 0.2));
    let a = ImplicitDualQuaternion::from_translation_and_rotation(&v(1.0, 2.0, 3.0), &rot);
    let b = Isometry3::from_translation_and_rotation(&v(1.0, 2.0, 3.0), &rot);
    let wa = o3d_pose_custom_serialize(&a);
    let wb = o3d_pose_custom_serialize(&b);
    for i in 0..6 {
        assert_eq!(wa[i].0, wb[i].0);
    }
    // a wire form produced by one representation decodes into the other
    let cross: Isometry3<F> = o3d_pose_custom_deserialize(&wa).unwrap();
    assert_eq!(cross.translation().y.0, 2.0);
    assert!(close(cross.rotation().w.0, rot.w.0, 1e-12));
}

#[test]
fn quaternion_construction_matches_nalgebra() {
    let cases = [[0.3, -0.6, 0.2], [1.5, 0.0, -2.0], [0.0, 0.0, 1.0]];
    for axis in cases {
        let ours = Quat::<F>::from_scaled_axis(&v(axis[0], axis[1], axis[2]));
        let theirs = nalgebra::UnitQuaternion::from_scaled_axis(nalgebra::Vector3::new(
            axis[0], axis[1], axis[2],
        ));
        assert!(close(ours.w.0, theirs.w, 1e-14));
        assert!(close(ours.x.0, theirs.i, 1e-14));
        assert!(close(ours.y.0, theirs.j, 1e-14));
        assert!(close(ours.z.0, theirs.k, 1e-14));
    }
}

#[test]
fn composition_matches_nalgebra_isometry() {
    let na_a = nalgebra::Isometry3::new(
        nalgebra::Vector3::new(1.0, 2.0, 3.0),
        nalgebra::Vector3::new(0.4, -0.8, 0.3),
    );
    let na_b = nalgebra::Isometry3::new(
        nalgebra::Vector3::new(-2.0, 0.5, 1.5),
        nalgebra::Vector3::new(0.9, 0.1, -0.3),
    );
    let na_c = na_a * na_b;

    let a = make_pose([1.0, 2.0, 3.0], [0.4, -0.8, 0.3]);
    let b = make_pose([-2.0, 0.5, 1.5], [0.9, 0.1, -0.3]);
    let c = a.mul(&b);

    assert!(close(c.translation().x.0, na_c.translation.vector.x, 1e-12));
    assert!(close(c.translation().y.0, na_c.translation.vector.y, 1e-12));
    assert!(close(c.translation().z.0, na_c.translation.vector.z, 1e-12));
    assert!(close(c.rotation().w.0, na_c.rotation.w, 1e-12));
    assert!(close(c.rotation().x.0, na_c.rotation.i, 1e-12));
    assert!(close(c.rotation().y.0, na_c.rotation.j, 1e-12));
    assert!(close(c.rotation().z.0, na_c.rotation.k, 1e-12));
}

#[test]
fn inverse_and_slerp_match_nalgebra() {
    let na_a = nalgebra::Isometry3::new(
        nalgebra::Vector3::new(4.0, -1.0, 2.0),
        nalgebra::Vector3::new(0.2, 0.5, -0.1),
    );
    let na_b = nalgebra::Isometry3::new(
        nalgebra::Vector3::new(0.0, 3.0, -2.0),
        nalgebra::Vector3::new(-0.4, 0.2, 0.7),
    );
    let a = make_pose([4.0, -1.0, 2.0], [0.2, 0.5, -0.1]);
    let b = make_pose([0.0, 3.0, -2.0], [-0.4, 0.2, 0.7]);

    let na_inv = na_a.inverse();
    let inv = a.inverse();
    assert!(close(inv.translation().x.0, na_inv.translation.vector.x, 1e-12));
    assert!(close(inv.rotation().w.0, na_inv.rotation.w, 1e-12));
    assert!(close(inv.rotation().z.0, na_inv.rotation.k, 1e-12));

    let na_m = na_a.lerp_slerp(&na_b, 0.375);
    let m = a.interpolate(&b, F(0.375));
    assert!(close(m.translation().x.0, na_m.translation.vector.x, 1e-12));
    assert!(close(m.translation().y.0, na_m.translation.vector.y, 1e-12));
    assert!(close(m.rotation().w.0, na_m.rotation.w, 1e-9));
    assert!(close(m.rotation().x.0, na_m.rotation.i, 1e-9));
    assert!(close(m.rotation().y.0, na_m.rotation.j, 1e-9));
    assert!(close(m.rotation().z.0, na_m.rotation.k, 1e-9));
}
