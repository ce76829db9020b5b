//! The stack's hand-rolled linear algebra against cgmath's, on exactly
//! representable values, where both must compute the same results.

use matrix_stack::Matrix4;
use matrix_stack::MatrixStack;
use matrix_stack::Point3;
use matrix_stack::Scalar;
use matrix_stack::Vector3;

/// `f32` as a scalar; see `stack_f32.rs`.
#[derive(Clone, Copy, PartialEq, Debug)]
struct R32(f32);

impl Scalar for R32 {
    // The specification twins mirror the executable operations, and the law
    // obligations have nothing to run: both exist for the verifier, which
    // does not model floating point, so this binding is not verified.
    fn zero_spec() -> R32 {
        R32(0.0)
    }

    fn one_spec() -> R32 {
        R32(1.0)
    }

    fn add_spec(self, rhs: R32) -> R32 {
        R32(self.0 + rhs.0)
    }

    fn mul_spec(self, rhs: R32) -> R32 {
        R32(self.0 * rhs.0)
    }

    fn div_spec(self, rhs: R32) -> R32 {
        R32(self.0 / rhs.0)
    }

    fn law_add_zero(_x: R32) {}

    fn law_mul_one(_x: R32) {}

    fn law_mul_zero(_x: R32) {}

    fn law_div_one(_x: R32) {}

    fn zero() -> R32 {
        R32(0.0)
    }

    fn one() -> R32 {
        R32(1.0)
    }

    fn add(self, rhs: R32) -> R32 {
        R32(self.0 + rhs.0)
    }

    fn mul(self, rhs: R32) -> R32 {
        R32(self.0 * rhs.0)
    }

    fn div(self, rhs: R32) -> R32 {
        R32(self.0 / rhs.0)
    }
}

fn a() -> [f32; 16] {
    [1.0, 2.0, -3.0, 0.0, 0.5, -1.0, 4.0, 0.0, 2.0, 7.0, 1.0, 0.0, 5.0, -6.0, 8.0, 1.0]
}

fn b() -> [f32; 16] {
    [-2.0, 1.0, 0.0, 0.0, 3.0, 2.0, -1.0, 0.0, 0.25, 0.0, 6.0, 0.0, -7.0, 4.0, 9.0, 1.0]
}

fn ours(e: &[f32; 16]) -> Matrix4<R32> {
    Matrix4::new(
        R32(e[0]), R32(e[1]), R32(e[2]), R32(e[3]),
        R32(e[4]), R32(e[5]), R32(e[6]), R32(e[7]),
        R32(e[8]), R32(e[9]), R32(e[10]), R32(e[11]),
        R32(e[12]), R32(e[13]), R32(e[14]), R32(e[15]),
    )
}

fn theirs(e: &[f32; 16]) -> cgmath::Matrix4<f32> {
    cgmath::Matrix4::new(
        e[0], e[1], e[2], e[3], e[4], e[5], e[6], e[7], e[8], e[9], e[10], e[11], e[12], e[13],
        e[14], e[15],
    )
}

fn entries(m: &Matrix4<R32>) -> [f32; 16] {
    [
        m.x.x.0, m.x.y.0, m.x.z.0, m.x.w.0, m.y.x.0, m.y.y.0, m.y.z.0, m.y.w.0, m.z.x.0, m.z.y.0,
        m.z.z.0, m.z.w.0, m.w.x.0, m.w.y.0, m.w.z.0, m.w.w.0,
    ]
}

fn cg_entries(m: &cgmath::Matrix4<f32>) -> [f32; 16] {
    [
        m.x.x, m.x.y, m.x.z, m.x.w, m.y.x, m.y.y, m.y.z, m.y.w, m.z.x, m.z.y, m.z.z, m.z.w,
        m.w.x, m.w.y, m.w.z, m.w.w,
    ]
}

#[test]
fn matrix_product_agrees_with_cgmath() {
    let product = ours(&a()).mul_matrix(&ours(&b()));
    let cg_product = theirs(&a()) * theirs(&b());
    assert_eq!(entries(&product), cg_entries(&cg_product));
}

#[test]
fn composed_stack_agrees_with_cgmath() {
    let mut s: MatrixStack<R32> = MatrixStack::new();
    s.transform(ours(&a()));
    s.transform(ours(&b()));
    let cg_current = theirs(&a()) * theirs(&b());
    assert_eq!(entries(&s.get_matrix()), cg_entries(&cg_current));
}

#[test]
fn point_and_vector_transforms_agree_with_cgmath() {
    let mut s: MatrixStack<R32> = MatrixStack::new();
    s.transform(ours(&a()));

    let p = s.transform_point(Point3::new(R32(1.0), R32(-2.0), R32(3.0)));
    let cg_p = cgmath::Point3::from_homogeneous(
        theirs(&a()) * cgmath::Point3::new(1.0f32, -2.0, 3.0).to_homogeneous(),
    );
    assert_eq!([p.x.0, p.y.0, p.z.0], [cg_p.x, cg_p.y, cg_p.z]);

    let v = s.transform_vector(Vector3::new(R32(1.0), R32(-2.0), R32(3.0)));
    let cg_v = (theirs(&a()) * cgmath::Vector3::new(1.0f32, -2.0, 3.0).extend(0.0)).truncate();
    assert_eq!([v.x.0, v.y.0, v.z.0], [cg_v.x, cg_v.y, cg_v.z]);
}

#[test]
fn embedded_rotation_agrees_with_cgmath() {
    let r = [0.0f32, 1.0, 0.0, -1.0, 0.0, 0.0, 0.0, 0.0, 1.0];
    let ours_r = matrix_stack::Matrix3::new(
        R32(r[0]), R32(r[1]), R32(r[2]), R32(r[3]), R32(r[4]), R32(r[5]), R32(r[6]), R32(r[7]),
        R32(r[8]),
    );
    let cg_r = cgmath::Matrix3::new(r[0], r[1], r[2], r[3], r[4], r[5], r[6], r[7], r[8]);

    let mut s: MatrixStack<R32> = MatrixStack::new();
    s.rotate(ours_r);
    let cg_lifted: cgmath::Matrix4<f32> = cgmath::Matrix4::from(cg_r);
    assert_eq!(entries(&s.get_matrix()), cg_entries(&cg_lifted));
}
