//! Tests of the transform stack over a single-precision floating-point
//! scalar, the binding the stack is typically used with. The chosen values
//! are exactly representable, so the expected results are exact.

use matrix_stack::Matrix4;
use matrix_stack::MatrixStack;
use matrix_stack::Point3;
use matrix_stack::Scalar;
use matrix_stack::Vector3;

/// `f32` as a scalar. The verifier does not model floating point, so this
/// binding lives with the tests; the algebraic laws hold of it up to IEEE
/// equality on finite values.
#[derive(Clone, Copy, PartialEq, Debug)]
struct R32(f32);

impl Scalar for R32 {
    // The specification twins mirror the executable operations, and the law
    // obligations have nothing to run: both exist for the verifier, which
    // does not model floating point, so this binding is not verified.
    fn zero_spec() -> R32 {
        R32(0.0)
    }

    fn one_spec() -> R32 {
        R32(1.0)
    }

    fn add_spec(self, rhs: R32) -> R32 {
        R32(self.0 + rhs.0)
    }

    fn mul_spec(self, rhs: R32) -> R32 {
        R32(self.0 * rhs.0)
    }

    fn div_spec(self, rhs: R32) -> R32 {
        R32(self.0 / rhs.0)
    }

    fn law_add_zero(_x: R32) {}

    fn law_mul_one(_x: R32) {}

    fn law_mul_zero(_x: R32) {}

    fn law_div_one(_x: R32) {}

    fn zero() -> R32 {
        R32(0.0)
    }

    fn one() -> R32 {
        R32(1.0)
    }

    fn add(self, rhs: R32) -> R32 {
        R32(self.0 + rhs.0)
    }

    fn mul(self, rhs: R32) -> R32 {
        R32(self.0 * rhs.0)
    }

    fn div(self, rhs: R32) -> R32 {
        R32(self.0 / rhs.0)
    }
}

fn scale(s: f32) -> Matrix4<R32> {
    let z = R32(0.0);
    let o = R32(1.0);
    let s = R32(s);
    Matrix4::new(s, z, z, z, z, s, z, z, z, z, s, z, z, z, z, o)
}

fn translate(x: f32, y: f32, z: f32) -> Matrix4<R32> {
    let n = R32(0.0);
    let o = R32(1.0);
    Matrix4::new(o, n, n, n, n, o, n, n, n, n, o, n, R32(x), R32(y), R32(z), o)
}

fn point(x: f32, y: f32, z: f32) -> Point3<R32> {
    Point3::new(R32(x), R32(y), R32(z))
}

#[test]
fn fresh_stack_is_identity() {
    let mut s: MatrixStack<R32> = MatrixStack::new();
    assert_eq!(s.get_matrix(), Matrix4::identity());
    assert_eq!(s.pop(), Matrix4::identity());
}

#[test]
fn scale_then_translate_scenario_f32() {
    let mut s: MatrixStack<R32> = MatrixStack::new();
    s.transform(scale(2.0));
    assert_eq!(s.transform_point(point(1.0, 1.0, 1.0)), point(2.0, 2.0, 2.0));

    s.push();
    s.transform(translate(1.0, 0.0, 0.0));
    // The translation composes on the right, under the scale.
    assert_eq!(s.transform_point(point(1.0, 1.0, 1.0)), point(4.0, 2.0, 2.0));

    s.pop();
    assert_eq!(s.transform_point(point(1.0, 1.0, 1.0)), point(2.0, 2.0, 2.0));
}

#[test]
fn translation_leaves_vectors_and_moves_points() {
    let mut s: MatrixStack<R32> = MatrixStack::new();
    s.transform(translate(0.5, -1.5, 2.0));
    let v = Vector3::new(R32(1.0), R32(2.0), R32(3.0));
    assert_eq!(s.transform_vector(v), v);
    assert_eq!(s.transform_point(point(1.0, 2.0, 3.0)), point(1.5, 0.5, 5.0));
}

#[test]
fn no_translate_hits_the_degenerate_divide_f32() {
    // The zeroed homogeneous slot stays zero under an affine map, and the
    // conversion back divides by it: IEEE division by zero, here +infinity.
    let mut s: MatrixStack<R32> = MatrixStack::new();
    s.transform(translate(1.0, 0.0, 0.0));
    let p = s.transform_point_no_translate(point(1.0, 2.0, 3.0));
    assert!(p.x.0.is_infinite() && p.x.0 > 0.0);
    assert!(p.y.0.is_infinite() && p.z.0.is_infinite());
}

#[test]
fn origin_reads_the_translation_column_f32() {
    let mut s: MatrixStack<R32> = MatrixStack::new();
    assert_eq!(s.origin(), point(0.0, 0.0, 0.0));
    s.transform(translate(0.25, 8.0, -9.0));
    assert_eq!(s.origin(), point(0.25, 8.0, -9.0));
}
