//! A small linear-algebra support layer: 3- and 4-component vectors, points,
//! 3x3 and 4x4 column-major matrices, and the homogeneous-coordinate
//! conversions the transform stack needs.
//!
//! Every operation has a specification-level twin stated over the scalar's
//! specification operations, and the executable code is verified to return
//! exactly that value. The matrices are column-major: a `Matrix4` holds the
//! columns `x`, `y`, `z`, `w`, so the translation of an affine transform
//! lives in the `w` column.

use vstd::prelude::*;

use crate::scalar::Scalar;

verus! {

/// A 3-component direction vector.
#[derive(Clone, Copy, PartialEq, Debug)]
pub struct Vector3<T> {
    pub x: T,
    pub y: T,
    pub z: T,
}

/// A 4-component homogeneous vector.
#[derive(Clone, Copy, PartialEq, Debug)]
pub struct Vector4<T> {
    pub x: T,
    pub y: T,
    pub z: T,
    pub w: T,
}

/// A 3-component position.
#[derive(Clone, Copy, PartialEq, Debug)]
pub struct Point3<T> {
    pub x: T,
    pub y: T,
    pub z: T,
}

/// A 3x3 linear map, held as its columns.
#[derive(Clone, Copy, PartialEq, Debug)]
pub struct Matrix3<T> {
    pub x: Vector3<T>,
    pub y: Vector3<T>,
    pub z: Vector3<T>,
}

/// A 4x4 homogeneous transform, held as its columns.
#[derive(Clone, Copy, PartialEq, Debug)]
pub struct Matrix4<T> {
    pub x: Vector4<T>,
    pub y: Vector4<T>,
    pub z: Vector4<T>,
    pub w: Vector4<T>,
}

impl<T: Scalar> Vector3<T> {
    /// What `extend` returns: the vector with `w` appended.
    pub open spec fn extend_spec(self, w: T) -> Vector4<T> {
        Vector4 { x: self.x, y: self.y, z: self.z, w: w }
    }

    /// Construct a vector from its components.
    pub fn new(x: T, y: T, z: T) -> (r: Vector3<T>)
        ensures
            r == (Vector3 { x, y, z }),
    {
        Vector3 { x, y, z }
    }

    /// Append a fourth, homogeneous component.
    pub fn extend(self, w: T) -> (r: Vector4<T>)
        ensures
            r == self.extend_spec(w),
    {
        Vector4 { x: self.x, y: self.y, z: self.z, w }
    }
}

impl<T: Scalar> Vector4<T> {
    /// What `truncate` returns: the first three components.
    pub open spec fn truncate_spec(self) -> Vector3<T> {
        Vector3 { x: self.x, y: self.y, z: self.z }
    }

    /// What `scale` returns: every component multiplied by `s` on the right.
    pub open spec fn scale_spec(self, s: T) -> Vector4<T> {
        Vector4 {
            x: self.x.mul_spec(s),
            y: self.y.mul_spec(s),
            z: self.z.mul_spec(s),
            w: self.w.mul_spec(s),
        }
    }

    /// What `add` returns: the componentwise sum.
    pub open spec fn add_spec(self, rhs: Vector4<T>) -> Vector4<T> {
        Vector4 {
            x: self.x.add_spec(rhs.x),
            y: self.y.add_spec(rhs.y),
            z: self.z.add_spec(rhs.z),
            w: self.w.add_spec(rhs.w),
        }
    }

    /// Construct a vector from its components.
    pub fn new(x: T, y: T, z: T, w: T) -> (r: Vector4<T>)
        ensures
            r == (Vector4 { x, y, z, w }),
    {
        Vector4 { x, y, z, w }
    }

    /// Drop the fourth component.
    pub fn truncate(self) -> (r: Vector3<T>)
        ensures
            r == self.truncate_spec(),
    {
        Vector3 { x: self.x, y: self.y, z: self.z }
    }

    /// Multiply every component by `s`.
    pub fn scale(self, s: T) -> (r: Vector4<T>)
        ensures
            r == self.scale_spec(s),
    {
        Vector4 { x: self.x.mul(s), y: self.y.mul(s), z: self.z.mul(s), w: self.w.mul(s) }
    }

    /// Componentwise sum.
    pub fn add(self, rhs: Vector4<T>) -> (r: Vector4<T>)
        ensures
            r == self.add_spec(rhs),
    {
        Vector4 {
            x: self.x.add(rhs.x),
            y: self.y.add(rhs.y),
            z: self.z.add(rhs.z),
            w: self.w.add(rhs.w),
        }
    }
}

impl<T: Scalar> Point3<T> {
    /// What `to_homogeneous` returns: the position with `w = 1`.
    pub open spec fn to_homogeneous_spec(self) -> Vector4<T> {
        Vector4 { x: self.x, y: self.y, z: self.z, w: T::one_spec() }
    }

    /// What `from_homogeneous` returns: each component divided by `w`.
    pub open spec fn from_homogeneous_spec(v: Vector4<T>) -> Point3<T> {
        Point3 { x: v.x.div_spec(v.w), y: v.y.div_spec(v.w), z: v.z.div_spec(v.w) }
    }

    /// What `from_vec` returns: the same components, read as a position.
    pub open spec fn from_vec_spec(v: Vector3<T>) -> Point3<T> {
        Point3 { x: v.x, y: v.y, z: v.z }
    }

    /// Construct a position from its components.
    pub fn new(x: T, y: T, z: T) -> (r: Point3<T>)
        ensures
            r == (Point3 { x, y, z }),
    {
        Point3 { x, y, z }
    }

    /// Embed the position in homogeneous coordinates, `w = 1`.
    pub fn to_homogeneous(self) -> (r: Vector4<T>)
        ensures
            r == self.to_homogeneous_spec(),
    {
        Vector4 { x: self.x, y: self.y, z: self.z, w: T::one() }
    }

    /// Convert back from homogeneous coordinates by the perspective divide.
    /// Total; what a zero `w` yields is the scalar's own division behavior.
    pub fn from_homogeneous(v: Vector4<T>) -> (r: Point3<T>)
        ensures
            r == Point3::from_homogeneous_spec(v),
    {
        Point3 { x: v.x.div(v.w), y: v.y.div(v.w), z: v.z.div(v.w) }
    }

    /// Read a vector's components as a position.
    pub fn from_vec(v: Vector3<T>) -> (r: Point3<T>)
        ensures
            r == Point3::from_vec_spec(v),
    {
        Point3 { x: v.x, y: v.y, z: v.z }
    }
}

impl<T: Scalar> Matrix3<T> {
    /// Construct a matrix from its entries, column by column:
    /// `cCrR` is the entry of column `C`, row `R`.
    pub fn new(
        c0r0: T, c0r1: T, c0r2: T,
        c1r0: T, c1r1: T, c1r2: T,
        c2r0: T, c2r1: T, c2r2: T,
    ) -> (r: Matrix3<T>)
        ensures
            r == (Matrix3 {
                x: Vector3 { x: c0r0, y: c0r1, z: c0r2 },
                y: Vector3 { x: c1r0, y: c1r1, z: c1r2 },
                z: Vector3 { x: c2r0, y: c2r1, z: c2r2 },
            }),
    {
        Matrix3 {
            x: Vector3 { x: c0r0, y: c0r1, z: c0r2 },
            y: Vector3 { x: c1r0, y: c1r1, z: c1r2 },
            z: Vector3 { x: c2r0, y: c2r1, z: c2r2 },
        }
    }
}

impl<T: Scalar> Matrix4<T> {
    /// The identity transform.
    pub open spec fn identity_spec() -> Matrix4<T> {
        Matrix4 {
            x: Vector4 {
                x: T::one_spec(),
                y: T::zero_spec(),
                z: T::zero_spec(),
                w: T::zero_spec(),
            },
            y: Vector4 {
                x: T::zero_spec(),
                y: T::one_spec(),
                z: T::zero_spec(),
                w: T::zero_spec(),
            },
            z: Vector4 {
                x: T::zero_spec(),
                y: T::zero_spec(),
                z: T::one_spec(),
                w: T::zero_spec(),
            },
            w: Vector4 {
                x: T::zero_spec(),
                y: T::zero_spec(),
                z: T::zero_spec(),
                w: T::one_spec(),
            },
        }
    }

    /// What `from_matrix3` returns: the 3x3 map in the top-left block of an
    /// identity matrix, zero translation.
    pub open spec fn from_matrix3_spec(m: Matrix3<T>) -> Matrix4<T> {
        Matrix4 {
            x: Vector4 { x: m.x.x, y: m.x.y, z: m.x.z, w: T::zero_spec() },
            y: Vector4 { x: m.y.x, y: m.y.y, z: m.y.z, w: T::zero_spec() },
            z: Vector4 { x: m.z.x, y: m.z.y, z: m.z.z, w: T::zero_spec() },
            w: Vector4 {
                x: T::zero_spec(),
                y: T::zero_spec(),
                z: T::zero_spec(),
                w: T::one_spec(),
            },
        }
    }

    /// What `from_translation` returns: an identity linear part and `v` in
    /// the translation column.
    pub open spec fn from_translation_spec(v: Vector3<T>) -> Matrix4<T> {
        Matrix4 {
            x: Matrix4::<T>::identity_spec().x,
            y: Matrix4::<T>::identity_spec().y,
            z: Matrix4::<T>::identity_spec().z,
            w: Vector4 { x: v.x, y: v.y, z: v.z, w: T::one_spec() },
        }
    }

    /// What `mul_vector4` returns: the columns scaled by the vector's
    /// components and summed left to right.
    pub open spec fn mul_vec_spec(self, v: Vector4<T>) -> Vector4<T> {
        self.x.scale_spec(v.x)
            .add_spec(self.y.scale_spec(v.y))
            .add_spec(self.z.scale_spec(v.z))
            .add_spec(self.w.scale_spec(v.w))
    }

    /// What `mul_matrix` returns: each column of `rhs` mapped by `self`.
    pub open spec fn mul_spec(self, rhs: Matrix4<T>) -> Matrix4<T> {
        Matrix4 {
            x: self.mul_vec_spec(rhs.x),
            y: self.mul_vec_spec(rhs.y),
            z: self.mul_vec_spec(rhs.z),
            w: self.mul_vec_spec(rhs.w),
        }
    }

    /// What applying the transform to a direction returns: the vector is
    /// extended with `w = 0` (so translation cannot act), mapped, truncated.
    pub open spec fn apply_vector_spec(self, v: Vector3<T>) -> Vector3<T> {
        self.mul_vec_spec(v.extend_spec(T::zero_spec())).truncate_spec()
    }

    /// What applying the transform to a position returns: the position is
    /// embedded with `w = 1`, mapped, and brought back by the perspective
    /// divide.
    pub open spec fn apply_point_spec(self, p: Point3<T>) -> Point3<T> {
        Point3::from_homogeneous_spec(self.mul_vec_spec(p.to_homogeneous_spec()))
    }

    /// What applying only the linear part to a position returns: as
    /// `apply_point_spec`, but the homogeneous slot is forced to 0 before
    /// the map, so the translation column cannot act.
    pub open spec fn apply_point_linear_spec(self, p: Point3<T>) -> Point3<T> {
        Point3::from_homogeneous_spec(
            self.mul_vec_spec(Vector4 { x: p.x, y: p.y, z: p.z, w: T::zero_spec() }),
        )
    }

    /// What `origin` reads off: the translation column, as a position.
    pub open spec fn origin_spec(self) -> Point3<T> {
        Point3::from_vec_spec(self.w.truncate_spec())
    }

    /// The transform translates but does not rotate, scale, shear or
    /// project: its linear columns are the identity's and its homogeneous
    /// entry is one.
    pub open spec fn is_translation_spec(self) -> bool {
        let id = Matrix4::<T>::identity_spec();
        self.x == id.x && self.y == id.y && self.z == id.z && self.w.w == T::one_spec()
    }

    /// Construct a matrix from its entries, column by column:
    /// `cCrR` is the entry of column `C`, row `R`.
    pub fn new(
        c0r0: T, c0r1: T, c0r2: T, c0r3: T,
        c1r0: T, c1r1: T, c1r2: T, c1r3: T,
        c2r0: T, c2r1: T, c2r2: T, c2r3: T,
        c3r0: T, c3r1: T, c3r2: T, c3r3: T,
    ) -> (r: Matrix4<T>)
        ensures
            r == (Matrix4 {
                x: Vector4 { x: c0r0, y: c0r1, z: c0r2, w: c0r3 },
                y: Vector4 { x: c1r0, y: c1r1, z: c1r2, w: c1r3 },
                z: Vector4 { x: c2r0, y: c2r1, z: c2r2, w: c2r3 },
                w: Vector4 { x: c3r0, y: c3r1, z: c3r2, w: c3r3 },
            }),
    {
        Matrix4 {
            x: Vector4 { x: c0r0, y: c0r1, z: c0r2, w: c0r3 },
            y: Vector4 { x: c1r0, y: c1r1, z: c1r2, w: c1r3 },
            z: Vector4 { x: c2r0, y: c2r1, z: c2r2, w: c2r3 },
            w: Vector4 { x: c3r0, y: c3r1, z: c3r2, w: c3r3 },
        }
    }

    /// The identity transform.
    pub fn identity() -> (r: Matrix4<T>)
        ensures
            r == Matrix4::<T>::identity_spec(),
    {
        let o = T::one();
        let z = T::zero();
        Matrix4 {
            x: Vector4 { x: o, y: z, z: z, w: z },
            y: Vector4 { x: z, y: o, z: z, w: z },
            z: Vector4 { x: z, y: z, z: o, w: z },
            w: Vector4 { x: z, y: z, z: z, w: o },
        }
    }

    /// Lift a 3x3 linear map into the top-left block of an identity
    /// transform: zero translation, homogeneous entry one.
    pub fn from_matrix3(m: Matrix3<T>) -> (r: Matrix4<T>)
        ensures
            r == Matrix4::from_matrix3_spec(m),
    {
        let z = T::zero();
        Matrix4 {
            x: Vector4 { x: m.x.x, y: m.x.y, z: m.x.z, w: z },
            y: Vector4 { x: m.y.x, y: m.y.y, z: m.y.z, w: z },
            z: Vector4 { x: m.z.x, y: m.z.y, z: m.z.z, w: z },
            w: Vector4 { x: z, y: z, z: z, w: T::one() },
        }
    }

    /// The transform that translates by `v`.
    pub fn from_translation(v: Vector3<T>) -> (r: Matrix4<T>)
        ensures
            r == Matrix4::from_translation_spec(v),
    {
        let o = T::one();
        let z = T::zero();
        Matrix4 {
            x: Vector4 { x: o, y: z, z: z, w: z },
            y: Vector4 { x: z, y: o, z: z, w: z },
            z: Vector4 { x: z, y: z, z: o, w: z },
            w: Vector4 { x: v.x, y: v.y, z: v.z, w: o },
        }
    }

    /// Map a homogeneous vector through the transform.
    pub fn mul_vector4(&self, v: Vector4<T>) -> (r: Vector4<T>)
        ensures
            r == self.mul_vec_spec(v),
    {
        self.x.scale(v.x).add(self.y.scale(v.y)).add(self.z.scale(v.z)).add(self.w.scale(v.w))
    }

    /// Matrix product: `self * rhs`, each column of `rhs` mapped by `self`.
    pub fn mul_matrix(&self, rhs: &Matrix4<T>) -> (r: Matrix4<T>)
        ensures
            r == self.mul_spec(*rhs),
    {
        Matrix4 {
            x: self.mul_vector4(rhs.x),
            y: self.mul_vector4(rhs.y),
            z: self.mul_vector4(rhs.z),
            w: self.mul_vector4(rhs.w),
        }
    }
}

/// The identity transform maps every homogeneous vector to itself.
pub proof fn lemma_identity_maps_vector<T: Scalar>(v: Vector4<T>)
    ensures
        Matrix4::<T>::identity_spec().mul_vec_spec(v) == v,
{
    T::law_mul_one(v.x);
    T::law_mul_one(v.y);
    T::law_mul_one(v.z);
    T::law_mul_one(v.w);
    T::law_mul_zero(v.x);
    T::law_mul_zero(v.y);
    T::law_mul_zero(v.z);
    T::law_mul_zero(v.w);
    T::law_add_zero(v.x);
    T::law_add_zero(v.y);
    T::law_add_zero(v.z);
    T::law_add_zero(v.w);
    T::law_add_zero(T::zero_spec());
}

/// Multiplying by the identity on the left changes nothing.
pub proof fn lemma_identity_mul_left<T: Scalar>(m: Matrix4<T>)
    ensures
        Matrix4::<T>::identity_spec().mul_spec(m) == m,
{
    lemma_identity_maps_vector(m.x);
    lemma_identity_maps_vector(m.y);
    lemma_identity_maps_vector(m.z);
    lemma_identity_maps_vector(m.w);
}

/// A pure translation has no effect on a direction vector: the direction is
/// mapped with a zero homogeneous component, which the translation column is
/// multiplied by.
pub proof fn lemma_translation_fixes_vector<T: Scalar>(m: Matrix4<T>, v: Vector3<T>)
    requires
        m.is_translation_spec(),
    ensures
        m.apply_vector_spec(v) == v,
{
    T::law_mul_one(v.x);
    T::law_mul_one(v.y);
    T::law_mul_one(v.z);
    T::law_mul_zero(v.x);
    T::law_mul_zero(v.y);
    T::law_mul_zero(v.z);
    T::law_mul_zero(m.w.x);
    T::law_mul_zero(m.w.y);
    T::law_mul_zero(m.w.z);
    T::law_mul_zero(T::one_spec());
    T::law_mul_zero(T::zero_spec());
    T::law_add_zero(v.x);
    T::law_add_zero(v.y);
    T::law_add_zero(v.z);
    T::law_add_zero(T::zero_spec());
}

/// A pure translation moves a position by exactly its translation column.
pub proof fn lemma_translation_moves_point<T: Scalar>(m: Matrix4<T>, p: Point3<T>)
    requires
        m.is_translation_spec(),
    ensures
        m.apply_point_spec(p) == (Point3 {
            x: p.x.add_spec(m.w.x),
            y: p.y.add_spec(m.w.y),
            z: p.z.add_spec(m.w.z),
        }),
{
    T::law_mul_one(p.x);
    T::law_mul_one(p.y);
    T::law_mul_one(p.z);
    T::law_mul_zero(p.x);
    T::law_mul_zero(p.y);
    T::law_mul_zero(p.z);
    T::law_mul_one(m.w.x);
    T::law_mul_one(m.w.y);
    T::law_mul_one(m.w.z);
    T::law_mul_one(T::one_spec());
    T::law_add_zero(p.x);
    T::law_add_zero(p.y);
    T::law_add_zero(p.z);
    T::law_add_zero(T::zero_spec());
    T::law_add_zero(T::one_spec());
    T::law_div_one(p.x.add_spec(m.w.x));
    T::law_div_one(p.y.add_spec(m.w.y));
    T::law_div_one(p.z.add_spec(m.w.z));
}

/// The translation column of the transform built by `from_translation` is
/// the translating vector itself, read as a position.
pub proof fn lemma_origin_of_translation<T: Scalar>(v: Vector3<T>)
    ensures
        Matrix4::from_translation_spec(v).origin_spec() == Point3::from_vec_spec(v),
{
}

} // verus!
