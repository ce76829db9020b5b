//! The hierarchical transform stack: one "current" composed transform and a
//! LIFO history of saved transforms, with push/pop scoping as used while
//! walking a scene graph.
//!
//! The stack's abstract state is a [`StackView`]; every operation's contract
//! says which `StackView` transition it performs, and the scoping laws at
//! the bottom of this module are proved over those transitions.

use vstd::prelude::*;

use crate::linear::Matrix3;
use crate::linear::Matrix4;
use crate::linear::Point3;
use crate::linear::Vector3;
use crate::linear::lemma_identity_mul_left;
use crate::linear::lemma_origin_of_translation;
use crate::scalar::Scalar;

verus! {

/// The abstract state of a transform stack: the current composed transform
/// and the saved history, most recently pushed last.
pub struct StackView<T> {
    pub current: Matrix4<T>,
    pub saved: Seq<Matrix4<T>>,
}

impl<T: Scalar> StackView<T> {
    /// The state of a freshly constructed stack: identity, nothing saved.
    pub open spec fn init() -> StackView<T> {
        StackView { current: Matrix4::<T>::identity_spec(), saved: Seq::empty() }
    }

    /// The state after `transform(m)`: the current transform is
    /// right-multiplied by `m`; the history is untouched.
    pub open spec fn after_transform(self, m: Matrix4<T>) -> StackView<T> {
        StackView { current: self.current.mul_spec(m), saved: self.saved }
    }

    /// The state after `rotate(r)`: as `transform` of `r` lifted into a
    /// homogeneous matrix with zero translation.
    pub open spec fn after_rotate(self, r: Matrix3<T>) -> StackView<T> {
        self.after_transform(Matrix4::from_matrix3_spec(r))
    }

    /// The state after `push()`: the current transform is appended to the
    /// history, by value, and stays current.
    pub open spec fn after_push(self) -> StackView<T> {
        StackView { current: self.current, saved: self.saved.push(self.current) }
    }

    /// The state after `pop()`: the most recently saved transform is removed
    /// and becomes current; with nothing saved, the identity does (the stack
    /// is bottomed by an implicit identity frame, so over-popping is not an
    /// error).
    pub open spec fn after_pop(self) -> StackView<T> {
        if self.saved.len() > 0 {
            StackView { current: self.saved.last(), saved: self.saved.drop_last() }
        } else {
            StackView { current: Matrix4::<T>::identity_spec(), saved: self.saved }
        }
    }

    /// What `pop()` returns: the transform that is current once it is done.
    pub open spec fn pop_value(self) -> Matrix4<T> {
        self.after_pop().current
    }
}

/// A transform stack: accumulates a composed 4x4 affine transform across
/// nested scopes and saves and restores it with `push`/`pop`.
pub struct MatrixStack<T> {
    current: Matrix4<T>,
    stack: Vec<Matrix4<T>>,
}

impl<T: Scalar> View for MatrixStack<T> {
    type V = StackView<T>;

    closed spec fn view(&self) -> StackView<T> {
        StackView { current: self.current, saved: self.stack@ }
    }
}

impl<T: Scalar> MatrixStack<T> {
    /// A new stack: current is the identity, the saved history is empty.
    pub fn new() -> (s: MatrixStack<T>)
        ensures
            s@ == StackView::<T>::init(),
    {
        let s = MatrixStack { current: Matrix4::identity(), stack: Vec::new() };
        proof {
            assert(s@.saved =~= Seq::<Matrix4<T>>::empty());
        }
        s
    }

    /// Right-multiply the current transform by `transformation`. No
    /// validation: a singular matrix is accepted.
    pub fn transform(&mut self, transformation: Matrix4<T>)
        ensures
            final(self)@ == old(self)@.after_transform(transformation),
    {
        self.current = self.current.mul_matrix(&transformation);
    }

    /// Right-multiply the current transform by `rotation`, lifted into a
    /// homogeneous matrix (zero translation, one in the bottom-right).
    pub fn rotate(&mut self, rotation: Matrix3<T>)
        ensures
            final(self)@ == old(self)@.after_rotate(rotation),
    {
        let lifted = Matrix4::from_matrix3(rotation);
        self.transform(lifted);
    }

    /// Save the current transform, by value, at the top of the history.
    /// The current transform is unchanged.
    pub fn push(&mut self)
        ensures
            final(self)@ == old(self)@.after_push(),
    {
        let saved = self.current;
        self.stack.push(saved);
    }

    /// Restore and return the most recently pushed transform; with nothing
    /// saved, the identity. Popping more often than pushing is well-defined,
    /// never an error.
    pub fn pop(&mut self) -> (m: Matrix4<T>)
        ensures
            final(self)@ == old(self)@.after_pop(),
            m == old(self)@.pop_value(),
    {
        match self.stack.pop() {
            Some(top) => {
                self.current = top;
            },
            None => {
                self.current = Matrix4::identity();
            },
        }
        self.current
    }

    /// Apply the current transform to a direction vector: `target` is
    /// extended with a zero homogeneous component, mapped, and truncated, so
    /// translation has no effect.
    pub fn transform_vector(&self, target: Vector3<T>) -> (r: Vector3<T>)
        ensures
            r == self@.current.apply_vector_spec(target),
    {
        self.current.mul_vector4(target.extend(T::zero())).truncate()
    }

    /// Apply the current transform to a position: `target` is embedded with
    /// a one in the homogeneous slot, mapped, and brought back by the
    /// perspective divide. A projective transform can make the divisor zero;
    /// what that yields is the scalar's own division behavior.
    pub fn transform_point(&self, target: Point3<T>) -> (r: Point3<T>)
        ensures
            r == self@.current.apply_point_spec(target),
    {
        Point3::from_homogeneous(self.current.mul_vector4(target.to_homogeneous()))
    }

    /// Apply only the linear part of the current transform to a position:
    /// the homogeneous slot is forced to zero before the map, so translation
    /// cannot act, and the conversion back divides as `transform_point`
    /// does.
    pub fn transform_point_no_translate(&self, target: Point3<T>) -> (r: Point3<T>)
        ensures
            r == self@.current.apply_point_linear_spec(target),
    {
        let mut vec_version = target.to_homogeneous();
        vec_version.w = T::zero();
        Point3::from_homogeneous(self.current.mul_vector4(vec_version))
    }

    /// The current composed transform, by value.
    pub fn get_matrix(&self) -> (m: Matrix4<T>)
        ensures
            m == self@.current,
    {
        self.current
    }

    /// The translation component of the current transform: its action on
    /// the origin, with the homogeneous component dropped.
    pub fn origin(&self) -> (r: Point3<T>)
        ensures
            r == self@.current.origin_spec(),
    {
        Point3::from_vec(self.current.w.truncate())
    }
}

/// Popping a freshly constructed stack is well-defined: it returns the
/// identity and leaves the stack in its initial state.
pub proof fn lemma_pop_fresh<T: Scalar>()
    ensures
        StackView::<T>::init().after_pop() == StackView::<T>::init(),
        StackView::<T>::init().pop_value() == Matrix4::<T>::identity_spec(),
{
}

/// `push(); transform(m); pop()` restores the whole stack — the current
/// transform and the history — to exactly its pre-push state, whatever `m`.
pub proof fn lemma_push_transform_pop<T: Scalar>(st: StackView<T>, m: Matrix4<T>)
    ensures
        st.after_push().after_transform(m).after_pop() == st,
        st.after_push().after_transform(m).pop_value() == st.current,
{
    assert(st.saved.push(st.current).drop_last() =~= st.saved);
}

/// Scopes nest LIFO: `push(); transform(a); push(); transform(b); pop()`
/// discards `b` and leaves current at the pre-push value times `a`.
pub proof fn lemma_nested_scopes<T: Scalar>(st: StackView<T>, a: Matrix4<T>, b: Matrix4<T>)
    ensures
        st.after_push().after_transform(a).after_push().after_transform(b).after_pop().current
            == st.current.mul_spec(a),
        st.after_push().after_transform(a).after_push().after_transform(b).after_pop().saved
            == st.saved.push(st.current),
{
    let grown = st.after_push().after_transform(a).after_push().after_transform(b);
    assert(grown.saved.drop_last() =~= st.saved.push(st.current));
}

/// `rotate(r)` is exactly `transform` of `r` embedded in the top-left block
/// of an identity matrix.
pub proof fn lemma_rotate_is_embedded_transform<T: Scalar>(st: StackView<T>, r: Matrix3<T>)
    ensures
        st.after_rotate(r) == st.after_transform(Matrix4::from_matrix3_spec(r)),
{
}

/// A fresh stack's origin is the zero point, and after transforming a fresh
/// stack by a translation, the origin is the translating vector.
pub proof fn lemma_origin_reads_translation<T: Scalar>(v: Vector3<T>)
    ensures
        StackView::<T>::init().current.origin_spec() == (Point3 {
            x: T::zero_spec(),
            y: T::zero_spec(),
            z: T::zero_spec(),
        }),
        StackView::<T>::init().after_transform(
            Matrix4::from_translation_spec(v),
        ).current.origin_spec() == Point3::from_vec_spec(v),
{
    lemma_identity_mul_left(Matrix4::from_translation_spec(v));
    lemma_origin_of_translation(v);
}

} // verus!
