//! A hierarchical transform stack over 4x4 homogeneous matrices.
//!
//! The stack keeps one "current" composed transform and a LIFO history of
//! saved transforms, giving push/pop scoping for scene-graph traversals.
//! It is generic over the numeric scalar through the [`Scalar`] trait, a
//! minimal capability interface (zero, one, add, mul, div) with the few
//! algebraic laws the transform identities depend on.

mod linear;
mod scalar;
mod stack;

pub use linear::Matrix3;
pub use linear::Matrix4;
pub use linear::Point3;
pub use linear::Vector3;
pub use linear::Vector4;
pub use linear::lemma_identity_maps_vector;
pub use linear::lemma_identity_mul_left;
pub use linear::lemma_origin_of_translation;
pub use linear::lemma_translation_fixes_vector;
pub use linear::lemma_translation_moves_point;
pub use scalar::Scalar;
pub use stack::MatrixStack;
pub use stack::StackView;
pub use stack::lemma_nested_scopes;
pub use stack::lemma_origin_reads_translation;
pub use stack::lemma_pop_fresh;
pub use stack::lemma_push_transform_pop;
pub use stack::lemma_rotate_is_embedded_transform;
