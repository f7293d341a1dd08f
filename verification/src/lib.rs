//! A runtime-queryable type-descriptor registry.
//!
//! Given a type known at compile time, the library produces a canonical,
//! introspectable description of that type's shape — primitive, pointer,
//! sequence, standard collection, tuple, struct or enum — together with its
//! stable identity, its memory layout when it is statically sized, and, for
//! aggregates, the name, offset and nested descriptor of every field or
//! variant.
//!
//! The pieces:
//! - [`ids`]: stable `u64` identities, fixed for built-in shapes and derived
//!   for parametric ones, independent of borrow durations.
//! - [`type_info`]: the recursive descriptor model, [`TypeInfo`].
//! - [`discriminant_erased`]: enum discriminant tokens and their type-erased
//!   form, comparable and hashable without knowing the enum.
//! - [`registry`]: the memoized map from stable identity to descriptor, and
//!   the query entry points [`TypeInfo::of`] and [`TypeInfo::of_val`].
//! - [`provider`]: the [`provider::TypeInfoProvider`] trait and its
//!   implementations for the built-in shapes.
//! - [`display`]: the recursive, depth-bounded renderer that turns a
//!   descriptor into a human-readable signature.

pub mod ids;
pub mod type_info;
pub mod methods;
pub mod discriminant_erased;
pub mod registry;
pub mod provider;
pub mod display;

pub use discriminant_erased::Discriminant;
pub use discriminant_erased::DiscriminantErased;
pub use type_info::TypeInfo;
