//! The descriptor model: a closed, tagged union over every supported type
//! shape.
//!
//! A [`TypeInfo`] describes one type. Shapes that carry a runtime identity
//! hold an [`IdInfo`]; statically sized shapes hold a [`SizedInfo`];
//! aggregates hold the descriptors of their members.
//!
//! Nested descriptors appear in two ways. A member that lives inline in its
//! parent (a sequence or collection item, a tuple, struct or variant field)
//! is held directly, in an [`ItemInfo`] or a field-info record: such nesting
//! is always finite, because a self-referential type must pass through an
//! indirection to remain finite. A member behind an indirection (a
//! reference, raw pointer or owning box) is held as a [`TargetInfo`]: only
//! the target's stable identity, resolved through the registry when needed.
//! That lazy link is what lets the descriptor graph express cyclic,
//! self-referential type relationships without infinite data.

use vstd::prelude::*;
use crate::discriminant_erased::DiscriminantErased;

verus! {

/// A descriptor of one type: its shape, identity, layout, and members.
#[derive(Debug)]
pub enum TypeInfo {
    Pointer(Pointer),
    Primitive(Primitive),
    Sequence(Sequence),
    Std(Std),
    Tuple(Tuple),
    Struct(Struct),
    Enum(Enum),
}

/// The fixed, parameter-free primitive kinds. A primitive descriptor needs
/// no stored identity or layout: both are resolved directly from the kind.
#[derive(Debug, Clone, Copy, PartialEq, Eq, Structural)]
pub enum Primitive {
    U8,
    U16,
    U32,
    U64,
    U128,
    I8,
    I16,
    I32,
    I64,
    I128,
    F32,
    F64,
    Usize,
    Isize,
    Unit,
    Bool,
    Char,
}

/// Sequence shapes: string slices, slices, and fixed-length arrays.
#[derive(Debug)]
pub enum Sequence {
    /// A bare string slice; dynamically sized, so it carries no layout.
    Str,
    /// A bare slice; dynamically sized, so it carries no layout.
    Slice { id: IdInfo, item: ItemInfo },
    /// A fixed-length array.
    Array { id: IdInfo, sized: SizedInfo, item: ItemInfo, info: ArrayInfo },
}

/// Standard collection shapes.
#[derive(Debug)]
pub enum Std {
    /// A growable sequence (a vector) of an item type.
    GrowableSequence { id: IdInfo, sized: SizedInfo, item: ItemInfo },
    /// An owned, growable string.
    OwnedString,
    /// An optional value of an item type.
    Optional { id: IdInfo, sized: SizedInfo, item: ItemInfo },
    /// A success-or-error value over two member types.
    FallibleResult { id: IdInfo, sized: SizedInfo, info: ResultInfo },
    /// A zero-sized marker for an item type.
    PhantomMarker { id: IdInfo, sized: SizedInfo, item: ItemInfo },
}

/// Pointer shapes: the indirections. Each holds only the stable identity of
/// its target, so that self-referential type graphs stay finite.
#[derive(Debug)]
pub enum Pointer {
    /// A shared reference.
    Ref { id: IdInfo, sized: SizedInfo, item: TargetInfo },
    /// A unique (mutable) reference.
    RefMut { id: IdInfo, sized: SizedInfo, item: TargetInfo },
    /// A raw const pointer.
    RawConst { id: IdInfo, sized: SizedInfo, item: TargetInfo },
    /// A raw mutable pointer.
    RawMut { id: IdInfo, sized: SizedInfo, item: TargetInfo },
    /// An owning box.
    OwningBox { id: IdInfo, sized: SizedInfo, item: TargetInfo },
}

/// Tuple shapes.
#[derive(Debug)]
pub enum Tuple {
    Tuple { id: IdInfo, sized: SizedInfo, info: TupleInfo },
}

/// Struct shapes.
#[derive(Debug)]
pub enum Struct {
    /// A struct with no fields.
    UnitStruct { id: IdInfo, sized: SizedInfo },
    /// A struct with positional fields.
    TupleStruct { id: IdInfo, sized: SizedInfo, fields: TupleStructInfo },
    /// A struct with named fields.
    Struct { id: IdInfo, sized: SizedInfo, fields: StructInfo },
}

/// Enum shapes.
#[derive(Debug)]
pub enum Enum {
    Enum { id: IdInfo, sized: SizedInfo, variants: EnumInfo },
}

/// The stable identity of a type: an opaque comparable key and a display
/// name. The key is computed against the canonical form of the type, in
/// which every borrow-duration parameter is rewritten to the one canonical
/// maximal duration; two types are the same type exactly when their keys
/// match.
#[derive(Debug)]
pub struct IdInfo {
    pub type_id: u64,
    pub display_name: String,
}

/// The memory layout of a statically sized type.
#[derive(Debug, Clone, Copy, PartialEq, Eq, Structural)]
pub struct SizedInfo {
    pub size: usize,
    pub align: usize,
}

/// An inline nested descriptor: the descriptor of a member that lives
/// directly inside its parent.
#[derive(Debug)]
pub struct ItemInfo {
    pub item: Box<TypeInfo>,
}

/// A lazy link to a nested descriptor behind an indirection: only the
/// target's stable identity is stored, and the registry resolves it on
/// demand.
#[derive(Debug, Clone, Copy, PartialEq, Eq, Structural)]
pub struct TargetInfo {
    pub target_id: u64,
}

/// The fixed length of an array shape.
#[derive(Debug, Clone, Copy, PartialEq, Eq, Structural)]
pub struct ArrayInfo {
    pub array_length: usize,
}

/// The positional fields of a tuple.
#[derive(Debug)]
pub struct TupleInfo {
    pub field_infos: Vec<AnonymousFieldInfo>,
}

/// The positional fields of a tuple struct.
#[derive(Debug)]
pub struct TupleStructInfo {
    pub field_infos: Vec<AnonymousFieldInfo>,
}

/// The named fields of a struct.
#[derive(Debug)]
pub struct StructInfo {
    pub field_infos: Vec<NamedFieldInfo>,
}

/// A named field: its name, its byte offset within the canonical layout of
/// its owner, and its descriptor.
#[derive(Debug)]
pub struct NamedFieldInfo {
    pub field_name: String,
    pub field_offset: usize,
    pub item: Box<TypeInfo>,
}

/// A positional field: its index, its byte offset within the canonical
/// layout of its owner, and its descriptor.
#[derive(Debug)]
pub struct AnonymousFieldInfo {
    pub field_index: usize,
    pub field_offset: usize,
    pub item: Box<TypeInfo>,
}

/// The variants of an enum, in declaration order.
#[derive(Debug)]
pub struct EnumInfo {
    pub variant_infos: Vec<EnumVariantInfo>,
}

/// One enum variant: its name, its type-erased discriminant token, the
/// explicit numeric discriminant when the enum opts into one, and its fields
/// when it has any.
#[derive(Debug)]
pub enum EnumVariantInfo {
    Unit {
        variant_name: String,
        variant_discriminant: DiscriminantErased,
        variant_discriminant_value: Option<usize>,
    },
    Tuple {
        variant_name: String,
        variant_discriminant: DiscriminantErased,
        variant_discriminant_value: Option<usize>,
        field_infos: Vec<AnonymousFieldInfo>,
    },
    Struct {
        variant_name: String,
        variant_discriminant: DiscriminantErased,
        variant_discriminant_value: Option<usize>,
        field_infos: Vec<NamedFieldInfo>,
    },
}

/// The two member descriptors of a success-or-error shape.
#[derive(Debug)]
pub struct ResultInfo {
    pub ok: Box<TypeInfo>,
    pub err: Box<TypeInfo>,
}

} // verus!
