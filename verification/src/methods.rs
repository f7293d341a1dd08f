//! Uniform accessors over descriptors.
//!
//! Every descriptor can report its stable identity, its display name, its
//! size and alignment when it is statically sized, and — for enums — the
//! type-erased discriminant tokens of its variants in declaration order.
//! Shapes that store an [`IdInfo`] or [`SizedInfo`] answer from those fields;
//! primitives and the other fixed shapes answer by lookup against their
//! well-known kind.

use vstd::prelude::*;
use crate::discriminant_erased::DiscriminantErased;
use crate::ids::ID_STR;
use crate::ids::ID_STRING;
use crate::type_info::Enum;
use crate::type_info::EnumVariantInfo;
use crate::type_info::Pointer;
use crate::type_info::Primitive;
use crate::type_info::Sequence;
use crate::type_info::Std;
use crate::type_info::Struct;
use crate::type_info::Tuple;
use crate::type_info::TypeInfo;

verus! {

impl Primitive {
    /// The fixed stable identity of the kind.
    pub open spec fn id_spec(self) -> u64 {
        match self {
            Primitive::U8 => crate::ids::ID_U8,
            Primitive::U16 => crate::ids::ID_U16,
            Primitive::U32 => crate::ids::ID_U32,
            Primitive::U64 => crate::ids::ID_U64,
            Primitive::U128 => crate::ids::ID_U128,
            Primitive::I8 => crate::ids::ID_I8,
            Primitive::I16 => crate::ids::ID_I16,
            Primitive::I32 => crate::ids::ID_I32,
            Primitive::I64 => crate::ids::ID_I64,
            Primitive::I128 => crate::ids::ID_I128,
            Primitive::F32 => crate::ids::ID_F32,
            Primitive::F64 => crate::ids::ID_F64,
            Primitive::Usize => crate::ids::ID_USIZE,
            Primitive::Isize => crate::ids::ID_ISIZE,
            Primitive::Unit => crate::ids::ID_UNIT,
            Primitive::Bool => crate::ids::ID_BOOL,
            Primitive::Char => crate::ids::ID_CHAR,
        }
    }

    /// The fixed stable identity of the kind.
    pub fn id(self) -> (r: u64)
        ensures
            r == self.id_spec(),
    {
        match self {
            Primitive::U8 => crate::ids::ID_U8,
            Primitive::U16 => crate::ids::ID_U16,
            Primitive::U32 => crate::ids::ID_U32,
            Primitive::U64 => crate::ids::ID_U64,
            Primitive::U128 => crate::ids::ID_U128,
            Primitive::I8 => crate::ids::ID_I8,
            Primitive::I16 => crate::ids::ID_I16,
            Primitive::I32 => crate::ids::ID_I32,
            Primitive::I64 => crate::ids::ID_I64,
            Primitive::I128 => crate::ids::ID_I128,
            Primitive::F32 => crate::ids::ID_F32,
            Primitive::F64 => crate::ids::ID_F64,
            Primitive::Usize => crate::ids::ID_USIZE,
            Primitive::Isize => crate::ids::ID_ISIZE,
            Primitive::Unit => crate::ids::ID_UNIT,
            Primitive::Bool => crate::ids::ID_BOOL,
            Primitive::Char => crate::ids::ID_CHAR,
        }
    }

    /// The display name of the kind.
    pub open spec fn name_view(self) -> Seq<char> {
        match self {
            Primitive::U8 => "u8"@,
            Primitive::U16 => "u16"@,
            Primitive::U32 => "u32"@,
            Primitive::U64 => "u64"@,
            Primitive::U128 => "u128"@,
            Primitive::I8 => "i8"@,
            Primitive::I16 => "i16"@,
            Primitive::I32 => "i32"@,
            Primitive::I64 => "i64"@,
            Primitive::I128 => "i128"@,
            Primitive::F32 => "f32"@,
            Primitive::F64 => "f64"@,
            Primitive::Usize => "usize"@,
            Primitive::Isize => "isize"@,
            Primitive::Unit => "()"@,
            Primitive::Bool => "bool"@,
            Primitive::Char => "char"@,
        }
    }

    /// The display name of the kind.
    pub fn name(self) -> (r: &'static str)
        ensures
            r@ == self.name_view(),
    {
        match self {
            Primitive::U8 => "u8",
            Primitive::U16 => "u16",
            Primitive::U32 => "u32",
            Primitive::U64 => "u64",
            Primitive::U128 => "u128",
            Primitive::I8 => "i8",
            Primitive::I16 => "i16",
            Primitive::I32 => "i32",
            Primitive::I64 => "i64",
            Primitive::I128 => "i128",
            Primitive::F32 => "f32",
            Primitive::F64 => "f64",
            Primitive::Usize => "usize",
            Primitive::Isize => "isize",
            Primitive::Unit => "()",
            Primitive::Bool => "bool",
            Primitive::Char => "char",
        }
    }

    /// The size of the kind. Every kind is statically sized. The
    /// floating-point kinds are four and eight bytes wide by the language's
    /// definition; the other kinds are tied to the layout model of vstd.
    pub open spec fn size_spec(self) -> nat {
        match self {
            Primitive::U8 => vstd::layout::size_of::<u8>(),
            Primitive::U16 => vstd::layout::size_of::<u16>(),
            Primitive::U32 => vstd::layout::size_of::<u32>(),
            Primitive::U64 => vstd::layout::size_of::<u64>(),
            Primitive::U128 => vstd::layout::size_of::<u128>(),
            Primitive::I8 => vstd::layout::size_of::<i8>(),
            Primitive::I16 => vstd::layout::size_of::<i16>(),
            Primitive::I32 => vstd::layout::size_of::<i32>(),
            Primitive::I64 => vstd::layout::size_of::<i64>(),
            Primitive::I128 => vstd::layout::size_of::<i128>(),
            Primitive::F32 => 4,
            Primitive::F64 => 8,
            Primitive::Usize => vstd::layout::size_of::<usize>(),
            Primitive::Isize => vstd::layout::size_of::<isize>(),
            Primitive::Unit => vstd::layout::size_of::<()>(),
            Primitive::Bool => vstd::layout::size_of::<bool>(),
            Primitive::Char => vstd::layout::size_of::<char>(),
        }
    }

    /// The size of the kind.
    pub fn size(self) -> (r: usize)
        ensures
            r as nat == self.size_spec(),
    {
        match self {
            Primitive::U8 => core::mem::size_of::<u8>(),
            Primitive::U16 => core::mem::size_of::<u16>(),
            Primitive::U32 => core::mem::size_of::<u32>(),
            Primitive::U64 => core::mem::size_of::<u64>(),
            Primitive::U128 => core::mem::size_of::<u128>(),
            Primitive::I8 => core::mem::size_of::<i8>(),
            Primitive::I16 => core::mem::size_of::<i16>(),
            Primitive::I32 => core::mem::size_of::<i32>(),
            Primitive::I64 => core::mem::size_of::<i64>(),
            Primitive::I128 => core::mem::size_of::<i128>(),
            Primitive::F32 => 4,
            Primitive::F64 => 8,
            Primitive::Usize => core::mem::size_of::<usize>(),
            Primitive::Isize => core::mem::size_of::<isize>(),
            Primitive::Unit => core::mem::size_of::<()>(),
            Primitive::Bool => core::mem::size_of::<bool>(),
            Primitive::Char => core::mem::size_of::<char>(),
        }
    }

    /// The alignment of the kind. The floating-point kinds use their size as
    /// their alignment, as on the supported targets; the other kinds are tied
    /// to the layout model of vstd.
    pub open spec fn align_spec(self) -> nat {
        match self {
            Primitive::U8 => vstd::layout::align_of::<u8>(),
            Primitive::U16 => vstd::layout::align_of::<u16>(),
            Primitive::U32 => vstd::layout::align_of::<u32>(),
            Primitive::U64 => vstd::layout::align_of::<u64>(),
            Primitive::U128 => vstd::layout::align_of::<u128>(),
            Primitive::I8 => vstd::layout::align_of::<i8>(),
            Primitive::I16 => vstd::layout::align_of::<i16>(),
            Primitive::I32 => vstd::layout::align_of::<i32>(),
            Primitive::I64 => vstd::layout::align_of::<i64>(),
            Primitive::I128 => vstd::layout::align_of::<i128>(),
            Primitive::F32 => 4,
            Primitive::F64 => 8,
            Primitive::Usize => vstd::layout::align_of::<usize>(),
            Primitive::Isize => vstd::layout::align_of::<isize>(),
            Primitive::Unit => vstd::layout::align_of::<()>(),
            Primitive::Bool => vstd::layout::align_of::<bool>(),
            Primitive::Char => vstd::layout::align_of::<char>(),
        }
    }

    /// The alignment of the kind.
    pub fn align(self) -> (r: usize)
        ensures
            r as nat == self.align_spec(),
    {
        match self {
            Primitive::U8 => core::mem::align_of::<u8>(),
            Primitive::U16 => core::mem::align_of::<u16>(),
            Primitive::U32 => core::mem::align_of::<u32>(),
            Primitive::U64 => core::mem::align_of::<u64>(),
            Primitive::U128 => core::mem::align_of::<u128>(),
            Primitive::I8 => core::mem::align_of::<i8>(),
            Primitive::I16 => core::mem::align_of::<i16>(),
            Primitive::I32 => core::mem::align_of::<i32>(),
            Primitive::I64 => core::mem::align_of::<i64>(),
            Primitive::I128 => core::mem::align_of::<i128>(),
            Primitive::F32 => 4,
            Primitive::F64 => 8,
            Primitive::Usize => core::mem::align_of::<usize>(),
            Primitive::Isize => core::mem::align_of::<isize>(),
            Primitive::Unit => core::mem::align_of::<()>(),
            Primitive::Bool => core::mem::align_of::<bool>(),
            Primitive::Char => core::mem::align_of::<char>(),
        }
    }
}

impl Pointer {
    /// The stable identity of the pointee.
    pub open spec fn target_id_spec(&self) -> u64 {
        match self {
            Pointer::Ref { item, .. } => item.target_id,
            Pointer::RefMut { item, .. } => item.target_id,
            Pointer::RawConst { item, .. } => item.target_id,
            Pointer::RawMut { item, .. } => item.target_id,
            Pointer::OwningBox { item, .. } => item.target_id,
        }
    }

    /// The stable identity of the pointee.
    pub fn target_id(&self) -> (r: u64)
        ensures
            r == self.target_id_spec(),
    {
        match self {
            Pointer::Ref { item, .. } => item.target_id,
            Pointer::RefMut { item, .. } => item.target_id,
            Pointer::RawConst { item, .. } => item.target_id,
            Pointer::RawMut { item, .. } => item.target_id,
            Pointer::OwningBox { item, .. } => item.target_id,
        }
    }
}

impl EnumVariantInfo {
    /// The type-erased discriminant token of the variant.
    pub open spec fn discriminant_spec(&self) -> DiscriminantErased {
        match self {
            EnumVariantInfo::Unit { variant_discriminant, .. } => *variant_discriminant,
            EnumVariantInfo::Tuple { variant_discriminant, .. } => *variant_discriminant,
            EnumVariantInfo::Struct { variant_discriminant, .. } => *variant_discriminant,
        }
    }

    /// The type-erased discriminant token of the variant.
    pub fn discriminant(&self) -> (r: DiscriminantErased)
        ensures
            r == self.discriminant_spec(),
    {
        match self {
            EnumVariantInfo::Unit { variant_discriminant, .. } => *variant_discriminant,
            EnumVariantInfo::Tuple { variant_discriminant, .. } => *variant_discriminant,
            EnumVariantInfo::Struct { variant_discriminant, .. } => *variant_discriminant,
        }
    }

    /// The name of the variant.
    pub open spec fn name_view(&self) -> Seq<char> {
        match self {
            EnumVariantInfo::Unit { variant_name, .. } => variant_name@,
            EnumVariantInfo::Tuple { variant_name, .. } => variant_name@,
            EnumVariantInfo::Struct { variant_name, .. } => variant_name@,
        }
    }
}

impl TypeInfo {
    /// The stable identity of the described type, computed against its
    /// canonical (borrow-duration-erased) form.
    pub open spec fn type_id_spec(&self) -> u64 {
        match self {
            TypeInfo::Pointer(pointer) => match pointer {
                Pointer::Ref { id, .. } => id.type_id,
                Pointer::RefMut { id, .. } => id.type_id,
                Pointer::RawConst { id, .. } => id.type_id,
                Pointer::RawMut { id, .. } => id.type_id,
                Pointer::OwningBox { id, .. } => id.type_id,
            },
            TypeInfo::Primitive(primitive) => primitive.id_spec(),
            TypeInfo::Sequence(sequence) => match sequence {
                Sequence::Str => ID_STR,
                Sequence::Slice { id, .. } => id.type_id,
                Sequence::Array { id, .. } => id.type_id,
            },
            TypeInfo::Std(std_shape) => match std_shape {
                Std::OwnedString => ID_STRING,
                Std::GrowableSequence { id, .. } => id.type_id,
                Std::Optional { id, .. } => id.type_id,
                Std::FallibleResult { id, .. } => id.type_id,
                Std::PhantomMarker { id, .. } => id.type_id,
            },
            TypeInfo::Tuple(Tuple::Tuple { id, .. }) => id.type_id,
            TypeInfo::Struct(structure) => match structure {
                Struct::UnitStruct { id, .. } => id.type_id,
                Struct::TupleStruct { id, .. } => id.type_id,
                Struct::Struct { id, .. } => id.type_id,
            },
            TypeInfo::Enum(Enum::Enum { id, .. }) => id.type_id,
        }
    }

    /// The stable identity of the described type.
    pub fn type_id(&self) -> (r: u64)
        ensures
            r == self.type_id_spec(),
    {
        match self {
            TypeInfo::Pointer(pointer) => match pointer {
                Pointer::Ref { id, .. } => id.type_id,
                Pointer::RefMut { id, .. } => id.type_id,
                Pointer::RawConst { id, .. } => id.type_id,
                Pointer::RawMut { id, .. } => id.type_id,
                Pointer::OwningBox { id, .. } => id.type_id,
            },
            TypeInfo::Primitive(primitive) => primitive.id(),
            TypeInfo::Sequence(sequence) => match sequence {
                Sequence::Str => ID_STR,
                Sequence::Slice { id, .. } => id.type_id,
                Sequence::Array { id, .. } => id.type_id,
            },
            TypeInfo::Std(std_shape) => match std_shape {
                Std::OwnedString => ID_STRING,
                Std::GrowableSequence { id, .. } => id.type_id,
                Std::Optional { id, .. } => id.type_id,
                Std::FallibleResult { id, .. } => id.type_id,
                Std::PhantomMarker { id, .. } => id.type_id,
            },
            TypeInfo::Tuple(Tuple::Tuple { id, .. }) => id.type_id,
            TypeInfo::Struct(structure) => match structure {
                Struct::UnitStruct { id, .. } => id.type_id,
                Struct::TupleStruct { id, .. } => id.type_id,
                Struct::Struct { id, .. } => id.type_id,
            },
            TypeInfo::Enum(Enum::Enum { id, .. }) => id.type_id,
        }
    }

    /// The display name of the described type.
    pub open spec fn display_name_view(&self) -> Seq<char> {
        match self {
            TypeInfo::Pointer(pointer) => match pointer {
                Pointer::Ref { id, .. } => id.display_name@,
                Pointer::RefMut { id, .. } => id.display_name@,
                Pointer::RawConst { id, .. } => id.display_name@,
                Pointer::RawMut { id, .. } => id.display_name@,
                Pointer::OwningBox { id, .. } => id.display_name@,
            },
            TypeInfo::Primitive(primitive) => primitive.name_view(),
            TypeInfo::Sequence(sequence) => match sequence {
                Sequence::Str => "str"@,
                Sequence::Slice { id, .. } => id.display_name@,
                Sequence::Array { id, .. } => id.display_name@,
            },
            TypeInfo::Std(std_shape) => match std_shape {
                Std::OwnedString => "alloc::string::String"@,
                Std::GrowableSequence { id, .. } => id.display_name@,
                Std::Optional { id, .. } => id.display_name@,
                Std::FallibleResult { id, .. } => id.display_name@,
                Std::PhantomMarker { id, .. } => id.display_name@,
            },
            TypeInfo::Tuple(Tuple::Tuple { id, .. }) => id.display_name@,
            TypeInfo::Struct(structure) => match structure {
                Struct::UnitStruct { id, .. } => id.display_name@,
                Struct::TupleStruct { id, .. } => id.display_name@,
                Struct::Struct { id, .. } => id.display_name@,
            },
            TypeInfo::Enum(Enum::Enum { id, .. }) => id.display_name@,
        }
    }

    /// The display name of the described type.
    pub fn display_name(&self) -> (r: &str)
        ensures
            r@ == self.display_name_view(),
    {
        match self {
            TypeInfo::Pointer(pointer) => match pointer {
                Pointer::Ref { id, .. } => id.display_name.as_str(),
                Pointer::RefMut { id, .. } => id.display_name.as_str(),
                Pointer::RawConst { id, .. } => id.display_name.as_str(),
                Pointer::RawMut { id, .. } => id.display_name.as_str(),
                Pointer::OwningBox { id, .. } => id.display_name.as_str(),
            },
            TypeInfo::Primitive(primitive) => primitive.name(),
            TypeInfo::Sequence(sequence) => match sequence {
                Sequence::Str => "str",
                Sequence::Slice { id, .. } => id.display_name.as_str(),
                Sequence::Array { id, .. } => id.display_name.as_str(),
            },
            TypeInfo::Std(std_shape) => match std_shape {
                Std::OwnedString => "alloc::string::String",
                Std::GrowableSequence { id, .. } => id.display_name.as_str(),
                Std::Optional { id, .. } => id.display_name.as_str(),
                Std::FallibleResult { id, .. } => id.display_name.as_str(),
                Std::PhantomMarker { id, .. } => id.display_name.as_str(),
            },
            TypeInfo::Tuple(Tuple::Tuple { id, .. }) => id.display_name.as_str(),
            TypeInfo::Struct(structure) => match structure {
                Struct::UnitStruct { id, .. } => id.display_name.as_str(),
                Struct::TupleStruct { id, .. } => id.display_name.as_str(),
                Struct::Struct { id, .. } => id.display_name.as_str(),
            },
            TypeInfo::Enum(Enum::Enum { id, .. }) => id.display_name.as_str(),
        }
    }

    /// Whether the described type is statically sized, so that a layout is
    /// present. Only bare string slices and bare slices are dynamically
    /// sized.
    pub open spec fn has_layout(&self) -> bool {
        match self {
            TypeInfo::Sequence(sequence) => match sequence {
                Sequence::Str => false,
                Sequence::Slice { .. } => false,
                Sequence::Array { .. } => true,
            },
            _ => true,
        }
    }

    /// The size of the described type, meaningful when it is statically
    /// sized.
    pub open spec fn size_spec(&self) -> nat {
        match self {
            TypeInfo::Pointer(pointer) => match pointer {
                Pointer::Ref { sized, .. } => sized.size as nat,
                Pointer::RefMut { sized, .. } => sized.size as nat,
                Pointer::RawConst { sized, .. } => sized.size as nat,
                Pointer::RawMut { sized, .. } => sized.size as nat,
                Pointer::OwningBox { sized, .. } => sized.size as nat,
            },
            TypeInfo::Primitive(primitive) => primitive.size_spec(),
            TypeInfo::Sequence(sequence) => match sequence {
                Sequence::Str => 0,
                Sequence::Slice { .. } => 0,
                Sequence::Array { sized, .. } => sized.size as nat,
            },
            TypeInfo::Std(std_shape) => match std_shape {
                Std::OwnedString => vstd::layout::size_of::<String>(),
                Std::GrowableSequence { sized, .. } => sized.size as nat,
                Std::Optional { sized, .. } => sized.size as nat,
                Std::FallibleResult { sized, .. } => sized.size as nat,
                Std::PhantomMarker { sized, .. } => sized.size as nat,
            },
            TypeInfo::Tuple(Tuple::Tuple { sized, .. }) => sized.size as nat,
            TypeInfo::Struct(structure) => match structure {
                Struct::UnitStruct { sized, .. } => sized.size as nat,
                Struct::TupleStruct { sized, .. } => sized.size as nat,
                Struct::Struct { sized, .. } => sized.size as nat,
            },
            TypeInfo::Enum(Enum::Enum { sized, .. }) => sized.size as nat,
        }
    }

    /// The alignment of the described type, meaningful when it is statically
    /// sized.
    pub open spec fn align_spec(&self) -> nat {
        match self {
            TypeInfo::Pointer(pointer) => match pointer {
                Pointer::Ref { sized, .. } => sized.align as nat,
                Pointer::RefMut { sized, .. } => sized.align as nat,
                Pointer::RawConst { sized, .. } => sized.align as nat,
                Pointer::RawMut { sized, .. } => sized.align as nat,
                Pointer::OwningBox { sized, .. } => sized.align as nat,
            },
            TypeInfo::Primitive(primitive) => primitive.align_spec(),
            TypeInfo::Sequence(sequence) => match sequence {
                Sequence::Str => 0,
                Sequence::Slice { .. } => 0,
                Sequence::Array { sized, .. } => sized.align as nat,
            },
            TypeInfo::Std(std_shape) => match std_shape {
                Std::OwnedString => vstd::layout::align_of::<String>(),
                Std::GrowableSequence { sized, .. } => sized.align as nat,
                Std::Optional { sized, .. } => sized.align as nat,
                Std::FallibleResult { sized, .. } => sized.align as nat,
                Std::PhantomMarker { sized, .. } => sized.align as nat,
            },
            TypeInfo::Tuple(Tuple::Tuple { sized, .. }) => sized.align as nat,
            TypeInfo::Struct(structure) => match structure {
                Struct::UnitStruct { sized, .. } => sized.align as nat,
                Struct::TupleStruct { sized, .. } => sized.align as nat,
                Struct::Struct { sized, .. } => sized.align as nat,
            },
            TypeInfo::Enum(Enum::Enum { sized, .. }) => sized.align as nat,
        }
    }

    /// The size of the described type: present exactly when the type is
    /// statically sized.
    pub fn size(&self) -> (r: Option<usize>)
        ensures
            r is Some <==> self.has_layout(),
            self.has_layout() ==> r->0 as nat == self.size_spec(),
    {
        match self {
            TypeInfo::Pointer(pointer) => match pointer {
                Pointer::Ref { sized, .. } => Some(sized.size),
                Pointer::RefMut { sized, .. } => Some(sized.size),
                Pointer::RawConst { sized, .. } => Some(sized.size),
                Pointer::RawMut { sized, .. } => Some(sized.size),
                Pointer::OwningBox { sized, .. } => Some(sized.size),
            },
            TypeInfo::Primitive(primitive) => Some(primitive.size()),
            TypeInfo::Sequence(sequence) => match sequence {
                Sequence::Str => None,
                Sequence::Slice { .. } => None,
                Sequence::Array { sized, .. } => Some(sized.size),
            },
            TypeInfo::Std(std_shape) => match std_shape {
                Std::OwnedString => Some(core::mem::size_of::<String>()),
                Std::GrowableSequence { sized, .. } => Some(sized.size),
                Std::Optional { sized, .. } => Some(sized.size),
                Std::FallibleResult { sized, .. } => Some(sized.size),
                Std::PhantomMarker { sized, .. } => Some(sized.size),
            },
            TypeInfo::Tuple(Tuple::Tuple { sized, .. }) => Some(sized.size),
            TypeInfo::Struct(structure) => match structure {
                Struct::UnitStruct { sized, .. } => Some(sized.size),
                Struct::TupleStruct { sized, .. } => Some(sized.size),
                Struct::Struct { sized, .. } => Some(sized.size),
            },
            TypeInfo::Enum(Enum::Enum { sized, .. }) => Some(sized.size),
        }
    }

    /// The alignment of the described type: present exactly when the type is
    /// statically sized.
    pub fn align(&self) -> (r: Option<usize>)
        ensures
            r is Some <==> self.has_layout(),
            self.has_layout() ==> r->0 as nat == self.align_spec(),
    {
        match self {
            TypeInfo::Pointer(pointer) => match pointer {
                Pointer::Ref { sized, .. } => Some(sized.align),
                Pointer::RefMut { sized, .. } => Some(sized.align),
                Pointer::RawConst { sized, .. } => Some(sized.align),
                Pointer::RawMut { sized, .. } => Some(sized.align),
                Pointer::OwningBox { sized, .. } => Some(sized.align),
            },
            TypeInfo::Primitive(primitive) => Some(primitive.align()),
            TypeInfo::Sequence(sequence) => match sequence {
                Sequence::Str => None,
                Sequence::Slice { .. } => None,
                Sequence::Array { sized, .. } => Some(sized.align),
            },
            TypeInfo::Std(std_shape) => match std_shape {
                Std::OwnedString => Some(core::mem::align_of::<String>()),
                Std::GrowableSequence { sized, .. } => Some(sized.align),
                Std::Optional { sized, .. } => Some(sized.align),
                Std::FallibleResult { sized, .. } => Some(sized.align),
                Std::PhantomMarker { sized, .. } => Some(sized.align),
            },
            TypeInfo::Tuple(Tuple::Tuple { sized, .. }) => Some(sized.align),
            TypeInfo::Struct(structure) => match structure {
                Struct::UnitStruct { sized, .. } => Some(sized.align),
                Struct::TupleStruct { sized, .. } => Some(sized.align),
                Struct::Struct { sized, .. } => Some(sized.align),
            },
            TypeInfo::Enum(Enum::Enum { sized, .. }) => Some(sized.align),
        }
    }

    /// The variants of the described type: its variant records in
    /// declaration order when it is an enum, and the empty sequence
    /// otherwise.
    pub open spec fn variants_spec(&self) -> Seq<EnumVariantInfo> {
        match self {
            TypeInfo::Enum(Enum::Enum { variants, .. }) => variants.variant_infos@,
            _ => Seq::empty(),
        }
    }

    /// The type-erased discriminant tokens of the described type: one per
    /// variant, in declaration order, when it is an enum, and none
    /// otherwise.
    pub fn discriminants(&self) -> (r: Vec<DiscriminantErased>)
        ensures
            r@.len() == self.variants_spec().len(),
            forall|i: int|
                0 <= i < r@.len() ==> r@[i] == self.variants_spec()[i].discriminant_spec(),
    {
        let variant_infos: &Vec<EnumVariantInfo> = match self {
            TypeInfo::Enum(Enum::Enum { variants, .. }) => &variants.variant_infos,
            _ => {
                let r: Vec<DiscriminantErased> = Vec::new();
                return r;
            },
        };
        let mut r: Vec<DiscriminantErased> = Vec::new();
        let n = variant_infos.len();
        for i in 0..n
            invariant
                n == variant_infos@.len(),
                variant_infos@ == self.variants_spec(),
                r@.len() == i,
                forall|j: int|
                    0 <= j < i ==> r@[j] == self.variants_spec()[j].discriminant_spec(),
        {
            r.push(variant_infos[i].discriminant());
        }
        r
    }
}

} // verus!
