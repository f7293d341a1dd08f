//! The provider protocol: how a type yields its descriptor.
//!
//! A type that implements [`TypeInfoProvider`] can be queried through
//! [`TypeInfo::of`](crate::type_info::TypeInfo::of). The implementation
//! states the type's stable identity and display name, and builds its
//! descriptor. Building is pure: it reads no state, so two builds of one
//! type describe the same type, and a registry may keep whichever one was
//! inserted first.
//!
//! The library implements the trait for the built-in shapes: the primitive
//! types, string types, references, owning boxes, slices, arrays, growable
//! sequences, optional and success-or-error values, and zero-sized markers.
//! Implementations for user-defined aggregates are supplied by registration
//! code outside this library, under the same contract.
//!
//! A borrow-duration (lifetime) parameter never reaches an identity or a
//! descriptor: the implementations for reference types are uniform in their
//! lifetime, which is what canonicalizes every borrow to the one maximal
//! duration.

use vstd::prelude::*;
use vstd::string::StringExecFns;
use crate::ids::combine_id;
use crate::ids::combine_id_spec;
use crate::ids::format_decimal;
use crate::ids::spec_decimal;
use crate::discriminant_erased::Discriminant;
use crate::discriminant_erased::DiscriminantErased;
use crate::type_info::ArrayInfo;
use crate::type_info::IdInfo;
use crate::type_info::ItemInfo;
use crate::type_info::Pointer;
use crate::type_info::Primitive;
use crate::type_info::ResultInfo;
use crate::type_info::Sequence;
use crate::type_info::SizedInfo;
use crate::type_info::Std;
use crate::type_info::TargetInfo;
use crate::type_info::TypeInfo;

verus! {

/// Implemented by every type that can produce its own descriptor.
///
/// `stable_id_spec` is the type's stable identity, computed against the
/// type's canonical form: borrow durations never enter it. `type_info`
/// builds the descriptor; what the built descriptor looks like is pinned by
/// `provided_info_ok`, which each implementation states exactly.
pub trait TypeInfoProvider {
    /// The stable identity of the canonical form of the type.
    spec fn stable_id_spec() -> u64;

    /// The display name of the type.
    spec fn display_name_spec() -> Seq<char>;

    /// Exactly what a freshly built descriptor of this type holds.
    spec fn provided_info_ok(info: &TypeInfo) -> bool;

    /// The stable identity of the canonical form of the type.
    fn stable_id() -> (id: u64)
        ensures
            id == Self::stable_id_spec(),
    ;

    /// The display name of the type.
    fn display_name() -> (r: String)
        ensures
            r@ == Self::display_name_spec(),
    ;

    /// Build the descriptor of the type. Construction is pure and total: it
    /// reads no state and cannot fail.
    fn type_info() -> (info: TypeInfo)
        ensures
            info.type_id_spec() == Self::stable_id_spec(),
            info.display_name_view() == Self::display_name_spec(),
            Self::provided_info_ok(&info),
    ;
}

impl TypeInfoProvider for u8 {
    open spec fn stable_id_spec() -> u64 {
        crate::ids::ID_U8
    }

    open spec fn display_name_spec() -> Seq<char> {
        "u8"@
    }

    open spec fn provided_info_ok(info: &TypeInfo) -> bool {
        *info == TypeInfo::Primitive(Primitive::U8)
    }

    fn stable_id() -> u64 {
        crate::ids::ID_U8
    }

    fn display_name() -> String {
        String::from_str("u8")
    }

    fn type_info() -> TypeInfo {
        TypeInfo::Primitive(Primitive::U8)
    }
}

impl TypeInfoProvider for u16 {
    open spec fn stable_id_spec() -> u64 {
        crate::ids::ID_U16
    }

    open spec fn display_name_spec() -> Seq<char> {
        "u16"@
    }

    open spec fn provided_info_ok(info: &TypeInfo) -> bool {
        *info == TypeInfo::Primitive(Primitive::U16)
    }

    fn stable_id() -> u64 {
        crate::ids::ID_U16
    }

    fn display_name() -> String {
        String::from_str("u16")
    }

    fn type_info() -> TypeInfo {
        TypeInfo::Primitive(Primitive::U16)
    }
}

impl TypeInfoProvider for u32 {
    open spec fn stable_id_spec() -> u64 {
        crate::ids::ID_U32
    }

    open spec fn display_name_spec() -> Seq<char> {
        "u32"@
    }

    open spec fn provided_info_ok(info: &TypeInfo) -> bool {
        *info == TypeInfo::Primitive(Primitive::U32)
    }

    fn stable_id() -> u64 {
        crate::ids::ID_U32
    }

    fn display_name() -> String {
        String::from_str("u32")
    }

    fn type_info() -> TypeInfo {
        TypeInfo::Primitive(Primitive::U32)
    }
}

impl TypeInfoProvider for u64 {
    open spec fn stable_id_spec() -> u64 {
        crate::ids::ID_U64
    }

    open spec fn display_name_spec() -> Seq<char> {
        "u64"@
    }

    open spec fn provided_info_ok(info: &TypeInfo) -> bool {
        *info == TypeInfo::Primitive(Primitive::U64)
    }

    fn stable_id() -> u64 {
        crate::ids::ID_U64
    }

    fn display_name() -> String {
        String::from_str("u64")
    }

    fn type_info() -> TypeInfo {
        TypeInfo::Primitive(Primitive::U64)
    }
}

impl TypeInfoProvider for u128 {
    open spec fn stable_id_spec() -> u64 {
        crate::ids::ID_U128
    }

    open spec fn display_name_spec() -> Seq<char> {
        "u128"@
    }

    open spec fn provided_info_ok(info: &TypeInfo) -> bool {
        *info == TypeInfo::Primitive(Primitive::U128)
    }

    fn stable_id() -> u64 {
        crate::ids::ID_U128
    }

    fn display_name() -> String {
        String::from_str("u128")
    }

    fn type_info() -> TypeInfo {
        TypeInfo::Primitive(Primitive::U128)
    }
}

impl TypeInfoProvider for i8 {
    open spec fn stable_id_spec() -> u64 {
        crate::ids::ID_I8
    }

    open spec fn display_name_spec() -> Seq<char> {
        "i8"@
    }

    open spec fn provided_info_ok(info: &TypeInfo) -> bool {
        *info == TypeInfo::Primitive(Primitive::I8)
    }

    fn stable_id() -> u64 {
        crate::ids::ID_I8
    }

    fn display_name() -> String {
        String::from_str("i8")
    }

    fn type_info() -> TypeInfo {
        TypeInfo::Primitive(Primitive::I8)
    }
}

impl TypeInfoProvider for i16 {
    open spec fn stable_id_spec() -> u64 {
        crate::ids::ID_I16
    }

    open spec fn display_name_spec() -> Seq<char> {
        "i16"@
    }

    open spec fn provided_info_ok(info: &TypeInfo) -> bool {
        *info == TypeInfo::Primitive(Primitive::I16)
    }

    fn stable_id() -> u64 {
        crate::ids::ID_I16
    }

    fn display_name() -> String {
        String::from_str("i16")
    }

    fn type_info() -> TypeInfo {
        TypeInfo::Primitive(Primitive::I16)
    }
}

impl TypeInfoProvider for i32 {
    open spec fn stable_id_spec() -> u64 {
        crate::ids::ID_I32
    }

    open spec fn display_name_spec() -> Seq<char> {
        "i32"@
    }

    open spec fn provided_info_ok(info: &TypeInfo) -> bool {
        *info == TypeInfo::Primitive(Primitive::I32)
    }

    fn stable_id() -> u64 {
        crate::ids::ID_I32
    }

    fn display_name() -> String {
        String::from_str("i32")
    }

    fn type_info() -> TypeInfo {
        TypeInfo::Primitive(Primitive::I32)
    }
}

impl TypeInfoProvider for i64 {
    open spec fn stable_id_spec() -> u64 {
        crate::ids::ID_I64
    }

    open spec fn display_name_spec() -> Seq<char> {
        "i64"@
    }

    open spec fn provided_info_ok(info: &TypeInfo) -> bool {
        *info == TypeInfo::Primitive(Primitive::I64)
    }

    fn stable_id() -> u64 {
        crate::ids::ID_I64
    }

    fn display_name() -> String {
        String::from_str("i64")
    }

    fn type_info() -> TypeInfo {
        TypeInfo::Primitive(Primitive::I64)
    }
}

impl TypeInfoProvider for i128 {
    open spec fn stable_id_spec() -> u64 {
        crate::ids::ID_I128
    }

    open spec fn display_name_spec() -> Seq<char> {
        "i128"@
    }

    open spec fn provided_info_ok(info: &TypeInfo) -> bool {
        *info == TypeInfo::Primitive(Primitive::I128)
    }

    fn stable_id() -> u64 {
        crate::ids::ID_I128
    }

    fn display_name() -> String {
        String::from_str("i128")
    }

    fn type_info() -> TypeInfo {
        TypeInfo::Primitive(Primitive::I128)
    }
}

impl TypeInfoProvider for usize {
    open spec fn stable_id_spec() -> u64 {
        crate::ids::ID_USIZE
    }

    open spec fn display_name_spec() -> Seq<char> {
        "usize"@
    }

    open spec fn provided_info_ok(info: &TypeInfo) -> bool {
        *info == TypeInfo::Primitive(Primitive::Usize)
    }

    fn stable_id() -> u64 {
        crate::ids::ID_USIZE
    }

    fn display_name() -> String {
        String::from_str("usize")
    }

    fn type_info() -> TypeInfo {
        TypeInfo::Primitive(Primitive::Usize)
    }
}

impl TypeInfoProvider for isize {
    open spec fn stable_id_spec() -> u64 {
        crate::ids::ID_ISIZE
    }

    open spec fn display_name_spec() -> Seq<char> {
        "isize"@
    }

    open spec fn provided_info_ok(info: &TypeInfo) -> bool {
        *info == TypeInfo::Primitive(Primitive::Isize)
    }

    fn stable_id() -> u64 {
        crate::ids::ID_ISIZE
    }

    fn display_name() -> String {
        String::from_str("isize")
    }

    fn type_info() -> TypeInfo {
        TypeInfo::Primitive(Primitive::Isize)
    }
}

impl TypeInfoProvider for bool {
    open spec fn stable_id_spec() -> u64 {
        crate::ids::ID_BOOL
    }

    open spec fn display_name_spec() -> Seq<char> {
        "bool"@
    }

    open spec fn provided_info_ok(info: &TypeInfo) -> bool {
        *info == TypeInfo::Primitive(Primitive::Bool)
    }

    fn stable_id() -> u64 {
        crate::ids::ID_BOOL
    }

    fn display_name() -> String {
        String::from_str("bool")
    }

    fn type_info() -> TypeInfo {
        TypeInfo::Primitive(Primitive::Bool)
    }
}

impl TypeInfoProvider for char {
    open spec fn stable_id_spec() -> u64 {
        crate::ids::ID_CHAR
    }

    open spec fn display_name_spec() -> Seq<char> {
        "char"@
    }

    open spec fn provided_info_ok(info: &TypeInfo) -> bool {
        *info == TypeInfo::Primitive(Primitive::Char)
    }

    fn stable_id() -> u64 {
        crate::ids::ID_CHAR
    }

    fn display_name() -> String {
        String::from_str("char")
    }

    fn type_info() -> TypeInfo {
        TypeInfo::Primitive(Primitive::Char)
    }
}

impl TypeInfoProvider for () {
    open spec fn stable_id_spec() -> u64 {
        crate::ids::ID_UNIT
    }

    open spec fn display_name_spec() -> Seq<char> {
        "()"@
    }

    open spec fn provided_info_ok(info: &TypeInfo) -> bool {
        *info == TypeInfo::Primitive(Primitive::Unit)
    }

    fn stable_id() -> u64 {
        crate::ids::ID_UNIT
    }

    fn display_name() -> String {
        String::from_str("()")
    }

    fn type_info() -> TypeInfo {
        TypeInfo::Primitive(Primitive::Unit)
    }
}

impl<T: TypeInfoProvider> TypeInfoProvider for Vec<T> {
    open spec fn stable_id_spec() -> u64 {
        combine_id_spec(crate::ids::TAG_VEC, T::stable_id_spec())
    }

    open spec fn display_name_spec() -> Seq<char> {
        "alloc::vec::Vec<"@ + T::display_name_spec() + ">"@
    }

    open spec fn provided_info_ok(info: &TypeInfo) -> bool {
        match info {
            TypeInfo::Std(Std::GrowableSequence { id, sized, item }) => {
                &&& sized.size as nat == vstd::layout::size_of::<Vec<T>>()
                &&& sized.align as nat == vstd::layout::align_of::<Vec<T>>()
                &&& item.item.type_id_spec() == T::stable_id_spec()
                &&& T::provided_info_ok(&item.item)
            },
            _ => false,
        }
    }

    fn stable_id() -> u64 {
        combine_id(crate::ids::TAG_VEC, T::stable_id())
    }

    fn display_name() -> String {
        let mut s = String::from_str("alloc::vec::Vec<");
        let inner = T::display_name();
        s.append(inner.as_str());
        s.append(">");
        proof {
            assert(s@ =~= Self::display_name_spec());
        }
        s
    }

    fn type_info() -> TypeInfo {
        let info = TypeInfo::Std(
            Std::GrowableSequence {
                id: IdInfo { type_id: Self::stable_id(), display_name: Self::display_name() },
                sized: SizedInfo {
                    size: core::mem::size_of::<Vec<T>>(),
                    align: core::mem::align_of::<Vec<T>>(),
                },
                item: ItemInfo { item: Box::new(T::type_info()) },
            },
        );
        info
    }
}

impl TypeInfoProvider for str {
    open spec fn stable_id_spec() -> u64 {
        crate::ids::ID_STR
    }

    open spec fn display_name_spec() -> Seq<char> {
        "str"@
    }

    open spec fn provided_info_ok(info: &TypeInfo) -> bool {
        *info matches TypeInfo::Sequence(Sequence::Str)
    }

    fn stable_id() -> u64 {
        crate::ids::ID_STR
    }

    fn display_name() -> String {
        String::from_str("str")
    }

    fn type_info() -> TypeInfo {
        TypeInfo::Sequence(Sequence::Str)
    }
}

impl TypeInfoProvider for String {
    open spec fn stable_id_spec() -> u64 {
        crate::ids::ID_STRING
    }

    open spec fn display_name_spec() -> Seq<char> {
        "alloc::string::String"@
    }

    open spec fn provided_info_ok(info: &TypeInfo) -> bool {
        *info matches TypeInfo::Std(Std::OwnedString)
    }

    fn stable_id() -> u64 {
        crate::ids::ID_STRING
    }

    fn display_name() -> String {
        String::from_str("alloc::string::String")
    }

    fn type_info() -> TypeInfo {
        TypeInfo::Std(Std::OwnedString)
    }
}

impl<T: TypeInfoProvider> TypeInfoProvider for Option<T> {
    open spec fn stable_id_spec() -> u64 {
        combine_id_spec(crate::ids::TAG_OPTION, T::stable_id_spec())
    }

    open spec fn display_name_spec() -> Seq<char> {
        "core::option::Option<"@ + T::display_name_spec() + ">"@
    }

    open spec fn provided_info_ok(info: &TypeInfo) -> bool {
        match info {
            TypeInfo::Std(Std::Optional { id, sized, item }) => {
                &&& sized.size as nat == vstd::layout::size_of::<Option<T>>()
                &&& sized.align as nat == vstd::layout::align_of::<Option<T>>()
                &&& item.item.type_id_spec() == T::stable_id_spec()
                &&& T::provided_info_ok(&item.item)
            },
            _ => false,
        }
    }

    fn stable_id() -> u64 {
        combine_id(crate::ids::TAG_OPTION, T::stable_id())
    }

    fn display_name() -> String {
        let mut s = String::from_str("core::option::Option<");
        let inner = T::display_name();
        s.append(inner.as_str());
        s.append(">");
        proof {
            assert(s@ =~= Self::display_name_spec());
        }
        s
    }

    fn type_info() -> TypeInfo {
        TypeInfo::Std(
            Std::Optional {
                id: IdInfo { type_id: Self::stable_id(), display_name: Self::display_name() },
                sized: SizedInfo {
                    size: core::mem::size_of::<Option<T>>(),
                    align: core::mem::align_of::<Option<T>>(),
                },
                item: ItemInfo { item: Box::new(T::type_info()) },
            },
        )
    }
}

impl<O: TypeInfoProvider, E: TypeInfoProvider> TypeInfoProvider for Result<O, E> {
    open spec fn stable_id_spec() -> u64 {
        combine_id_spec(
            crate::ids::TAG_RESULT,
            combine_id_spec(O::stable_id_spec(), E::stable_id_spec()),
        )
    }

    open spec fn display_name_spec() -> Seq<char> {
        "core::result::Result<"@ + O::display_name_spec() + ", "@ + E::display_name_spec() + ">"@
    }

    open spec fn provided_info_ok(info: &TypeInfo) -> bool {
        match info {
            TypeInfo::Std(Std::FallibleResult { id, sized, info }) => {
                &&& sized.size as nat == vstd::layout::size_of::<Result<O, E>>()
                &&& sized.align as nat == vstd::layout::align_of::<Result<O, E>>()
                &&& info.ok.type_id_spec() == O::stable_id_spec()
                &&& info.err.type_id_spec() == E::stable_id_spec()
                &&& O::provided_info_ok(&info.ok)
                &&& E::provided_info_ok(&info.err)
            },
            _ => false,
        }
    }

    fn stable_id() -> u64 {
        combine_id(crate::ids::TAG_RESULT, combine_id(O::stable_id(), E::stable_id()))
    }

    fn display_name() -> String {
        let mut s = String::from_str("core::result::Result<");
        let ok_name = O::display_name();
        s.append(ok_name.as_str());
        s.append(", ");
        let err_name = E::display_name();
        s.append(err_name.as_str());
        s.append(">");
        proof {
            assert(s@ =~= Self::display_name_spec());
        }
        s
    }

    fn type_info() -> TypeInfo {
        TypeInfo::Std(
            Std::FallibleResult {
                id: IdInfo { type_id: Self::stable_id(), display_name: Self::display_name() },
                sized: SizedInfo {
                    size: core::mem::size_of::<Result<O, E>>(),
                    align: core::mem::align_of::<Result<O, E>>(),
                },
                info: ResultInfo {
                    ok: Box::new(O::type_info()),
                    err: Box::new(E::type_info()),
                },
            },
        )
    }
}

impl<T: TypeInfoProvider + ?Sized> TypeInfoProvider for core::marker::PhantomData<T> {
    open spec fn stable_id_spec() -> u64 {
        combine_id_spec(crate::ids::TAG_PHANTOM, T::stable_id_spec())
    }

    open spec fn display_name_spec() -> Seq<char> {
        "core::marker::PhantomData<"@ + T::display_name_spec() + ">"@
    }

    open spec fn provided_info_ok(info: &TypeInfo) -> bool {
        match info {
            TypeInfo::Std(Std::PhantomMarker { id, sized, item }) => {
                &&& sized.size as nat == vstd::layout::size_of::<core::marker::PhantomData<T>>()
                &&& sized.align as nat == vstd::layout::align_of::<core::marker::PhantomData<T>>()
                &&& item.item.type_id_spec() == T::stable_id_spec()
                &&& T::provided_info_ok(&item.item)
            },
            _ => false,
        }
    }

    fn stable_id() -> u64 {
        combine_id(crate::ids::TAG_PHANTOM, T::stable_id())
    }

    fn display_name() -> String {
        let mut s = String::from_str("core::marker::PhantomData<");
        let inner = T::display_name();
        s.append(inner.as_str());
        s.append(">");
        proof {
            assert(s@ =~= Self::display_name_spec());
        }
        s
    }

    fn type_info() -> TypeInfo {
        TypeInfo::Std(
            Std::PhantomMarker {
                id: IdInfo { type_id: Self::stable_id(), display_name: Self::display_name() },
                sized: SizedInfo {
                    size: core::mem::size_of::<core::marker::PhantomData<T>>(),
                    align: core::mem::align_of::<core::marker::PhantomData<T>>(),
                },
                item: ItemInfo { item: Box::new(T::type_info()) },
            },
        )
    }
}

impl<'s, T: TypeInfoProvider + ?Sized> TypeInfoProvider for &'s T {
    open spec fn stable_id_spec() -> u64 {
        combine_id_spec(crate::ids::TAG_REF, T::stable_id_spec())
    }

    open spec fn display_name_spec() -> Seq<char> {
        "&"@ + T::display_name_spec()
    }

    open spec fn provided_info_ok(info: &TypeInfo) -> bool {
        match info {
            TypeInfo::Pointer(Pointer::Ref { id, sized, item }) => {
                &&& sized.size as nat == vstd::layout::size_of::<&'s T>()
                &&& sized.align as nat == vstd::layout::align_of::<&'s T>()
                &&& item.target_id == T::stable_id_spec()
            },
            _ => false,
        }
    }

    fn stable_id() -> u64 {
        combine_id(crate::ids::TAG_REF, T::stable_id())
    }

    fn display_name() -> String {
        let mut s = String::from_str("&");
        let inner = T::display_name();
        s.append(inner.as_str());
        proof {
            assert(s@ =~= Self::display_name_spec());
        }
        s
    }

    fn type_info() -> TypeInfo {
        TypeInfo::Pointer(
            Pointer::Ref {
                id: IdInfo { type_id: Self::stable_id(), display_name: Self::display_name() },
                sized: SizedInfo {
                    size: core::mem::size_of::<&'s T>(),
                    align: core::mem::align_of::<&'s T>(),
                },
                item: TargetInfo { target_id: T::stable_id() },
            },
        )
    }
}

impl<'s, T: TypeInfoProvider + ?Sized> TypeInfoProvider for &'s mut T {
    open spec fn stable_id_spec() -> u64 {
        combine_id_spec(crate::ids::TAG_REF_MUT, T::stable_id_spec())
    }

    open spec fn display_name_spec() -> Seq<char> {
        "&mut "@ + T::display_name_spec()
    }

    open spec fn provided_info_ok(info: &TypeInfo) -> bool {
        match info {
            TypeInfo::Pointer(Pointer::RefMut { id, sized, item }) => {
                &&& sized.size as nat == vstd::layout::size_of::<&'s mut T>()
                &&& sized.align as nat == vstd::layout::align_of::<&'s mut T>()
                &&& item.target_id == T::stable_id_spec()
            },
            _ => false,
        }
    }

    fn stable_id() -> u64 {
        combine_id(crate::ids::TAG_REF_MUT, T::stable_id())
    }

    fn display_name() -> String {
        let mut s = String::from_str("&mut ");
        let inner = T::display_name();
        s.append(inner.as_str());
        proof {
            assert(s@ =~= Self::display_name_spec());
        }
        s
    }

    fn type_info() -> TypeInfo {
        TypeInfo::Pointer(
            Pointer::RefMut {
                id: IdInfo { type_id: Self::stable_id(), display_name: Self::display_name() },
                sized: SizedInfo {
                    size: core::mem::size_of::<&'s mut T>(),
                    align: core::mem::align_of::<&'s mut T>(),
                },
                item: TargetInfo { target_id: T::stable_id() },
            },
        )
    }
}

impl<T: TypeInfoProvider + ?Sized> TypeInfoProvider for Box<T> {
    open spec fn stable_id_spec() -> u64 {
        combine_id_spec(crate::ids::TAG_BOX, T::stable_id_spec())
    }

    open spec fn display_name_spec() -> Seq<char> {
        "alloc::boxed::Box<"@ + T::display_name_spec() + ">"@
    }

    open spec fn provided_info_ok(info: &TypeInfo) -> bool {
        match info {
            TypeInfo::Pointer(Pointer::OwningBox { id, sized, item }) => {
                &&& sized.size as nat == vstd::layout::size_of::<Box<T>>()
                &&& sized.align as nat == vstd::layout::align_of::<Box<T>>()
                &&& item.target_id == T::stable_id_spec()
            },
            _ => false,
        }
    }

    fn stable_id() -> u64 {
        combine_id(crate::ids::TAG_BOX, T::stable_id())
    }

    fn display_name() -> String {
        let mut s = String::from_str("alloc::boxed::Box<");
        let inner = T::display_name();
        s.append(inner.as_str());
        s.append(">");
        proof {
            assert(s@ =~= Self::display_name_spec());
        }
        s
    }

    fn type_info() -> TypeInfo {
        TypeInfo::Pointer(
            Pointer::OwningBox {
                id: IdInfo { type_id: Self::stable_id(), display_name: Self::display_name() },
                sized: SizedInfo {
                    size: core::mem::size_of::<Box<T>>(),
                    align: core::mem::align_of::<Box<T>>(),
                },
                item: TargetInfo { target_id: T::stable_id() },
            },
        )
    }
}

impl<T: TypeInfoProvider> TypeInfoProvider for [T] {
    open spec fn stable_id_spec() -> u64 {
        combine_id_spec(crate::ids::TAG_SLICE, T::stable_id_spec())
    }

    open spec fn display_name_spec() -> Seq<char> {
        "["@ + T::display_name_spec() + "]"@
    }

    open spec fn provided_info_ok(info: &TypeInfo) -> bool {
        match info {
            TypeInfo::Sequence(Sequence::Slice { id, item }) => {
                &&& item.item.type_id_spec() == T::stable_id_spec()
                &&& T::provided_info_ok(&item.item)
            },
            _ => false,
        }
    }

    fn stable_id() -> u64 {
        combine_id(crate::ids::TAG_SLICE, T::stable_id())
    }

    fn display_name() -> String {
        let mut s = String::from_str("[");
        let inner = T::display_name();
        s.append(inner.as_str());
        s.append("]");
        proof {
            assert(s@ =~= Self::display_name_spec());
        }
        s
    }

    fn type_info() -> TypeInfo {
        TypeInfo::Sequence(
            Sequence::Slice {
                id: IdInfo { type_id: Self::stable_id(), display_name: Self::display_name() },
                item: ItemInfo { item: Box::new(T::type_info()) },
            },
        )
    }
}

impl<T: TypeInfoProvider, const N: usize> TypeInfoProvider for [T; N] {
    open spec fn stable_id_spec() -> u64 {
        combine_id_spec(crate::ids::TAG_ARRAY, combine_id_spec(T::stable_id_spec(), N as u64))
    }

    open spec fn display_name_spec() -> Seq<char> {
        "["@ + T::display_name_spec() + "; "@ + spec_decimal(N as nat) + "]"@
    }

    open spec fn provided_info_ok(info: &TypeInfo) -> bool {
        match info {
            TypeInfo::Sequence(Sequence::Array { id, sized, item, info }) => {
                &&& sized.size as nat == vstd::layout::size_of::<[T; N]>()
                &&& sized.align as nat == vstd::layout::align_of::<[T; N]>()
                &&& item.item.type_id_spec() == T::stable_id_spec()
                &&& T::provided_info_ok(&item.item)
                &&& info.array_length == N
            },
            _ => false,
        }
    }

    fn stable_id() -> u64 {
        combine_id(crate::ids::TAG_ARRAY, combine_id(T::stable_id(), N as u64))
    }

    fn display_name() -> String {
        let mut s = String::from_str("[");
        let inner = T::display_name();
        s.append(inner.as_str());
        s.append("; ");
        let len_text = format_decimal(N);
        s.append(len_text.as_str());
        s.append("]");
        proof {
            assert(s@ =~= Self::display_name_spec());
        }
        s
    }

    fn type_info() -> TypeInfo {
        TypeInfo::Sequence(
            Sequence::Array {
                id: IdInfo { type_id: Self::stable_id(), display_name: Self::display_name() },
                sized: SizedInfo {
                    size: core::mem::size_of::<[T; N]>(),
                    align: core::mem::align_of::<[T; N]>(),
                },
                item: ItemInfo { item: Box::new(T::type_info()) },
                info: ArrayInfo { array_length: N },
            },
        )
    }
}

impl DiscriminantErased {
    /// Checked recovery of the concrete token for the enum type `E`: the
    /// concrete token when the erased token belongs to `E`, and nothing
    /// otherwise. Absence is an expected outcome, not an error.
    pub fn downcast<E: TypeInfoProvider + ?Sized>(&self) -> (r: Option<Discriminant>)
        ensures
            self.enum_id == E::stable_id_spec() ==> r == Some(
                Discriminant { enum_id: self.enum_id, variant_index: self.variant_index },
            ),
            self.enum_id != E::stable_id_spec() ==> r is None,
    {
        self.downcast_id(E::stable_id())
    }
}

/// Canonicalization of borrow durations: the identity of a reference type
/// never depends on the duration of the borrow. A borrow of `T` taken with
/// any two durations has one stable identity — and therefore, through
/// [`crate::registry::of_post`], one cached descriptor.
pub proof fn lemma_borrow_duration_canonical<'a, 'b, T: TypeInfoProvider + ?Sized>()
    where
        T: 'a,
        T: 'b,
    ensures
        <&'a T as TypeInfoProvider>::stable_id_spec() == <&'b T as TypeInfoProvider>::stable_id_spec(),
        <&'a mut T as TypeInfoProvider>::stable_id_spec() == <&'b mut T as TypeInfoProvider>::stable_id_spec(),
{
}

} // verus!
