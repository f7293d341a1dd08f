//! The renderer: a human-readable type signature from a descriptor.
//!
//! Rendering walks the descriptor recursively in one of two modes. The
//! compact mode shows named aggregates (structs and enums) by their
//! shortened display name alone; the detailed mode also expands their
//! fields and variants. Either way, display names are shortened by removing
//! module paths.
//!
//! A caller-supplied recursion budget bounds the depth. The budget is spent
//! only when rendering traverses an indirection — a reference, a raw
//! pointer, or an owning box — and each such traversal costs one unit; at
//! budget zero the indirected branch is rendered as a fixed `..` placeholder
//! inside its usual notation. Traversal into inline members (sequence and
//! collection items, tuple, struct and variant fields) is free: a
//! self-referential type must pass through an indirection to stay finite, so
//! charging indirections alone already bounds the recursion, and a purely
//! inline composite renders in full whatever the budget
//! ([`lemma_render_ignores_budget_without_pointers`]).
//!
//! Indirections are also where the descriptor graph is lazy: the pointee is
//! looked up in the registry by its stable identity. A pointee that the
//! registration contract failed to register renders as the same `..`
//! placeholder instead of failing: rendering is total.

use vstd::prelude::*;
use vstd::string::StringExecFns;
use crate::ids::spec_decimal;
use crate::ids::format_decimal;
use crate::registry::Registry;
use crate::type_info::AnonymousFieldInfo;
use crate::type_info::Enum;
use crate::type_info::EnumVariantInfo;
use crate::type_info::NamedFieldInfo;
use crate::type_info::Pointer;
use crate::type_info::Sequence;
use crate::type_info::Std;
use crate::type_info::Struct;
use crate::type_info::Tuple;
use crate::type_info::TypeInfo;

verus! {

/// The module-path-free shortening of a type name, a function of the
/// name's characters alone.
pub uninterp spec fn short_of(s: Seq<char>) -> Seq<char>;

/// Relies on disqualified::ShortName's Display implementation: it rewrites a
/// type name with the prefix of every module path removed, inside generic
/// arguments too, as a function of the name's characters alone.
#[verifier::external_body]
fn short_type_name(full: &str) -> (r: String)
    ensures
        r@ == short_of(full@),
{
    format!("{}", disqualified::ShortName(full))
}

/// The notation a pointer shape opens with.
pub open spec fn pointer_prefix(pointer: Pointer) -> Seq<char> {
    match pointer {
        Pointer::Ref { .. } => "&"@,
        Pointer::RefMut { .. } => "&mut "@,
        Pointer::RawConst { .. } => "*const "@,
        Pointer::RawMut { .. } => "*mut "@,
        Pointer::OwningBox { .. } => "Box<"@,
    }
}

/// The notation a pointer shape closes with.
pub open spec fn pointer_suffix(pointer: Pointer) -> Seq<char> {
    match pointer {
        Pointer::OwningBox { .. } => ">"@,
        _ => Seq::empty(),
    }
}

/// The rendering of a descriptor, over the registry's map `reg`, with the
/// given indirection `budget`, in compact or detailed mode.
pub open spec fn spec_render(
    info: TypeInfo,
    reg: Map<u64, TypeInfo>,
    budget: nat,
    detailed: bool,
) -> Seq<char>
    decreases budget, info,
{
    match info {
        TypeInfo::Pointer(pointer) => {
            // The target costs one unit of budget: at budget zero -- or for a
            // target that the registration contract failed to register -- it
            // is the `..` placeholder; otherwise it is the rendering of the
            // registered target at the remaining budget.
            let target_id = pointer.target_id_spec();
            let body = if budget == 0 {
                ".."@
            } else if reg.contains_key(target_id) {
                spec_render(reg[target_id], reg, (budget - 1) as nat, detailed)
            } else {
                ".."@
            };
            pointer_prefix(pointer) + body + pointer_suffix(pointer)
        },
        TypeInfo::Primitive(primitive) => short_of(primitive.name_view()),
        TypeInfo::Sequence(sequence) => match sequence {
            Sequence::Str => short_of("str"@),
            Sequence::Slice { item, .. } => "["@ + spec_render(*item.item, reg, budget, detailed)
                + "]"@,
            Sequence::Array { item, info, .. } => "["@ + spec_render(
                *item.item,
                reg,
                budget,
                detailed,
            ) + "; "@ + spec_decimal(info.array_length as nat) + "]"@,
        },
        TypeInfo::Std(std_shape) => match std_shape {
            Std::GrowableSequence { item, .. } => "Vec<"@ + spec_render(
                *item.item,
                reg,
                budget,
                detailed,
            ) + ">"@,
            Std::OwnedString => short_of("alloc::string::String"@),
            Std::Optional { item, .. } => "Option<"@ + spec_render(
                *item.item,
                reg,
                budget,
                detailed,
            ) + ">"@,
            Std::FallibleResult { info, .. } => "Result<"@ + spec_render(
                *info.ok,
                reg,
                budget,
                detailed,
            ) + ", "@ + spec_render(*info.err, reg, budget, detailed) + ">"@,
            Std::PhantomMarker { id, .. } => short_of(id.display_name@),
        },
        TypeInfo::Tuple(Tuple::Tuple { info, .. }) => "("@ + spec_render_anon_fields(
            info.field_infos@,
            reg,
            budget,
            detailed,
        ) + ")"@,
        TypeInfo::Struct(structure) => match structure {
            Struct::UnitStruct { id, .. } => short_of(id.display_name@),
            Struct::TupleStruct { id, fields, .. } => if detailed {
                short_of(id.display_name@) + "("@ + spec_render_anon_fields(
                    fields.field_infos@,
                    reg,
                    budget,
                    detailed,
                ) + ")"@
            } else {
                short_of(id.display_name@)
            },
            Struct::Struct { id, fields, .. } => if detailed && fields.field_infos@.len() > 0 {
                short_of(id.display_name@) + " { "@ + spec_render_named_fields(
                    fields.field_infos@,
                    reg,
                    budget,
                    detailed,
                ) + " }"@
            } else {
                short_of(id.display_name@)
            },
        },
        TypeInfo::Enum(Enum::Enum { id, variants, .. }) => if detailed {
            short_of(id.display_name@) + " {"@ + spec_render_variants(
                variants.variant_infos@,
                reg,
                budget,
                detailed,
            ) + "}"@
        } else {
            short_of(id.display_name@)
        },
    }
}

/// The rendering of positional fields, comma-separated, without brackets.
pub open spec fn spec_render_anon_fields(
    fields: Seq<AnonymousFieldInfo>,
    reg: Map<u64, TypeInfo>,
    budget: nat,
    detailed: bool,
) -> Seq<char>
    decreases budget, fields,
{
    if fields.len() == 0 {
        Seq::empty()
    } else if fields.len() == 1 {
        spec_render(*fields[0].item, reg, budget, detailed)
    } else {
        spec_render(*fields[0].item, reg, budget, detailed) + ", "@ + spec_render_anon_fields(
            fields.drop_first(),
            reg,
            budget,
            detailed,
        )
    }
}

/// The rendering of named fields, `name: type`, comma-separated, without
/// brackets.
pub open spec fn spec_render_named_fields(
    fields: Seq<NamedFieldInfo>,
    reg: Map<u64, TypeInfo>,
    budget: nat,
    detailed: bool,
) -> Seq<char>
    decreases budget, fields,
{
    if fields.len() == 0 {
        Seq::empty()
    } else if fields.len() == 1 {
        fields[0].field_name@ + ": "@ + spec_render(*fields[0].item, reg, budget, detailed)
    } else {
        fields[0].field_name@ + ": "@ + spec_render(*fields[0].item, reg, budget, detailed)
            + ", "@ + spec_render_named_fields(fields.drop_first(), reg, budget, detailed)
    }
}

/// The rendering of one enum variant: its name alone for a unit variant,
/// with parenthesized fields for a tuple variant, and with a brace-delimited
/// field list for a struct variant.
pub open spec fn spec_render_variant(
    variant: EnumVariantInfo,
    reg: Map<u64, TypeInfo>,
    budget: nat,
    detailed: bool,
) -> Seq<char>
    decreases budget, variant,
{
    match variant {
        EnumVariantInfo::Unit { variant_name, .. } => variant_name@,
        EnumVariantInfo::Tuple { variant_name, field_infos, .. } => variant_name@ + "("@
            + spec_render_anon_fields(field_infos@, reg, budget, detailed) + ")"@,
        EnumVariantInfo::Struct { variant_name, field_infos, .. } => if field_infos@.len() > 0 {
            variant_name@ + " { "@ + spec_render_named_fields(field_infos@, reg, budget, detailed)
                + " }"@
        } else {
            variant_name@
        },
    }
}

/// The rendering of an enum's variants, comma-separated, without brackets.
pub open spec fn spec_render_variants(
    variants: Seq<EnumVariantInfo>,
    reg: Map<u64, TypeInfo>,
    budget: nat,
    detailed: bool,
) -> Seq<char>
    decreases budget, variants,
{
    if variants.len() == 0 {
        Seq::empty()
    } else if variants.len() == 1 {
        spec_render_variant(variants[0], reg, budget, detailed)
    } else {
        spec_render_variant(variants[0], reg, budget, detailed) + ", "@ + spec_render_variants(
            variants.drop_first(),
            reg,
            budget,
            detailed,
        )
    }
}

impl TypeInfo {
    /// Render the descriptor as a human-readable type signature.
    ///
    /// `registry` resolves pointer targets; `budget` bounds how many
    /// indirections are followed before a branch is truncated to `..`; in
    /// the detailed mode the fields of structs and the variants of enums are
    /// expanded, in the compact mode named aggregates show their shortened
    /// display name alone. Rendering is total and cannot fail.
    pub fn render(&self, registry: &Registry, budget: usize, detailed: bool) -> (r: String)
        ensures
            r@ == spec_render(*self, registry@, budget as nat, detailed),
        decreases budget, self,
    {
        match self {
            TypeInfo::Pointer(pointer) => {
                let target_id = pointer.target_id();
                let body: String = if budget == 0 {
                    String::from_str("..")
                } else {
                    match registry.lookup(target_id) {
                        Some(target) => target.render(registry, budget - 1, detailed),
                        None => String::from_str(".."),
                    }
                };
                let mut s = match pointer {
                    Pointer::Ref { .. } => String::from_str("&"),
                    Pointer::RefMut { .. } => String::from_str("&mut "),
                    Pointer::RawConst { .. } => String::from_str("*const "),
                    Pointer::RawMut { .. } => String::from_str("*mut "),
                    Pointer::OwningBox { .. } => String::from_str("Box<"),
                };
                s.append(body.as_str());
                match pointer {
                    Pointer::OwningBox { .. } => {
                        s.append(">");
                    },
                    _ => {},
                }
                proof {
                    assert(s@ =~= spec_render(*self, registry@, budget as nat, detailed));
                }
                s
            },
            TypeInfo::Primitive(primitive) => short_type_name(primitive.name()),
            TypeInfo::Sequence(sequence) => match sequence {
                Sequence::Str => short_type_name("str"),
                Sequence::Slice { item, .. } => {
                    let mut s = String::from_str("[");
                    let inner = item.item.render(registry, budget, detailed);
                    s.append(inner.as_str());
                    s.append("]");
                    proof {
                        assert(s@ =~= spec_render(*self, registry@, budget as nat, detailed));
                    }
                    s
                },
                Sequence::Array { item, info, .. } => {
                    let mut s = String::from_str("[");
                    let inner = item.item.render(registry, budget, detailed);
                    s.append(inner.as_str());
                    s.append("; ");
                    let len_text = format_decimal(info.array_length);
                    s.append(len_text.as_str());
                    s.append("]");
                    proof {
                        assert(s@ =~= spec_render(*self, registry@, budget as nat, detailed));
                    }
                    s
                },
            },
            TypeInfo::Std(std_shape) => match std_shape {
                Std::GrowableSequence { item, .. } => {
                    let mut s = String::from_str("Vec<");
                    let inner = item.item.render(registry, budget, detailed);
                    s.append(inner.as_str());
                    s.append(">");
                    proof {
                        assert(s@ =~= spec_render(*self, registry@, budget as nat, detailed));
                    }
                    s
                },
                Std::OwnedString => short_type_name("alloc::string::String"),
                Std::Optional { item, .. } => {
                    let mut s = String::from_str("Option<");
                    let inner = item.item.render(registry, budget, detailed);
                    s.append(inner.as_str());
                    s.append(">");
                    proof {
                        assert(s@ =~= spec_render(*self, registry@, budget as nat, detailed));
                    }
                    s
                },
                Std::FallibleResult { info, .. } => {
                    let mut s = String::from_str("Result<");
                    let ok_text = info.ok.render(registry, budget, detailed);
                    s.append(ok_text.as_str());
                    s.append(", ");
                    let err_text = info.err.render(registry, budget, detailed);
                    s.append(err_text.as_str());
                    s.append(">");
                    proof {
                        assert(s@ =~= spec_render(*self, registry@, budget as nat, detailed));
                    }
                    s
                },
                Std::PhantomMarker { id, .. } => short_type_name(id.display_name.as_str()),
            },
            TypeInfo::Tuple(Tuple::Tuple { info, .. }) => {
                let mut s = String::from_str("(");
                let joined = render_anon_fields(&info.field_infos, registry, budget, detailed);
                s.append(joined.as_str());
                s.append(")");
                proof {
                    assert(s@ =~= spec_render(*self, registry@, budget as nat, detailed));
                }
                s
            },
            TypeInfo::Struct(structure) => match structure {
                Struct::UnitStruct { id, .. } => short_type_name(id.display_name.as_str()),
                Struct::TupleStruct { id, fields, .. } => {
                    if detailed {
                        let mut s = short_type_name(id.display_name.as_str());
                        s.append("(");
                        let joined = render_anon_fields(
                            &fields.field_infos,
                            registry,
                            budget,
                            detailed,
                        );
                        s.append(joined.as_str());
                        s.append(")");
                        proof {
                            assert(s@ =~= spec_render(*self, registry@, budget as nat, detailed));
                        }
                        s
                    } else {
                        short_type_name(id.display_name.as_str())
                    }
                },
                Struct::Struct { id, fields, .. } => {
                    if detailed && fields.field_infos.len() > 0 {
                        let mut s = short_type_name(id.display_name.as_str());
                        s.append(" { ");
                        let joined = render_named_fields(
                            &fields.field_infos,
                            registry,
                            budget,
                            detailed,
                        );
                        s.append(joined.as_str());
                        s.append(" }");
                        proof {
                            assert(s@ =~= spec_render(*self, registry@, budget as nat, detailed));
                        }
                        s
                    } else {
                        short_type_name(id.display_name.as_str())
                    }
                },
            },
            TypeInfo::Enum(Enum::Enum { id, variants, .. }) => {
                if detailed {
                    let mut s = short_type_name(id.display_name.as_str());
                    s.append(" {");
                    let joined = render_variants(&variants.variant_infos, registry, budget, detailed);
                    s.append(joined.as_str());
                    s.append("}");
                    proof {
                        assert(s@ =~= spec_render(*self, registry@, budget as nat, detailed));
                    }
                    s
                } else {
                    short_type_name(id.display_name.as_str())
                }
            },
        }
    }
}

/// Render positional fields, comma-separated.
fn render_anon_fields(
    fields: &Vec<AnonymousFieldInfo>,
    registry: &Registry,
    budget: usize,
    detailed: bool,
) -> (r: String)
    ensures
        r@ == spec_render_anon_fields(fields@, registry@, budget as nat, detailed),
    decreases budget, fields@,
{
    let mut out = String::new();
    let n = fields.len();
    proof {
        assert(fields@.skip(0) =~= fields@);
    }
    for i in 0..n
        invariant
            n == fields@.len(),
            spec_render_anon_fields(fields@, registry@, budget as nat, detailed) =~= out@
                + spec_render_anon_fields(fields@.skip(i as int), registry@, budget as nat, detailed),
    {
        let inner = fields[i].item.render(registry, budget, detailed);
        out.append(inner.as_str());
        if i + 1 < n {
            out.append(", ");
        }
        proof {
            assert(fields@.skip(i as int)[0] == fields@[i as int]);
            assert(fields@.skip(i as int).drop_first() =~= fields@.skip(i as int + 1));
        }
    }
    proof {
        assert(fields@.skip(n as int).len() == 0);
    }
    out
}

/// Render named fields, `name: type`, comma-separated.
fn render_named_fields(
    fields: &Vec<NamedFieldInfo>,
    registry: &Registry,
    budget: usize,
    detailed: bool,
) -> (r: String)
    ensures
        r@ == spec_render_named_fields(fields@, registry@, budget as nat, detailed),
    decreases budget, fields@,
{
    let mut out = String::new();
    let n = fields.len();
    proof {
        assert(fields@.skip(0) =~= fields@);
    }
    for i in 0..n
        invariant
            n == fields@.len(),
            spec_render_named_fields(fields@, registry@, budget as nat, detailed) =~= out@
                + spec_render_named_fields(fields@.skip(i as int), registry@, budget as nat, detailed),
    {
        out.append(fields[i].field_name.as_str());
        out.append(": ");
        let inner = fields[i].item.render(registry, budget, detailed);
        out.append(inner.as_str());
        if i + 1 < n {
            out.append(", ");
        }
        proof {
            assert(fields@.skip(i as int)[0] == fields@[i as int]);
            assert(fields@.skip(i as int).drop_first() =~= fields@.skip(i as int + 1));
        }
    }
    proof {
        assert(fields@.skip(n as int).len() == 0);
    }
    out
}

/// Render one enum variant.
fn render_variant(
    variant: &EnumVariantInfo,
    registry: &Registry,
    budget: usize,
    detailed: bool,
) -> (r: String)
    ensures
        r@ == spec_render_variant(*variant, registry@, budget as nat, detailed),
    decreases budget, variant,
{
    match variant {
        EnumVariantInfo::Unit { variant_name, .. } => variant_name.clone(),
        EnumVariantInfo::Tuple { variant_name, field_infos, .. } => {
            let mut s = variant_name.clone();
            s.append("(");
            let joined = render_anon_fields(field_infos, registry, budget, detailed);
            s.append(joined.as_str());
            s.append(")");
            proof {
                assert(s@ =~= spec_render_variant(*variant, registry@, budget as nat, detailed));
            }
            s
        },
        EnumVariantInfo::Struct { variant_name, field_infos, .. } => {
            if field_infos.len() > 0 {
                let mut s = variant_name.clone();
                s.append(" { ");
                let joined = render_named_fields(field_infos, registry, budget, detailed);
                s.append(joined.as_str());
                s.append(" }");
                proof {
                    assert(s@ =~= spec_render_variant(*variant, registry@, budget as nat, detailed));
                }
                s
            } else {
                variant_name.clone()
            }
        },
    }
}

/// Render an enum's variants, comma-separated.
fn render_variants(
    variants: &Vec<EnumVariantInfo>,
    registry: &Registry,
    budget: usize,
    detailed: bool,
) -> (r: String)
    ensures
        r@ == spec_render_variants(variants@, registry@, budget as nat, detailed),
    decreases budget, variants@,
{
    let mut out = String::new();
    let n = variants.len();
    proof {
        assert(variants@.skip(0) =~= variants@);
    }
    for i in 0..n
        invariant
            n == variants@.len(),
            spec_render_variants(variants@, registry@, budget as nat, detailed) =~= out@
                + spec_render_variants(variants@.skip(i as int), registry@, budget as nat, detailed),
    {
        let inner = render_variant(&variants[i], registry, budget, detailed);
        out.append(inner.as_str());
        if i + 1 < n {
            out.append(", ");
        }
        proof {
            assert(variants@.skip(i as int)[0] == variants@[i as int]);
            assert(variants@.skip(i as int).drop_first() =~= variants@.skip(i as int + 1));
        }
    }
    proof {
        assert(variants@.skip(n as int).len() == 0);
    }
    out
}

/// Whether a descriptor contains no indirection anywhere: no reference, raw
/// pointer or owning box in the whole descriptor tree.
pub open spec fn pointer_free(info: TypeInfo) -> bool
    decreases info,
{
    match info {
        TypeInfo::Pointer(_) => false,
        TypeInfo::Primitive(_) => true,
        TypeInfo::Sequence(sequence) => match sequence {
            Sequence::Str => true,
            Sequence::Slice { item, .. } => pointer_free(*item.item),
            Sequence::Array { item, .. } => pointer_free(*item.item),
        },
        TypeInfo::Std(std_shape) => match std_shape {
            Std::GrowableSequence { item, .. } => pointer_free(*item.item),
            Std::OwnedString => true,
            Std::Optional { item, .. } => pointer_free(*item.item),
            Std::FallibleResult { info, .. } => pointer_free(*info.ok) && pointer_free(*info.err),
            Std::PhantomMarker { item, .. } => pointer_free(*item.item),
        },
        TypeInfo::Tuple(Tuple::Tuple { info, .. }) => anon_fields_pointer_free(info.field_infos@),
        TypeInfo::Struct(structure) => match structure {
            Struct::UnitStruct { .. } => true,
            Struct::TupleStruct { fields, .. } => anon_fields_pointer_free(fields.field_infos@),
            Struct::Struct { fields, .. } => named_fields_pointer_free(fields.field_infos@),
        },
        TypeInfo::Enum(Enum::Enum { variants, .. }) => variants_pointer_free(
            variants.variant_infos@,
        ),
    }
}

/// Whether none of the positional fields contains an indirection.
pub open spec fn anon_fields_pointer_free(fields: Seq<AnonymousFieldInfo>) -> bool
    decreases fields,
{
    fields.len() == 0 || (pointer_free(*fields[0].item) && anon_fields_pointer_free(
        fields.drop_first(),
    ))
}

/// Whether none of the named fields contains an indirection.
pub open spec fn named_fields_pointer_free(fields: Seq<NamedFieldInfo>) -> bool
    decreases fields,
{
    fields.len() == 0 || (pointer_free(*fields[0].item) && named_fields_pointer_free(
        fields.drop_first(),
    ))
}

/// Whether none of the variants contains an indirection.
pub open spec fn variants_pointer_free(variants: Seq<EnumVariantInfo>) -> bool
    decreases variants,
{
    variants.len() == 0 || (variant_pointer_free(variants[0]) && variants_pointer_free(
        variants.drop_first(),
    ))
}

/// Whether the variant's fields contain no indirection.
pub open spec fn variant_pointer_free(variant: EnumVariantInfo) -> bool
    decreases variant,
{
    match variant {
        EnumVariantInfo::Unit { .. } => true,
        EnumVariantInfo::Tuple { field_infos, .. } => anon_fields_pointer_free(field_infos@),
        EnumVariantInfo::Struct { field_infos, .. } => named_fields_pointer_free(field_infos@),
    }
}

/// Renderer depth bound, the truncation half: at budget zero every pointer
/// shape renders as its kind's notation around the fixed `..` placeholder —
/// rendering terminates without following the indirection, whatever the
/// registry holds.
pub proof fn lemma_render_truncates_at_zero(
    info: TypeInfo,
    reg: Map<u64, TypeInfo>,
    detailed: bool,
)
    requires
        info matches TypeInfo::Pointer(_),
    ensures
        info matches TypeInfo::Pointer(pointer) ==> spec_render(info, reg, 0, detailed)
            == pointer_prefix(pointer) + ".."@ + pointer_suffix(pointer),
{
}

/// Renderer depth bound, the recursion half: with budget left and the target
/// registered, a pointer shape renders as its kind's notation around the
/// target's rendering at exactly one unit less budget — so a budget of `n`
/// follows exactly `n` nested indirections before truncating.
pub proof fn lemma_render_pointer_step(
    info: TypeInfo,
    reg: Map<u64, TypeInfo>,
    budget: nat,
    detailed: bool,
)
    requires
        budget > 0,
        info matches TypeInfo::Pointer(pointer) && reg.contains_key(pointer.target_id_spec()),
    ensures
        info matches TypeInfo::Pointer(pointer) ==> spec_render(info, reg, budget, detailed)
            == pointer_prefix(pointer) + spec_render(
            reg[pointer.target_id_spec()],
            reg,
            (budget - 1) as nat,
            detailed,
        ) + pointer_suffix(pointer),
{
}

/// Renderer depth bound, the inline half: a descriptor with no indirection
/// anywhere renders in full regardless of the budget — the budget is spent
/// on indirections alone.
pub proof fn lemma_render_ignores_budget_without_pointers(
    info: TypeInfo,
    reg: Map<u64, TypeInfo>,
    b1: nat,
    b2: nat,
    detailed: bool,
)
    requires
        pointer_free(info),
    ensures
        spec_render(info, reg, b1, detailed) == spec_render(info, reg, b2, detailed),
    decreases info,
{
    match info {
        TypeInfo::Pointer(_) => {},
        TypeInfo::Primitive(_) => {},
        TypeInfo::Sequence(sequence) => match sequence {
            Sequence::Str => {},
            Sequence::Slice { item, .. } => {
                lemma_render_ignores_budget_without_pointers(*item.item, reg, b1, b2, detailed);
            },
            Sequence::Array { item, .. } => {
                lemma_render_ignores_budget_without_pointers(*item.item, reg, b1, b2, detailed);
            },
        },
        TypeInfo::Std(std_shape) => match std_shape {
            Std::GrowableSequence { item, .. } => {
                lemma_render_ignores_budget_without_pointers(*item.item, reg, b1, b2, detailed);
            },
            Std::OwnedString => {},
            Std::Optional { item, .. } => {
                lemma_render_ignores_budget_without_pointers(*item.item, reg, b1, b2, detailed);
            },
            Std::FallibleResult { info, .. } => {
                lemma_render_ignores_budget_without_pointers(*info.ok, reg, b1, b2, detailed);
                lemma_render_ignores_budget_without_pointers(*info.err, reg, b1, b2, detailed);
            },
            Std::PhantomMarker { .. } => {},
        },
        TypeInfo::Tuple(Tuple::Tuple { info, .. }) => {
            lemma_anon_fields_ignore_budget(info.field_infos@, reg, b1, b2, detailed);
        },
        TypeInfo::Struct(structure) => match structure {
            Struct::UnitStruct { .. } => {},
            Struct::TupleStruct { fields, .. } => {
                lemma_anon_fields_ignore_budget(fields.field_infos@, reg, b1, b2, detailed);
            },
            Struct::Struct { fields, .. } => {
                lemma_named_fields_ignore_budget(fields.field_infos@, reg, b1, b2, detailed);
            },
        },
        TypeInfo::Enum(Enum::Enum { variants, .. }) => {
            lemma_variants_ignore_budget(variants.variant_infos@, reg, b1, b2, detailed);
        },
    }
}

proof fn lemma_anon_fields_ignore_budget(
    fields: Seq<AnonymousFieldInfo>,
    reg: Map<u64, TypeInfo>,
    b1: nat,
    b2: nat,
    detailed: bool,
)
    requires
        anon_fields_pointer_free(fields),
    ensures
        spec_render_anon_fields(fields, reg, b1, detailed) == spec_render_anon_fields(
            fields,
            reg,
            b2,
            detailed,
        ),
    decreases fields,
{
    if fields.len() > 0 {
        lemma_render_ignores_budget_without_pointers(*fields[0].item, reg, b1, b2, detailed);
        if fields.len() > 1 {
            lemma_anon_fields_ignore_budget(fields.drop_first(), reg, b1, b2, detailed);
        }
    }
}

proof fn lemma_named_fields_ignore_budget(
    fields: Seq<NamedFieldInfo>,
    reg: Map<u64, TypeInfo>,
    b1: nat,
    b2: nat,
    detailed: bool,
)
    requires
        named_fields_pointer_free(fields),
    ensures
        spec_render_named_fields(fields, reg, b1, detailed) == spec_render_named_fields(
            fields,
            reg,
            b2,
            detailed,
        ),
    decreases fields,
{
    if fields.len() > 0 {
        lemma_render_ignores_budget_without_pointers(*fields[0].item, reg, b1, b2, detailed);
        if fields.len() > 1 {
            lemma_named_fields_ignore_budget(fields.drop_first(), reg, b1, b2, detailed);
        }
    }
}

proof fn lemma_variant_ignores_budget(
    variant: EnumVariantInfo,
    reg: Map<u64, TypeInfo>,
    b1: nat,
    b2: nat,
    detailed: bool,
)
    requires
        variant_pointer_free(variant),
    ensures
        spec_render_variant(variant, reg, b1, detailed) == spec_render_variant(
            variant,
            reg,
            b2,
            detailed,
        ),
    decreases variant,
{
    match variant {
        EnumVariantInfo::Unit { .. } => {},
        EnumVariantInfo::Tuple { field_infos, .. } => {
            lemma_anon_fields_ignore_budget(field_infos@, reg, b1, b2, detailed);
        },
        EnumVariantInfo::Struct { field_infos, .. } => {
            lemma_named_fields_ignore_budget(field_infos@, reg, b1, b2, detailed);
        },
    }
}

proof fn lemma_variants_ignore_budget(
    variants: Seq<EnumVariantInfo>,
    reg: Map<u64, TypeInfo>,
    b1: nat,
    b2: nat,
    detailed: bool,
)
    requires
        variants_pointer_free(variants),
    ensures
        spec_render_variants(variants, reg, b1, detailed) == spec_render_variants(
            variants,
            reg,
            b2,
            detailed,
        ),
    decreases variants,
{
    if variants.len() > 0 {
        lemma_variant_ignores_budget(variants[0], reg, b1, b2, detailed);
        if variants.len() > 1 {
            lemma_variants_ignore_budget(variants.drop_first(), reg, b1, b2, detailed);
        }
    }
}

} // verus!
