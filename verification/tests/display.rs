use inspect::TypeInfo;
use inspect::registry::Registry;
use inspect::ids::combine_id;
use inspect::ids::ID_U8;
use inspect::ids::TAG_BOX;
use inspect::ids::TAG_REF;
use inspect::Discriminant;
use inspect::DiscriminantErased;
use inspect::type_info::AnonymousFieldInfo;
use inspect::type_info::Enum;
use inspect::type_info::EnumInfo;
use inspect::type_info::EnumVariantInfo;
use inspect::type_info::IdInfo;
use inspect::type_info::ItemInfo;
use inspect::type_info::NamedFieldInfo;
use inspect::type_info::Pointer;
use inspect::type_info::Primitive;
use inspect::type_info::SizedInfo;
use inspect::type_info::Std;
use inspect::type_info::Struct;
use inspect::type_info::StructInfo;
use inspect::type_info::TargetInfo;
use inspect::type_info::Tuple;
use inspect::type_info::TupleInfo;
use inspect::type_info::TupleStructInfo;

const NODE_ID: u64 = 0xb000;
const LIST_ID: u64 = 0xb001;

/// A self-referential struct, reachable only through an indirection:
///
/// struct Node { next: Option<Box<Node>> }
fn node_type_info() -> TypeInfo {
    TypeInfo::Struct(Struct::Struct {
        id: IdInfo {
            type_id: NODE_ID,
            display_name: String::from("display::Node"),
        },
        sized: SizedInfo { size: 8, align: 8 },
        fields: StructInfo {
            field_infos: vec![NamedFieldInfo {
                field_name: String::from("next"),
                field_offset: 0,
                item: Box::new(TypeInfo::Std(Std::Optional {
                    id: IdInfo {
                        type_id: 0xb100,
                        display_name: String::from(
                            "core::option::Option<alloc::boxed::Box<display::Node>>",
                        ),
                    },
                    sized: SizedInfo { size: 8, align: 8 },
                    item: ItemInfo {
                        item: Box::new(TypeInfo::Pointer(Pointer::OwningBox {
                            id: IdInfo {
                                type_id: combine_id(TAG_BOX, NODE_ID),
                                display_name: String::from(
                                    "alloc::boxed::Box<display::Node>",
                                ),
                            },
                            sized: SizedInfo { size: 8, align: 8 },
                            item: TargetInfo { target_id: NODE_ID },
                        })),
                    },
                })),
            }],
        },
    })
}

#[test]
fn renders_primitives_and_builtins() {
    let mut registry = Registry::new();
    TypeInfo::of::<u8>(&mut registry);
    TypeInfo::of::<String>(&mut registry);
    TypeInfo::of::<Vec<u8>>(&mut registry);
    TypeInfo::of::<Option<Vec<u8>>>(&mut registry);
    TypeInfo::of::<Result<u8, usize>>(&mut registry);
    TypeInfo::of::<[u8; 12]>(&mut registry);

    let u8_info = registry.lookup(inspect::ids::ID_U8).unwrap();
    assert_eq!(u8_info.render(&registry, 10, false), "u8");

    let string_info = registry.lookup(inspect::ids::ID_STRING).unwrap();
    assert_eq!(string_info.render(&registry, 10, false), "String");

    let vec_info = registry
        .lookup(combine_id(inspect::ids::TAG_VEC, ID_U8))
        .unwrap();
    assert_eq!(vec_info.render(&registry, 10, false), "Vec<u8>");

    let option_info = registry
        .lookup(combine_id(
            inspect::ids::TAG_OPTION,
            combine_id(inspect::ids::TAG_VEC, ID_U8),
        ))
        .unwrap();
    assert_eq!(option_info.render(&registry, 10, false), "Option<Vec<u8>>");

    let result_info = registry
        .lookup(combine_id(
            inspect::ids::TAG_RESULT,
            combine_id(ID_U8, inspect::ids::ID_USIZE),
        ))
        .unwrap();
    assert_eq!(result_info.render(&registry, 10, false), "Result<u8, usize>");

    let array_info = registry
        .lookup(combine_id(
            inspect::ids::TAG_ARRAY,
            combine_id(ID_U8, 12),
        ))
        .unwrap();
    assert_eq!(array_info.render(&registry, 10, false), "[u8; 12]");
}

#[test]
fn render_spends_budget_on_indirections_only() {
    let mut registry = Registry::new();
    TypeInfo::of::<u8>(&mut registry);
    TypeInfo::of::<Box<u8>>(&mut registry);
    let box_info = registry.lookup(combine_id(TAG_BOX, ID_U8)).unwrap();
    assert_eq!(box_info.render(&registry, 1, false), "Box<u8>");
    assert_eq!(box_info.render(&registry, 0, false), "Box<..>");
}

#[test]
fn render_truncates_an_unregistered_target() {
    let mut registry = Registry::new();
    TypeInfo::of::<&'static u8>(&mut registry);
    let ref_info = registry.lookup(combine_id(TAG_REF, ID_U8)).unwrap();
    assert_eq!(ref_info.render(&registry, 5, false), "&..");
    TypeInfo::of::<u8>(&mut registry);
    let ref_info = registry.lookup(combine_id(TAG_REF, ID_U8)).unwrap();
    assert_eq!(ref_info.render(&registry, 5, false), "&u8");
}

#[test]
fn render_depth_bound_on_self_referential_type() {
    let mut registry = Registry::new();
    registry.register(node_type_info());
    let node = registry.lookup(NODE_ID).unwrap();

    assert_eq!(
        node.render(&registry, 0, true),
        "Node { next: Option<Box<..>> }"
    );
    assert_eq!(
        node.render(&registry, 1, true),
        "Node { next: Option<Box<Node { next: Option<Box<..>> }>> }"
    );
    assert_eq!(
        node.render(&registry, 3, true),
        "Node { next: Option<Box<Node { next: Option<Box<Node { next: \
         Option<Box<Node { next: Option<Box<..>> }>> }>> }>> }"
    );
    assert_eq!(node.render(&registry, 0, false), "Node");
}

#[test]
fn render_of_inline_composite_ignores_budget() {
    let registry = Registry::new();
    let info = TypeInfo::Tuple(Tuple::Tuple {
        id: IdInfo {
            type_id: 0xb200,
            display_name: String::from("((u8, u16), bool)"),
        },
        sized: SizedInfo { size: 6, align: 2 },
        info: TupleInfo {
            field_infos: vec![
                AnonymousFieldInfo {
                    field_index: 0,
                    field_offset: 0,
                    item: Box::new(TypeInfo::Tuple(Tuple::Tuple {
                        id: IdInfo {
                            type_id: 0xb201,
                            display_name: String::from("(u8, u16)"),
                        },
                        sized: SizedInfo { size: 4, align: 2 },
                        info: TupleInfo {
                            field_infos: vec![
                                AnonymousFieldInfo {
                                    field_index: 0,
                                    field_offset: 2,
                                    item: Box::new(TypeInfo::Primitive(Primitive::U8)),
                                },
                                AnonymousFieldInfo {
                                    field_index: 1,
                                    field_offset: 0,
                                    item: Box::new(TypeInfo::Primitive(Primitive::U16)),
                                },
                            ],
                        },
                    })),
                },
                AnonymousFieldInfo {
                    field_index: 1,
                    field_offset: 4,
                    item: Box::new(TypeInfo::Primitive(Primitive::Bool)),
                },
            ],
        },
    });
    assert_eq!(info.render(&registry, 0, false), "((u8, u16), bool)");
    assert_eq!(info.render(&registry, 10, false), "((u8, u16), bool)");
}

#[test]
fn render_modes_on_an_enum() {
    let mut registry = Registry::new();
    let info = TypeInfo::Enum(Enum::Enum {
        id: IdInfo {
            type_id: LIST_ID,
            display_name: String::from("display::Fixture"),
        },
        sized: SizedInfo { size: 16, align: 8 },
        variants: EnumInfo {
            variant_infos: vec![
                EnumVariantInfo::Unit {
                    variant_name: String::from("One"),
                    variant_discriminant: DiscriminantErased::leak_erase_discriminant(
                        Discriminant::new(LIST_ID, 0),
                    ),
                    variant_discriminant_value: None,
                },
                EnumVariantInfo::Tuple {
                    variant_name: String::from("Two"),
                    variant_discriminant: DiscriminantErased::leak_erase_discriminant(
                        Discriminant::new(LIST_ID, 1),
                    ),
                    variant_discriminant_value: None,
                    field_infos: vec![AnonymousFieldInfo {
                        field_index: 0,
                        field_offset: 0,
                        item: Box::new(TypeInfo::Primitive(Primitive::U8)),
                    }],
                },
                EnumVariantInfo::Struct {
                    variant_name: String::from("Three"),
                    variant_discriminant: DiscriminantErased::leak_erase_discriminant(
                        Discriminant::new(LIST_ID, 2),
                    ),
                    variant_discriminant_value: None,
                    field_infos: vec![NamedFieldInfo {
                        field_name: String::from("f0"),
                        field_offset: 0,
                        item: Box::new(TypeInfo::Primitive(Primitive::Usize)),
                    }],
                },
            ],
        },
    });
    registry.register(info);
    let info = registry.lookup(LIST_ID).unwrap();
    assert_eq!(info.render(&registry, 10, false), "Fixture");
    assert_eq!(
        info.render(&registry, 10, true),
        "Fixture {One, Two(u8), Three { f0: usize }}"
    );
}


#[test]
fn renders_every_pointer_kind() {
    let mut registry = Registry::new();
    TypeInfo::of::<u8>(&mut registry);
    let raw_const = TypeInfo::Pointer(Pointer::RawConst {
        id: IdInfo {
            type_id: combine_id(inspect::ids::TAG_RAW_CONST, ID_U8),
            display_name: String::from("*const u8"),
        },
        sized: SizedInfo { size: 8, align: 8 },
        item: TargetInfo { target_id: ID_U8 },
    });
    let raw_mut = TypeInfo::Pointer(Pointer::RawMut {
        id: IdInfo {
            type_id: combine_id(inspect::ids::TAG_RAW_MUT, ID_U8),
            display_name: String::from("*mut u8"),
        },
        sized: SizedInfo { size: 8, align: 8 },
        item: TargetInfo { target_id: ID_U8 },
    });
    assert_eq!(raw_const.render(&registry, 1, false), "*const u8");
    assert_eq!(raw_const.render(&registry, 0, false), "*const ..");
    assert_eq!(raw_mut.render(&registry, 1, false), "*mut u8");
    assert_eq!(raw_mut.render(&registry, 0, false), "*mut ..");

    TypeInfo::of::<&'static mut u8>(&mut registry);
    let ref_mut = registry
        .lookup(combine_id(inspect::ids::TAG_REF_MUT, ID_U8))
        .unwrap();
    assert_eq!(ref_mut.render(&registry, 1, false), "&mut u8");
    assert_eq!(ref_mut.render(&registry, 0, false), "&mut ..");
}

#[test]
fn renders_sequences_and_markers() {
    let mut registry = Registry::new();
    TypeInfo::of::<str>(&mut registry);
    TypeInfo::of::<[u8]>(&mut registry);
    TypeInfo::of::<core::marker::PhantomData<u8>>(&mut registry);

    let str_info = registry.lookup(inspect::ids::ID_STR).unwrap();
    assert_eq!(str_info.render(&registry, 10, false), "str");

    let slice_info = registry
        .lookup(combine_id(inspect::ids::TAG_SLICE, ID_U8))
        .unwrap();
    assert_eq!(slice_info.render(&registry, 10, false), "[u8]");

    let phantom_info = registry
        .lookup(combine_id(inspect::ids::TAG_PHANTOM, ID_U8))
        .unwrap();
    assert_eq!(phantom_info.render(&registry, 10, false), "PhantomData<u8>");
}

#[test]
fn renders_structs_in_both_modes() {
    let registry = Registry::new();
    let unit = TypeInfo::Struct(Struct::UnitStruct {
        id: IdInfo {
            type_id: 0xb300,
            display_name: String::from("display::Marker"),
        },
        sized: SizedInfo { size: 0, align: 1 },
    });
    assert_eq!(unit.render(&registry, 10, false), "Marker");
    assert_eq!(unit.render(&registry, 10, true), "Marker");

    let pair = TypeInfo::Struct(Struct::TupleStruct {
        id: IdInfo {
            type_id: 0xb301,
            display_name: String::from("display::Pair"),
        },
        sized: SizedInfo { size: 2, align: 1 },
        fields: TupleStructInfo {
            field_infos: vec![
                AnonymousFieldInfo {
                    field_index: 0,
                    field_offset: 0,
                    item: Box::new(TypeInfo::Primitive(Primitive::U8)),
                },
                AnonymousFieldInfo {
                    field_index: 1,
                    field_offset: 1,
                    item: Box::new(TypeInfo::Primitive(Primitive::Bool)),
                },
            ],
        },
    });
    assert_eq!(pair.render(&registry, 10, false), "Pair");
    assert_eq!(pair.render(&registry, 10, true), "Pair(u8, bool)");

    let named = TypeInfo::Struct(Struct::Struct {
        id: IdInfo {
            type_id: 0xb302,
            display_name: String::from("display::Named"),
        },
        sized: SizedInfo { size: 2, align: 1 },
        fields: StructInfo {
            field_infos: vec![NamedFieldInfo {
                field_name: String::from("flag"),
                field_offset: 0,
                item: Box::new(TypeInfo::Primitive(Primitive::Bool)),
            }],
        },
    });
    assert_eq!(named.render(&registry, 10, false), "Named");
    assert_eq!(named.render(&registry, 10, true), "Named { flag: bool }");
}
