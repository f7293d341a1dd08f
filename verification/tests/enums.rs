use core::iter::zip;
use std::collections::hash_map::DefaultHasher;
use std::hash::Hash;
use std::hash::Hasher;

use inspect::Discriminant;
use inspect::DiscriminantErased;
use inspect::TypeInfo;
use inspect::provider::TypeInfoProvider;
use inspect::registry::Registry;
use inspect::type_info::AnonymousFieldInfo;
use inspect::type_info::Enum;
use inspect::type_info::EnumInfo;
use inspect::type_info::EnumVariantInfo;
use inspect::type_info::IdInfo;
use inspect::type_info::NamedFieldInfo;
use inspect::type_info::SizedInfo;

// The fixture enum described here, registered by hand exactly as generated
// registration code would:
//
// enum MyEnum {
//     One,
//     Two(Vec<u8>, usize),
//     Three { f0: usize, f1: Vec<u8> },
// }

const MY_ENUM_ID: u64 = 0x9000;
const OTHER_ENUM_ID: u64 = 0x9001;

fn my_enum_type_info() -> TypeInfo {
    TypeInfo::Enum(Enum::Enum {
        id: IdInfo {
            type_id: MY_ENUM_ID,
            display_name: String::from("enums::MyEnum"),
        },
        sized: SizedInfo { size: 32, align: 8 },
        variants: EnumInfo {
            variant_infos: vec![
                EnumVariantInfo::Unit {
                    variant_name: String::from("One"),
                    variant_discriminant: DiscriminantErased::leak_erase_discriminant(
                        Discriminant::new(MY_ENUM_ID, 0),
                    ),
                    variant_discriminant_value: None,
                },
                EnumVariantInfo::Tuple {
                    variant_name: String::from("Two"),
                    variant_discriminant: DiscriminantErased::leak_erase_discriminant(
                        Discriminant::new(MY_ENUM_ID, 1),
                    ),
                    variant_discriminant_value: None,
                    field_infos: vec![
                        AnonymousFieldInfo {
                            field_index: 0,
                            field_offset: 0,
                            item: Box::new(<Vec<u8> as TypeInfoProvider>::type_info()),
                        },
                        AnonymousFieldInfo {
                            field_index: 1,
                            field_offset: 24,
                            item: Box::new(<usize as TypeInfoProvider>::type_info()),
                        },
                    ],
                },
                EnumVariantInfo::Struct {
                    variant_name: String::from("Three"),
                    variant_discriminant: DiscriminantErased::leak_erase_discriminant(
                        Discriminant::new(MY_ENUM_ID, 2),
                    ),
                    variant_discriminant_value: None,
                    field_infos: vec![
                        NamedFieldInfo {
                            field_name: String::from("f0"),
                            field_offset: 24,
                            item: Box::new(<usize as TypeInfoProvider>::type_info()),
                        },
                        NamedFieldInfo {
                            field_name: String::from("f1"),
                            field_offset: 0,
                            item: Box::new(<Vec<u8> as TypeInfoProvider>::type_info()),
                        },
                    ],
                },
            ],
        },
    })
}

#[test]
fn type_id_matches_enum() {
    let mut registry = Registry::new();
    assert_eq!(
        registry
            .get_or_insert_with(MY_ENUM_ID, my_enum_type_info)
            .type_id(),
        MY_ENUM_ID
    );
}

#[test]
fn discriminants_eq() {
    let discriminants: Vec<Discriminant> = vec![
        Discriminant::new(MY_ENUM_ID, 0),
        Discriminant::new(MY_ENUM_ID, 1),
        Discriminant::new(MY_ENUM_ID, 2),
    ];
    let mut registry = Registry::new();
    let discriminants_erased: Vec<DiscriminantErased> = registry
        .get_or_insert_with(MY_ENUM_ID, my_enum_type_info)
        .discriminants();

    for (discriminant_erased, discriminant) in zip(discriminants_erased, discriminants) {
        assert!(
            discriminant_erased.eq(&discriminant_erased),
            "DiscriminantErased and DiscriminantErased are equal"
        );
        assert!(
            discriminant_erased.eq(&discriminant),
            "DiscriminantErased and Discriminant are equal"
        );
        assert!(
            discriminant.eq(&discriminant_erased),
            "Discriminant and DiscriminantErased are equal"
        );
    }
}

#[test]
fn discriminants_hash() {
    fn hash<T: Hash>(v: T) -> u64 {
        let mut s = DefaultHasher::new();
        v.hash(&mut s);
        s.finish()
    }

    let discriminants: Vec<Discriminant> = vec![
        Discriminant::new(MY_ENUM_ID, 0),
        Discriminant::new(MY_ENUM_ID, 1),
        Discriminant::new(MY_ENUM_ID, 2),
    ];
    let mut registry = Registry::new();
    let discriminants_erased: Vec<DiscriminantErased> = registry
        .get_or_insert_with(MY_ENUM_ID, my_enum_type_info)
        .discriminants();

    for (discriminant_erased, discriminant) in zip(discriminants_erased, discriminants) {
        assert_eq!(
            hash(discriminant_erased),
            hash(discriminant),
            "DiscriminantErased and Discriminant hash the same"
        );
        assert_eq!(
            discriminant_erased.hash_value(),
            discriminant.hash_value(),
            "the library's own hash agrees across the erasure boundary"
        );
    }
}

#[test]
fn discriminants_of_distinct_variants_or_enums_differ() {
    let one = DiscriminantErased::leak_erase_discriminant(Discriminant::new(MY_ENUM_ID, 0));
    let two = DiscriminantErased::leak_erase_discriminant(Discriminant::new(MY_ENUM_ID, 1));
    let other = DiscriminantErased::leak_erase_discriminant(Discriminant::new(OTHER_ENUM_ID, 0));

    assert!(one != two);
    assert!(one != other);
    assert!(!one.eq(&Discriminant::new(MY_ENUM_ID, 1)));
    assert!(!Discriminant::new(MY_ENUM_ID, 1).eq(&one));
    assert!(!one.eq(&Discriminant::new(OTHER_ENUM_ID, 0)));
    assert_eq!(
        one.eq(&Discriminant::new(MY_ENUM_ID, 0)),
        Discriminant::new(MY_ENUM_ID, 0).eq(&one),
    );
}

#[test]
fn three_variant_enum_scenario() {
    let mut registry = Registry::new();
    registry.register(my_enum_type_info());
    let info = registry.lookup(MY_ENUM_ID).unwrap();

    let TypeInfo::Enum(Enum::Enum { variants, .. }) = info else {
        panic!("the descriptor is an enum");
    };
    assert_eq!(variants.variant_infos.len(), 3);

    let EnumVariantInfo::Unit { variant_name, .. } = &variants.variant_infos[0] else {
        panic!("the first variant is a unit variant");
    };
    assert_eq!(variant_name, "One");

    let EnumVariantInfo::Tuple {
        variant_name,
        field_infos,
        ..
    } = &variants.variant_infos[1]
    else {
        panic!("the second variant is a tuple variant");
    };
    assert_eq!(variant_name, "Two");
    assert_eq!(field_infos.len(), 2);
    assert_eq!(field_infos[0].field_offset, 0);
    assert_eq!(field_infos[1].field_offset, 24);

    let EnumVariantInfo::Struct {
        variant_name,
        field_infos,
        ..
    } = &variants.variant_infos[2]
    else {
        panic!("the third variant is a struct variant");
    };
    assert_eq!(variant_name, "Three");
    assert_eq!(field_infos.len(), 2);
    assert_eq!(field_infos[0].field_name, "f0");
    assert_eq!(field_infos[0].field_offset, 24);
    assert_eq!(field_infos[1].field_name, "f1");
    assert_eq!(field_infos[1].field_offset, 0);

    let tokens = info.discriminants();
    assert_eq!(tokens.len(), 3);
    assert!(tokens[0] != tokens[1]);
    assert!(tokens[0] != tokens[2]);
    assert!(tokens[1] != tokens[2]);
    for token in tokens {
        assert!(token.downcast_id(MY_ENUM_ID).is_some());
        assert!(token.downcast_id(OTHER_ENUM_ID).is_none());
        let concrete = token.downcast_id(MY_ENUM_ID).unwrap();
        assert!(token.eq(&concrete));
    }
}

#[test]
fn downcast_by_provider_type() {
    let token = DiscriminantErased::leak_erase_discriminant(Discriminant::new(
        <u8 as TypeInfoProvider>::stable_id(),
        0,
    ));
    assert!(token.downcast::<u8>().is_some());
    assert!(token.downcast::<bool>().is_none());
}
