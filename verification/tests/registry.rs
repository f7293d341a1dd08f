use inspect::TypeInfo;
use inspect::registry::Registry;
use inspect::ids::ID_U8;
use inspect::ids::ID_U16;
use inspect::type_info::IdInfo;
use inspect::type_info::SizedInfo;
use inspect::type_info::Struct;

const FIXTURE_ID: u64 = 0xc000;

fn fixture(name: &str) -> TypeInfo {
    TypeInfo::Struct(Struct::UnitStruct {
        id: IdInfo {
            type_id: FIXTURE_ID,
            display_name: String::from(name),
        },
        sized: SizedInfo { size: 0, align: 1 },
    })
}

#[test]
fn the_first_registration_wins() {
    let mut registry = Registry::new();
    registry.register(fixture("first"));
    registry.register(fixture("second"));
    assert_eq!(registry.lookup(FIXTURE_ID).unwrap().display_name(), "first");
}

#[test]
fn get_or_insert_with_builds_once() {
    let mut registry = Registry::new();
    let name = registry
        .get_or_insert_with(FIXTURE_ID, || fixture("first"))
        .display_name()
        .to_string();
    assert_eq!(name, "first");
    let name = registry
        .get_or_insert_with(FIXTURE_ID, || fixture("second"))
        .display_name()
        .to_string();
    assert_eq!(name, "first");
}

#[test]
fn queries_for_one_type_agree_and_leave_others_alone() {
    let mut registry = Registry::new();
    let first = TypeInfo::of::<u8>(&mut registry).type_id();
    TypeInfo::of::<u16>(&mut registry);
    let second = TypeInfo::of::<u8>(&mut registry).type_id();
    assert_eq!(first, second);
    assert!(registry.contains(ID_U8));
    assert!(registry.contains(ID_U16));
    assert_eq!(registry.lookup(ID_U8).unwrap().type_id(), ID_U8);
}

#[test]
fn lookup_of_an_unknown_identity_is_none() {
    let registry = Registry::new();
    assert!(registry.lookup(FIXTURE_ID).is_none());
    assert!(!registry.contains(FIXTURE_ID));
}
