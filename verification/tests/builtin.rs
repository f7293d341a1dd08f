use inspect::TypeInfo;
use inspect::registry::Registry;
use inspect::ids::combine_id;
use inspect::ids::ID_BOOL;
use inspect::ids::ID_STR;
use inspect::ids::ID_STRING;
use inspect::ids::ID_U8;
use inspect::ids::ID_UNIT;
use inspect::ids::ID_USIZE;
use inspect::ids::TAG_ARRAY;
use inspect::ids::TAG_BOX;
use inspect::ids::TAG_OPTION;
use inspect::ids::TAG_PHANTOM;
use inspect::ids::TAG_REF;
use inspect::ids::TAG_RESULT;
use inspect::ids::TAG_SLICE;
use inspect::ids::TAG_VEC;

#[test]
fn type_id_matches_u8() {
    let mut registry = Registry::new();
    assert_eq!(TypeInfo::of::<u8>(&mut registry).type_id(), ID_U8);
}

#[test]
fn type_id_matches_bool() {
    let mut registry = Registry::new();
    assert_eq!(TypeInfo::of::<bool>(&mut registry).type_id(), ID_BOOL);
}

#[test]
fn type_id_matches_unit() {
    let mut registry = Registry::new();
    assert_eq!(TypeInfo::of::<()>(&mut registry).type_id(), ID_UNIT);
}

#[test]
fn type_id_matches_str() {
    let mut registry = Registry::new();
    assert_eq!(TypeInfo::of::<str>(&mut registry).type_id(), ID_STR);
}

#[test]
fn type_id_matches_string() {
    let mut registry = Registry::new();
    assert_eq!(TypeInfo::of::<String>(&mut registry).type_id(), ID_STRING);
}

#[test]
fn type_id_matches_vec_u8() {
    let mut registry = Registry::new();
    assert_eq!(
        TypeInfo::of::<Vec<u8>>(&mut registry).type_id(),
        combine_id(TAG_VEC, ID_U8)
    );
}

#[test]
fn type_id_matches_option_u8() {
    let mut registry = Registry::new();
    assert_eq!(
        TypeInfo::of::<Option<u8>>(&mut registry).type_id(),
        combine_id(TAG_OPTION, ID_U8)
    );
}

#[test]
fn type_id_matches_box_u8() {
    let mut registry = Registry::new();
    assert_eq!(
        TypeInfo::of::<Box<u8>>(&mut registry).type_id(),
        combine_id(TAG_BOX, ID_U8)
    );
}

#[test]
fn type_id_matches_ref_u8() {
    let mut registry = Registry::new();
    assert_eq!(
        TypeInfo::of::<&'static u8>(&mut registry).type_id(),
        combine_id(TAG_REF, ID_U8)
    );
}

#[test]
fn type_id_matches_phantom_data_u8() {
    let mut registry = Registry::new();
    assert_eq!(
        TypeInfo::of::<core::marker::PhantomData<u8>>(&mut registry).type_id(),
        combine_id(TAG_PHANTOM, ID_U8)
    );
}

#[test]
fn type_id_matches_slice_u8() {
    let mut registry = Registry::new();
    assert_eq!(
        TypeInfo::of::<[u8]>(&mut registry).type_id(),
        combine_id(TAG_SLICE, ID_U8)
    );
}

#[test]
fn type_id_matches_array_u8_4() {
    let mut registry = Registry::new();
    assert_eq!(
        TypeInfo::of::<[u8; 4]>(&mut registry).type_id(),
        combine_id(TAG_ARRAY, combine_id(ID_U8, 4))
    );
}

#[test]
fn type_id_matches_ref_u8_non_static() {
    let mut registry = Registry::new();
    let expected = TypeInfo::of::<&'static u8>(&mut registry).type_id();
    let v: Box<u8> = Box::new(1);
    let s: &u8 = &v;
    assert_eq!(TypeInfo::of_val(&s, &mut registry).type_id(), expected);
}

#[test]
fn type_id_matches_ref_mut_u8_non_static() {
    let mut registry = Registry::new();
    let expected = TypeInfo::of::<&'static mut u8>(&mut registry).type_id();
    let mut v: Box<u8> = Box::new(2);
    let s: &mut u8 = &mut v;
    assert_eq!(TypeInfo::of_val(&s, &mut registry).type_id(), expected);
}

#[test]
fn type_id_matches_slice_ref_u8_non_static() {
    let mut registry = Registry::new();
    let expected = TypeInfo::of::<&'static [&'static u8]>(&mut registry).type_id();
    let a = Box::new(1);
    let b = Box::new(2);
    let c = Box::new(3);
    let v: Vec<&u8> = vec![&a, &b, &c];

    let s: &[&u8] = &v;
    assert_eq!(TypeInfo::of_val(&s, &mut registry).type_id(), expected);
}

#[test]
fn type_id_matches_slice_ref_mut_u8_non_static() {
    let mut registry = Registry::new();
    let expected = TypeInfo::of::<&'static mut [&'static mut u8]>(&mut registry).type_id();
    let mut a = Box::new(1);
    let mut b = Box::new(2);
    let mut c = Box::new(3);
    let mut v: Vec<&mut u8> = vec![&mut a, &mut b, &mut c];

    let s: &mut [&mut u8] = &mut v;
    assert_eq!(TypeInfo::of_val(&s, &mut registry).type_id(), expected);
}

#[test]
fn type_id_matches_result_u8_usize() {
    let mut registry = Registry::new();
    assert_eq!(
        TypeInfo::of::<Result<u8, usize>>(&mut registry).type_id(),
        combine_id(TAG_RESULT, combine_id(ID_U8, ID_USIZE)),
    )
}

#[test]
fn type_id_matches_result_ref_u8_non_static() {
    fn fallible<'a, 'b>(a: &'a u8, b: &'b u8) -> Result<&'a u8, &'b u8> {
        if (a & b) == 0 {
            Ok(a)
        } else {
            Err(b)
        }
    }

    let mut registry = Registry::new();
    let expected =
        TypeInfo::of::<Result<&'static u8, &'static u8>>(&mut registry).type_id();

    let a = Box::new(1);
    let b = Box::new(2);
    let o = fallible(&a, &b);
    assert_eq!(TypeInfo::of_val(&o, &mut registry).type_id(), expected);

    let a = Box::new(1);
    let b = Box::new(2);
    let e = fallible(&a, &b);
    assert_eq!(TypeInfo::of_val(&e, &mut registry).type_id(), expected)
}

#[test]
fn display_name_of_composites() {
    let mut registry = Registry::new();
    assert_eq!(
        TypeInfo::of::<Vec<u8>>(&mut registry).display_name(),
        "alloc::vec::Vec<u8>"
    );
    assert_eq!(
        TypeInfo::of::<Result<u8, usize>>(&mut registry).display_name(),
        "core::result::Result<u8, usize>"
    );
    assert_eq!(
        TypeInfo::of::<&'static mut [u8; 12]>(&mut registry).display_name(),
        "&mut [u8; 12]"
    );
    assert_eq!(
        TypeInfo::of::<Box<Option<u8>>>(&mut registry).display_name(),
        "alloc::boxed::Box<core::option::Option<u8>>"
    );
}

#[test]
fn size_and_align_of_builtins() {
    let mut registry = Registry::new();
    assert_eq!(TypeInfo::of::<u64>(&mut registry).size(), Some(8));
    assert_eq!(TypeInfo::of::<u64>(&mut registry).align(), Some(8));
    assert_eq!(TypeInfo::of::<()>(&mut registry).size(), Some(0));
    assert_eq!(TypeInfo::of::<str>(&mut registry).size(), None);
    assert_eq!(TypeInfo::of::<str>(&mut registry).align(), None);
    assert_eq!(TypeInfo::of::<[u8]>(&mut registry).size(), None);
    assert_eq!(TypeInfo::of::<[u8; 4]>(&mut registry).size(), Some(4));
    assert_eq!(
        TypeInfo::of::<&'static u8>(&mut registry).size(),
        Some(core::mem::size_of::<usize>())
    );
    assert_eq!(
        TypeInfo::of::<Vec<u8>>(&mut registry).size(),
        Some(core::mem::size_of::<Vec<u8>>())
    );
}

#[test]
fn discriminants_of_non_enum_is_empty() {
    let mut registry = Registry::new();
    assert_eq!(TypeInfo::of::<u8>(&mut registry).discriminants().len(), 0);
    assert_eq!(
        TypeInfo::of::<Option<u8>>(&mut registry)
            .discriminants()
            .len(),
        0
    );
}

#[test]
fn identity_round_trip_is_cached() {
    let mut registry = Registry::new();
    let first = TypeInfo::of::<Vec<u8>>(&mut registry).type_id();
    let again = TypeInfo::of::<Vec<u8>>(&mut registry).type_id();
    assert_eq!(first, again);
    let id = combine_id(TAG_VEC, ID_U8);
    assert!(registry.contains(id));
    assert_eq!(registry.lookup(id).unwrap().type_id(), id);
}
