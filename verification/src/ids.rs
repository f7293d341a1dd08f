//! Stable type identities.
//!
//! Every type described by this library has a stable identity: a `u64` key
//! that is the same for every query of the same canonical type. Built-in
//! shapes have fixed identities; parametric shapes derive theirs from the
//! identities of their parameters with [`combine_id`]. Borrow-duration
//! (lifetime) parameters never enter an identity, so two borrows of one type
//! taken with different durations share one identity by construction.

use vstd::prelude::*;
use vstd::string::StringExecFns;

verus! {

pub const ID_U8: u64 = 0x01;

pub const ID_U16: u64 = 0x02;

pub const ID_U32: u64 = 0x03;

pub const ID_U64: u64 = 0x04;

pub const ID_U128: u64 = 0x05;

pub const ID_I8: u64 = 0x06;

pub const ID_I16: u64 = 0x07;

pub const ID_I32: u64 = 0x08;

pub const ID_I64: u64 = 0x09;

pub const ID_I128: u64 = 0x0a;

pub const ID_F32: u64 = 0x0b;

pub const ID_F64: u64 = 0x0c;

pub const ID_USIZE: u64 = 0x0d;

pub const ID_ISIZE: u64 = 0x0e;

pub const ID_UNIT: u64 = 0x0f;

pub const ID_BOOL: u64 = 0x10;

pub const ID_CHAR: u64 = 0x11;

pub const ID_STR: u64 = 0x20;

pub const ID_STRING: u64 = 0x21;

pub const TAG_REF: u64 = 0x30;

pub const TAG_REF_MUT: u64 = 0x31;

pub const TAG_RAW_CONST: u64 = 0x32;

pub const TAG_RAW_MUT: u64 = 0x33;

pub const TAG_BOX: u64 = 0x34;

pub const TAG_SLICE: u64 = 0x35;

pub const TAG_ARRAY: u64 = 0x36;

pub const TAG_VEC: u64 = 0x37;

pub const TAG_OPTION: u64 = 0x38;

pub const TAG_RESULT: u64 = 0x39;

pub const TAG_PHANTOM: u64 = 0x3a;

/// Multiplier used to mix a nested identity into a composite identity.
pub const ID_MIX: u64 = 0x100000001b3;

/// The identity of a parametric shape, derived from the shape's tag and the
/// identity of its parameter.
pub open spec fn combine_id_spec(tag: u64, child: u64) -> u64 {
    vstd::wrapping::u64_specs::wrapping_add(
        vstd::wrapping::u64_specs::wrapping_mul(child, ID_MIX),
        tag,
    )
}

/// Mix a nested identity with a shape tag into a composite identity.
pub fn combine_id(tag: u64, child: u64) -> (id: u64)
    ensures
        id == combine_id_spec(tag, child),
{
    child.wrapping_mul(ID_MIX).wrapping_add(tag)
}

/// The hash of a discriminant token, a function of the token's enum identity
/// and variant index alone, so that an erased token and the concrete token it
/// wraps always hash alike.
pub open spec fn token_hash_spec(enum_id: u64, variant_index: u64) -> u64 {
    vstd::wrapping::u64_specs::wrapping_add(
        vstd::wrapping::u64_specs::wrapping_mul(enum_id, ID_MIX),
        variant_index,
    )
}

/// Hash a discriminant token's fields.
pub fn token_hash(enum_id: u64, variant_index: u64) -> (h: u64)
    ensures
        h == token_hash_spec(enum_id, variant_index),
{
    enum_id.wrapping_mul(ID_MIX).wrapping_add(variant_index)
}

/// One decimal digit as text.
pub open spec fn spec_digit(d: nat) -> Seq<char> {
    if d == 0 {
        "0"@
    } else if d == 1 {
        "1"@
    } else if d == 2 {
        "2"@
    } else if d == 3 {
        "3"@
    } else if d == 4 {
        "4"@
    } else if d == 5 {
        "5"@
    } else if d == 6 {
        "6"@
    } else if d == 7 {
        "7"@
    } else if d == 8 {
        "8"@
    } else {
        "9"@
    }
}

/// The decimal rendering of a number, most significant digit first.
pub open spec fn spec_decimal(n: nat) -> Seq<char>
    decreases n,
{
    if n < 10 {
        spec_digit(n)
    } else {
        spec_decimal(n / 10) + spec_digit(n % 10)
    }
}

/// Render a number in decimal.
pub fn format_decimal(n: usize) -> (r: String)
    ensures
        r@ == spec_decimal(n as nat),
    decreases n,
{
    if n < 10 {
        let d = digit_str(n);
        let mut s = String::new();
        s.append(d);
        assert(s@ =~= spec_decimal(n as nat));
        s
    } else {
        let mut s = format_decimal(n / 10);
        let d = digit_str(n % 10);
        s.append(d);
        assert(s@ =~= spec_decimal(n as nat));
        s
    }
}

/// The text of one decimal digit.
fn digit_str(d: usize) -> (r: &'static str)
    requires
        d < 10,
    ensures
        r@ == spec_digit(d as nat),
{
    match d {
        0 => "0",
        1 => "1",
        2 => "2",
        3 => "3",
        4 => "4",
        5 => "5",
        6 => "6",
        7 => "7",
        8 => "8",
        _ => "9",
    }
}

} // verus!
