//! Discriminant tokens and their type-erased form.
//!
//! A [`Discriminant`] says which variant of a known enum a value holds: it
//! pairs the enum's stable identity with the variant's index in declaration
//! order. A [`DiscriminantErased`] carries the same information behind an
//! interface that never requires the comparing code to know the enum: erased
//! tokens can be compared with each other, compared with concrete tokens in
//! both directions, hashed consistently with the concrete token, and
//! recovered into a concrete token by a checked downcast.
//!
//! Two tokens are equal exactly when they belong to the same enum and name
//! the same variant; tokens of different enums are never equal.

use vstd::prelude::*;
use vstd::std_specs::cmp::PartialEqSpec;
use crate::ids::token_hash_spec;
use crate::ids::token_hash;

verus! {

/// A concrete discriminant token: which variant of a caller-known enum a
/// value holds.
#[derive(Clone, Copy, Debug, Hash)]
pub struct Discriminant {
    /// The stable identity of the enum the token belongs to.
    pub enum_id: u64,
    /// The index of the variant in declaration order.
    pub variant_index: u64,
}

impl Discriminant {
    /// The token of the variant with index `variant_index`, in declaration
    /// order, of the enum whose stable identity is `enum_id`.
    pub fn new(enum_id: u64, variant_index: u64) -> (t: Discriminant)
        ensures
            t == (Discriminant { enum_id, variant_index }),
    {
        Discriminant { enum_id, variant_index }
    }

    /// Hash of the token, a function of its enum identity and variant index
    /// alone.
    pub fn hash_value(&self) -> (h: u64)
        ensures
            h == token_hash_spec(self.enum_id, self.variant_index),
    {
        token_hash(self.enum_id, self.variant_index)
    }
}

/// A type-erased discriminant token.
#[derive(Clone, Copy, Debug, Hash)]
pub struct DiscriminantErased {
    /// The stable identity of the enum the token belongs to.
    pub enum_id: u64,
    /// The index of the variant in declaration order.
    pub variant_index: u64,
}

impl DiscriminantErased {
    /// Erase a concrete token. The erased token is permanently valid and
    /// keeps the concrete token's enum identity and variant index.
    pub fn leak_erase_discriminant(concrete: Discriminant) -> (e: DiscriminantErased)
        ensures
            e.enum_id == concrete.enum_id,
            e.variant_index == concrete.variant_index,
    {
        DiscriminantErased { enum_id: concrete.enum_id, variant_index: concrete.variant_index }
    }

    /// Checked recovery of the concrete token for the enum whose stable
    /// identity is `enum_id`: the concrete token when the erased token
    /// belongs to that enum, and nothing otherwise. Absence is an expected
    /// outcome, not an error.
    pub fn downcast_id(&self, enum_id: u64) -> (r: Option<Discriminant>)
        ensures
            self.enum_id == enum_id ==> r == Some(
                Discriminant { enum_id: self.enum_id, variant_index: self.variant_index },
            ),
            self.enum_id != enum_id ==> r is None,
    {
        if self.enum_id == enum_id {
            Some(Discriminant { enum_id: self.enum_id, variant_index: self.variant_index })
        } else {
            None
        }
    }

    /// Hash of the token, a function of its enum identity and variant index
    /// alone, and therefore equal to the hash of the concrete token it
    /// erases.
    pub fn hash_value(&self) -> (h: u64)
        ensures
            h == token_hash_spec(self.enum_id, self.variant_index),
    {
        token_hash(self.enum_id, self.variant_index)
    }
}

impl PartialEq for DiscriminantErased {
    fn eq(&self, other: &DiscriminantErased) -> bool {
        self.enum_id == other.enum_id && self.variant_index == other.variant_index
    }
}

impl Eq for DiscriminantErased {

}

impl vstd::std_specs::cmp::PartialEqSpecImpl for DiscriminantErased {
    open spec fn obeys_eq_spec() -> bool {
        true
    }

    open spec fn eq_spec(&self, other: &DiscriminantErased) -> bool {
        self.enum_id == other.enum_id && self.variant_index == other.variant_index
    }
}

impl PartialEq for Discriminant {
    fn eq(&self, other: &Discriminant) -> bool {
        self.enum_id == other.enum_id && self.variant_index == other.variant_index
    }
}

impl Eq for Discriminant {

}

impl vstd::std_specs::cmp::PartialEqSpecImpl for Discriminant {
    open spec fn obeys_eq_spec() -> bool {
        true
    }

    open spec fn eq_spec(&self, other: &Discriminant) -> bool {
        self.enum_id == other.enum_id && self.variant_index == other.variant_index
    }
}

impl PartialEq<Discriminant> for DiscriminantErased {
    fn eq(&self, other: &Discriminant) -> bool {
        self.enum_id == other.enum_id && self.variant_index == other.variant_index
    }
}

impl vstd::std_specs::cmp::PartialEqSpecImpl<Discriminant> for DiscriminantErased {
    open spec fn obeys_eq_spec() -> bool {
        true
    }

    open spec fn eq_spec(&self, other: &Discriminant) -> bool {
        self.enum_id == other.enum_id && self.variant_index == other.variant_index
    }
}

impl PartialEq<DiscriminantErased> for Discriminant {
    fn eq(&self, other: &DiscriminantErased) -> bool {
        self.enum_id == other.enum_id && self.variant_index == other.variant_index
    }
}

impl vstd::std_specs::cmp::PartialEqSpecImpl<DiscriminantErased> for Discriminant {
    open spec fn obeys_eq_spec() -> bool {
        true
    }

    open spec fn eq_spec(&self, other: &DiscriminantErased) -> bool {
        self.enum_id == other.enum_id && self.variant_index == other.variant_index
    }
}

/// Discriminant equality is symmetric across the erasure boundary: an erased
/// token and a concrete token compare equal in either direction exactly when
/// the two concrete tokens would, tokens of one enum with different variant
/// indices are never equal, and tokens of different enums are never equal.
pub proof fn lemma_discriminant_eq_symmetry(e: DiscriminantErased, c: Discriminant)
    ensures
        e.eq_spec(&c) == c.eq_spec(&e),
        e.eq_spec(&c) == (Discriminant {
            enum_id: e.enum_id,
            variant_index: e.variant_index,
        }).eq_spec(&c),
        e.enum_id == c.enum_id && e.variant_index != c.variant_index ==> !e.eq_spec(&c),
        e.enum_id != c.enum_id ==> !e.eq_spec(&c),
{
}

/// Tokens of different enums are never equal, and tokens of one enum with
/// different variant indices are never equal, also between two erased tokens.
pub proof fn lemma_discriminant_erased_distinct(a: DiscriminantErased, b: DiscriminantErased)
    ensures
        a.enum_id != b.enum_id ==> !a.eq_spec(&b),
        a.enum_id == b.enum_id && a.variant_index != b.variant_index ==> !a.eq_spec(&b),
        a.eq_spec(&b) == b.eq_spec(&a),
{
}

/// Hash consistency across the erasure boundary: whenever an erased token
/// and a concrete token compare equal, their hashes are equal.
pub proof fn lemma_discriminant_hash_consistent(e: DiscriminantErased, c: Discriminant)
    requires
        e.eq_spec(&c),
    ensures
        token_hash_spec(e.enum_id, e.variant_index) == token_hash_spec(
            c.enum_id,
            c.variant_index,
        ),
{
}

} // verus!
