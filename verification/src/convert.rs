//! The runtime semantics of the generated conversions.
//!
//! A `ValidEnum` is an enumeration as it stands after validation: its
//! name and its variant names in declaration order. A variant is
//! identified by its zero-based position in that order. `forward` and
//! `reverse` compute exactly what the generated implementations compute,
//! and the lemmas state the guarantees the generated code lives by:
//! round trip, bijection onto the bytes below the variant count, and the
//! boundary failures.

use vstd::prelude::*;

use crate::TryEnumFromByteError;
use crate::ast::Declaration;
use crate::validate::{lemma_accepted_bounds, parse_enum_contents, spec_parse_enum_contents,
    Diagnostic, MAX_VARIANTS};

verus! {

/// A validated enumeration: its name and its ordered variant names.
#[derive(Debug, Clone, PartialEq, Eq)]
pub struct ValidEnum {
    pub name: String,
    pub variants: Vec<String>,
}

impl ValidEnum {
    /// Well-formed: at least one variant and no more than the cap, so
    /// that every variant position fits in a byte.
    pub open spec fn wf(self) -> bool {
        1 <= self.variants@.len() <= MAX_VARIANTS
    }

    /// The byte of the variant at position `v`: the position itself.
    pub open spec fn spec_forward(self, v: nat) -> u8
        recommends
            v < self.variants@.len(),
    {
        v as u8
    }

    /// What converting a byte back yields: the variant position when the
    /// byte is below the variant count, the invalid-byte error carrying
    /// that byte otherwise.
    pub open spec fn spec_reverse(self, b: u8) -> Result<usize, TryEnumFromByteError> {
        if (b as nat) < self.variants@.len() {
            Ok(b as usize)
        } else {
            Err(TryEnumFromByteError(b))
        }
    }

    /// Builds a validated enumeration from a declaration, or reports the
    /// declaration's first diagnostic.
    pub fn from_declaration(d: &Declaration) -> (r: Result<ValidEnum, Diagnostic>)
        ensures
            r is Ok <==> spec_parse_enum_contents(*d) is Ok,
            r is Ok ==> r->Ok_0.wf(),
            r is Ok ==> r->Ok_0.name@ == d.name@,
            r is Ok ==> r->Ok_0.variants.deep_view() == spec_parse_enum_contents(*d)->Ok_0,
            r is Err ==> r->Err_0 == spec_parse_enum_contents(*d)->Err_0,
    {
        match parse_enum_contents(d) {
            Err(diag) => Err(diag),
            Ok(variants) => {
                proof {
                    lemma_accepted_bounds(*d);
                    assert(variants.deep_view().len() == variants@.len());
                }
                Ok(ValidEnum { name: d.name.clone(), variants })
            },
        }
    }

    /// The number of variants.
    pub fn variant_count(&self) -> (n: usize)
        ensures
            n == self.variants@.len(),
    {
        self.variants.len()
    }

    /// The name of the variant at a position.
    pub fn variant_name(&self, v: usize) -> (s: &String)
        requires
            v < self.variants@.len(),
        ensures
            s@ == self.variants@[v as int]@,
    {
        &self.variants[v]
    }

    /// The forward conversion: the variant at position `v` becomes the
    /// byte `v`. It is total on the variants and never fails.
    pub fn forward(&self, v: usize) -> (b: u8)
        requires
            self.wf(),
            v < self.variants@.len(),
        ensures
            b == self.spec_forward(v as nat),
    {
        v as u8
    }

    /// The reverse conversion: a byte below the variant count yields the
    /// variant at that position; any other byte yields the invalid-byte
    /// error carrying that byte.
    pub fn reverse(&self, b: u8) -> (r: Result<usize, TryEnumFromByteError>)
        requires
            self.wf(),
        ensures
            r == self.spec_reverse(b),
    {
        if (b as usize) < self.variants.len() {
            Ok(b as usize)
        } else {
            Err(TryEnumFromByteError(b))
        }
    }
}

/// Round trip: converting a variant forward to its byte and back yields
/// that same variant.
pub proof fn lemma_round_trip(e: ValidEnum, v: nat)
    requires
        e.wf(),
        v < e.variants@.len(),
    ensures
        e.spec_reverse(e.spec_forward(v)) == Ok::<usize, TryEnumFromByteError>(v as usize),
{
}

/// Bijection: distinct variants receive distinct bytes; the bytes of the
/// variants are exactly those below the variant count; and the reverse
/// conversion succeeds exactly on those bytes.
pub proof fn lemma_bijection(e: ValidEnum)
    requires
        e.wf(),
    ensures
        forall|v: nat, w: nat|
            v < e.variants@.len() && w < e.variants@.len() && e.spec_forward(v)
                == e.spec_forward(w) ==> v == w,
        forall|v: nat| v < e.variants@.len() ==> (e.spec_forward(v) as nat) < e.variants@.len(),
        forall|b: u8| (b as nat) < e.variants@.len() ==> e.spec_forward(b as nat) == b,
        forall|b: u8| #[trigger] e.spec_reverse(b) is Ok <==> (b as nat) < e.variants@.len(),
{
}

/// Ordering: byte values follow declaration order — the first declared
/// variant maps to 0, the next to 1, and so on, whatever the variants
/// are named.
pub proof fn lemma_ordering(e: ValidEnum, v: nat)
    requires
        e.wf(),
        v < e.variants@.len(),
    ensures
        e.spec_forward(v) as nat == v,
{
}

/// Boundary: for an enumeration with fewer than 255 variants, the byte
/// equal to the variant count and the byte 255 both fail, each carrying
/// exactly the offending byte.
pub proof fn lemma_boundary(e: ValidEnum)
    requires
        e.wf(),
        e.variants@.len() < 255,
    ensures
        e.spec_reverse(e.variants@.len() as u8) == Err::<usize, TryEnumFromByteError>(
            TryEnumFromByteError(e.variants@.len() as u8),
        ),
        e.spec_reverse(255u8) == Err::<usize, TryEnumFromByteError>(TryEnumFromByteError(255u8)),
{
}

} // verus!
