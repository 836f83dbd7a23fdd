//! Verified core of a byte-enum derivation facility.
//!
//! An enumeration whose variants carry no data and which requests a
//! single-byte representation can be given two conversions: a total one
//! from variants to bytes (each variant maps to its zero-based position
//! in declaration order) and a fallible one from bytes back to variants.
//! This crate validates a declaration's shape, generates the source text
//! of those conversions, and proves the properties the generated code
//! lives by: the forward map is a bijection onto the bytes below the
//! variant count, and the reverse map succeeds exactly on that range.

use vstd::prelude::*;

pub mod ast;
pub mod convert;
pub mod decimal;
pub mod generate;
pub mod validate;

use crate::ast::Declaration;
use crate::generate::output_text;
use crate::validate::{lemma_accepted_bounds, Diagnostic, spec_parse_enum_contents};

verus! {

/// Marker capability for a type that converts to and from a single byte.
///
/// The generated code implements it for every accepted enumeration; it
/// carries no methods and exists for generic bounds in consuming code.
pub trait ByteEnum: Into<u8> + TryFrom<u8> {}

/// Error returned by a failed conversion from a byte to an enumeration.
///
/// Holds the byte that matched no variant.
#[derive(Debug, Copy, Clone, PartialEq, Eq, Structural)]
pub struct TryEnumFromByteError(pub u8);

impl TryEnumFromByteError {
    /// The human-readable text naming the byte that failed to match.
    pub fn message(&self) -> (s: String)
        ensures
            s@ == "failed to match value "@ + crate::decimal::dec_rep(self.0)
                + " to enum discriminant"@,
    {
        let mut s = String::from_str("failed to match value ");
        let digits = crate::decimal::byte_decimal(self.0);
        s.append(digits.as_str());
        s.append(" to enum discriminant");
        proof {
            assert(s@ =~= "failed to match value "@ + crate::decimal::dec_rep(self.0)
                + " to enum discriminant"@);
        }
        s
    }
}

/// Validates a declaration and, when it is accepted, generates the source
/// text of the three implementations; a rejected declaration yields its
/// first diagnostic and no artifact.
pub fn derive_byte_enum(decl: &Declaration) -> (r: Result<String, Diagnostic>)
    ensures
        r is Ok <==> spec_parse_enum_contents(*decl) is Ok,
        r is Ok ==> r->Ok_0@ == output_text(decl.name@, spec_parse_enum_contents(*decl)->Ok_0),
        r is Err ==> r->Err_0 == spec_parse_enum_contents(*decl)->Err_0,
{
    match crate::validate::parse_enum_contents(decl) {
        Err(diag) => Err(diag),
        Ok(variants) => {
            proof {
                lemma_accepted_bounds(*decl);
                assert(variants.deep_view().len() == variants@.len());
            }
            Ok(crate::generate::generate_output(&decl.name, &variants))
        },
    }
}

} // verus!
