//! Generation of the conversion implementations as source text.
//!
//! Given a type name and its validated, ordered variant names, three
//! implementations are emitted from a fixed template: the marker
//! capability, the total variant-to-byte conversion (each variant maps
//! to its zero-based position in declaration order), and the fallible
//! byte-to-variant conversion (any byte at or above the variant count
//! yields the invalid-byte error). The exact text of each artifact is
//! pinned down by a spec function.

use vstd::prelude::*;

use crate::decimal::{byte_decimal, dec_rep};

verus! {

/// The text of the marker-capability implementation.
pub open spec fn marker_impl_text(name: Seq<char>) -> Seq<char> {
    "impl ::byte_enum::ByteEnum for "@ + name + " { }\n"@
}

/// The opening of the variant-to-byte implementation, up to its match arms.
pub open spec fn from_impl_prefix(name: Seq<char>) -> Seq<char> {
    "impl ::core::convert::From<"@ + name + "> for u8 { fn from(value: "@ + name
        + ") -> Self { match value { "@
}

/// One arm of the variant-to-byte match.
pub open spec fn from_arm_text(name: Seq<char>, variant: Seq<char>, index: u8) -> Seq<char> {
    name + "::"@ + variant + " => "@ + dec_rep(index) + "u8, "@
}

/// The arms of the variant-to-byte match, in declaration order.
pub open spec fn from_arms_text(name: Seq<char>, variants: Seq<Seq<char>>) -> Seq<char>
    decreases variants.len(),
{
    if variants.len() == 0 {
        Seq::empty()
    } else {
        from_arms_text(name, variants.drop_last()) + from_arm_text(
            name,
            variants.last(),
            (variants.len() - 1) as u8,
        )
    }
}

/// The whole text of the variant-to-byte implementation.
pub open spec fn from_impl_text(name: Seq<char>, variants: Seq<Seq<char>>) -> Seq<char> {
    from_impl_prefix(name) + from_arms_text(name, variants) + "} } }\n"@
}

/// The opening of the byte-to-variant implementation, up to its match arms.
pub open spec fn try_impl_prefix(name: Seq<char>) -> Seq<char> {
    "impl ::core::convert::TryFrom<u8> for "@ + name
        + " { type Error = ::byte_enum::TryEnumFromByteError; fn try_from(value: u8) -> Result<Self, Self::Error> { match value { "@
}

/// One arm of the byte-to-variant match.
pub open spec fn try_arm_text(name: Seq<char>, variant: Seq<char>, index: u8) -> Seq<char> {
    dec_rep(index) + "u8 => Ok("@ + name + "::"@ + variant + "), "@
}

/// The arms of the byte-to-variant match, in declaration order.
pub open spec fn try_arms_text(name: Seq<char>, variants: Seq<Seq<char>>) -> Seq<char>
    decreases variants.len(),
{
    if variants.len() == 0 {
        Seq::empty()
    } else {
        try_arms_text(name, variants.drop_last()) + try_arm_text(
            name,
            variants.last(),
            (variants.len() - 1) as u8,
        )
    }
}

/// The whole text of the byte-to-variant implementation, closed by the
/// catch-all arm that builds the invalid-byte error.
pub open spec fn try_from_impl_text(name: Seq<char>, variants: Seq<Seq<char>>) -> Seq<char> {
    try_impl_prefix(name) + try_arms_text(name, variants)
        + "_ => Err(::byte_enum::TryEnumFromByteError(value)), } } }\n"@
}

/// The whole generated artifact: marker capability, forward conversion,
/// reverse conversion.
pub open spec fn output_text(name: Seq<char>, variants: Seq<Seq<char>>) -> Seq<char> {
    marker_impl_text(name) + from_impl_text(name, variants) + try_from_impl_text(name, variants)
}

/// Emits the variant-to-byte implementation.
#[verifier::loop_isolation(false)]
pub fn generate_u8_from(name: &String, variants: &Vec<String>) -> (s: String)
    requires
        1 <= variants@.len() <= 256,
    ensures
        s@ == from_impl_text(name@, variants.deep_view()),
{
    let mut s = String::from_str("impl ::core::convert::From<");
    s.append(name.as_str());
    s.append("> for u8 { fn from(value: ");
    s.append(name.as_str());
    s.append(") -> Self { match value { ");
    proof {
        assert(s@ =~= from_impl_prefix(name@) + from_arms_text(
            name@,
            variants.deep_view().take(0),
        ));
    }
    let mut i: usize = 0;
    while i < variants.len()
        invariant
            0 <= i <= variants@.len(),
            s@ == from_impl_prefix(name@) + from_arms_text(name@, variants.deep_view().take(
                i as int,
            )),
        decreases variants@.len() - i,
    {
        s.append(name.as_str());
        s.append("::");
        s.append(variants[i].as_str());
        s.append(" => ");
        let digits = byte_decimal(i as u8);
        s.append(digits.as_str());
        s.append("u8, ");
        proof {
            let dv = variants.deep_view();
            assert(dv.take(i as int + 1).drop_last() =~= dv.take(i as int));
            assert(dv.take(i as int + 1).last() == dv[i as int]);
            assert(s@ =~= from_impl_prefix(name@) + from_arms_text(name@, dv.take(i as int + 1)));
        }
        i = i + 1;
    }
    s.append("} } }\n");
    proof {
        assert(variants.deep_view().take(i as int) =~= variants.deep_view());
        assert(s@ =~= from_impl_text(name@, variants.deep_view()));
    }
    s
}

/// Emits the byte-to-variant implementation.
#[verifier::loop_isolation(false)]
pub fn generate_try_from_u8(name: &String, variants: &Vec<String>) -> (s: String)
    requires
        1 <= variants@.len() <= 256,
    ensures
        s@ == try_from_impl_text(name@, variants.deep_view()),
{
    let mut s = String::from_str("impl ::core::convert::TryFrom<u8> for ");
    s.append(name.as_str());
    s.append(
        " { type Error = ::byte_enum::TryEnumFromByteError; fn try_from(value: u8) -> Result<Self, Self::Error> { match value { ",
    );
    proof {
        assert(s@ =~= try_impl_prefix(name@) + try_arms_text(
            name@,
            variants.deep_view().take(0),
        ));
    }
    let mut i: usize = 0;
    while i < variants.len()
        invariant
            0 <= i <= variants@.len(),
            s@ == try_impl_prefix(name@) + try_arms_text(name@, variants.deep_view().take(
                i as int,
            )),
        decreases variants@.len() - i,
    {
        let digits = byte_decimal(i as u8);
        s.append(digits.as_str());
        s.append("u8 => Ok(");
        s.append(name.as_str());
        s.append("::");
        s.append(variants[i].as_str());
        s.append("), ");
        proof {
            let dv = variants.deep_view();
            assert(dv.take(i as int + 1).drop_last() =~= dv.take(i as int));
            assert(dv.take(i as int + 1).last() == dv[i as int]);
            assert(s@ =~= try_impl_prefix(name@) + try_arms_text(name@, dv.take(i as int + 1)));
        }
        i = i + 1;
    }
    s.append("_ => Err(::byte_enum::TryEnumFromByteError(value)), } } }\n");
    proof {
        assert(variants.deep_view().take(i as int) =~= variants.deep_view());
        assert(s@ =~= try_from_impl_text(name@, variants.deep_view()));
    }
    s
}

/// Emits the whole artifact for a validated enumeration.
pub fn generate_output(name: &String, variants: &Vec<String>) -> (s: String)
    requires
        1 <= variants@.len() <= 256,
    ensures
        s@ == output_text(name@, variants.deep_view()),
{
    let mut s = String::from_str("impl ::byte_enum::ByteEnum for ");
    s.append(name.as_str());
    s.append(" { }\n");
    let from_impl = generate_u8_from(name, variants);
    s.append(from_impl.as_str());
    let try_impl = generate_try_from_u8(name, variants);
    s.append(try_impl.as_str());
    proof {
        assert(s@ =~= output_text(name@, variants.deep_view()));
    }
    s
}

} // verus!
