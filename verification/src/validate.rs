//! Validation of a declaration's shape.
//!
//! A declaration is accepted when it carries the single-byte
//! representation attribute `repr(u8)`, is an enumeration with one to
//! 256 variants, and every variant is a bare tag: no associated fields
//! and no explicit discriminant. Validation yields the ordered list of
//! variant names, or the first diagnostic in checking order.

use vstd::prelude::*;

use crate::ast::{AttrDecl, Declaration, MetaArg, TypeBody, VariantDecl};

verus! {

/// The most variants an accepted enumeration may have: every variant
/// must receive a distinct byte value.
pub const MAX_VARIANTS: usize = 256;

/// One fixed compile-time diagnostic per way a declaration can be rejected.
#[derive(Debug, Copy, Clone, PartialEq, Eq, Structural)]
pub enum Diagnostic {
    InvalidRepresentation,
    MustBeEnum,
    NoVariants,
    TooManyVariants,
    MustBeFieldless,
    ExplicitDiscriminant,
}

impl Diagnostic {
    /// The fixed text of this diagnostic.
    pub open spec fn spec_message(self) -> Seq<char> {
        match self {
            Diagnostic::InvalidRepresentation => "#[derive(ByteEnum)] must be exclusively `#[repr(u8)]`"@,
            Diagnostic::MustBeEnum => "#[derive(ByteEnum)] must be applied only to enum types"@,
            Diagnostic::NoVariants => "#[derive(ByteEnum)] must have at least one variant"@,
            Diagnostic::TooManyVariants => "#[derive(ByteEnum)] may not have more than 256 variants"@,
            Diagnostic::MustBeFieldless => "#[derive(ByteEnum)] must be applied only to fieldless enums"@,
            Diagnostic::ExplicitDiscriminant => "#[derive(ByteEnum)] enums may not have explicit discriminants"@,
        }
    }

    /// The fixed text of this diagnostic.
    pub fn message(&self) -> (s: &'static str)
        ensures
            s@ == self.spec_message(),
    {
        match self {
            Diagnostic::InvalidRepresentation => "#[derive(ByteEnum)] must be exclusively `#[repr(u8)]`",
            Diagnostic::MustBeEnum => "#[derive(ByteEnum)] must be applied only to enum types",
            Diagnostic::NoVariants => "#[derive(ByteEnum)] must have at least one variant",
            Diagnostic::TooManyVariants => "#[derive(ByteEnum)] may not have more than 256 variants",
            Diagnostic::MustBeFieldless => "#[derive(ByteEnum)] must be applied only to fieldless enums",
            Diagnostic::ExplicitDiscriminant => "#[derive(ByteEnum)] enums may not have explicit discriminants",
        }
    }
}

/// Whether an attribute is named `repr`.
pub open spec fn is_repr_attr(a: AttrDecl) -> bool {
    a.name@ == "repr"@
}

/// Whether an attribute is a parenthesised list holding exactly the word `u8`.
pub open spec fn is_u8_list(a: AttrDecl) -> bool {
    match a.args {
        Some(args) => args@.len() == 1 && match args@[0] {
            MetaArg::Word(w) => w@ == "u8"@,
            MetaArg::Other => false,
        },
        None => false,
    }
}

/// Whether the first attribute named `repr` is exactly `repr(u8)`.
///
/// Later `repr` attributes do not count: the first one decides.
pub open spec fn has_u8_repr(attrs: Seq<AttrDecl>) -> bool
    decreases attrs.len(),
{
    if attrs.len() == 0 {
        false
    } else if is_repr_attr(attrs[0]) {
        is_u8_list(attrs[0])
    } else {
        has_u8_repr(attrs.drop_first())
    }
}

/// The diagnostic a single variant earns, if any: fields are reported
/// before an explicit discriminant.
pub open spec fn variant_diag(v: VariantDecl) -> Option<Diagnostic> {
    if v.has_fields {
        Some(Diagnostic::MustBeFieldless)
    } else if v.has_discriminant {
        Some(Diagnostic::ExplicitDiscriminant)
    } else {
        None
    }
}

/// The diagnostic of the first offending variant, if any.
pub open spec fn variants_diag(vs: Seq<VariantDecl>) -> Option<Diagnostic>
    decreases vs.len(),
{
    if vs.len() == 0 {
        None
    } else if variant_diag(vs[0]) is Some {
        variant_diag(vs[0])
    } else {
        variants_diag(vs.drop_first())
    }
}

/// What checking the body of a declaration yields: the ordered variant
/// names, or the first diagnostic among non-enum shape, emptiness,
/// overflow of the variant cap, and the per-variant checks.
pub open spec fn spec_parse_variants(d: Declaration) -> Result<Seq<Seq<char>>, Diagnostic> {
    match d.body {
        TypeBody::Enum(vs) => if vs@.len() == 0 {
            Err(Diagnostic::NoVariants)
        } else if vs@.len() > MAX_VARIANTS {
            Err(Diagnostic::TooManyVariants)
        } else {
            match variants_diag(vs@) {
                Some(diag) => Err(diag),
                None => Ok(vs@.map_values(|v: VariantDecl| v.name@)),
            }
        },
        _ => Err(Diagnostic::MustBeEnum),
    }
}

/// What validating a whole declaration yields: the representation check
/// runs first, then the body checks.
pub open spec fn spec_parse_enum_contents(d: Declaration) -> Result<Seq<Seq<char>>, Diagnostic> {
    if !has_u8_repr(d.attrs@) {
        Err(Diagnostic::InvalidRepresentation)
    } else {
        spec_parse_variants(d)
    }
}

/// A variant sequence has no offending variant exactly when every one of
/// its variants is a bare tag.
proof fn lemma_variants_diag_none(vs: Seq<VariantDecl>)
    ensures
        variants_diag(vs) is None <==> (forall|j: int|
            0 <= j < vs.len() ==> variant_diag(vs[j]) is None),
    decreases vs.len(),
{
    if vs.len() > 0 {
        lemma_variants_diag_none(vs.drop_first());
        assert(forall|j: int| 1 <= j < vs.len() ==> vs.drop_first()[j - 1] == vs[j]);
    }
}

/// An accepted declaration yields between one variant name and the cap.
pub proof fn lemma_accepted_bounds(d: Declaration)
    requires
        spec_parse_enum_contents(d) is Ok,
    ensures
        1 <= spec_parse_enum_contents(d)->Ok_0.len() <= MAX_VARIANTS,
{
}

/// Rejection: a declaration fails validation exactly when it misses the
/// `repr(u8)` attribute, is not an enumeration, has no variants or more
/// than the cap, or has a variant with fields or an explicit
/// discriminant. No artifact is produced for it: validation yields the
/// diagnostic alone.
pub proof fn lemma_rejection(d: Declaration)
    ensures
        spec_parse_enum_contents(d) is Err <==> (!has_u8_repr(d.attrs@) || !(
        d.body matches TypeBody::Enum(_)) || (d.body matches TypeBody::Enum(vs) && (vs@.len() == 0
            || vs@.len() > MAX_VARIANTS || (exists|j: int|
            0 <= j < vs@.len() && variant_diag(vs@[j]) is Some)))),
{
    match d.body {
        TypeBody::Enum(vs) => lemma_variants_diag_none(vs@),
        _ => {},
    }
}

/// Checks that an attribute already known to be named `repr` is exactly
/// `repr(u8)`.
pub fn check_repr_attribute(attr: &AttrDecl) -> (r: Result<(), Diagnostic>)
    ensures
        r is Ok <==> is_u8_list(*attr),
        r is Err ==> r->Err_0 == Diagnostic::InvalidRepresentation,
{
    let u8_name = String::from_str("u8");
    match &attr.args {
        Some(args) => if args.len() == 1 {
            match &args[0] {
                MetaArg::Word(w) => if *w == u8_name {
                    Ok(())
                } else {
                    Err(Diagnostic::InvalidRepresentation)
                },
                MetaArg::Other => Err(Diagnostic::InvalidRepresentation),
            }
        } else {
            Err(Diagnostic::InvalidRepresentation)
        },
        None => Err(Diagnostic::InvalidRepresentation),
    }
}

/// Finds the first `repr` attribute and checks it requests `u8`.
#[verifier::loop_isolation(false)]
pub fn check_attributes(attrs: &Vec<AttrDecl>) -> (r: Result<(), Diagnostic>)
    ensures
        r is Ok <==> has_u8_repr(attrs@),
        r is Err ==> r->Err_0 == Diagnostic::InvalidRepresentation,
{
    let repr_name = String::from_str("repr");
    let mut i: usize = 0;
    proof {
        assert(attrs@.skip(0) =~= attrs@);
    }
    while i < attrs.len()
        invariant
            0 <= i <= attrs@.len(),
            repr_name@ == "repr"@,
            has_u8_repr(attrs@) == has_u8_repr(attrs@.skip(i as int)),
        decreases attrs@.len() - i,
    {
        let attr = &attrs[i];
        if attr.name == repr_name {
            proof {
                assert(attrs@.skip(i as int)[0] == attrs@[i as int]);
            }
            return check_repr_attribute(attr);
        }
        proof {
            assert(attrs@.skip(i as int).drop_first() =~= attrs@.skip(i as int + 1));
        }
        i = i + 1;
    }
    Err(Diagnostic::InvalidRepresentation)
}

/// Checks one variant: it must be a bare tag.
pub fn check_variant(v: &VariantDecl) -> (r: Result<(), Diagnostic>)
    ensures
        r is Ok <==> variant_diag(*v) is None,
        r is Err ==> variant_diag(*v) == Some(r->Err_0),
{
    if v.has_fields {
        Err(Diagnostic::MustBeFieldless)
    } else if v.has_discriminant {
        Err(Diagnostic::ExplicitDiscriminant)
    } else {
        Ok(())
    }
}

/// Checks the body of a declaration and collects the variant names in
/// declaration order.
#[verifier::loop_isolation(false)]
pub fn parse_variants(d: &Declaration) -> (r: Result<Vec<String>, Diagnostic>)
    ensures
        r is Ok <==> spec_parse_variants(*d) is Ok,
        r is Ok ==> r->Ok_0.deep_view() == spec_parse_variants(*d)->Ok_0,
        r is Err ==> r->Err_0 == spec_parse_variants(*d)->Err_0,
{
    match &d.body {
        TypeBody::Enum(vs) => {
            if vs.len() == 0 {
                return Err(Diagnostic::NoVariants);
            }
            if vs.len() > MAX_VARIANTS {
                return Err(Diagnostic::TooManyVariants);
            }
            let mut names: Vec<String> = Vec::new();
            let mut i: usize = 0;
            proof {
                assert(vs@.skip(0) =~= vs@);
            }
            while i < vs.len()
                invariant
                    0 <= i <= vs@.len(),
                    variants_diag(vs@) == variants_diag(vs@.skip(i as int)),
                    names@.len() == i,
                    forall|j: int| 0 <= j < i ==> names@[j]@ == vs@[j].name@,
                decreases vs@.len() - i,
            {
                let v = &vs[i];
                proof {
                    assert(vs@.skip(i as int)[0] == vs@[i as int]);
                }
                match check_variant(v) {
                    Err(diag) => {
                        proof {
                            assert(variants_diag(vs@.skip(i as int)) == Some(diag));
                        }
                        return Err(diag);
                    },
                    Ok(()) => {},
                }
                names.push(v.name.clone());
                proof {
                    assert(vs@.skip(i as int).drop_first() =~= vs@.skip(i as int + 1));
                }
                i = i + 1;
            }
            proof {
                assert(vs@.skip(i as int) =~= Seq::<VariantDecl>::empty());
                assert(names.deep_view() =~= vs@.map_values(|v: VariantDecl| v.name@));
            }
            Ok(names)
        },
        TypeBody::Struct => Err(Diagnostic::MustBeEnum),
        TypeBody::Union => Err(Diagnostic::MustBeEnum),
    }
}

/// Validates a whole declaration: the representation attribute, then the
/// body, yielding the ordered variant names or the first diagnostic.
pub fn parse_enum_contents(d: &Declaration) -> (r: Result<Vec<String>, Diagnostic>)
    ensures
        r is Ok <==> spec_parse_enum_contents(*d) is Ok,
        r is Ok ==> r->Ok_0.deep_view() == spec_parse_enum_contents(*d)->Ok_0,
        r is Err ==> r->Err_0 == spec_parse_enum_contents(*d)->Err_0,
{
    match check_attributes(&d.attrs) {
        Err(diag) => Err(diag),
        Ok(()) => parse_variants(d),
    }
}

} // verus!
