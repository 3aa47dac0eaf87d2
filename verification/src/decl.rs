//! The input model of the transform, and the variant collector.
//!
//! A [`TypeDecl`] holds what the transform reads of a type declaration: the
//! type's name and, for a variant-based type, the ordered list of its
//! variants, each with its name and the shape of its field list. Field names
//! and field types play no part in the transform and are not modeled.

use vstd::prelude::*;

verus! {

/// The shape of one declared variant's field list: named fields (a brace
/// list), unnamed fields (a parenthesized list of the given length), or no
/// field list at all.
pub enum FieldListDecl {
    /// A brace-delimited list of named fields. The count is carried by the
    /// declaration but discarded by the transform: named-field variants of
    /// any arity collapse to one shape.
    Named { count: usize },
    /// A parenthesis-delimited list of unnamed fields of the given length.
    /// A length of zero is degenerate but valid.
    Unnamed { count: usize },
    /// No field list.
    Unit,
}

/// One variant as declared: its name and the shape of its field list.
pub struct VariantDecl {
    pub name: String,
    pub fields: FieldListDecl,
}

/// The body of a type declaration: either an ordered list of variants (a
/// variant-based, or sum, type) or some other kind of body, on which the
/// transform refuses to run.
pub enum TypeBody {
    /// A variant-based type with the given variants, in declaration order.
    Variants(Vec<VariantDecl>),
    /// A single-shape record type.
    Record,
    /// An untagged overlay type.
    Untagged,
}

/// The input to the transform: one type declaration.
pub struct TypeDecl {
    pub name: String,
    pub body: TypeBody,
}

/// The single error of the transform: it was requested on a declaration
/// that is not a variant-based type.
#[derive(Clone, Copy, PartialEq, Eq, Structural, Debug)]
pub enum OrdinalError {
    NotVariantBased,
}

impl OrdinalError {
    /// The message reported at the site of the transform request.
    pub fn message(&self) -> (r: String)
        ensures
            r@ == spec_error_message(),
    {
        String::from_str("cannot derive `Ordinal` on an item which is not an enum")
    }
}

/// The text of the one fatal error.
pub open spec fn spec_error_message() -> Seq<char> {
    "cannot derive `Ordinal` on an item which is not an enum"@
}

/// One collected variant: its name, the length of its unnamed-field list
/// (zero unless the variant declares one), and whether it declares named
/// fields.
pub struct Variant {
    pub ident: String,
    pub unit_field_count: usize,
    pub has_named_fields: bool,
}

/// What the collector records of one declared variant: the name is kept;
/// named fields collapse to a flag, their count discarded; an unnamed-field
/// list is kept only as its length.
pub open spec fn spec_detect_variant(v: VariantDecl) -> Variant {
    Variant {
        ident: v.name,
        unit_field_count: match v.fields {
            FieldListDecl::Unnamed { count } => count,
            _ => 0,
        },
        has_named_fields: v.fields is Named,
    }
}

/// Collects one declared variant into a [`Variant`] record.
pub fn detect_variant(variant: &VariantDecl) -> (r: Variant)
    ensures
        r == spec_detect_variant(*variant),
{
    let (unit_field_count, has_named_fields): (usize, bool) = match &variant.fields {
        FieldListDecl::Named { count: _ } => (0, true),
        FieldListDecl::Unit => (0, false),
        FieldListDecl::Unnamed { count } => (*count, false),
    };
    Variant {
        ident: variant.name.clone(),
        unit_field_count,
        has_named_fields,
    }
}

/// The ordered variant records of a variant-based declaration.
pub open spec fn spec_detect_variants(vs: Seq<VariantDecl>) -> Seq<Variant> {
    vs.map_values(|v: VariantDecl| spec_detect_variant(v))
}

/// Collects the variants of a declaration, in declaration order.
///
/// Fails — with the transform's one error — exactly when the declaration is
/// not a variant-based type; no work is done in that case.
pub fn detect_variants(input: &TypeDecl) -> (r: Result<Vec<Variant>, OrdinalError>)
    ensures
        match input.body {
            TypeBody::Variants(decls) => r matches Ok(vs) && vs@ == spec_detect_variants(
                decls@,
            ),
            _ => r === Err(OrdinalError::NotVariantBased),
        },
{
    let decls = match &input.body {
        TypeBody::Variants(decls) => decls,
        _ => {
            return Err(OrdinalError::NotVariantBased);
        },
    };
    let mut vec: Vec<Variant> = Vec::new();
    let mut i: usize = 0;
    while i < decls.len()
        invariant
            i <= decls.len(),
            vec@ =~= spec_detect_variants(decls@.take(i as int)),
        decreases decls.len() - i,
    {
        vec.push(detect_variant(&decls[i]));
        i = i + 1;
    }
    proof {
        assert(decls@.take(decls@.len() as int) =~= decls@);
    }
    Ok(vec)
}

} // verus!
