//! The meaning of the synthesized rules: which rule fires on which value.
//!
//! A value of a variant-based type is modeled by the name of the variant it
//! was constructed as and by its field contents — nothing else of the value
//! can influence a rule, since every rule mentions only the variant tag and
//! the arity of its field list. [`rule_matches`] says when one variant's
//! rule recognizes a value, [`ordinal`] runs the rules in declaration order
//! as the generated method does, and the lemmas in this module establish
//! the laws of the ordinal assignment.

use vstd::prelude::*;

use crate::arms::spec_arm;
use crate::decl::Variant;

verus! {

/// The field contents a value of a variant-based type carries: none, an
/// unnamed (positional) list, or a named (braced) list. Each field's
/// content is modeled as its source text, held opaque; the rules never
/// read a field's content.
pub enum FieldContents {
    Unit,
    Unnamed(Vec<String>),
    Named(Vec<String>),
}

/// A modeled value of a variant-based type: the name of the variant it was
/// constructed as, and the contents of that variant's fields.
pub struct EnumValue {
    pub variant: String,
    pub contents: FieldContents,
}

/// When the rule synthesized for variant `v` recognizes the value `val`:
/// the value must carry `v`'s name, and its contents must have the shape
/// the rule's pattern requires. A named-field rule (`{ .. }`) accepts any
/// named contents; an unnamed-field rule accepts exactly as many positional
/// slots as its arity; the bare rule accepts a value without fields — or,
/// the degenerate shape-equivalent case, with an empty unnamed list. No
/// rule reads a field's content.
pub open spec fn rule_matches(v: Variant, val: EnumValue) -> bool {
    &&& val.variant@ == v.ident@
    &&& match val.contents {
        FieldContents::Unit => !v.has_named_fields && v.unit_field_count == 0,
        FieldContents::Unnamed(fs) => !v.has_named_fields && fs@.len() == v.unit_field_count,
        FieldContents::Named(_) => v.has_named_fields,
    }
}

/// The index of the first rule at or after position `i` that recognizes
/// `val`, if any.
pub open spec fn spec_ordinal_from(vs: Seq<Variant>, val: EnumValue, i: int) -> Option<int>
    decreases vs.len() - i,
{
    if i < 0 || i >= vs.len() {
        None
    } else if rule_matches(vs[i], val) {
        Some(i)
    } else {
        spec_ordinal_from(vs, val, i + 1)
    }
}

/// The result of the generated method on `val`: the ordinal of the first
/// rule, in declaration order, that recognizes it — `None` when no rule
/// does, which never happens for a value of the declared type.
pub open spec fn spec_ordinal(vs: Seq<Variant>, val: EnumValue) -> Option<int> {
    spec_ordinal_from(vs, val, 0)
}

/// Runs the synthesized rules in declaration order against `val`, as the
/// generated method does, and returns the ordinal paired with the first
/// rule that recognizes it.
pub fn ordinal(variants: &Vec<Variant>, value: &EnumValue) -> (r: Option<usize>)
    ensures
        match r {
            Some(k) => spec_ordinal(variants@, *value) == Some(k as int),
            None => spec_ordinal(variants@, *value) is None,
        },
{
    let mut i: usize = 0;
    while i < variants.len()
        invariant
            i <= variants.len(),
            spec_ordinal(variants@, *value) == spec_ordinal_from(variants@, *value, i as int),
        decreases variants.len() - i,
    {
        let v = &variants[i];
        let tag_matches = value.variant == v.ident;
        let shape_matches = match &value.contents {
            FieldContents::Unit => !v.has_named_fields && v.unit_field_count == 0,
            FieldContents::Unnamed(fs) => !v.has_named_fields && fs.len() == v.unit_field_count,
            FieldContents::Named(_) => v.has_named_fields,
        };
        if tag_matches && shape_matches {
            return Some(i);
        }
        i = i + 1;
    }
    None
}

/// Names are distinct: no two variants of the declaration share one.
pub open spec fn distinct_idents(vs: Seq<Variant>) -> bool {
    forall|i: int, j: int|
        0 <= i < vs.len() && 0 <= j < vs.len() && i != j ==> vs[i].ident@ != vs[j].ident@
}

proof fn lemma_only_match_found(vs: Seq<Variant>, val: EnumValue, i: int, k: int)
    requires
        0 <= i < vs.len(),
        rule_matches(vs[i], val),
        forall|j: int| 0 <= j < vs.len() && j != i ==> !rule_matches(vs[j], val),
        0 <= k <= i,
    ensures
        spec_ordinal_from(vs, val, k) == Some(i),
    decreases i - k,
{
    if k < i {
        lemma_only_match_found(vs, val, i, k + 1);
    }
}

/// Law of the ordinal assignment: in a declaration whose variant names are
/// distinct, any value constructed as the variant standing at position `i`
/// — whatever its field contents — takes ordinal `i`, the variant's
/// zero-based position in declaration order.
pub proof fn lemma_value_takes_declared_position(vs: Seq<Variant>, val: EnumValue, i: int)
    requires
        distinct_idents(vs),
        0 <= i < vs.len(),
        rule_matches(vs[i], val),
    ensures
        spec_ordinal(vs, val) == Some(i),
{
    assert forall|j: int| 0 <= j < vs.len() && j != i implies !rule_matches(vs[j], val) by {
        if rule_matches(vs[j], val) {
            assert(vs[j].ident@ == val.variant@);
        }
    }
    lemma_only_match_found(vs, val, i, 0);
}

/// The field contents of two values present the same shape to a rule: both
/// are field-free, both are positional lists of one length, or both are
/// named lists. Contents may differ freely within that shape.
pub open spec fn same_shape(c1: FieldContents, c2: FieldContents) -> bool {
    match (c1, c2) {
        (FieldContents::Unit, FieldContents::Unit) => true,
        (FieldContents::Unnamed(f1), FieldContents::Unnamed(f2)) => f1@.len() == f2@.len(),
        (FieldContents::Named(_), FieldContents::Named(_)) => true,
        _ => false,
    }
}

proof fn lemma_rules_ignore_contents(vs: Seq<Variant>, v1: EnumValue, v2: EnumValue, i: int)
    requires
        v1.variant@ == v2.variant@,
        same_shape(v1.contents, v2.contents),
        0 <= i <= vs.len(),
    ensures
        spec_ordinal_from(vs, v1, i) == spec_ordinal_from(vs, v2, i),
    decreases vs.len() - i,
{
    if i < vs.len() {
        lemma_rules_ignore_contents(vs, v1, v2, i + 1);
    }
}

/// Law of field-value invariance: two values of the same variant — same
/// name, same field-list shape — take the same ordinal, however their
/// field contents differ.
pub proof fn lemma_ordinal_ignores_field_values(vs: Seq<Variant>, v1: EnumValue, v2: EnumValue)
    requires
        v1.variant@ == v2.variant@,
        same_shape(v1.contents, v2.contents),
    ensures
        spec_ordinal(vs, v1) == spec_ordinal(vs, v2),
{
    lemma_rules_ignore_contents(vs, v1, v2, 0);
}

/// Law of field-arity invariance: changing the field count of an
/// unnamed-field variant changes nothing but the arity of that variant's
/// own rule. Where two declarations agree except in the unnamed-field
/// count of the variant at position `i`, every other variant's arm is
/// rendered identically, and a value of the changed variant takes the same
/// ordinal `i` under both.
pub proof fn lemma_arity_change_keeps_ordinals(
    name: Seq<char>,
    vs1: Seq<Variant>,
    vs2: Seq<Variant>,
    v1: EnumValue,
    v2: EnumValue,
    i: int,
)
    requires
        distinct_idents(vs1),
        distinct_idents(vs2),
        vs1.len() == vs2.len(),
        0 <= i < vs1.len(),
        forall|j: int| 0 <= j < vs1.len() && j != i ==> vs1[j] == vs2[j],
        vs1[i].ident@ == vs2[i].ident@,
        !vs1[i].has_named_fields,
        !vs2[i].has_named_fields,
        rule_matches(vs1[i], v1),
        rule_matches(vs2[i], v2),
    ensures
        spec_ordinal(vs1, v1) == Some(i),
        spec_ordinal(vs2, v2) == Some(i),
        forall|j: int|
            0 <= j < vs1.len() && j != i ==> spec_arm(name, vs2[j], j as nat) == spec_arm(
                name,
                vs1[j],
                j as nat,
            ),
{
    lemma_value_takes_declared_position(vs1, v1, i);
    lemma_value_takes_declared_position(vs2, v2, i);
}

/// Law of declaration-order sensitivity: the ordinal of a variant is its
/// position in the current declaration order, and nothing else. Where one
/// and the same variant stands at position `i` in one declaration and at
/// position `k` in a reordering of it, its values take ordinal `i` under
/// the first and ordinal `k` under the second.
pub proof fn lemma_reordering_follows_new_order(
    vs1: Seq<Variant>,
    vs2: Seq<Variant>,
    val: EnumValue,
    i: int,
    k: int,
)
    requires
        distinct_idents(vs1),
        distinct_idents(vs2),
        0 <= i < vs1.len(),
        0 <= k < vs2.len(),
        vs1[i] == vs2[k],
        rule_matches(vs1[i], val),
    ensures
        spec_ordinal(vs1, val) == Some(i),
        spec_ordinal(vs2, val) == Some(k),
{
    lemma_value_takes_declared_position(vs1, val, i);
    lemma_value_takes_declared_position(vs2, val, k);
}

} // verus!
