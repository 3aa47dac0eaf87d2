//! The arm synthesizer: one matching rule per collected variant.
//!
//! Each rule is rendered as the source text of a match arm,
//! `Type::Variant... => ordinal`, whose pattern recognizes any value
//! constructed as that variant regardless of field contents, and whose
//! right-hand side is the variant's zero-based position in declaration
//! order, written in decimal.

use vstd::prelude::*;

use crate::decl::TypeDecl;
use crate::decl::Variant;

verus! {

/// The decimal digit character for `d` (meaningful for `d < 10`).
pub open spec fn spec_digit_char(d: nat) -> char {
    if d == 0 {
        '0'
    } else if d == 1 {
        '1'
    } else if d == 2 {
        '2'
    } else if d == 3 {
        '3'
    } else if d == 4 {
        '4'
    } else if d == 5 {
        '5'
    } else if d == 6 {
        '6'
    } else if d == 7 {
        '7'
    } else if d == 8 {
        '8'
    } else {
        '9'
    }
}

/// The decimal rendering of `n`: most significant digit first, no leading
/// zeros (a single `'0'` for zero).
pub open spec fn spec_decimal(n: nat) -> Seq<char>
    decreases n,
{
    if n < 10 {
        seq![spec_digit_char(n)]
    } else {
        spec_decimal(n / 10) + seq![spec_digit_char(n % 10)]
    }
}

/// A one-character string holding the decimal digit for `d`.
fn digit_string(d: usize) -> (r: String)
    requires
        d < 10,
    ensures
        r@ == seq![spec_digit_char(d as nat)],
{
    let s = match d {
        0 => "0",
        1 => "1",
        2 => "2",
        3 => "3",
        4 => "4",
        5 => "5",
        6 => "6",
        7 => "7",
        8 => "8",
        _ => "9",
    };
    proof {
        reveal_strlit("0");
        reveal_strlit("1");
        reveal_strlit("2");
        reveal_strlit("3");
        reveal_strlit("4");
        reveal_strlit("5");
        reveal_strlit("6");
        reveal_strlit("7");
        reveal_strlit("8");
        reveal_strlit("9");
    }
    String::from_str(s)
}

/// Renders `n` in decimal.
fn decimal_string(n: usize) -> (r: String)
    ensures
        r@ == spec_decimal(n as nat),
    decreases n,
{
    if n < 10 {
        digit_string(n)
    } else {
        let mut s = decimal_string(n / 10);
        let last = digit_string(n % 10);
        s.append(last.as_str());
        s
    }
}

/// The wildcard slot list of an unnamed-field pattern with `n` slots:
/// `_, _, ..., _` (empty for `n == 0`).
pub open spec fn spec_underscores(n: nat) -> Seq<char>
    decreases n,
{
    if n == 0 {
        Seq::empty()
    } else if n == 1 {
        "_"@
    } else {
        spec_underscores((n - 1) as nat) + ", _"@
    }
}

/// Renders `n` wildcard slots, comma-separated.
fn underscores(n: usize) -> (r: String)
    ensures
        r@ == spec_underscores(n as nat),
{
    let mut s = String::new();
    let mut i: usize = 0;
    while i < n
        invariant
            i <= n,
            s@ == spec_underscores(i as nat),
        decreases n - i,
    {
        if i == 0 {
            s.append("_");
        } else {
            s.append(", _");
        }
        proof {
            assert(s@ =~= spec_underscores(i as nat + 1));
        }
        i = i + 1;
    }
    s
}

/// The pattern text of a variant's rule. All three shapes mention the type
/// and variant names only:
/// named fields are matched with a `{ .. }` rest pattern (field identities
/// were discarded by the collector), an unnamed-field list of length `n > 0`
/// with `n` wildcard slots, and a variant without fields — or with an empty
/// unnamed-field list, the degenerate shape-equivalent case — as the bare
/// variant path.
pub open spec fn spec_pattern(enum_name: Seq<char>, v: Variant) -> Seq<char> {
    let base = enum_name + "::"@ + v.ident@;
    if v.has_named_fields {
        base + " { .. }"@
    } else if v.unit_field_count > 0 {
        base + "("@ + spec_underscores(v.unit_field_count as nat) + ")"@
    } else {
        base
    }
}

/// The full arm text for a variant standing at position `ordinal`:
/// its pattern, then `=>`, then the ordinal in decimal.
pub open spec fn spec_arm(enum_name: Seq<char>, v: Variant, ordinal: nat) -> Seq<char> {
    spec_pattern(enum_name, v) + " => "@ + spec_decimal(ordinal)
}

/// Renders the pattern of one variant's rule.
fn pattern(enum_name: &String, variant: &Variant) -> (r: String)
    ensures
        r@ == spec_pattern(enum_name@, *variant),
{
    let mut s = enum_name.clone();
    s.append("::");
    s.append(variant.ident.as_str());
    if variant.has_named_fields {
        s.append(" { .. }");
    } else if variant.unit_field_count > 0 {
        s.append("(");
        let slots = underscores(variant.unit_field_count);
        s.append(slots.as_str());
        s.append(")");
    }
    s
}

/// Synthesizes one match arm per collected variant, in order. The `i`-th
/// variant of the declaration gets ordinal `i`: the pairing depends on the
/// position alone, never on the variant's name or shape.
pub fn generate_match_arms(variants: &Vec<Variant>, input: &TypeDecl) -> (r: Vec<String>)
    ensures
        r@.len() == variants@.len(),
        forall|i: int|
            0 <= i < variants@.len() ==> r@[i]@ == spec_arm(input.name@, variants@[i], i as nat),
{
    let mut vec: Vec<String> = Vec::new();
    let mut ordinal: usize = 0;
    while ordinal < variants.len()
        invariant
            ordinal <= variants.len(),
            vec@.len() == ordinal,
            forall|i: int|
                0 <= i < ordinal ==> vec@[i]@ == spec_arm(input.name@, variants@[i], i as nat),
        decreases variants.len() - ordinal,
    {
        let mut arm = pattern(&input.name, &variants[ordinal]);
        arm.append(" => ");
        let num = decimal_string(ordinal);
        arm.append(num.as_str());
        vec.push(arm);
        ordinal = ordinal + 1;
    }
    vec
}

} // verus!
