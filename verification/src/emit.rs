//! The method emitter: assembles the synthesized arms into the source text
//! of one method implementation block for the declared type.
//!
//! The emitted routine takes a read-only reference to a value of the type
//! and returns, as an unsigned integer, the ordinal of the one rule that
//! matches it. The rules cover every declared variant, so no fallback arm
//! is emitted.

use vstd::prelude::*;

use crate::arms::generate_match_arms;
use crate::arms::spec_arm;
use crate::decl::OrdinalError;
use crate::decl::TypeBody;
use crate::decl::TypeDecl;
use crate::decl::Variant;
use crate::decl::detect_variants;
use crate::decl::spec_detect_variants;

verus! {

/// The text that precedes the arms of the generated method.
pub open spec fn spec_method_header(name: Seq<char>) -> Seq<char> {
    "impl "@ + name + " { pub fn ordinal(&self) -> usize { match self { "@
}

/// The arm block of the generated method: the first `k` arms in order,
/// each followed by a comma separator.
pub open spec fn spec_arm_block(name: Seq<char>, vs: Seq<Variant>, k: int) -> Seq<char>
    decreases k,
{
    if k <= 0 {
        Seq::empty()
    } else {
        spec_arm_block(name, vs, k - 1) + spec_arm(name, vs[k - 1], (k - 1) as nat) + ", "@
    }
}

/// The full text of the generated method for a declaration named `name`
/// whose collected variants are `vs`.
pub open spec fn spec_method(name: Seq<char>, vs: Seq<Variant>) -> Seq<char> {
    spec_method_header(name) + spec_arm_block(name, vs, vs.len() as int) + "} } }"@
}

/// The whole transform: collects the variants of `input`, synthesizes one
/// arm per variant, and emits the method implementation block as source
/// text.
///
/// Returns the transform's one error — and emits nothing — exactly when
/// `input` is not a variant-based type declaration.
pub fn derive_ordinal(input: &TypeDecl) -> (r: Result<String, OrdinalError>)
    ensures
        match input.body {
            TypeBody::Variants(decls) => r matches Ok(s) && s@ == spec_method(
                input.name@,
                spec_detect_variants(decls@),
            ),
            _ => r === Err(OrdinalError::NotVariantBased),
        },
{
    let variants = match detect_variants(input) {
        Ok(variants) => variants,
        Err(e) => {
            return Err(e);
        },
    };
    let match_arms = generate_match_arms(&variants, input);
    let mut tokens = String::from_str("impl ");
    tokens.append(input.name.as_str());
    tokens.append(" { pub fn ordinal(&self) -> usize { match self { ");
    let mut i: usize = 0;
    while i < match_arms.len()
        invariant
            i <= match_arms.len(),
            match_arms@.len() == variants@.len(),
            forall|j: int|
                0 <= j < variants@.len() ==> match_arms@[j]@ == spec_arm(
                    input.name@,
                    variants@[j],
                    j as nat,
                ),
            tokens@ =~= spec_method_header(input.name@) + spec_arm_block(
                input.name@,
                variants@,
                i as int,
            ),
        decreases match_arms.len() - i,
    {
        tokens.append(match_arms[i].as_str());
        tokens.append(", ");
        proof {
            assert(tokens@ =~= spec_method_header(input.name@) + spec_arm_block(
                input.name@,
                variants@,
                i as int + 1,
            ));
        }
        i = i + 1;
    }
    tokens.append("} } }");
    proof {
        assert(tokens@ =~= spec_method(input.name@, variants@));
    }
    Ok(tokens)
}

} // verus!
