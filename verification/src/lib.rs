//! Derives a dispatcher component for a tagged union of application states.
//!
//! The library is the analysis and synthesis core: it validates a structural
//! view of an annotated union (`parse`), resolves the dispatcher and accessor
//! names (`names`), and drives the synthesized dispatcher's routing state
//! machine (`matcher`).

use vstd::prelude::*;

pub mod attrs;
pub mod error;
pub mod matcher;
pub mod names;
pub mod parse;

use crate::error::DeriveError;
use crate::matcher::MatcherBlueprint;
use crate::parse::{lemma_no_collisions, lemma_resolved_matches, lemma_variants_clean};
use crate::parse::{parse_err_spec, parse_ok, raw_resolved, union_override, union_variants};
use crate::parse::{variant_payload, variant_shape_ok, MatcherDerive, RawTypeDef};

verus! {

/// The blueprint carries over the input: the dispatcher name resolved from
/// the override or the union's name, one accessor name and payload type per
/// variant in order, and pairwise distinct accessors.
pub open spec fn blueprint_corresponds(input: RawTypeDef, bp: MatcherBlueprint) -> bool {
    let vs = union_variants(input);
    &&& bp.enum_name == input.name
    &&& bp.matcher_name@ == (match union_override(input) {
        Some(n) => n@,
        None => input.name@ + "Matcher"@,
    })
    &&& bp.builder_names@.len() == vs.len()
    &&& bp.payload_types@.len() == vs.len()
    &&& forall|i: int|
        0 <= i < vs.len() ==> (#[trigger] bp.builder_names@[i])@ == raw_resolved(vs[i])
    &&& forall|i: int|
        0 <= i < vs.len() && variant_shape_ok(vs[i]) ==> #[trigger] bp.payload_types@[i]
            == variant_payload(vs[i])
    &&& bp.wf()
}

/// Derives the dispatcher blueprint for an annotated union: descriptor
/// extraction, name resolution and the builder table, or the first error.
pub fn derive(input: &RawTypeDef) -> (r: Result<MatcherBlueprint, DeriveError>)
    ensures
        r is Ok <==> parse_ok(*input),
        r matches Ok(bp) ==> blueprint_corresponds(*input, bp),
        r matches Err(e) ==> parse_err_spec(*input, e),
{
    let d = match MatcherDerive::parse(input) {
        Ok(d) => d,
        Err(e) => {
            return Err(e);
        },
    };
    let matcher_name = d.resolve_matcher_name();
    let mut builder_names: Vec<String> = Vec::new();
    let mut payload_types: Vec<String> = Vec::new();
    let n = d.variants.len();
    for i in 0..n
        invariant
            n == d.variants@.len(),
            builder_names@.len() == i,
            payload_types@.len() == i,
            forall|k: int|
                0 <= k < i ==> (#[trigger] builder_names@[k])@ == d.variants@[k].resolved_builder_name_spec(),
            forall|k: int| 0 <= k < i ==> #[trigger] payload_types@[k] == d.variants@[k].field,
    {
        let bn = d.variants[i].resolve_builder_name();
        builder_names.push(bn);
        payload_types.push(d.variants[i].field.clone());
    }
    proof {
        let vs = union_variants(*input);
        assert forall|i: int| 0 <= i < vs.len() implies (#[trigger] builder_names@[i])@
            == raw_resolved(vs[i]) by {
            lemma_variants_clean(vs, 0, i);
            lemma_resolved_matches(vs[i], d.variants@[i]);
        }
        assert forall|i: int, j: int|
            0 <= i < j < builder_names@.len() implies (#[trigger] builder_names@[i])@ != (
        #[trigger] builder_names@[j])@ by {
            lemma_no_collisions(vs, 0, j);
            if builder_names@[i]@ == builder_names@[j]@ {
                assert(raw_resolved(vs[i]) == raw_resolved(vs[j]));
                assert(crate::parse::dup_with_earlier(vs, j));
            }
        }
    }
    Ok(
        MatcherBlueprint {
            matcher_name,
            enum_name: d.enum_name.clone(),
            builder_names,
            payload_types,
        },
    )
}

} // verus!
