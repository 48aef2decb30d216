//! The attribute resolver.
//!
//! Annotations reach the library as raw `(path, entries)` pairs: a path names
//! the annotation's namespace and each entry is one `key = identifier` pair.
//! Only annotations whose path is exactly the fixed namespace `matcher` are
//! recognized; all others are ignored. Within the namespace the recognized
//! keys are `matcher_name` (valid on the union) and `builder_name` (valid on
//! a variant); anything else is an `UnknownAttribute` error.

use vstd::prelude::*;

use crate::error::DeriveError;
use crate::names::str_eq;

verus! {

/// One segment of an annotation path.
pub struct PathSegment {
    pub ident: String,
    /// Whether the segment carries generic or parenthesized arguments.
    pub has_arguments: bool,
}

/// An annotation path, as the host syntax presents it.
pub struct RawPath {
    pub leading_colon: bool,
    pub segments: Vec<PathSegment>,
}

/// One `key = identifier` pair inside an annotation, with the key's source
/// location.
pub struct AttrEntry {
    pub key: String,
    pub value: String,
    pub span: u64,
}

/// One raw annotation attached to the union or to a variant.
pub struct RawAttr {
    pub path: RawPath,
    pub entries: Vec<AttrEntry>,
}

/// True exactly when the path is the bare fixed namespace: no leading
/// separator, a single segment named `matcher`, and no arguments on it.
pub open spec fn is_matcher_path(p: RawPath) -> bool {
    &&& !p.leading_colon
    &&& p.segments@.len() == 1
    &&& p.segments@[0].ident@ == "matcher"@
    &&& !p.segments@[0].has_arguments
}

/// True if the path is exactly `matcher`.
pub fn matches_path(p: &RawPath) -> (r: bool)
    ensures
        r == is_matcher_path(*p),
{
    if p.leading_colon {
        false
    } else if p.segments.len() != 1 {
        false
    } else if p.segments[0].has_arguments {
        false
    } else {
        str_eq(p.segments[0].ident.as_str(), "matcher")
    }
}

/// The recognized-namespace entries of an annotation sequence, in order.
pub open spec fn matcher_entries(attrs: Seq<RawAttr>) -> Seq<AttrEntry>
    decreases attrs.len(),
{
    if attrs.len() == 0 {
        Seq::empty()
    } else {
        (if is_matcher_path(attrs[0].path) {
            attrs[0].entries@
        } else {
            Seq::empty()
        }) + matcher_entries(attrs.drop_first())
    }
}

proof fn lemma_matcher_entries_push(attrs: Seq<RawAttr>, a: RawAttr)
    ensures
        matcher_entries(attrs.push(a)) == matcher_entries(attrs) + (if is_matcher_path(a.path) {
            a.entries@
        } else {
            Seq::<AttrEntry>::empty()
        }),
    decreases attrs.len(),
{
    if attrs.len() == 0 {
        assert(attrs.push(a).drop_first() =~= attrs);
        assert(attrs.push(a)[0] == a);
        assert(matcher_entries(attrs) =~= Seq::<AttrEntry>::empty());
        assert(matcher_entries(attrs.push(a)) =~= matcher_entries(attrs) + (if is_matcher_path(
            a.path,
        ) {
            a.entries@
        } else {
            Seq::<AttrEntry>::empty()
        }));
    } else {
        assert(attrs.push(a).drop_first() =~= attrs.drop_first().push(a));
        lemma_matcher_entries_push(attrs.drop_first(), a);
        assert(matcher_entries(attrs.push(a)) =~= matcher_entries(attrs) + (if is_matcher_path(
            a.path,
        ) {
            a.entries@
        } else {
            Seq::<AttrEntry>::empty()
        }));
    }
}

/// Go through a set of raw annotations and flatten the recognized-namespace
/// ones into their entries, in order.
pub fn process_attrs(attrs: &Vec<RawAttr>) -> (r: Vec<AttrEntry>)
    ensures
        r@ == matcher_entries(attrs@),
{
    let mut out: Vec<AttrEntry> = Vec::new();
    let n = attrs.len();
    assert(attrs@.take(0) =~= Seq::<RawAttr>::empty());
    for i in 0..n
        invariant
            n == attrs@.len(),
            out@ == matcher_entries(attrs@.take(i as int)),
    {
        let a = &attrs[i];
        if matches_path(&a.path) {
            let m = a.entries.len();
            let ghost out0 = out@;
            for j in 0..m
                invariant
                    m == a.entries@.len(),
                    out@ == out0 + a.entries@.take(j as int),
            {
                let e = &a.entries[j];
                out.push(AttrEntry { key: e.key.clone(), value: e.value.clone(), span: e.span });
                assert(a.entries@.take(j + 1) =~= a.entries@.take(j as int).push(
                    a.entries@[j as int],
                ));
                assert(out@ =~= out0 + a.entries@.take(j + 1));
            }
            assert(a.entries@.take(m as int) =~= a.entries@);
        }
        proof {
            lemma_matcher_entries_push(attrs@.take(i as int), attrs@[i as int]);
            assert(attrs@.take(i + 1) =~= attrs@.take(i as int).push(attrs@[i as int]));
        }
    }
    proof {
        assert(attrs@.take(n as int) =~= attrs@);
    }
    out
}

/// A recognized annotation: which key it was, the identifier it names, and
/// the key's source location for error reporting.
pub enum MatcherAttr {
    MatcherName(String, u64),
    BuilderName(String, u64),
}

/// What parsing one recognized-namespace entry yields.
pub open spec fn parse_entry_spec(e: AttrEntry) -> Result<MatcherAttr, DeriveError> {
    if e.key@ == "builder_name"@ {
        Ok(MatcherAttr::BuilderName(e.value, e.span))
    } else if e.key@ == "matcher_name"@ {
        Ok(MatcherAttr::MatcherName(e.value, e.span))
    } else {
        Err(DeriveError::UnknownAttribute { key: e.key, span: e.span })
    }
}

impl MatcherAttr {
    /// Reads one `key = identifier` entry of the recognized namespace.
    pub fn parse(e: &AttrEntry) -> (r: Result<MatcherAttr, DeriveError>)
        ensures
            r == parse_entry_spec(*e),
    {
        if str_eq(e.key.as_str(), "builder_name") {
            Ok(MatcherAttr::BuilderName(e.value.clone(), e.span))
        } else if str_eq(e.key.as_str(), "matcher_name") {
            Ok(MatcherAttr::MatcherName(e.value.clone(), e.span))
        } else {
            Err(DeriveError::UnknownAttribute { key: e.key.clone(), span: e.span })
        }
    }
}

/// Folds the union's recognized entries in order: the last `matcher_name`
/// wins; a `builder_name` is misplaced on the union; an unknown key fails.
pub open spec fn union_overrides_from(es: Seq<AttrEntry>, acc: Option<String>) -> Result<
    Option<String>,
    DeriveError,
>
    decreases es.len(),
{
    if es.len() == 0 {
        Ok(acc)
    } else {
        match parse_entry_spec(es[0]) {
            Err(e) => Err(e),
            Ok(MatcherAttr::BuilderName(_, sp)) => Err(DeriveError::MisplacedAttribute { span: sp }),
            Ok(MatcherAttr::MatcherName(v, _)) => union_overrides_from(es.drop_first(), Some(v)),
        }
    }
}

/// The union's resolved `matcher_name` override, or the first error.
pub open spec fn union_overrides(es: Seq<AttrEntry>) -> Result<Option<String>, DeriveError> {
    union_overrides_from(es, None)
}

/// Folds a variant's recognized entries in order: the last `builder_name`
/// wins; a `matcher_name` is misplaced on a variant; an unknown key fails.
pub open spec fn variant_overrides_from(es: Seq<AttrEntry>, acc: Option<String>) -> Result<
    Option<String>,
    DeriveError,
>
    decreases es.len(),
{
    if es.len() == 0 {
        Ok(acc)
    } else {
        match parse_entry_spec(es[0]) {
            Err(e) => Err(e),
            Ok(MatcherAttr::MatcherName(_, sp)) => Err(DeriveError::MisplacedAttribute { span: sp }),
            Ok(MatcherAttr::BuilderName(v, _)) => variant_overrides_from(es.drop_first(), Some(v)),
        }
    }
}

/// A variant's resolved `builder_name` override, or the first error.
pub open spec fn variant_overrides(es: Seq<AttrEntry>) -> Result<Option<String>, DeriveError> {
    variant_overrides_from(es, None)
}

/// The recognized annotations of one variant.
pub struct VariantAttrs {
    /// The name of the builder method that installs the variant's child.
    pub builder_name: Option<String>,
}

impl VariantAttrs {
    /// Resolves a variant's annotations: yields its `builder_name` override,
    /// if any, or the first error in the annotation stream.
    pub fn parse(input: &Vec<RawAttr>) -> (r: Result<VariantAttrs, DeriveError>)
        ensures
            (match r {
                Ok(va) => variant_overrides(matcher_entries(input@)) == Result::<
                    Option<String>,
                    DeriveError,
                >::Ok(va.builder_name),
                Err(e) => variant_overrides(matcher_entries(input@)) == Result::<
                    Option<String>,
                    DeriveError,
                >::Err(e),
            }),
    {
        let entries = process_attrs(input);
        let mut acc: Option<String> = None;
        let n = entries.len();
        assert(entries@.skip(0) =~= entries@);
        for k in 0..n
            invariant
                n == entries@.len(),
                variant_overrides(matcher_entries(input@)) == variant_overrides_from(
                    entries@.skip(k as int),
                    acc,
                ),
        {
            assert(entries@.skip(k as int)[0] == entries@[k as int]);
            assert(entries@.skip(k as int).drop_first() =~= entries@.skip(k + 1));
            match MatcherAttr::parse(&entries[k]) {
                Err(e) => {
                    return Err(e);
                },
                Ok(MatcherAttr::MatcherName(_, sp)) => {
                    return Err(DeriveError::MisplacedAttribute { span: sp });
                },
                Ok(MatcherAttr::BuilderName(v, _)) => {
                    acc = Some(v);
                },
            }
        }
        assert(entries@.skip(n as int) =~= Seq::<AttrEntry>::empty());
        Ok(VariantAttrs { builder_name: acc })
    }
}

} // verus!
