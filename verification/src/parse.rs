//! Descriptor extraction.
//!
//! The input is a structural view of an annotated type definition: its name,
//! its raw annotations, and its data shape (tagged union, product type, or
//! untagged byte-union), each variant with its tag, annotations, fields and
//! source location. Extraction validates the shape — only tagged unions whose
//! variants each carry exactly one unnamed payload field are accepted —
//! resolves the naming annotations, rejects colliding accessor names, and
//! yields the normalized descriptor.
//!
//! Checks run fail-fast, in a fixed order: the data shape of the whole type,
//! the union's own annotations, then each variant in order (its field shape,
//! then its annotations), and finally accessor-name collisions.

use vstd::prelude::*;

use crate::attrs::{matcher_entries, AttrEntry, MatcherAttr, RawAttr, VariantAttrs};
use crate::attrs::{process_attrs, union_overrides, union_overrides_from, variant_overrides};
use crate::error::DeriveError;
use crate::names::{snake_of, snakify, str_eq};
use vstd::string::StringExecFns;

verus! {

/// The fields of one variant, as the host syntax presents them.
pub enum RawFields {
    /// No fields at all.
    Unit,
    /// Positional fields, each a payload type reference.
    Unnamed(Vec<String>),
    /// Record-style fields; only their number matters, they are rejected.
    Named(u64),
}

/// The structural view of one variant of the union.
pub struct RawVariant {
    /// The variant's tag identifier.
    pub name: String,
    /// The source location of the tag.
    pub span: u64,
    /// The raw annotations attached to the variant.
    pub attrs: Vec<RawAttr>,
    /// The variant's fields.
    pub fields: RawFields,
}

/// The data shape of the type definition.
pub enum RawData {
    /// A tagged union with its variants in declaration order.
    Union(Vec<RawVariant>),
    /// A product type (struct), with the location of its introducing keyword.
    Product { span: u64 },
    /// An untagged byte-union, with the location of its introducing keyword.
    Untagged { span: u64 },
}

/// The structural view of the annotated type definition.
pub struct RawTypeDef {
    /// The type's name.
    pub name: String,
    /// The source location of the type's name.
    pub span: u64,
    /// Whether the type declares generic parameters. Recorded but not
    /// interpreted: parametric unions are unsupported.
    pub generics: bool,
    /// The raw annotations attached to the type itself.
    pub attrs: Vec<RawAttr>,
    /// The data shape.
    pub data: RawData,
}

/// The normalized descriptor of one variant.
pub struct MatcherVariant {
    /// The accessor-name override from a `builder_name` annotation, if any.
    pub builder_name: Option<String>,
    /// The variant's tag.
    pub name: String,
    /// The payload type of the variant's single field.
    pub field: String,
    /// The source location of the tag.
    pub span: u64,
}

/// The normalized descriptor of the whole union.
pub struct MatcherDerive {
    /// The union's name.
    pub enum_name: String,
    /// The dispatcher-name override from a `matcher_name` annotation, if any.
    pub matcher_name: Option<String>,
    /// Whether the union declares generic parameters (recorded, unsupported).
    pub generics: bool,
    /// The variants, in declaration order; non-empty, with pairwise distinct
    /// resolved accessor names.
    pub variants: Vec<MatcherVariant>,
}

/// Yields the single element of a one-element vector, and nothing otherwise.
pub fn iter_get_one<T>(v: &Vec<T>) -> (r: Option<&T>)
    ensures
        v@.len() == 1 ==> (r matches Some(x) && *x == v@[0]),
        v@.len() != 1 ==> r is None,
{
    if v.len() == 1 {
        Some(&v[0])
    } else {
        None
    }
}

/// A variant has the accepted shape: exactly one unnamed payload field.
pub open spec fn variant_shape_ok(v: RawVariant) -> bool {
    v.fields matches RawFields::Unnamed(tys) && tys@.len() == 1
}

/// The payload type of a well-shaped variant.
pub open spec fn variant_payload(v: RawVariant) -> String
    recommends
        variant_shape_ok(v),
{
    v.fields->Unnamed_0@[0]
}

/// The first error a variant yields: its field shape, then its annotations.
pub open spec fn variant_error(v: RawVariant) -> Option<DeriveError> {
    if !variant_shape_ok(v) {
        Some(DeriveError::InvalidVariantShape { span: v.span })
    } else {
        match variant_overrides(matcher_entries(v.attrs@)) {
            Err(e) => Some(e),
            Ok(_) => None,
        }
    }
}

/// The `builder_name` override of a variant whose annotations are clean.
pub open spec fn variant_override(v: RawVariant) -> Option<String>
    recommends
        variant_error(v) is None,
{
    variant_overrides(matcher_entries(v.attrs@))->Ok_0
}

/// The accessor name a clean variant resolves to: its override if present,
/// else the snake-cased tag.
pub open spec fn raw_resolved(v: RawVariant) -> Seq<char> {
    match variant_overrides(matcher_entries(v.attrs@)) {
        Ok(Some(n)) => n@,
        _ => snake_of(v.name@),
    }
}

/// The first erroneous variant at or after position `k`, scanning in order.
pub open spec fn first_variant_error_from(vs: Seq<RawVariant>, k: int) -> Option<DeriveError>
    decreases vs.len() - k,
{
    if k < 0 || k >= vs.len() {
        None
    } else {
        match variant_error(vs[k]) {
            Some(e) => Some(e),
            None => first_variant_error_from(vs, k + 1),
        }
    }
}

/// The first erroneous variant, scanning in order.
pub open spec fn first_variant_error(vs: Seq<RawVariant>) -> Option<DeriveError> {
    first_variant_error_from(vs, 0)
}

/// Position `j` resolves to the same accessor name as some earlier variant.
pub open spec fn dup_with_earlier(vs: Seq<RawVariant>, j: int) -> bool {
    exists|i: int| 0 <= i < j && raw_resolved(vs[i]) == raw_resolved(vs[j])
}

/// The first position at or after `j` that collides with an earlier one.
pub open spec fn first_dup_from(vs: Seq<RawVariant>, j: int) -> Option<int>
    decreases vs.len() - j,
{
    if j < 0 || j >= vs.len() {
        None
    } else if dup_with_earlier(vs, j) {
        Some(j)
    } else {
        first_dup_from(vs, j + 1)
    }
}

/// The first accessor-name collision, scanning in order.
pub open spec fn first_dup(vs: Seq<RawVariant>) -> Option<int> {
    first_dup_from(vs, 0)
}

/// The error of the data-shape stage: the input must be a tagged union with
/// at least one variant.
pub open spec fn data_error(input: RawTypeDef) -> Option<DeriveError> {
    match input.data {
        RawData::Product { span } => Some(DeriveError::NotAUnion { span }),
        RawData::Untagged { span } => Some(DeriveError::NotAUnion { span }),
        RawData::Union(vs) => if vs@.len() == 0 {
            Some(DeriveError::NotAUnion { span: input.span })
        } else {
            None
        },
    }
}

/// The variants of a union-shaped input.
pub open spec fn union_variants(input: RawTypeDef) -> Seq<RawVariant>
    recommends
        input.data is Union,
{
    input.data->Union_0@
}

/// The error of the union-annotation stage, if any.
pub open spec fn union_attr_error(input: RawTypeDef) -> Option<DeriveError> {
    match union_overrides(matcher_entries(input.attrs@)) {
        Err(e) => Some(e),
        Ok(_) => None,
    }
}

/// The `matcher_name` override of a union whose annotations are clean.
pub open spec fn union_override(input: RawTypeDef) -> Option<String>
    recommends
        union_attr_error(input) is None,
{
    union_overrides(matcher_entries(input.attrs@))->Ok_0
}

/// Extraction succeeds exactly when every stage is clean.
pub open spec fn parse_ok(input: RawTypeDef) -> bool {
    &&& data_error(input) is None
    &&& union_attr_error(input) is None
    &&& first_variant_error(union_variants(input)) is None
    &&& first_dup(union_variants(input)) is None
}

/// The error extraction reports: the first failing stage wins, and within the
/// variant stage the first failing variant.
pub open spec fn parse_err_spec(input: RawTypeDef, e: DeriveError) -> bool {
    if data_error(input) is Some {
        Some(e) == data_error(input)
    } else if union_attr_error(input) is Some {
        Some(e) == union_attr_error(input)
    } else if first_variant_error(union_variants(input)) is Some {
        Some(e) == first_variant_error(union_variants(input))
    } else if first_dup(union_variants(input)) is Some {
        let vs = union_variants(input);
        let j = first_dup(vs)->0;
        e matches DeriveError::DuplicateAccessorName { name, span } && name@ == raw_resolved(vs[j])
            && span == vs[j].span
    } else {
        false
    }
}

/// One descriptor variant carries over one raw variant.
pub open spec fn variant_corresponds(rv: RawVariant, mv: MatcherVariant) -> bool {
    &&& mv.name == rv.name
    &&& mv.span == rv.span
    &&& mv.builder_name == variant_override(rv)
    &&& variant_shape_ok(rv) ==> mv.field == variant_payload(rv)
}

/// The descriptor carries over the input, variant by variant.
pub open spec fn ok_corresponds(input: RawTypeDef, d: MatcherDerive) -> bool {
    let vs = union_variants(input);
    &&& d.enum_name == input.name
    &&& d.matcher_name == union_override(input)
    &&& d.generics == input.generics
    &&& d.variants@.len() == vs.len()
    &&& forall|i: int| 0 <= i < vs.len() ==> variant_corresponds(vs[i], #[trigger] d.variants@[i])
}

impl MatcherVariant {
    /// The accessor name the variant resolves to: its override if present,
    /// else the snake-cased tag.
    pub open spec fn resolved_builder_name_spec(&self) -> Seq<char> {
        match self.builder_name {
            Some(n) => n@,
            None => snake_of(self.name@),
        }
    }

    /// Resolves the accessor name. Where `builder_name` is omitted, the
    /// result is exactly the case-converted tag.
    pub fn resolve_builder_name(&self) -> (r: String)
        ensures
            r@ == self.resolved_builder_name_spec(),
            self.builder_name matches Some(n) ==> r@ == n@,
            self.builder_name is None ==> r@ == snake_of(self.name@),
    {
        match &self.builder_name {
            Some(n) => n.clone(),
            None => snakify(self.name.as_str()),
        }
    }
}

impl MatcherDerive {
    /// The dispatcher name the union resolves to: its override if present,
    /// else the union's name with `Matcher` appended.
    pub open spec fn resolved_matcher_name_spec(&self) -> Seq<char> {
        match self.matcher_name {
            Some(n) => n@,
            None => self.enum_name@ + "Matcher"@,
        }
    }

    /// Resolves the dispatcher name. Where `matcher_name` is omitted, the
    /// result is exactly the union's name followed by `Matcher`.
    pub fn resolve_matcher_name(&self) -> (r: String)
        ensures
            r@ == self.resolved_matcher_name_spec(),
            self.matcher_name matches Some(n) ==> r@ == n@,
            self.matcher_name is None ==> r@ == self.enum_name@ + "Matcher"@,
    {
        match &self.matcher_name {
            Some(n) => n.clone(),
            None => self.enum_name.clone().concat("Matcher"),
        }
    }

    /// Extracts the normalized descriptor from the structural view, or the
    /// first error in stage order.
    #[verifier::loop_isolation(false)]
    pub fn parse(input: &RawTypeDef) -> (r: Result<MatcherDerive, DeriveError>)
        ensures
            r is Ok <==> parse_ok(*input),
            r matches Ok(d) ==> ok_corresponds(*input, d),
            r matches Err(e) ==> parse_err_spec(*input, e),
    {
        let variants: &Vec<RawVariant> = match &input.data {
            RawData::Union(vs) => vs,
            RawData::Product { span } => {
                return Err(DeriveError::NotAUnion { span: *span });
            },
            RawData::Untagged { span } => {
                return Err(DeriveError::NotAUnion { span: *span });
            },
        };
        if variants.len() == 0 {
            return Err(DeriveError::NotAUnion { span: input.span });
        }
        let entries = process_attrs(&input.attrs);
        let mut matcher_name: Option<String> = None;
        let n_entries = entries.len();
        assert(entries@.skip(0) =~= entries@);
        for k in 0..n_entries
            invariant
                n_entries == entries@.len(),
                union_overrides(matcher_entries(input.attrs@)) == union_overrides_from(
                    entries@.skip(k as int),
                    matcher_name,
                ),
        {
            assert(entries@.skip(k as int)[0] == entries@[k as int]);
            assert(entries@.skip(k as int).drop_first() =~= entries@.skip(k + 1));
            match MatcherAttr::parse(&entries[k]) {
                Err(e) => {
                    return Err(e);
                },
                Ok(MatcherAttr::BuilderName(_, sp)) => {
                    return Err(DeriveError::MisplacedAttribute { span: sp });
                },
                Ok(MatcherAttr::MatcherName(v, _)) => {
                    matcher_name = Some(v);
                },
            }
        }
        assert(entries@.skip(n_entries as int) =~= Seq::<AttrEntry>::empty());
        let n_variants = variants.len();
        let mut out: Vec<MatcherVariant> = Vec::new();
        for idx in 0..n_variants
            invariant
                n_variants == variants@.len(),
                out@.len() == idx,
                first_variant_error_from(variants@, 0) == first_variant_error_from(
                    variants@,
                    idx as int,
                ),
                forall|i: int| 0 <= i < idx ==> (#[trigger] variant_error(variants@[i])) is None,
                forall|i: int|
                    0 <= i < idx ==> variant_corresponds(variants@[i], #[trigger] out@[i]),
        {
            let v = &variants[idx];
            let field: String = match &v.fields {
                RawFields::Unnamed(tys) => {
                    match iter_get_one(tys) {
                        Some(f) => f.clone(),
                        None => {
                            return Err(DeriveError::InvalidVariantShape { span: v.span });
                        },
                    }
                },
                RawFields::Unit => {
                    return Err(DeriveError::InvalidVariantShape { span: v.span });
                },
                RawFields::Named(_) => {
                    return Err(DeriveError::InvalidVariantShape { span: v.span });
                },
            };
            let va = match VariantAttrs::parse(&v.attrs) {
                Ok(va) => va,
                Err(e) => {
                    return Err(e);
                },
            };
            let mv = MatcherVariant {
                builder_name: va.builder_name,
                name: v.name.clone(),
                field,
                span: v.span,
            };
            proof {
                assert(variant_corresponds(variants@[idx as int], mv));
            }
            out.push(mv);
        }
        let mut resolved: Vec<String> = Vec::new();
        for j in 0..n_variants
            invariant
                n_variants == variants@.len(),
                out@.len() == n_variants,
                resolved@.len() == j,
                first_dup_from(variants@, 0) == first_dup_from(variants@, j as int),
                forall|i: int|
                    0 <= i < n_variants ==> (#[trigger] variant_error(variants@[i])) is None,
                forall|i: int|
                    0 <= i < n_variants ==> variant_corresponds(variants@[i], #[trigger] out@[i]),
                forall|i: int| 0 <= i < j ==> (#[trigger] resolved@[i])@ == raw_resolved(
                    variants@[i],
                ),
        {
            let name_j = out[j].resolve_builder_name();
            proof {
                lemma_resolved_matches(variants@[j as int], out@[j as int]);
            }
            for i in 0..j
                invariant
                    j < n_variants == variants@.len(),
                    resolved@.len() == j,
                    name_j@ == raw_resolved(variants@[j as int]),
                    forall|i2: int| 0 <= i2 < j ==> (#[trigger] resolved@[i2])@ == raw_resolved(
                        variants@[i2],
                    ),
                    forall|i2: int|
                        0 <= i2 < i ==> raw_resolved(variants@[i2]) != raw_resolved(
                            variants@[j as int],
                        ),
                    out@.len() == n_variants,
                    forall|i2: int|
                        0 <= i2 < n_variants ==> (#[trigger] variant_error(variants@[i2])) is None,
                    forall|i2: int|
                        0 <= i2 < n_variants ==> variant_corresponds(variants@[i2], #[trigger] out@[i2]),
            {
                if str_eq(resolved[i].as_str(), name_j.as_str()) {
                    proof {
                        assert(dup_with_earlier(variants@, j as int));
                    }
                    let span_j = out[j].span;
                    return Err(DeriveError::DuplicateAccessorName { name: name_j, span: span_j });
                }
            }
            assert(!dup_with_earlier(variants@, j as int));
            resolved.push(name_j);
        }
        Ok(
            MatcherDerive {
                enum_name: input.name.clone(),
                matcher_name,
                generics: input.generics,
                variants: out,
            },
        )
    }
}

/// A clean carried-over variant resolves to the same accessor name as its
/// raw form.
pub proof fn lemma_resolved_matches(rv: RawVariant, mv: MatcherVariant)
    requires
        variant_error(rv) is None,
        variant_corresponds(rv, mv),
    ensures
        mv.resolved_builder_name_spec() == raw_resolved(rv),
{
}

/// A scan that found no erroneous variant vouches for each position.
pub proof fn lemma_variants_clean(vs: Seq<RawVariant>, k: int, j: int)
    requires
        first_variant_error_from(vs, k) is None,
        0 <= k <= j < vs.len(),
    ensures
        variant_error(vs[j]) is None,
    decreases j - k,
{
    if k < j {
        lemma_variants_clean(vs, k + 1, j);
    }
}

/// A union holding a variant that does not carry exactly one unnamed
/// payload field is never accepted.
pub proof fn lemma_bad_shape_rejected(input: RawTypeDef, i: int)
    requires
        input.data is Union,
        0 <= i < union_variants(input).len(),
        !variant_shape_ok(union_variants(input)[i]),
    ensures
        !parse_ok(input),
{
    if parse_ok(input) {
        lemma_variants_clean(union_variants(input), 0, i);
    }
}

/// A clean prefix moves the error scan forward without finding anything.
proof fn lemma_variant_error_scan_skips(vs: Seq<RawVariant>, k: int)
    requires
        0 <= k <= vs.len(),
        forall|j: int| 0 <= j < k ==> variant_error(#[trigger] vs[j]) is None,
    ensures
        first_variant_error_from(vs, 0) == first_variant_error_from(vs, k),
    decreases k,
{
    if k > 0 {
        lemma_variant_error_scan_skips(vs, k - 1);
    }
}

/// When a mis-shaped variant is the first failure — every earlier stage and
/// variant clean — the reported error is `InvalidVariantShape`, at that
/// variant's location.
pub proof fn lemma_bad_shape_error(input: RawTypeDef, i: int, e: DeriveError)
    requires
        data_error(input) is None,
        union_attr_error(input) is None,
        0 <= i < union_variants(input).len(),
        !variant_shape_ok(union_variants(input)[i]),
        forall|k: int| 0 <= k < i ==> variant_error(#[trigger] union_variants(input)[k]) is None,
        parse_err_spec(input, e),
    ensures
        e == (DeriveError::InvalidVariantShape { span: union_variants(input)[i].span }),
{
    let vs = union_variants(input);
    lemma_variant_error_scan_skips(vs, i);
    assert(first_variant_error_from(vs, i) == Some(
        DeriveError::InvalidVariantShape { span: vs[i].span },
    ));
}

/// A scan that found no collision leaves every position collision-free.
pub proof fn lemma_no_collisions(vs: Seq<RawVariant>, k: int, j: int)
    requires
        first_dup_from(vs, k) is None,
        0 <= k <= j < vs.len(),
    ensures
        !dup_with_earlier(vs, j),
    decreases j - k,
{
    if k < j {
        lemma_no_collisions(vs, k + 1, j);
    }
}

} // verus!
