// The basic builder-surface tests: a two-variant union `AB { A(A), B(B) }`,
// its derived dispatcher, and the generated matcher name.

use druid_enums::matcher::{Matcher, Slot};
use druid_enums::parse::{RawData, RawFields, RawTypeDef, RawVariant};

fn variant(name: &str, payload: &str, span: u64) -> RawVariant {
    RawVariant {
        name: name.to_string(),
        span,
        attrs: Vec::new(),
        fields: RawFields::Unnamed(vec![payload.to_string()]),
    }
}

fn ab_def() -> RawTypeDef {
    RawTypeDef {
        name: "AB".to_string(),
        span: 0,
        generics: false,
        attrs: Vec::new(),
        data: RawData::Union(vec![variant("A", "A", 1), variant("B", "B", 2)]),
    }
}

fn ab_matcher() -> Matcher {
    Matcher::new(druid_enums::derive(&ab_def()).expect("AB derives"))
}

#[test]
fn return_type() {
    fn inner() -> Matcher {
        ab_matcher()
    }
    let m = inner();
    assert_eq!(m.num_variants(), 2);
}

#[test]
fn with_all_variants() {
    let m = ab_matcher().with_child(0, 10).with_child(1, 20);
    assert!(matches!(m.slot_at(0), Some(Slot { .. })));
    assert!(matches!(m.slot_at(1), Some(Slot { .. })));
}

#[test]
fn with_with_default() {
    let m = ab_matcher().with_child(0, 10).default(30);
    assert!(m.slot_at(0).is_some());
    assert!(m.fallback_slot().is_some());

    let m = ab_matcher().with_child(0, 10).default_empty();
    assert!(m.fallback_slot().is_some());
}

#[test]
fn generated_matcher_name() {
    let bp = druid_enums::derive(&ab_def()).expect("AB derives");
    assert_eq!(bp.matcher_name, "ABMatcher");
    let m = Matcher::new(bp).with_child(0, 10).with_child(1, 20);
    assert_eq!(m.name(), "ABMatcher");
}
