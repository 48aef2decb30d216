// Behavioral tests: name resolution, the error taxonomy, and the routing,
// transition and fallback behavior of the dispatcher phases.

use druid_enums::attrs::{AttrEntry, PathSegment, RawAttr, RawPath};
use druid_enums::error::DeriveError;
use druid_enums::matcher::{
    BoxConstraints, ChildWidget, Matcher, MeasureOutcome, PhaseTarget, Size,
};
use druid_enums::parse::{
    iter_get_one, MatcherDerive, MatcherVariant, RawData, RawFields, RawTypeDef, RawVariant,
};

fn matcher_attr(key: &str, value: &str, span: u64) -> RawAttr {
    RawAttr {
        path: RawPath {
            leading_colon: false,
            segments: vec![PathSegment { ident: "matcher".to_string(), has_arguments: false }],
        },
        entries: vec![AttrEntry { key: key.to_string(), value: value.to_string(), span }],
    }
}

fn foreign_attr() -> RawAttr {
    RawAttr {
        path: RawPath {
            leading_colon: false,
            segments: vec![PathSegment { ident: "derive".to_string(), has_arguments: false }],
        },
        entries: Vec::new(),
    }
}

fn variant(name: &str, payload: &str, span: u64) -> RawVariant {
    RawVariant {
        name: name.to_string(),
        span,
        attrs: Vec::new(),
        fields: RawFields::Unnamed(vec![payload.to_string()]),
    }
}

fn union_of(name: &str, variants: Vec<RawVariant>) -> RawTypeDef {
    RawTypeDef {
        name: name.to_string(),
        span: 0,
        generics: false,
        attrs: Vec::new(),
        data: RawData::Union(variants),
    }
}

fn app_state() -> RawTypeDef {
    union_of(
        "AppState",
        vec![variant("Login", "LoginPayload", 1), variant("Main", "MainPayload", 2)],
    )
}

const LOGIN: usize = 0;
const MAIN: usize = 1;

#[test]
fn builder_surface_counts() {
    let bp = druid_enums::derive(&app_state()).expect("derives");
    assert_eq!(bp.builder_names.len(), 2);
    assert_eq!(bp.payload_types, vec!["LoginPayload", "MainPayload"]);
    let m = Matcher::new(bp);
    assert_eq!(m.num_variants(), 2);
}

#[test]
fn builder_order_irrelevant() {
    let bp = || druid_enums::derive(&app_state()).expect("derives");
    let m1 = Matcher::new(bp()).with_child(LOGIN, 1).with_child(MAIN, 2).default(3);
    let m2 = Matcher::new(bp()).default(3).with_child(MAIN, 2).with_child(LOGIN, 1);
    for tag in 0..2 {
        assert_eq!(m1.slot_at(tag), m2.slot_at(tag));
    }
    assert_eq!(m1.fallback_slot(), m2.fallback_slot());
}

#[test]
fn builder_last_call_wins() {
    let m = Matcher::new(druid_enums::derive(&app_state()).expect("derives"))
        .with_child(LOGIN, 1)
        .with_child(LOGIN, 9);
    assert_eq!(m.slot_at(LOGIN).unwrap().widget, ChildWidget::Supplied { id: 9 });
}

#[test]
fn zero_fields_rejected() {
    let mut def = app_state();
    if let RawData::Union(vs) = &mut def.data {
        vs[1].fields = RawFields::Unit;
    }
    match druid_enums::derive(&def) {
        Err(DeriveError::InvalidVariantShape { span }) => assert_eq!(span, 2),
        other => panic!("expected InvalidVariantShape, got {:?}", other),
    }
}

#[test]
fn two_fields_rejected() {
    let mut def = app_state();
    if let RawData::Union(vs) = &mut def.data {
        vs[0].fields = RawFields::Unnamed(vec!["A".to_string(), "B".to_string()]);
    }
    match druid_enums::derive(&def) {
        Err(DeriveError::InvalidVariantShape { span }) => assert_eq!(span, 1),
        other => panic!("expected InvalidVariantShape, got {:?}", other),
    }
}

#[test]
fn named_fields_rejected() {
    let mut def = app_state();
    if let RawData::Union(vs) = &mut def.data {
        vs[0].fields = RawFields::Named(1);
    }
    assert!(matches!(druid_enums::derive(&def), Err(DeriveError::InvalidVariantShape { span: 1 })));
}

#[test]
fn struct_rejected() {
    let def = RawTypeDef {
        name: "S".to_string(),
        span: 0,
        generics: false,
        attrs: Vec::new(),
        data: RawData::Product { span: 40 },
    };
    assert!(matches!(druid_enums::derive(&def), Err(DeriveError::NotAUnion { span: 40 })));
}

#[test]
fn byte_union_rejected() {
    let def = RawTypeDef {
        name: "U".to_string(),
        span: 0,
        generics: false,
        attrs: Vec::new(),
        data: RawData::Untagged { span: 41 },
    };
    assert!(matches!(druid_enums::derive(&def), Err(DeriveError::NotAUnion { span: 41 })));
}

#[test]
fn empty_union_rejected() {
    let def = union_of("Never", Vec::new());
    assert!(matches!(druid_enums::derive(&def), Err(DeriveError::NotAUnion { span: 0 })));
}

#[test]
fn snake_case_accessor() {
    let def = union_of(
        "AppState",
        vec![variant("LoginState", "LoginPayload", 1), variant("XMLHttpRequest", "R", 2)],
    );
    let bp = druid_enums::derive(&def).expect("derives");
    assert_eq!(bp.builder_names, vec!["login_state", "xml_http_request"]);
}

#[test]
fn builder_name_override() {
    let mut def = app_state();
    if let RawData::Union(vs) = &mut def.data {
        vs[1].attrs = vec![foreign_attr(), matcher_attr("builder_name", "main_view", 7)];
    }
    let bp = druid_enums::derive(&def).expect("derives");
    assert_eq!(bp.builder_names, vec!["login", "main_view"]);
}

#[test]
fn matcher_name_default() {
    let bp = druid_enums::derive(&app_state()).expect("derives");
    assert_eq!(bp.matcher_name, "AppStateMatcher");
    assert_eq!(bp.enum_name, "AppState");
}

#[test]
fn matcher_name_override() {
    let mut def = app_state();
    def.attrs = vec![matcher_attr("matcher_name", "Switcher", 5)];
    let bp = druid_enums::derive(&def).expect("derives");
    assert_eq!(bp.matcher_name, "Switcher");
}

#[test]
fn repeated_override_last_wins() {
    let mut def = app_state();
    def.attrs = vec![
        matcher_attr("matcher_name", "First", 5),
        matcher_attr("matcher_name", "Second", 6),
    ];
    let bp = druid_enums::derive(&def).expect("derives");
    assert_eq!(bp.matcher_name, "Second");
}

#[test]
fn builder_name_on_union_misplaced() {
    let mut def = app_state();
    def.attrs = vec![matcher_attr("builder_name", "oops", 9)];
    assert!(matches!(druid_enums::derive(&def), Err(DeriveError::MisplacedAttribute { span: 9 })));
}

#[test]
fn matcher_name_on_variant_misplaced() {
    let mut def = app_state();
    if let RawData::Union(vs) = &mut def.data {
        vs[0].attrs = vec![matcher_attr("matcher_name", "oops", 11)];
    }
    assert!(matches!(druid_enums::derive(&def), Err(DeriveError::MisplacedAttribute { span: 11 })));
}

#[test]
fn unknown_key_rejected() {
    let mut def = app_state();
    if let RawData::Union(vs) = &mut def.data {
        vs[0].attrs = vec![matcher_attr("color", "red", 13)];
    }
    match druid_enums::derive(&def) {
        Err(DeriveError::UnknownAttribute { key, span }) => {
            assert_eq!(key, "color");
            assert_eq!(span, 13);
        },
        other => panic!("expected UnknownAttribute, got {:?}", other),
    }
}

#[test]
fn foreign_namespace_ignored() {
    let mut def = app_state();
    def.attrs = vec![foreign_attr()];
    if let RawData::Union(vs) = &mut def.data {
        vs[0].attrs = vec![foreign_attr()];
    }
    assert!(druid_enums::derive(&def).is_ok());
}

#[test]
fn duplicate_accessor_rejected() {
    let def = union_of(
        "AppState",
        vec![variant("LoginState", "A", 1), variant("login_state", "B", 2)],
    );
    match druid_enums::derive(&def) {
        Err(DeriveError::DuplicateAccessorName { name, span }) => {
            assert_eq!(name, "login_state");
            assert_eq!(span, 2);
        },
        other => panic!("expected DuplicateAccessorName, got {:?}", other),
    }
}

#[test]
fn named_child_by_accessor() {
    let m = Matcher::new(druid_enums::derive(&app_state()).expect("derives"));
    assert_eq!(m.tag_for("login"), Some(LOGIN));
    assert_eq!(m.tag_for("settings"), None);
    let m = m.with_named_child("main", 4);
    assert!(m.slot_at(MAIN).is_some());
    assert!(m.slot_at(LOGIN).is_none());
}

#[test]
fn event_round_trip() {
    let mut m = Matcher::new(druid_enums::derive(&app_state()).expect("derives")).with_child(LOGIN, 1);
    let rep = m.lifecycle(LOGIN, false, 5);
    assert_eq!(rep.forwarded, Some(PhaseTarget::Dedicated { tag: LOGIN }));
    assert_eq!(m.event(LOGIN), Some(PhaseTarget::Dedicated { tag: LOGIN }));
    // a value of the other tag, with no lifecycle pass for it, is dropped
    assert_eq!(m.event(MAIN), None);
}

#[test]
fn event_before_lifecycle_dropped() {
    let m = Matcher::new(druid_enums::derive(&app_state()).expect("derives")).with_child(LOGIN, 1);
    assert_eq!(m.event(LOGIN), None);
}

#[test]
fn transition_repaints_and_tracks() {
    let mut m = Matcher::new(druid_enums::derive(&app_state()).expect("derives"))
        .with_child(LOGIN, 1)
        .with_child(MAIN, 2);
    let rep = m.lifecycle(LOGIN, true, 5);
    assert_eq!(rep.warnings.len(), 0);
    let up = m.update(LOGIN, MAIN);
    assert!(up.repaint);
    assert!(!up.children_changed);
    // the main slot has not seen its lifecycle pass yet: not forwarded
    assert_eq!(up.forwarded, None);
    assert_eq!(m.current_tag(), Some(MAIN));
    // the next lifecycle pass must not warn about the main slot
    let rep = m.lifecycle(MAIN, true, 5);
    assert_eq!(rep.warnings.len(), 0);
    assert_eq!(rep.forwarded, Some(PhaseTarget::Dedicated { tag: MAIN }));
    // once initialized, a later transition forwards the update
    m.update(MAIN, LOGIN);
    let up = m.update(LOGIN, MAIN);
    assert_eq!(up.forwarded, Some(PhaseTarget::Dedicated { tag: MAIN }));
}

#[test]
fn same_tag_update_forwards() {
    let mut m = Matcher::new(druid_enums::derive(&app_state()).expect("derives")).with_child(LOGIN, 1);
    let up = m.update(LOGIN, LOGIN);
    assert_eq!(up.forwarded, Some(PhaseTarget::Dedicated { tag: LOGIN }));
    assert!(!up.repaint);
    assert!(!up.children_changed);
}

#[test]
fn transition_to_unconfigured_signals_children_changed() {
    let mut m = Matcher::new(druid_enums::derive(&app_state()).expect("derives")).with_child(LOGIN, 1);
    let up = m.update(LOGIN, MAIN);
    assert!(up.repaint);
    assert!(up.children_changed);
    assert_eq!(up.forwarded, None);
    assert_eq!(m.current_tag(), Some(MAIN));
}

#[test]
fn measure_unregistered_returns_min_size() {
    let m = Matcher::new(druid_enums::derive(&app_state()).expect("derives")).with_child(LOGIN, 1);
    let bc = BoxConstraints { min_width: 3, min_height: 4, max_width: 100, max_height: 200 };
    assert_eq!(
        m.layout(MAIN, &bc),
        MeasureOutcome::MinSize { size: Size { width: 3, height: 4 } }
    );
    // the configured tag is forwarded instead
    assert_eq!(
        m.layout(LOGIN, &bc),
        MeasureOutcome::Forwarded { target: PhaseTarget::Dedicated { tag: LOGIN } }
    );
}

#[test]
fn fallback_serves_all_phases() {
    let mut m = Matcher::new(druid_enums::derive(&app_state()).expect("derives")).default(8);
    let rep = m.lifecycle(LOGIN, true, 5);
    // the fallback is installed, so no warnings and the pass goes to it
    assert_eq!(rep.warnings.len(), 0);
    assert_eq!(rep.forwarded, Some(PhaseTarget::Fallback));
    assert_eq!(m.event(LOGIN), Some(PhaseTarget::Fallback));
    assert_eq!(m.paint(LOGIN), Some(PhaseTarget::Fallback));
    let bc = BoxConstraints { min_width: 0, min_height: 0, max_width: 9, max_height: 9 };
    assert_eq!(
        m.layout(MAIN, &bc),
        MeasureOutcome::Forwarded { target: PhaseTarget::Fallback }
    );
}

#[test]
fn missing_slot_warning_without_default() {
    // only the login child is registered and there is no fallback: one
    // warning, naming the main accessor and the reporting component
    let mut m = Matcher::new(druid_enums::derive(&app_state()).expect("derives")).with_child(LOGIN, 1);
    let rep = m.lifecycle(MAIN, true, 42);
    assert_eq!(rep.warnings.len(), 1);
    assert_eq!(rep.warnings[0].matcher_name, "AppStateMatcher");
    assert_eq!(rep.warnings[0].accessor_name, "main");
    assert_eq!(rep.warnings[0].widget_id, 42);
    // the warning fires only on the added-to-tree sub-event
    let rep = m.lifecycle(MAIN, false, 42);
    assert_eq!(rep.warnings.len(), 0);
}

#[test]
fn end_to_end_login_main() {
    // union { Login(LoginPayload), Main(MainPayload) }, only a login child
    // and the empty fallback installed
    let mut m = Matcher::new(druid_enums::derive(&app_state()).expect("derives"))
        .with_child(LOGIN, 1)
        .default_empty();
    // the fallback slot is installed, so the configuration is complete:
    // the lifecycle pass for a Main value emits no missing-slot warning
    let rep = m.lifecycle(MAIN, true, 42);
    assert_eq!(rep.warnings.len(), 0);
    assert_eq!(rep.forwarded, Some(PhaseTarget::Fallback));
    // painting the Main value goes to the empty fallback, uniformly
    assert_eq!(m.paint(MAIN), Some(PhaseTarget::Fallback));
    assert_eq!(m.fallback_slot().unwrap().widget, ChildWidget::EmptyBox);
}

#[test]
fn iter_get_one_yields_only_singletons() {
    assert_eq!(iter_get_one(&vec![5u32]), Some(&5));
    assert_eq!(iter_get_one(&Vec::<u32>::new()), None);
    assert_eq!(iter_get_one(&vec![1u32, 2]), None);
}

#[test]
fn resolve_names_directly() {
    let d = MatcherDerive {
        enum_name: "AB".to_string(),
        matcher_name: None,
        generics: false,
        variants: vec![MatcherVariant {
            builder_name: None,
            name: "LoginState".to_string(),
            field: "A".to_string(),
            span: 1,
        }],
    };
    assert_eq!(d.resolve_matcher_name(), "ABMatcher");
    assert_eq!(d.variants[0].resolve_builder_name(), "login_state");
    let v = MatcherVariant {
        builder_name: Some("custom".to_string()),
        name: "LoginState".to_string(),
        field: "A".to_string(),
        span: 2,
    };
    assert_eq!(v.resolve_builder_name(), "custom");
    let d = MatcherDerive { matcher_name: Some("Picked".to_string()), ..d };
    assert_eq!(d.resolve_matcher_name(), "Picked");
}

#[test]
fn attribute_namespace_matching() {
    let seg = |ident: &str, args: bool| PathSegment { ident: ident.to_string(), has_arguments: args };
    let bare = RawPath { leading_colon: false, segments: vec![seg("matcher", false)] };
    assert!(druid_enums::attrs::matches_path(&bare));
    let rooted = RawPath { leading_colon: true, segments: vec![seg("matcher", false)] };
    assert!(!druid_enums::attrs::matches_path(&rooted));
    let qualified = RawPath {
        leading_colon: false,
        segments: vec![seg("druid", false), seg("matcher", false)],
    };
    assert!(!druid_enums::attrs::matches_path(&qualified));
    let with_args = RawPath { leading_colon: false, segments: vec![seg("matcher", true)] };
    assert!(!druid_enums::attrs::matches_path(&with_args));
    let other = RawPath { leading_colon: false, segments: vec![seg("serde", false)] };
    assert!(!druid_enums::attrs::matches_path(&other));
}
