use binspec::span::Span;
use binspec::directive::{
    Mode, DirectiveContext, DirectiveName, DirectiveValue, RawDirective, ValueShape, is_legal,
    shape_of,
};
use binspec::diag::{Diagnostic, ExclusionRule, ParseResult};
use binspec::field::{FieldDef, StructField};
use binspec::types::{CondEndian, Endian, FieldMode, PassedArgs, TempState, ValueTransform};
use binspec::variant::{CaseFields, EnumVariant, Struct, UnitEnumField, VariantDef};
use proc_macro2::TokenStream;

fn ts(s: &str) -> TokenStream {
    s.parse().unwrap()
}

fn sp(lo: u32, hi: u32) -> Span {
    Span { lo, hi }
}

fn dir(name: DirectiveName, lo: u32, value: DirectiveValue) -> RawDirective {
    RawDirective { name, span: sp(lo, lo + 1), value }
}

fn named_field(name: &str, dirs: Vec<RawDirective>) -> FieldDef {
    FieldDef { ident: Some(name.to_string()), ty: ts("u32"), directives: dirs }
}

fn pos_field(dirs: Vec<RawDirective>) -> FieldDef {
    FieldDef { ident: None, ty: ts("u32"), directives: dirs }
}

fn parts(r: ParseResult<StructField>) -> (StructField, Vec<Diagnostic>) {
    match r {
        ParseResult::Resolved(s) => (s, vec![]),
        ParseResult::Partial(s, e) => (s, e),
        ParseResult::Failed(_) => panic!("unexpected total failure"),
    }
}

fn has_rule(errs: &[Diagnostic], rule: ExclusionRule) -> bool {
    errs.iter().any(
        |e| matches!(e, Diagnostic::ExclusionViolation { rule: r, .. } if *r == rule),
    )
}

#[test]
fn determinism_same_definition_twice() {
    let build = || {
        named_field(
            "x",
            vec![
                dir(DirectiveName::Big, 1, DirectiveValue::Flag),
                dir(DirectiveName::Magic, 3, DirectiveValue::Single(ts("0xFF"))),
                dir(DirectiveName::Magic, 5, DirectiveValue::Single(ts("0xAA"))),
                dir(DirectiveName::Count, 7, DirectiveValue::Single(ts("n"))),
            ],
        )
    };
    let (s1, e1) = parts(StructField::from_field(&build(), 0, Mode::Read));
    let (s2, e2) = parts(StructField::from_field(&build(), 0, Mode::Read));
    assert_eq!(format!("{:?}", s1), format!("{:?}", s2));
    assert_eq!(e1, e2);
    assert_eq!(e1.len(), 1);
}

#[test]
fn defaults_complete_zero_directives() {
    let f = pos_field(vec![]);
    let r = StructField::from_field(&f, 0, Mode::Read);
    let (s, e) = parts(r);
    assert!(e.is_empty());
    assert!(s.has_no_attrs());
    assert!(s.is_written());
    assert!(!s.generated_value());
    assert!(s.can_call_after_parse());
    assert!(s.should_use_after_parse());
    assert!(s.needs_options());
    assert_eq!(s.ident, "self_0");
    assert!(s.generated_ident);
}

#[test]
fn deref_now_offset_after_conflict_both_orders() {
    let order_a = named_field(
        "x",
        vec![
            dir(DirectiveName::DerefNow, 5, DirectiveValue::Flag),
            dir(DirectiveName::OffsetAfter, 2, DirectiveValue::Single(ts("off"))),
        ],
    );
    let order_b = named_field(
        "x",
        vec![
            dir(DirectiveName::OffsetAfter, 2, DirectiveValue::Single(ts("off"))),
            dir(DirectiveName::DerefNow, 5, DirectiveValue::Flag),
        ],
    );
    for f in [order_a, order_b] {
        let (_, e) = parts(StructField::from_field(&f, 0, Mode::Read));
        assert!(!e.is_empty());
        assert!(has_rule(&e, ExclusionRule::DerefNowWithOffsetAfter));
    }
}

#[test]
fn deref_now_offset_after_conflict_joined_span() {
    let f = named_field(
        "x",
        vec![
            dir(DirectiveName::OffsetAfter, 2, DirectiveValue::Single(ts("off"))),
            dir(DirectiveName::DerefNow, 5, DirectiveValue::Flag),
        ],
    );
    let (_, e) = parts(StructField::from_field(&f, 0, Mode::Read));
    assert_eq!(e.len(), 1);
    match e[0] {
        Diagnostic::ExclusionViolation { span, rule } => {
            assert_eq!(rule, ExclusionRule::DerefNowWithOffsetAfter);
            assert_eq!(span, sp(2, 6));
        },
        _ => panic!("expected the exclusivity violation"),
    }
}

#[test]
fn try_with_calc_always_errors() {
    let f = named_field(
        "x",
        vec![
            dir(DirectiveName::DoTry, 1, DirectiveValue::Flag),
            dir(DirectiveName::Calc, 3, DirectiveValue::Single(ts("1 + 1"))),
        ],
    );
    let (_, e) = parts(StructField::from_field(&f, 0, Mode::Read));
    assert!(has_rule(&e, ExclusionRule::TryWithComputedValue));
}

#[test]
fn try_with_default_always_errors() {
    let f = named_field(
        "x",
        vec![
            dir(DirectiveName::DefaultValue, 1, DirectiveValue::Flag),
            dir(DirectiveName::DoTry, 3, DirectiveValue::Flag),
        ],
    );
    let (_, e) = parts(StructField::from_field(&f, 0, Mode::Read));
    assert!(has_rule(&e, ExclusionRule::TryWithComputedValue));
}

#[test]
fn try_with_normal_parse_is_clean() {
    let f = named_field("x", vec![dir(DirectiveName::DoTry, 1, DirectiveValue::Flag)]);
    let (s, e) = parts(StructField::from_field(&f, 0, Mode::Read));
    assert!(e.is_empty());
    assert!(matches!(s.attrs.read_mode, FieldMode::Normal));
    assert!(matches!(s.attrs.do_try, Some(_)));
}

#[test]
fn two_independent_violations_accumulate() {
    let f = named_field(
        "x",
        vec![
            dir(DirectiveName::Magic, 1, DirectiveValue::Single(ts("0xFF"))),
            dir(DirectiveName::Magic, 3, DirectiveValue::Single(ts("0xAA"))),
            dir(DirectiveName::DerefNow, 5, DirectiveValue::Flag),
            dir(DirectiveName::OffsetAfter, 7, DirectiveValue::Single(ts("off"))),
        ],
    );
    let (_, e) = parts(StructField::from_field(&f, 0, Mode::Read));
    assert!(e.len() >= 2);
    assert!(e.iter().any(|d| matches!(d, Diagnostic::DuplicateDirective { .. })));
    assert!(has_rule(&e, ExclusionRule::DerefNowWithOffsetAfter));
}

#[test]
fn duplicate_reports_both_locations() {
    let f = named_field(
        "x",
        vec![
            dir(DirectiveName::Magic, 1, DirectiveValue::Single(ts("0xFF"))),
            dir(DirectiveName::Magic, 9, DirectiveValue::Single(ts("0xAA"))),
        ],
    );
    let (s, e) = parts(StructField::from_field(&f, 0, Mode::Read));
    assert_eq!(
        e,
        vec![Diagnostic::DuplicateDirective { first: sp(1, 2), second: sp(9, 10) }],
    );
    // the first occurrence wins
    assert_eq!(s.attrs.magic.as_ref().unwrap().tokens.to_string(), "0xFF");
    assert_eq!(s.attrs.magic.as_ref().unwrap().span, sp(1, 2));
}

#[test]
fn unit_case_converts_to_compound_shape() {
    let v = VariantDef {
        ident: "CaseA".to_string(),
        fields: CaseFields::UnitCase,
        directives: vec![
            dir(DirectiveName::Magic, 1, DirectiveValue::Single(ts("0x01"))),
            dir(
                DirectiveName::PreAssertion,
                3,
                DirectiveValue::Check(ts("x > 0"), None),
            ),
        ],
    };
    let ev = match EnumVariant::from_field(&v, 0, Mode::Read) {
        ParseResult::Resolved(ev) => ev,
        _ => panic!("expected clean resolution"),
    };
    assert!(ev.has_no_attrs());
    assert_eq!(ev.ident(), "CaseA");
    let st = ev.into_struct();
    assert!(st.has_no_attrs());
    assert_eq!(st.fields.len(), 0);
    assert_eq!(st.magic.as_ref().unwrap().tokens.to_string(), "0x01");
    assert_eq!(st.pre_assertions.len(), 1);
    assert_eq!(st.pre_assertions[0].condition.to_string(), "x > 0");
    assert_eq!(st.assertions.len(), 0);
}

#[test]
fn ident_synthesis_is_stable_per_index() {
    let (s7a, _) = parts(StructField::from_field(&pos_field(vec![]), 7, Mode::Read));
    let (s7b, _) = parts(StructField::from_field(&pos_field(vec![]), 7, Mode::Read));
    let (s12, _) = parts(StructField::from_field(&pos_field(vec![]), 12, Mode::Read));
    assert_eq!(s7a.ident, "self_7");
    assert_eq!(s7a.ident, s7b.ident);
    assert_eq!(s12.ident, "self_12");
    let (named, _) = parts(StructField::from_field(&named_field("y", vec![]), 7, Mode::Read));
    assert_eq!(named.ident, "y");
    assert!(!named.generated_ident);
}

#[test]
fn endian_magic_count_scenario() {
    let f = named_field(
        "x",
        vec![
            dir(DirectiveName::Big, 1, DirectiveValue::Flag),
            dir(DirectiveName::Magic, 3, DirectiveValue::Single(ts("0xFF"))),
            dir(DirectiveName::Count, 5, DirectiveValue::Single(ts("n"))),
        ],
    );
    let r = StructField::from_field(&f, 0, Mode::Read);
    let (s, e) = match r {
        ParseResult::Resolved(s) => (s, vec![]),
        other => parts(other),
    };
    assert!(e.is_empty());
    assert!(matches!(s.attrs.endian, CondEndian::Fixed(_, Endian::Big)));
    assert_eq!(s.attrs.magic.as_ref().unwrap().tokens.to_string(), "0xFF");
    assert_eq!(s.attrs.count.as_ref().unwrap().tokens.to_string(), "n");
    assert!(matches!(s.attrs.read_mode, FieldMode::Normal));
}

#[test]
fn args_with_calc_scenario() {
    let f = named_field(
        "x",
        vec![
            dir(DirectiveName::Calc, 1, DirectiveValue::Single(ts("1 + 1"))),
            dir(DirectiveName::Args, 3, DirectiveValue::ExprList(vec![ts("x")])),
        ],
    );
    let (s, e) = parts(StructField::from_field(&f, 0, Mode::Read));
    assert_eq!(e.len(), 1);
    assert!(matches!(
        e[0],
        Diagnostic::ExclusionViolation { rule: ExclusionRule::ArgsWithCalc, .. }
    ));
    assert!(matches!(s.attrs.read_mode, FieldMode::Calc(_, _)));
    assert!(matches!(s.attrs.args, PassedArgs::ArgList(_, _)));
}

#[test]
fn read_only_directive_rejected_on_write() {
    let f = named_field(
        "x",
        vec![dir(DirectiveName::Count, 4, DirectiveValue::Single(ts("n")))],
    );
    let (_, e) = parts(StructField::from_field(&f, 0, Mode::Write));
    assert_eq!(e, vec![Diagnostic::UnknownDirective { span: sp(4, 5) }]);
}

#[test]
fn write_only_directive_rejected_on_read() {
    let f = named_field(
        "x",
        vec![dir(DirectiveName::WriteWith, 4, DirectiveValue::Single(ts("w")))],
    );
    let (_, e) = parts(StructField::from_field(&f, 0, Mode::Read));
    assert_eq!(e, vec![Diagnostic::UnknownDirective { span: sp(4, 5) }]);
    let (s, e2) = parts(StructField::from_field(&f, 0, Mode::Write));
    assert!(e2.is_empty());
    assert!(matches!(s.attrs.read_mode, FieldMode::CustomWriter(_, _)));
}

#[test]
fn flag_directive_given_a_value_is_shape_mismatch() {
    let f = named_field(
        "x",
        vec![dir(DirectiveName::Big, 2, DirectiveValue::Single(ts("v")))],
    );
    let (_, e) = parts(StructField::from_field(&f, 0, Mode::Read));
    assert_eq!(e, vec![Diagnostic::ShapeMismatch { span: sp(2, 3) }]);
}

#[test]
fn derived_queries_for_calc_and_default() {
    let calc = named_field(
        "x",
        vec![dir(DirectiveName::Calc, 1, DirectiveValue::Single(ts("a + b")))],
    );
    let (s, e) = parts(StructField::from_field(&calc, 0, Mode::Read));
    assert!(e.is_empty());
    assert!(s.generated_value());
    assert!(s.is_written());
    assert!(s.is_temp(true));
    assert!(!s.is_temp(false));
    assert!(!s.needs_options());
    assert!(!s.can_call_after_parse());

    let dflt = named_field(
        "y",
        vec![
            dir(DirectiveName::DefaultValue, 1, DirectiveValue::Flag),
            dir(DirectiveName::Magic, 3, DirectiveValue::Single(ts("0x02"))),
        ],
    );
    let (s2, e2) = parts(StructField::from_field(&dflt, 0, Mode::Read));
    assert!(e2.is_empty());
    assert!(s2.generated_value());
    assert!(!s2.is_written());
    assert!(s2.needs_options());
}

#[test]
fn deref_now_disables_deferred_post_processing() {
    let f = named_field("x", vec![dir(DirectiveName::DerefNow, 1, DirectiveValue::Flag)]);
    let (s, e) = parts(StructField::from_field(&f, 0, Mode::Read));
    assert!(e.is_empty());
    assert!(!s.should_use_after_parse());
    let g = named_field(
        "y",
        vec![dir(DirectiveName::MapValue, 1, DirectiveValue::Single(ts("f")))],
    );
    let (s2, _) = parts(StructField::from_field(&g, 0, Mode::Read));
    assert!(!s2.can_call_after_parse());
    assert!(!s2.should_use_after_parse());
    assert!(matches!(s2.attrs.transform, ValueTransform::Mapped(_, _)));
}

#[test]
fn force_temp_is_the_only_late_mutation() {
    let f = named_field("x", vec![]);
    let (mut s, _) = parts(StructField::from_field(&f, 0, Mode::Read));
    assert!(!s.is_temp(false));
    s.force_temp();
    assert!(s.is_temp(false));
    assert!(matches!(s.attrs.temp, TempState::Forced));
    assert!(!s.has_no_attrs());
}

#[test]
fn struct_resolution_merges_all_error_sets() {
    let dirs = vec![dir(DirectiveName::Big, 0, DirectiveValue::Flag)];
    let fields = vec![
        named_field(
            "a",
            vec![
                dir(DirectiveName::Little, 2, DirectiveValue::Flag),
                dir(DirectiveName::Big, 4, DirectiveValue::Flag),
            ],
        ),
        named_field(
            "b",
            vec![dir(DirectiveName::WriteWith, 6, DirectiveValue::Single(ts("w")))],
        ),
    ];
    let r = Struct::from_input(&dirs, &fields, Mode::Read);
    let (s, e) = match r {
        ParseResult::Partial(s, e) => (s, e),
        _ => panic!("expected a partial result"),
    };
    assert!(matches!(s.endian, CondEndian::Fixed(_, Endian::Big)));
    assert_eq!(s.fields.len(), 2);
    assert_eq!(
        e,
        vec![
            Diagnostic::DuplicateDirective { first: sp(2, 3), second: sp(4, 5) },
            Diagnostic::UnknownDirective { span: sp(6, 7) },
        ],
    );
    assert!(matches!(s.fields[0].attrs.endian, CondEndian::Fixed(_, Endian::Little)));
}

#[test]
fn compound_case_resolves_recursively() {
    let v = VariantDef {
        ident: "CaseB".to_string(),
        fields: CaseFields::Listed(vec![pos_field(vec![]), pos_field(vec![])]),
        directives: vec![dir(DirectiveName::Magic, 1, DirectiveValue::Single(ts("2")))],
    };
    let ev = match EnumVariant::from_field(&v, 0, Mode::Read) {
        ParseResult::Resolved(ev) => ev,
        _ => panic!("expected clean resolution"),
    };
    assert_eq!(ev.ident(), "CaseB");
    assert!(ev.has_no_attrs());
    let st = ev.into_struct();
    assert_eq!(st.fields.len(), 2);
    assert_eq!(st.fields[0].ident, "self_0");
    assert_eq!(st.fields[1].ident, "self_1");
    assert_eq!(st.magic.as_ref().unwrap().tokens.to_string(), "2");
}

#[test]
fn unit_case_rejects_field_directives() {
    let v = VariantDef {
        ident: "CaseC".to_string(),
        fields: CaseFields::UnitCase,
        directives: vec![dir(DirectiveName::Count, 3, DirectiveValue::Single(ts("n")))],
    };
    let (u, e) = match UnitEnumField::from_field(&v, 0, Mode::Read) {
        ParseResult::Partial(u, e) => (u, e),
        _ => panic!("expected a partial result"),
    };
    assert_eq!(u.ident, "CaseC");
    assert_eq!(e, vec![Diagnostic::UnknownDirective { span: sp(3, 4) }]);
}

#[test]
fn pre_assertion_is_read_only_on_unit_cases() {
    let v = VariantDef {
        ident: "CaseD".to_string(),
        fields: CaseFields::UnitCase,
        directives: vec![dir(
            DirectiveName::PreAssertion,
            2,
            DirectiveValue::Check(ts("ok"), Some(ts("\"bad\""))),
        )],
    };
    match UnitEnumField::from_field(&v, 0, Mode::Read) {
        ParseResult::Resolved(u) => {
            assert_eq!(u.pre_assertions.len(), 1);
            assert_eq!(u.pre_assertions[0].message.as_ref().unwrap().to_string(), "\"bad\"");
        },
        _ => panic!("expected clean resolution"),
    }
    match UnitEnumField::from_field(&v, 0, Mode::Write) {
        ParseResult::Partial(_, e) => {
            assert_eq!(e, vec![Diagnostic::UnknownDirective { span: sp(2, 3) }]);
        },
        _ => panic!("expected a partial result"),
    }
}

#[test]
fn assertions_append_in_order() {
    let f = named_field(
        "x",
        vec![
            dir(DirectiveName::Assertion, 1, DirectiveValue::Check(ts("a > 0"), None)),
            dir(DirectiveName::Assertion, 3, DirectiveValue::Check(ts("b > 1"), None)),
        ],
    );
    let (s, e) = parts(StructField::from_field(&f, 0, Mode::Read));
    assert!(e.is_empty());
    assert_eq!(s.attrs.assertions.len(), 2);
    assert_eq!(s.attrs.assertions[0].condition.to_string(), "a > 0");
    assert_eq!(s.attrs.assertions[1].condition.to_string(), "b > 1");
    // assertions alone still count as "no attributes"
    assert!(s.has_no_attrs());
}

#[test]
fn if_condition_with_alternate_is_stored() {
    let f = named_field(
        "x",
        vec![dir(
            DirectiveName::IfCond,
            1,
            DirectiveValue::Check(ts("n > 0"), Some(ts("fallback"))),
        )],
    );
    let (s, e) = parts(StructField::from_field(&f, 0, Mode::Read));
    assert!(e.is_empty());
    let c = s.attrs.if_cond.as_ref().unwrap();
    assert_eq!(c.condition.to_string(), "n > 0");
    assert_eq!(c.alternate.as_ref().unwrap().to_string(), "fallback");
    assert!(!s.has_no_attrs());
}

#[test]
fn catalog_legality_and_shapes() {
    assert!(is_legal(DirectiveName::Calc, Mode::Read, DirectiveContext::FieldContext));
    assert!(is_legal(DirectiveName::Calc, Mode::Write, DirectiveContext::FieldContext));
    assert!(!is_legal(DirectiveName::Count, Mode::Write, DirectiveContext::FieldContext));
    assert!(!is_legal(DirectiveName::PreAssertion, Mode::Read, DirectiveContext::FieldContext));
    assert!(is_legal(DirectiveName::PreAssertion, Mode::Read, DirectiveContext::UnitCaseContext));
    assert!(!is_legal(DirectiveName::PreAssertion, Mode::Write, DirectiveContext::UnitCaseContext));
    assert!(is_legal(DirectiveName::Magic, Mode::Write, DirectiveContext::UnitCaseContext));
    assert!(is_legal(DirectiveName::Big, Mode::Write, DirectiveContext::StructContext));
    assert!(!is_legal(DirectiveName::Count, Mode::Read, DirectiveContext::StructContext));
    assert_eq!(shape_of(DirectiveName::Big), ValueShape::FlagShape);
    assert_eq!(shape_of(DirectiveName::Magic), ValueShape::SingleShape);
    assert_eq!(shape_of(DirectiveName::Args), ValueShape::ListShape);
    assert_eq!(shape_of(DirectiveName::Assertion), ValueShape::CheckShape);
}

#[test]
fn diagnostic_messages() {
    let d = Diagnostic::ExclusionViolation {
        span: sp(0, 1),
        rule: ExclusionRule::ArgsWithCalc,
    };
    assert_eq!(d.message(), "`args` is incompatible with `calc`");
    let u = Diagnostic::UnknownDirective { span: sp(0, 1) };
    assert_eq!(u.message(), "unrecognized directive for this mode");
    let m = Diagnostic::DuplicateDirective { first: sp(0, 1), second: sp(2, 3) };
    assert_eq!(m.message(), "directive is set more than once");
    let s = Diagnostic::ShapeMismatch { span: sp(0, 1) };
    assert_eq!(s.message(), "directive was given the wrong value shape");
}

#[test]
fn ignore_behaves_as_default_on_both_modes() {
    let f = named_field("x", vec![dir(DirectiveName::Ignore, 1, DirectiveValue::Flag)]);
    for mode in [Mode::Read, Mode::Write] {
        let (s, e) = parts(StructField::from_field(&f, 0, mode));
        assert!(e.is_empty());
        assert!(matches!(s.attrs.read_mode, FieldMode::DefaultVal(_)));
        assert!(!s.is_written());
    }
}
