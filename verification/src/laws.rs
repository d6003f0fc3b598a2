use vstd::prelude::*;
use crate::diag::{Diagnostic, ExclusionRule};
use crate::directive::{Mode, DirectiveName, DirectiveValue, RawDirective};
use crate::types::{CondEndian, FieldMode};
use crate::field::{
    FieldDef, StructField, FieldAttrsV, spec_apply_field_directive, spec_fold_field_from,
    spec_fold_field, spec_field_errors, spec_validate, spec_has_no_attrs, spec_is_written,
    spec_generated_value, resolved_field, synth_ident_view, default_attrs_v,
};
use crate::variant::{Struct, spec_struct_has_no_attrs};

verus! {

// --- which directive names a list carries, for stating order-independent
// laws over raw input ---

pub open spec fn has_named(ds: Seq<RawDirective>, n: DirectiveName) -> bool {
    exists|i: int| 0 <= i < ds.len() && (#[trigger] ds[i]).name == n
}

pub open spec fn has_flag_named(ds: Seq<RawDirective>, n: DirectiveName) -> bool {
    exists|i: int|
        0 <= i < ds.len() && (#[trigger] ds[i]).name == n && ds[i].value
            matches DirectiveValue::Flag
}

pub open spec fn has_single_named(ds: Seq<RawDirective>, n: DirectiveName) -> bool {
    exists|i: int|
        0 <= i < ds.len() && (#[trigger] ds[i]).name == n && ds[i].value
            matches DirectiveValue::Single(_)
}

proof fn lemma_named_shift(ds: Seq<RawDirective>, n: DirectiveName)
    requires
        ds.len() > 0,
        has_named(ds, n),
        ds[0].name != n,
    ensures
        has_named(ds.subrange(1, ds.len() as int), n),
{
    let i = choose|i: int| 0 <= i < ds.len() && (#[trigger] ds[i]).name == n;
    assert(ds.subrange(1, ds.len() as int)[i - 1] == ds[i]);
}

proof fn lemma_flag_named_shift(ds: Seq<RawDirective>, n: DirectiveName)
    requires
        ds.len() > 0,
        has_flag_named(ds, n),
        !(ds[0].name == n && ds[0].value matches DirectiveValue::Flag),
    ensures
        has_flag_named(ds.subrange(1, ds.len() as int), n),
{
    let i = choose|i: int|
        0 <= i < ds.len() && (#[trigger] ds[i]).name == n && ds[i].value
            matches DirectiveValue::Flag;
    assert(ds.subrange(1, ds.len() as int)[i - 1] == ds[i]);
}

proof fn lemma_single_named_shift(ds: Seq<RawDirective>, n: DirectiveName)
    requires
        ds.len() > 0,
        has_single_named(ds, n),
        !(ds[0].name == n && ds[0].value matches DirectiveValue::Single(_)),
    ensures
        has_single_named(ds.subrange(1, ds.len() as int), n),
{
    let i = choose|i: int|
        0 <= i < ds.len() && (#[trigger] ds[i]).name == n && ds[i].value
            matches DirectiveValue::Single(_);
    assert(ds.subrange(1, ds.len() as int)[i - 1] == ds[i]);
}

/// Folding one directive never unsets an attribute, never drops a recorded
/// diagnostic, and — when the directive names the attribute in question —
/// either sets it or records a new diagnostic.
#[verifier::rlimit(100)]
#[verifier::spinoff_prover]
proof fn lemma_apply_props(a: FieldAttrsV, errs: Seq<Diagnostic>, d: RawDirective, mode: Mode)
    ensures
        ({
            let (a2, e2) = spec_apply_field_directive(a, errs, d, mode);
            &&& e2.len() >= errs.len()
            &&& (a.deref_now matches Option::Some(_) ==> a2.deref_now matches Option::Some(_))
            &&& (a.offset_after matches Option::Some(_) ==> a2.offset_after matches Option::Some(
                _,
            ))
            &&& (a.do_try matches Option::Some(_) ==> a2.do_try matches Option::Some(_))
            &&& ((a.read_mode matches FieldMode::Calc(_, _)) ==> a2.read_mode == a.read_mode)
            &&& ((a.read_mode matches FieldMode::DefaultVal(_)) ==> a2.read_mode == a.read_mode)
            &&& (((d.name == DirectiveName::DerefNow || d.name == DirectiveName::PostProcessNow)
                && mode == Mode::Read && (d.value matches DirectiveValue::Flag))
                ==> a2.deref_now matches Option::Some(_))
            &&& ((d.name == DirectiveName::OffsetAfter && mode == Mode::Read && (d.value
                matches DirectiveValue::Single(_))) ==> a2.offset_after matches Option::Some(_))
            &&& (d.name == DirectiveName::DoTry ==> (a2.do_try matches Option::Some(_)
                || e2.len() > errs.len()))
            &&& (d.name == DirectiveName::Calc ==> ((a2.read_mode matches FieldMode::Calc(_, _))
                || e2.len() > errs.len()))
            &&& (d.name == DirectiveName::DefaultValue ==> ((a2.read_mode
                matches FieldMode::DefaultVal(_)) || e2.len() > errs.len()))
        }),
{
}

/// The same facts, carried through a whole fold by induction.
proof fn lemma_fold_props(a: FieldAttrsV, errs: Seq<Diagnostic>, ds: Seq<RawDirective>, mode: Mode)
    ensures
        ({
            let (a2, e2) = spec_fold_field_from(a, errs, ds, mode);
            &&& e2.len() >= errs.len()
            &&& (a.deref_now matches Option::Some(_) ==> a2.deref_now matches Option::Some(_))
            &&& (a.offset_after matches Option::Some(_) ==> a2.offset_after matches Option::Some(
                _,
            ))
            &&& (a.do_try matches Option::Some(_) ==> a2.do_try matches Option::Some(_))
            &&& ((a.read_mode matches FieldMode::Calc(_, _)) ==> a2.read_mode == a.read_mode)
            &&& ((a.read_mode matches FieldMode::DefaultVal(_)) ==> a2.read_mode == a.read_mode)
            &&& (mode == Mode::Read && (has_flag_named(ds, DirectiveName::DerefNow)
                || has_flag_named(ds, DirectiveName::PostProcessNow)) ==> a2.deref_now
                matches Option::Some(_))
            &&& (mode == Mode::Read && has_single_named(ds, DirectiveName::OffsetAfter)
                ==> a2.offset_after matches Option::Some(_))
            &&& (has_named(ds, DirectiveName::DoTry) ==> (a2.do_try matches Option::Some(_)
                || e2.len() > errs.len()))
            &&& (has_named(ds, DirectiveName::Calc) ==> ((a2.read_mode matches FieldMode::Calc(
                _,
                _,
            )) || e2.len() > errs.len()))
            &&& (has_named(ds, DirectiveName::DefaultValue) ==> ((a2.read_mode
                matches FieldMode::DefaultVal(_)) || e2.len() > errs.len()))
        }),
    decreases ds.len(),
{
    if ds.len() == 0 {
    } else {
        let d = ds[0];
        let rest = ds.subrange(1, ds.len() as int);
        lemma_apply_props(a, errs, d, mode);
        let (a1, e1) = spec_apply_field_directive(a, errs, d, mode);
        lemma_fold_props(a1, e1, rest, mode);
        if has_flag_named(ds, DirectiveName::DerefNow) && !(d.name == DirectiveName::DerefNow
            && d.value matches DirectiveValue::Flag) {
            lemma_flag_named_shift(ds, DirectiveName::DerefNow);
        }
        if has_flag_named(ds, DirectiveName::PostProcessNow) && !(d.name
            == DirectiveName::PostProcessNow && d.value matches DirectiveValue::Flag) {
            lemma_flag_named_shift(ds, DirectiveName::PostProcessNow);
        }
        if has_single_named(ds, DirectiveName::OffsetAfter) && !(d.name
            == DirectiveName::OffsetAfter && d.value matches DirectiveValue::Single(_)) {
            lemma_single_named_shift(ds, DirectiveName::OffsetAfter);
        }
        if has_named(ds, DirectiveName::DoTry) && d.name != DirectiveName::DoTry {
            lemma_named_shift(ds, DirectiveName::DoTry);
        }
        if has_named(ds, DirectiveName::Calc) && d.name != DirectiveName::Calc {
            lemma_named_shift(ds, DirectiveName::Calc);
        }
        if has_named(ds, DirectiveName::DefaultValue) && d.name != DirectiveName::DefaultValue {
            lemma_named_shift(ds, DirectiveName::DefaultValue);
        }
    }
}

/// Law: resolution is deterministic. Any two specifications that satisfy the
/// resolver's contract for the same definition, index and mode are
/// structurally identical, and their diagnostic sets are the same sequence.
pub open spec fn same_field_spec(x: StructField, y: StructField) -> bool {
    &&& x.ident@ == y.ident@
    &&& x.generated_ident == y.generated_ident
    &&& x.ty == y.ty
    &&& x.attrs@ == y.attrs@
}

pub proof fn lemma_resolution_deterministic(
    f: FieldDef,
    index: int,
    mode: Mode,
    r1: StructField,
    r2: StructField,
    e1: Seq<Diagnostic>,
    e2: Seq<Diagnostic>,
)
    requires
        resolved_field(r1, f, index, mode),
        resolved_field(r2, f, index, mode),
        e1 == spec_field_errors(f, mode),
        e2 == spec_field_errors(f, mode),
    ensures
        same_field_spec(r1, r2),
        e1 == e2,
{
}

/// Law: a field with zero directives resolves successfully to all defaults:
/// no diagnostics, `has_no_attrs`, materialized on write, and not generated
/// from a calculated or defaulted value.
pub proof fn lemma_defaults_complete(f: FieldDef, mode: Mode)
    requires
        f.directives@.len() == 0,
    ensures
        spec_field_errors(f, mode).len() == 0,
        spec_has_no_attrs(spec_fold_field(f.directives@, mode).0),
        spec_is_written(spec_fold_field(f.directives@, mode).0),
        !spec_generated_value(spec_fold_field(f.directives@, mode).0),
{
    assert(spec_fold_field(f.directives@, mode).0 == default_attrs_v());
}

/// Law: a field carrying both a deref-now directive (or its alias) and an
/// offset-after directive, each with its proper shape, always resolves with a
/// diagnostic set that contains the exclusivity violation, whatever the
/// order of the directives.
pub proof fn lemma_deref_now_offset_after_exclusive(f: FieldDef, mode: Mode)
    requires
        mode == Mode::Read,
        has_flag_named(f.directives@, DirectiveName::DerefNow) || has_flag_named(
            f.directives@,
            DirectiveName::PostProcessNow,
        ),
        has_single_named(f.directives@, DirectiveName::OffsetAfter),
    ensures
        spec_field_errors(f, mode).len() > 0,
        exists|i: int|
            0 <= i < spec_field_errors(f, mode).len() && (#[trigger] spec_field_errors(f, mode)[i])
                matches Diagnostic::ExclusionViolation {
                rule: ExclusionRule::DerefNowWithOffsetAfter,
                ..
            },
{
    lemma_fold_props(default_attrs_v(), Seq::empty(), f.directives@, mode);
    let (a2, e2) = spec_fold_field(f.directives@, mode);
    let v = spec_validate(a2);
    assert(v matches Option::Some(d) && d matches Diagnostic::ExclusionViolation {
        rule: ExclusionRule::DerefNowWithOffsetAfter,
        ..
    });
    let errs = spec_field_errors(f, mode);
    assert(errs[errs.len() - 1] matches Diagnostic::ExclusionViolation {
        rule: ExclusionRule::DerefNowWithOffsetAfter,
        ..
    });
}

/// Law: a field carrying `try` together with `calc` (or with `default`) never
/// resolves cleanly, in either mode and whatever the directive order or value
/// shapes: some diagnostic is always produced.
pub proof fn lemma_try_incompatible_with_computed(f: FieldDef, mode: Mode)
    requires
        has_named(f.directives@, DirectiveName::DoTry),
        has_named(f.directives@, DirectiveName::Calc) || has_named(
            f.directives@,
            DirectiveName::DefaultValue,
        ),
    ensures
        spec_field_errors(f, mode).len() > 0,
{
    lemma_fold_props(default_attrs_v(), Seq::empty(), f.directives@, mode);
}

/// Law: the rule above never fires against a normal parse: whatever else the
/// validator reports of a field whose read mode stayed a normal parse, it is
/// not the try-incompatibility violation.
pub proof fn lemma_try_with_normal_parse_never_flagged(a: FieldAttrsV)
    requires
        a.read_mode matches FieldMode::Normal,
    ensures
        !(spec_validate(a) matches Option::Some(Diagnostic::ExclusionViolation {
            rule: ExclusionRule::TryWithComputedValue,
            ..
        })),
{
}

/// Law: diagnostics compose instead of short-circuiting: validation never
/// drops a fold-time diagnostic, and when the validator finds a violation it
/// adds exactly one more.
pub proof fn lemma_errors_accumulate(f: FieldDef, mode: Mode)
    ensures
        spec_field_errors(f, mode).len() >= spec_fold_field(f.directives@, mode).1.len(),
        (spec_validate(spec_fold_field(f.directives@, mode).0) matches Option::Some(_))
            ==> spec_field_errors(f, mode).len() == spec_fold_field(f.directives@, mode).1.len()
            + 1,
        (spec_validate(spec_fold_field(f.directives@, mode).0) matches Option::None)
            ==> spec_field_errors(f, mode) == spec_fold_field(f.directives@, mode).1,
{
}

/// Law: a unit case seen through its compound-shaped conversion always
/// reports no attributes and zero fields, since the conversion carries no
/// endianness override and no field list.
pub proof fn lemma_unit_case_uniform(r: Struct)
    requires
        r.endian == CondEndian::Inherited,
        r.fields@.len() == 0,
    ensures
        spec_struct_has_no_attrs(r),
        r.fields@.len() == 0,
{
}

/// Law: identifier synthesis is idempotent. Any two resolutions of a
/// positional field at the same index synthesize the same identifier.
pub proof fn lemma_ident_synthesis_idempotent(
    f: FieldDef,
    index: int,
    mode: Mode,
    r1: StructField,
    r2: StructField,
)
    requires
        f.ident matches Option::None,
        resolved_field(r1, f, index, mode),
        resolved_field(r2, f, index, mode),
    ensures
        r1.ident@ == synth_ident_view(index as nat),
        r1.ident@ == r2.ident@,
        r1.generated_ident,
{
}

} // verus!
use vstd::prelude::*;
use crate::directive::{DirectiveContext, spec_legal, spec_shape_of, spec_value_shape};
use crate::variant::{VariantDef, spec_unit_errors, spec_fold_head, default_head_v};

verus! {

/// Law: the folder enforces exactly what the catalog states. One folding step
/// reports an unknown directive, and changes nothing else, precisely when the
/// name is illegal for the active mode; it reports a shape mismatch, and
/// changes nothing else, precisely when a legal directive carries a value
/// shape other than the one the catalog assigns to its name.
#[verifier::rlimit(100)]
#[verifier::spinoff_prover]
pub proof fn lemma_fold_follows_catalog(
    a: FieldAttrsV,
    errs: Seq<Diagnostic>,
    d: RawDirective,
    mode: Mode,
)
    ensures
        ({
            let (a2, e2) = spec_apply_field_directive(a, errs, d, mode);
            &&& (!spec_legal(d.name, mode, DirectiveContext::FieldContext) ==> a2 == a && e2
                == errs.push(Diagnostic::UnknownDirective { span: d.span }))
            &&& ((spec_legal(d.name, mode, DirectiveContext::FieldContext) && spec_value_shape(
                d.value,
            ) != spec_shape_of(d.name)) ==> a2 == a && e2 == errs.push(
                Diagnostic::ShapeMismatch { span: d.span },
            ))
            &&& ((spec_legal(d.name, mode, DirectiveContext::FieldContext) && spec_value_shape(
                d.value,
            ) == spec_shape_of(d.name)) ==> e2 == errs || (e2.len() == errs.len() + 1 && e2.last()
                matches Diagnostic::DuplicateDirective { .. }))
        }),
{
}

/// Law: a case with zero directives resolves successfully to all defaults:
/// no diagnostics, no magic, no pre-condition assertions.
pub proof fn lemma_default_case_complete(v: VariantDef, mode: Mode)
    requires
        v.directives@.len() == 0,
    ensures
        spec_unit_errors(v, mode).len() == 0,
        spec_fold_head(v.directives@, mode, DirectiveContext::UnitCaseContext).0
            == default_head_v(),
{
}

} // verus!
