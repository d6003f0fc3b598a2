use vstd::prelude::*;
use proc_macro2::TokenStream;
use crate::span::{Span, spec_join};
use crate::tokens::{clone_tokens, clone_opt_tokens, clone_token_list};
use crate::diag::{Diagnostic, ExclusionRule, ParseResult, spec_push_opt, push_opt};
use crate::directive::{
    Mode, DirectiveContext, DirectiveName, DirectiveValue, RawDirective, spec_legal, is_legal,
};
use crate::types::{
    Endian, CondEndian, SpannedExpr, ValueTransform, PassedArgs, PassedArgsV, FieldMode,
    Condition, Assertion, ErrContext, ErrContextV, TempState,
};

verus! {

/// One field definition as handed in by the attribute-syntax scanner: an
/// explicit identifier or none (a positional field), the declared type as an
/// opaque fragment, and the raw directives in source order.
#[derive(Debug)]
pub struct FieldDef {
    pub ident: Option<String>,
    pub ty: TokenStream,
    pub directives: Vec<RawDirective>,
}

/// Every directive-settable attribute of one field, starting from
/// mode-independent defaults. Mutually exclusive groups (endianness, value
/// transform, arguments, read mode) are single tagged variants, so "more than
/// one active" is structurally impossible.
#[derive(Debug)]
pub struct FieldAttrs {
    pub endian: CondEndian,
    pub transform: ValueTransform,
    pub magic: Option<SpannedExpr>,
    pub args: PassedArgs,
    pub read_mode: FieldMode,
    pub count: Option<SpannedExpr>,
    pub offset: Option<SpannedExpr>,
    pub offset_after: Option<SpannedExpr>,
    pub if_cond: Option<Condition>,
    pub deref_now: Option<Span>,
    pub restore_position: Option<Span>,
    pub do_try: Option<Span>,
    pub temp: TempState,
    pub assertions: Vec<Assertion>,
    pub err_context: Option<ErrContext>,
    pub pad_before: Option<SpannedExpr>,
    pub pad_after: Option<SpannedExpr>,
    pub align_before: Option<SpannedExpr>,
    pub align_after: Option<SpannedExpr>,
    pub seek_before: Option<SpannedExpr>,
    pub pad_size_to: Option<SpannedExpr>,
}

/// Spec-level mirror of `FieldAttrs`, with lists as sequences.
#[verifier::ext_equal]
pub struct FieldAttrsV {
    pub endian: CondEndian,
    pub transform: ValueTransform,
    pub magic: Option<SpannedExpr>,
    pub args: PassedArgsV,
    pub read_mode: FieldMode,
    pub count: Option<SpannedExpr>,
    pub offset: Option<SpannedExpr>,
    pub offset_after: Option<SpannedExpr>,
    pub if_cond: Option<Condition>,
    pub deref_now: Option<Span>,
    pub restore_position: Option<Span>,
    pub do_try: Option<Span>,
    pub temp: TempState,
    pub assertions: Seq<Assertion>,
    pub err_context: Option<ErrContextV>,
    pub pad_before: Option<SpannedExpr>,
    pub pad_after: Option<SpannedExpr>,
    pub align_before: Option<SpannedExpr>,
    pub align_after: Option<SpannedExpr>,
    pub seek_before: Option<SpannedExpr>,
    pub pad_size_to: Option<SpannedExpr>,
}

impl View for FieldAttrs {
    type V = FieldAttrsV;

    open spec fn view(&self) -> FieldAttrsV {
        FieldAttrsV {
            endian: self.endian,
            transform: self.transform,
            magic: self.magic,
            args: self.args@,
            read_mode: self.read_mode,
            count: self.count,
            offset: self.offset,
            offset_after: self.offset_after,
            if_cond: self.if_cond,
            deref_now: self.deref_now,
            restore_position: self.restore_position,
            do_try: self.do_try,
            temp: self.temp,
            assertions: self.assertions@,
            err_context: match self.err_context {
                Option::Some(ref ec) => Option::Some(ec@),
                Option::None => Option::None,
            },
            pad_before: self.pad_before,
            pad_after: self.pad_after,
            align_before: self.align_before,
            align_after: self.align_after,
            seek_before: self.seek_before,
            pad_size_to: self.pad_size_to,
        }
    }
}

/// The all-defaults attribute state: endianness inherited, no transform, no
/// arguments, a normal parse, and every optional attribute unset.
pub open spec fn default_attrs_v() -> FieldAttrsV {
    FieldAttrsV {
        endian: CondEndian::Inherited,
        transform: ValueTransform::Identity,
        magic: Option::None,
        args: PassedArgsV::NoArgs,
        read_mode: FieldMode::Normal,
        count: Option::None,
        offset: Option::None,
        offset_after: Option::None,
        if_cond: Option::None,
        deref_now: Option::None,
        restore_position: Option::None,
        do_try: Option::None,
        temp: TempState::NotTemp,
        assertions: Seq::empty(),
        err_context: Option::None,
        pad_before: Option::None,
        pad_after: Option::None,
        align_before: Option::None,
        align_after: Option::None,
        seek_before: Option::None,
        pad_size_to: Option::None,
    }
}

impl FieldAttrs {
    /// The defaults every field starts from before directives are folded in.
    pub fn new_defaults() -> (r: FieldAttrs)
        ensures
            r@ == default_attrs_v(),
    {
        let r = FieldAttrs {
            endian: CondEndian::Inherited,
            transform: ValueTransform::Identity,
            magic: Option::None,
            args: PassedArgs::NoArgs,
            read_mode: FieldMode::Normal,
            count: Option::None,
            offset: Option::None,
            offset_after: Option::None,
            if_cond: Option::None,
            deref_now: Option::None,
            restore_position: Option::None,
            do_try: Option::None,
            temp: TempState::NotTemp,
            assertions: Vec::new(),
            err_context: Option::None,
            pad_before: Option::None,
            pad_after: Option::None,
            align_before: Option::None,
            align_after: Option::None,
            seek_before: Option::None,
            pad_size_to: Option::None,
        };
        proof {
            assert(r@ =~= default_attrs_v());
        }
        r
    }
}

// --- spec-level location of the directive that set each exclusive group ---

pub open spec fn spec_endian_span(e: CondEndian) -> Span {
    match e {
        CondEndian::Inherited => Span { lo: 0, hi: 0 },
        CondEndian::Fixed(s, _) => s,
        CondEndian::Cond(s, _, _) => s,
    }
}

pub open spec fn spec_transform_span(t: ValueTransform) -> Span {
    match t {
        ValueTransform::Identity => Span { lo: 0, hi: 0 },
        ValueTransform::Mapped(s, _) => s,
        ValueTransform::TryMapped(s, _) => s,
        ValueTransform::Repr(s, _) => s,
    }
}

pub open spec fn spec_args_span(a: PassedArgsV) -> Span {
    match a {
        PassedArgsV::NoArgs => Span { lo: 0, hi: 0 },
        PassedArgsV::ArgList(s, _) => s,
        PassedArgsV::RawArgs(s, _) => s,
    }
}

pub open spec fn spec_mode_span(m: FieldMode) -> Span {
    match m {
        FieldMode::Normal => Span { lo: 0, hi: 0 },
        FieldMode::Calc(s, _) => s,
        FieldMode::DefaultVal(s) => s,
        FieldMode::CustomParser(s, _) => s,
        FieldMode::CustomWriter(s, _) => s,
    }
}

pub open spec fn dup_diag(first: Span, second: Span) -> Diagnostic {
    Diagnostic::DuplicateDirective { first, second }
}

// --- spec-level single-slot updates: first occurrence sets, a second is a
// duplicate identifying both locations ---

pub open spec fn spec_set_expr(cur: Option<SpannedExpr>, span: Span, ts: TokenStream) -> (
    Option<SpannedExpr>,
    Option<Diagnostic>,
) {
    match cur {
        Option::None => (Option::Some(SpannedExpr { span, tokens: ts }), Option::None),
        Option::Some(prev) => (cur, Option::Some(dup_diag(prev.span, span))),
    }
}

pub open spec fn spec_set_marker(cur: Option<Span>, span: Span) -> (
    Option<Span>,
    Option<Diagnostic>,
) {
    match cur {
        Option::None => (Option::Some(span), Option::None),
        Option::Some(prev) => (cur, Option::Some(dup_diag(prev, span))),
    }
}

pub open spec fn spec_set_endian(a: FieldAttrsV, errs: Seq<Diagnostic>, span: Span, new: CondEndian) -> (
    FieldAttrsV,
    Seq<Diagnostic>,
) {
    match a.endian {
        CondEndian::Inherited => (FieldAttrsV { endian: new, ..a }, errs),
        _ => (a, errs.push(dup_diag(spec_endian_span(a.endian), span))),
    }
}

pub open spec fn spec_set_transform(a: FieldAttrsV, errs: Seq<Diagnostic>, span: Span, new: ValueTransform) -> (
    FieldAttrsV,
    Seq<Diagnostic>,
) {
    match a.transform {
        ValueTransform::Identity => (FieldAttrsV { transform: new, ..a }, errs),
        _ => (a, errs.push(dup_diag(spec_transform_span(a.transform), span))),
    }
}

pub open spec fn spec_set_args(a: FieldAttrsV, errs: Seq<Diagnostic>, span: Span, new: PassedArgsV) -> (
    FieldAttrsV,
    Seq<Diagnostic>,
) {
    match a.args {
        PassedArgsV::NoArgs => (FieldAttrsV { args: new, ..a }, errs),
        _ => (a, errs.push(dup_diag(spec_args_span(a.args), span))),
    }
}

pub open spec fn spec_set_mode(a: FieldAttrsV, errs: Seq<Diagnostic>, span: Span, new: FieldMode) -> (
    FieldAttrsV,
    Seq<Diagnostic>,
) {
    match a.read_mode {
        FieldMode::Normal => (FieldAttrsV { read_mode: new, ..a }, errs),
        _ => (a, errs.push(dup_diag(spec_mode_span(a.read_mode), span))),
    }
}

pub open spec fn spec_set_temp(cur: TempState, span: Span) -> (TempState, Option<Diagnostic>) {
    match cur {
        TempState::NotTemp => (TempState::FromDirective(span), Option::None),
        TempState::FromDirective(prev) => (cur, Option::Some(dup_diag(prev, span))),
        TempState::Forced => (cur, Option::Some(dup_diag(span, span))),
    }
}

pub open spec fn shape_err(a: FieldAttrsV, errs: Seq<Diagnostic>, span: Span) -> (
    FieldAttrsV,
    Seq<Diagnostic>,
) {
    (a, errs.push(Diagnostic::ShapeMismatch { span }))
}

/// Folds one raw directive into the attribute state: an illegal name for the
/// active mode or a wrong value shape is recorded as a diagnostic and the
/// state is left as it was; a recognized directive sets its attribute, or
/// reports a duplicate when the attribute was already set. Assertions append.
pub open spec fn spec_apply_field_directive(
    a: FieldAttrsV,
    errs: Seq<Diagnostic>,
    d: RawDirective,
    mode: Mode,
) -> (FieldAttrsV, Seq<Diagnostic>) {
    if !spec_legal(d.name, mode, DirectiveContext::FieldContext) {
        (a, errs.push(Diagnostic::UnknownDirective { span: d.span }))
    } else {
        match d.name {
            DirectiveName::Big => match d.value {
                DirectiveValue::Flag => spec_set_endian(
                    a,
                    errs,
                    d.span,
                    CondEndian::Fixed(d.span, Endian::Big),
                ),
                _ => shape_err(a, errs, d.span),
            },
            DirectiveName::Little => match d.value {
                DirectiveValue::Flag => spec_set_endian(
                    a,
                    errs,
                    d.span,
                    CondEndian::Fixed(d.span, Endian::Little),
                ),
                _ => shape_err(a, errs, d.span),
            },
            DirectiveName::IsBig => match d.value {
                DirectiveValue::Single(ts) => spec_set_endian(
                    a,
                    errs,
                    d.span,
                    CondEndian::Cond(d.span, Endian::Big, ts),
                ),
                _ => shape_err(a, errs, d.span),
            },
            DirectiveName::IsLittle => match d.value {
                DirectiveValue::Single(ts) => spec_set_endian(
                    a,
                    errs,
                    d.span,
                    CondEndian::Cond(d.span, Endian::Little, ts),
                ),
                _ => shape_err(a, errs, d.span),
            },
            DirectiveName::MapValue => match d.value {
                DirectiveValue::Single(ts) => spec_set_transform(
                    a,
                    errs,
                    d.span,
                    ValueTransform::Mapped(d.span, ts),
                ),
                _ => shape_err(a, errs, d.span),
            },
            DirectiveName::TryMapValue => match d.value {
                DirectiveValue::Single(ts) => spec_set_transform(
                    a,
                    errs,
                    d.span,
                    ValueTransform::TryMapped(d.span, ts),
                ),
                _ => shape_err(a, errs, d.span),
            },
            DirectiveName::Repr => match d.value {
                DirectiveValue::Single(ts) => spec_set_transform(
                    a,
                    errs,
                    d.span,
                    ValueTransform::Repr(d.span, ts),
                ),
                _ => shape_err(a, errs, d.span),
            },
            DirectiveName::Magic => match d.value {
                DirectiveValue::Single(ts) => {
                    let (slot, e) = spec_set_expr(a.magic, d.span, ts);
                    (FieldAttrsV { magic: slot, ..a }, spec_push_opt(errs, e))
                },
                _ => shape_err(a, errs, d.span),
            },
            DirectiveName::Args => match d.value {
                DirectiveValue::ExprList(v) => spec_set_args(
                    a,
                    errs,
                    d.span,
                    PassedArgsV::ArgList(d.span, v@),
                ),
                _ => shape_err(a, errs, d.span),
            },
            DirectiveName::ArgsRaw => match d.value {
                DirectiveValue::Single(ts) => spec_set_args(
                    a,
                    errs,
                    d.span,
                    PassedArgsV::RawArgs(d.span, ts),
                ),
                _ => shape_err(a, errs, d.span),
            },
            DirectiveName::Calc => match d.value {
                DirectiveValue::Single(ts) => spec_set_mode(
                    a,
                    errs,
                    d.span,
                    FieldMode::Calc(d.span, ts),
                ),
                _ => shape_err(a, errs, d.span),
            },
            DirectiveName::DefaultValue => match d.value {
                DirectiveValue::Flag => spec_set_mode(a, errs, d.span, FieldMode::DefaultVal(d.span)),
                _ => shape_err(a, errs, d.span),
            },
            DirectiveName::Ignore => match d.value {
                DirectiveValue::Flag => spec_set_mode(a, errs, d.span, FieldMode::DefaultVal(d.span)),
                _ => shape_err(a, errs, d.span),
            },
            DirectiveName::ParseWith => match d.value {
                DirectiveValue::Single(ts) => spec_set_mode(
                    a,
                    errs,
                    d.span,
                    FieldMode::CustomParser(d.span, ts),
                ),
                _ => shape_err(a, errs, d.span),
            },
            DirectiveName::WriteWith => match d.value {
                DirectiveValue::Single(ts) => spec_set_mode(
                    a,
                    errs,
                    d.span,
                    FieldMode::CustomWriter(d.span, ts),
                ),
                _ => shape_err(a, errs, d.span),
            },
            DirectiveName::Count => match d.value {
                DirectiveValue::Single(ts) => {
                    let (slot, e) = spec_set_expr(a.count, d.span, ts);
                    (FieldAttrsV { count: slot, ..a }, spec_push_opt(errs, e))
                },
                _ => shape_err(a, errs, d.span),
            },
            DirectiveName::Offset => match d.value {
                DirectiveValue::Single(ts) => {
                    let (slot, e) = spec_set_expr(a.offset, d.span, ts);
                    (FieldAttrsV { offset: slot, ..a }, spec_push_opt(errs, e))
                },
                _ => shape_err(a, errs, d.span),
            },
            DirectiveName::OffsetAfter => match d.value {
                DirectiveValue::Single(ts) => {
                    let (slot, e) = spec_set_expr(a.offset_after, d.span, ts);
                    (FieldAttrsV { offset_after: slot, ..a }, spec_push_opt(errs, e))
                },
                _ => shape_err(a, errs, d.span),
            },
            DirectiveName::IfCond => match d.value {
                DirectiveValue::Check(c, alt) => match a.if_cond {
                    Option::None => (
                        FieldAttrsV {
                            if_cond: Option::Some(
                                Condition { span: d.span, condition: c, alternate: alt },
                            ),
                            ..a
                        },
                        errs,
                    ),
                    Option::Some(prev) => (a, errs.push(dup_diag(prev.span, d.span))),
                },
                _ => shape_err(a, errs, d.span),
            },
            DirectiveName::DerefNow | DirectiveName::PostProcessNow => match d.value {
                DirectiveValue::Flag => {
                    let (slot, e) = spec_set_marker(a.deref_now, d.span);
                    (FieldAttrsV { deref_now: slot, ..a }, spec_push_opt(errs, e))
                },
                _ => shape_err(a, errs, d.span),
            },
            DirectiveName::RestorePosition => match d.value {
                DirectiveValue::Flag => {
                    let (slot, e) = spec_set_marker(a.restore_position, d.span);
                    (FieldAttrsV { restore_position: slot, ..a }, spec_push_opt(errs, e))
                },
                _ => shape_err(a, errs, d.span),
            },
            DirectiveName::DoTry => match d.value {
                DirectiveValue::Flag => {
                    let (slot, e) = spec_set_marker(a.do_try, d.span);
                    (FieldAttrsV { do_try: slot, ..a }, spec_push_opt(errs, e))
                },
                _ => shape_err(a, errs, d.span),
            },
            DirectiveName::Temp => match d.value {
                DirectiveValue::Flag => {
                    let (slot, e) = spec_set_temp(a.temp, d.span);
                    (FieldAttrsV { temp: slot, ..a }, spec_push_opt(errs, e))
                },
                _ => shape_err(a, errs, d.span),
            },
            DirectiveName::Assertion => match d.value {
                DirectiveValue::Check(c, msg) => (
                    FieldAttrsV {
                        assertions: a.assertions.push(
                            Assertion { span: d.span, condition: c, message: msg },
                        ),
                        ..a
                    },
                    errs,
                ),
                _ => shape_err(a, errs, d.span),
            },
            DirectiveName::ErrContext => match d.value {
                DirectiveValue::ExprList(v) => match a.err_context {
                    Option::None => (
                        FieldAttrsV {
                            err_context: Option::Some(ErrContextV { span: d.span, parts: v@ }),
                            ..a
                        },
                        errs,
                    ),
                    Option::Some(prev) => (a, errs.push(dup_diag(prev.span, d.span))),
                },
                _ => shape_err(a, errs, d.span),
            },
            DirectiveName::PadBefore => match d.value {
                DirectiveValue::Single(ts) => {
                    let (slot, e) = spec_set_expr(a.pad_before, d.span, ts);
                    (FieldAttrsV { pad_before: slot, ..a }, spec_push_opt(errs, e))
                },
                _ => shape_err(a, errs, d.span),
            },
            DirectiveName::PadAfter => match d.value {
                DirectiveValue::Single(ts) => {
                    let (slot, e) = spec_set_expr(a.pad_after, d.span, ts);
                    (FieldAttrsV { pad_after: slot, ..a }, spec_push_opt(errs, e))
                },
                _ => shape_err(a, errs, d.span),
            },
            DirectiveName::AlignBefore => match d.value {
                DirectiveValue::Single(ts) => {
                    let (slot, e) = spec_set_expr(a.align_before, d.span, ts);
                    (FieldAttrsV { align_before: slot, ..a }, spec_push_opt(errs, e))
                },
                _ => shape_err(a, errs, d.span),
            },
            DirectiveName::AlignAfter => match d.value {
                DirectiveValue::Single(ts) => {
                    let (slot, e) = spec_set_expr(a.align_after, d.span, ts);
                    (FieldAttrsV { align_after: slot, ..a }, spec_push_opt(errs, e))
                },
                _ => shape_err(a, errs, d.span),
            },
            DirectiveName::SeekBefore => match d.value {
                DirectiveValue::Single(ts) => {
                    let (slot, e) = spec_set_expr(a.seek_before, d.span, ts);
                    (FieldAttrsV { seek_before: slot, ..a }, spec_push_opt(errs, e))
                },
                _ => shape_err(a, errs, d.span),
            },
            DirectiveName::PadSizeTo => match d.value {
                DirectiveValue::Single(ts) => {
                    let (slot, e) = spec_set_expr(a.pad_size_to, d.span, ts);
                    (FieldAttrsV { pad_size_to: slot, ..a }, spec_push_opt(errs, e))
                },
                _ => shape_err(a, errs, d.span),
            },
            DirectiveName::PreAssertion => (a, errs),
        }
    }
}

/// Folding is total: every directive is folded in source order, and an error
/// on one never stops the folding of the ones after it.
pub open spec fn spec_fold_field_from(
    a: FieldAttrsV,
    errs: Seq<Diagnostic>,
    ds: Seq<RawDirective>,
    mode: Mode,
) -> (FieldAttrsV, Seq<Diagnostic>)
    decreases ds.len(),
{
    if ds.len() == 0 {
        (a, errs)
    } else {
        let (a2, e2) = spec_apply_field_directive(a, errs, ds[0], mode);
        spec_fold_field_from(a2, e2, ds.subrange(1, ds.len() as int), mode)
    }
}

pub open spec fn spec_fold_field(ds: Seq<RawDirective>, mode: Mode) -> (
    FieldAttrsV,
    Seq<Diagnostic>,
) {
    spec_fold_field_from(default_attrs_v(), Seq::empty(), ds, mode)
}

pub proof fn lemma_fold_field_snoc(
    a: FieldAttrsV,
    errs: Seq<Diagnostic>,
    ds: Seq<RawDirective>,
    d: RawDirective,
    mode: Mode,
)
    ensures
        spec_fold_field_from(a, errs, ds.push(d), mode) == ({
            let (a2, e2) = spec_fold_field_from(a, errs, ds, mode);
            spec_apply_field_directive(a2, e2, d, mode)
        }),
    decreases ds.len(),
{
    let pushed = ds.push(d);
    if ds.len() == 0 {
        assert(pushed[0] == d);
        let (a2, e2) = spec_apply_field_directive(a, errs, d, mode);
        assert(pushed.subrange(1, pushed.len() as int) =~= Seq::<RawDirective>::empty());
        assert(spec_fold_field_from(a2, e2, pushed.subrange(1, pushed.len() as int), mode) == (
            a2,
            e2,
        ));
        assert(spec_fold_field_from(a, errs, ds, mode) == (a, errs));
    } else {
        assert(pushed[0] == ds[0]);
        assert(pushed.subrange(1, pushed.len() as int) =~= ds.subrange(1, ds.len() as int).push(
            d,
        ));
        let (a2, e2) = spec_apply_field_directive(a, errs, ds[0], mode);
        lemma_fold_field_snoc(a2, e2, ds.subrange(1, ds.len() as int), d, mode);
        assert(spec_fold_field_from(a, errs, pushed, mode) == spec_fold_field_from(
            a2,
            e2,
            pushed.subrange(1, pushed.len() as int),
            mode,
        ));
        assert(spec_fold_field_from(a, errs, ds, mode) == spec_fold_field_from(
            a2,
            e2,
            ds.subrange(1, ds.len() as int),
            mode,
        ));
    }
}

// --- executable slot updates, proved against the spec-level ones ---

fn set_expr_slot(cur: &Option<SpannedExpr>, span: Span, ts: &TokenStream) -> (r: (
    Option<SpannedExpr>,
    Option<Diagnostic>,
))
    ensures
        r.0 == spec_set_expr(*cur, span, *ts).0,
        r.1 == spec_set_expr(*cur, span, *ts).1,
{
    match cur {
        Option::None => (
            Option::Some(SpannedExpr { span, tokens: clone_tokens(ts) }),
            Option::None,
        ),
        Option::Some(prev) => (
            Option::Some(SpannedExpr { span: prev.span, tokens: clone_tokens(&prev.tokens) }),
            Option::Some(Diagnostic::DuplicateDirective { first: prev.span, second: span }),
        ),
    }
}

fn set_marker_slot(cur: &Option<Span>, span: Span) -> (r: (Option<Span>, Option<Diagnostic>))
    ensures
        r.0 == spec_set_marker(*cur, span).0,
        r.1 == spec_set_marker(*cur, span).1,
{
    match cur {
        Option::None => (Option::Some(span), Option::None),
        Option::Some(prev) => (
            Option::Some(*prev),
            Option::Some(Diagnostic::DuplicateDirective { first: *prev, second: span }),
        ),
    }
}

fn push_shape(errs: Vec<Diagnostic>, span: Span) -> (r: Vec<Diagnostic>)
    ensures
        r@ == errs@.push(Diagnostic::ShapeMismatch { span }),
{
    let mut errs = errs;
    errs.push(Diagnostic::ShapeMismatch { span });
    errs
}

pub(crate) fn endian_first_span(e: &CondEndian) -> (r: Span)
    ensures
        r == spec_endian_span(*e),
{
    match e {
        CondEndian::Inherited => Span { lo: 0, hi: 0 },
        CondEndian::Fixed(s, _) => *s,
        CondEndian::Cond(s, _, _) => *s,
    }
}

fn transform_first_span(t: &ValueTransform) -> (r: Span)
    ensures
        r == spec_transform_span(*t),
{
    match t {
        ValueTransform::Identity => Span { lo: 0, hi: 0 },
        ValueTransform::Mapped(s, _) => *s,
        ValueTransform::TryMapped(s, _) => *s,
        ValueTransform::Repr(s, _) => *s,
    }
}

fn args_first_span(a: &PassedArgs) -> (r: Span)
    ensures
        r == spec_args_span(a@),
{
    match a {
        PassedArgs::NoArgs => Span { lo: 0, hi: 0 },
        PassedArgs::ArgList(s, _) => *s,
        PassedArgs::RawArgs(s, _) => *s,
    }
}

fn mode_first_span(m: &FieldMode) -> (r: Span)
    ensures
        r == spec_mode_span(*m),
{
    match m {
        FieldMode::Normal => Span { lo: 0, hi: 0 },
        FieldMode::Calc(s, _) => *s,
        FieldMode::DefaultVal(s) => *s,
        FieldMode::CustomParser(s, _) => *s,
        FieldMode::CustomWriter(s, _) => *s,
    }
}

fn set_endian(a: FieldAttrs, errs: Vec<Diagnostic>, span: Span, new: CondEndian) -> (r: (
    FieldAttrs,
    Vec<Diagnostic>,
))
    ensures
        r.0@ == spec_set_endian(a@, errs@, span, new).0,
        r.1@ == spec_set_endian(a@, errs@, span, new).1,
{
    if matches!(a.endian, CondEndian::Inherited) {
        (FieldAttrs { endian: new, ..a }, errs)
    } else {
        let first = endian_first_span(&a.endian);
        let mut errs = errs;
        errs.push(Diagnostic::DuplicateDirective { first, second: span });
        (a, errs)
    }
}

fn set_transform(a: FieldAttrs, errs: Vec<Diagnostic>, span: Span, new: ValueTransform) -> (r: (
    FieldAttrs,
    Vec<Diagnostic>,
))
    ensures
        r.0@ == spec_set_transform(a@, errs@, span, new).0,
        r.1@ == spec_set_transform(a@, errs@, span, new).1,
{
    if matches!(a.transform, ValueTransform::Identity) {
        (FieldAttrs { transform: new, ..a }, errs)
    } else {
        let first = transform_first_span(&a.transform);
        let mut errs = errs;
        errs.push(Diagnostic::DuplicateDirective { first, second: span });
        (a, errs)
    }
}

fn set_args(a: FieldAttrs, errs: Vec<Diagnostic>, span: Span, new: PassedArgs) -> (r: (
    FieldAttrs,
    Vec<Diagnostic>,
))
    ensures
        r.0@ == spec_set_args(a@, errs@, span, new@).0,
        r.1@ == spec_set_args(a@, errs@, span, new@).1,
{
    if matches!(a.args, PassedArgs::NoArgs) {
        (FieldAttrs { args: new, ..a }, errs)
    } else {
        let first = args_first_span(&a.args);
        let mut errs = errs;
        errs.push(Diagnostic::DuplicateDirective { first, second: span });
        (a, errs)
    }
}

fn set_mode(a: FieldAttrs, errs: Vec<Diagnostic>, span: Span, new: FieldMode) -> (r: (
    FieldAttrs,
    Vec<Diagnostic>,
))
    ensures
        r.0@ == spec_set_mode(a@, errs@, span, new).0,
        r.1@ == spec_set_mode(a@, errs@, span, new).1,
{
    if matches!(a.read_mode, FieldMode::Normal) {
        (FieldAttrs { read_mode: new, ..a }, errs)
    } else {
        let first = mode_first_span(&a.read_mode);
        let mut errs = errs;
        errs.push(Diagnostic::DuplicateDirective { first, second: span });
        (a, errs)
    }
}

/// Folds one raw directive into the attribute state, best-effort.
#[verifier::rlimit(100)]
pub fn apply_field_directive(
    a: FieldAttrs,
    errs: Vec<Diagnostic>,
    d: &RawDirective,
    mode: Mode,
) -> (r: (FieldAttrs, Vec<Diagnostic>))
    ensures
        r.0@ == spec_apply_field_directive(a@, errs@, *d, mode).0,
        r.1@ == spec_apply_field_directive(a@, errs@, *d, mode).1,
{
    if !is_legal(d.name, mode, DirectiveContext::FieldContext) {
        let mut errs = errs;
        errs.push(Diagnostic::UnknownDirective { span: d.span });
        return (a, errs);
    }
    match d.name {
        DirectiveName::Big => match &d.value {
            DirectiveValue::Flag => set_endian(a, errs, d.span, CondEndian::Fixed(d.span, Endian::Big)),
            _ => (a, push_shape(errs, d.span)),
        },
        DirectiveName::Little => match &d.value {
            DirectiveValue::Flag => set_endian(
                a,
                errs,
                d.span,
                CondEndian::Fixed(d.span, Endian::Little),
            ),
            _ => (a, push_shape(errs, d.span)),
        },
        DirectiveName::IsBig => match &d.value {
            DirectiveValue::Single(ts) => set_endian(
                a,
                errs,
                d.span,
                CondEndian::Cond(d.span, Endian::Big, clone_tokens(ts)),
            ),
            _ => (a, push_shape(errs, d.span)),
        },
        DirectiveName::IsLittle => match &d.value {
            DirectiveValue::Single(ts) => set_endian(
                a,
                errs,
                d.span,
                CondEndian::Cond(d.span, Endian::Little, clone_tokens(ts)),
            ),
            _ => (a, push_shape(errs, d.span)),
        },
        DirectiveName::MapValue => match &d.value {
            DirectiveValue::Single(ts) => set_transform(
                a,
                errs,
                d.span,
                ValueTransform::Mapped(d.span, clone_tokens(ts)),
            ),
            _ => (a, push_shape(errs, d.span)),
        },
        DirectiveName::TryMapValue => match &d.value {
            DirectiveValue::Single(ts) => set_transform(
                a,
                errs,
                d.span,
                ValueTransform::TryMapped(d.span, clone_tokens(ts)),
            ),
            _ => (a, push_shape(errs, d.span)),
        },
        DirectiveName::Repr => match &d.value {
            DirectiveValue::Single(ts) => set_transform(
                a,
                errs,
                d.span,
                ValueTransform::Repr(d.span, clone_tokens(ts)),
            ),
            _ => (a, push_shape(errs, d.span)),
        },
        DirectiveName::Magic => match &d.value {
            DirectiveValue::Single(ts) => {
                let (slot, e) = set_expr_slot(&a.magic, d.span, ts);
                (FieldAttrs { magic: slot, ..a }, push_opt(errs, e))
            },
            _ => (a, push_shape(errs, d.span)),
        },
        DirectiveName::Args => match &d.value {
            DirectiveValue::ExprList(v) => set_args(
                a,
                errs,
                d.span,
                PassedArgs::ArgList(d.span, clone_token_list(v)),
            ),
            _ => (a, push_shape(errs, d.span)),
        },
        DirectiveName::ArgsRaw => match &d.value {
            DirectiveValue::Single(ts) => set_args(
                a,
                errs,
                d.span,
                PassedArgs::RawArgs(d.span, clone_tokens(ts)),
            ),
            _ => (a, push_shape(errs, d.span)),
        },
        DirectiveName::Calc => match &d.value {
            DirectiveValue::Single(ts) => set_mode(
                a,
                errs,
                d.span,
                FieldMode::Calc(d.span, clone_tokens(ts)),
            ),
            _ => (a, push_shape(errs, d.span)),
        },
        DirectiveName::DefaultValue => match &d.value {
            DirectiveValue::Flag => set_mode(a, errs, d.span, FieldMode::DefaultVal(d.span)),
            _ => (a, push_shape(errs, d.span)),
        },
        DirectiveName::Ignore => match &d.value {
            DirectiveValue::Flag => set_mode(a, errs, d.span, FieldMode::DefaultVal(d.span)),
            _ => (a, push_shape(errs, d.span)),
        },
        DirectiveName::ParseWith => match &d.value {
            DirectiveValue::Single(ts) => set_mode(
                a,
                errs,
                d.span,
                FieldMode::CustomParser(d.span, clone_tokens(ts)),
            ),
            _ => (a, push_shape(errs, d.span)),
        },
        DirectiveName::WriteWith => match &d.value {
            DirectiveValue::Single(ts) => set_mode(
                a,
                errs,
                d.span,
                FieldMode::CustomWriter(d.span, clone_tokens(ts)),
            ),
            _ => (a, push_shape(errs, d.span)),
        },
        DirectiveName::Count => match &d.value {
            DirectiveValue::Single(ts) => {
                let (slot, e) = set_expr_slot(&a.count, d.span, ts);
                (FieldAttrs { count: slot, ..a }, push_opt(errs, e))
            },
            _ => (a, push_shape(errs, d.span)),
        },
        DirectiveName::Offset => match &d.value {
            DirectiveValue::Single(ts) => {
                let (slot, e) = set_expr_slot(&a.offset, d.span, ts);
                (FieldAttrs { offset: slot, ..a }, push_opt(errs, e))
            },
            _ => (a, push_shape(errs, d.span)),
        },
        DirectiveName::OffsetAfter => match &d.value {
            DirectiveValue::Single(ts) => {
                let (slot, e) = set_expr_slot(&a.offset_after, d.span, ts);
                (FieldAttrs { offset_after: slot, ..a }, push_opt(errs, e))
            },
            _ => (a, push_shape(errs, d.span)),
        },
        DirectiveName::IfCond => match &d.value {
            DirectiveValue::Check(c, alt) => match &a.if_cond {
                Option::None => (
                    FieldAttrs {
                        if_cond: Option::Some(
                            Condition {
                                span: d.span,
                                condition: clone_tokens(c),
                                alternate: clone_opt_tokens(alt),
                            },
                        ),
                        ..a
                    },
                    errs,
                ),
                Option::Some(prev) => {
                    let first = prev.span;
                    let mut errs = errs;
                    errs.push(Diagnostic::DuplicateDirective { first, second: d.span });
                    (a, errs)
                },
            },
            _ => (a, push_shape(errs, d.span)),
        },
        DirectiveName::DerefNow | DirectiveName::PostProcessNow => match &d.value {
            DirectiveValue::Flag => {
                let (slot, e) = set_marker_slot(&a.deref_now, d.span);
                (FieldAttrs { deref_now: slot, ..a }, push_opt(errs, e))
            },
            _ => (a, push_shape(errs, d.span)),
        },
        DirectiveName::RestorePosition => match &d.value {
            DirectiveValue::Flag => {
                let (slot, e) = set_marker_slot(&a.restore_position, d.span);
                (FieldAttrs { restore_position: slot, ..a }, push_opt(errs, e))
            },
            _ => (a, push_shape(errs, d.span)),
        },
        DirectiveName::DoTry => match &d.value {
            DirectiveValue::Flag => {
                let (slot, e) = set_marker_slot(&a.do_try, d.span);
                (FieldAttrs { do_try: slot, ..a }, push_opt(errs, e))
            },
            _ => (a, push_shape(errs, d.span)),
        },
        DirectiveName::Temp => match &d.value {
            DirectiveValue::Flag => match a.temp {
                TempState::NotTemp => (
                    FieldAttrs { temp: TempState::FromDirective(d.span), ..a },
                    errs,
                ),
                TempState::FromDirective(prev) => {
                    let mut errs = errs;
                    errs.push(Diagnostic::DuplicateDirective { first: prev, second: d.span });
                    (a, errs)
                },
                TempState::Forced => {
                    let mut errs = errs;
                    errs.push(Diagnostic::DuplicateDirective { first: d.span, second: d.span });
                    (a, errs)
                },
            },
            _ => (a, push_shape(errs, d.span)),
        },
        DirectiveName::Assertion => match &d.value {
            DirectiveValue::Check(c, msg) => {
                let mut a = a;
                a.assertions.push(
                    Assertion {
                        span: d.span,
                        condition: clone_tokens(c),
                        message: clone_opt_tokens(msg),
                    },
                );
                (a, errs)
            },
            _ => (a, push_shape(errs, d.span)),
        },
        DirectiveName::ErrContext => match &d.value {
            DirectiveValue::ExprList(v) => match &a.err_context {
                Option::None => (
                    FieldAttrs {
                        err_context: Option::Some(
                            ErrContext { span: d.span, parts: clone_token_list(v) },
                        ),
                        ..a
                    },
                    errs,
                ),
                Option::Some(prev) => {
                    let first = prev.span;
                    let mut errs = errs;
                    errs.push(Diagnostic::DuplicateDirective { first, second: d.span });
                    (a, errs)
                },
            },
            _ => (a, push_shape(errs, d.span)),
        },
        DirectiveName::PadBefore => match &d.value {
            DirectiveValue::Single(ts) => {
                let (slot, e) = set_expr_slot(&a.pad_before, d.span, ts);
                (FieldAttrs { pad_before: slot, ..a }, push_opt(errs, e))
            },
            _ => (a, push_shape(errs, d.span)),
        },
        DirectiveName::PadAfter => match &d.value {
            DirectiveValue::Single(ts) => {
                let (slot, e) = set_expr_slot(&a.pad_after, d.span, ts);
                (FieldAttrs { pad_after: slot, ..a }, push_opt(errs, e))
            },
            _ => (a, push_shape(errs, d.span)),
        },
        DirectiveName::AlignBefore => match &d.value {
            DirectiveValue::Single(ts) => {
                let (slot, e) = set_expr_slot(&a.align_before, d.span, ts);
                (FieldAttrs { align_before: slot, ..a }, push_opt(errs, e))
            },
            _ => (a, push_shape(errs, d.span)),
        },
        DirectiveName::AlignAfter => match &d.value {
            DirectiveValue::Single(ts) => {
                let (slot, e) = set_expr_slot(&a.align_after, d.span, ts);
                (FieldAttrs { align_after: slot, ..a }, push_opt(errs, e))
            },
            _ => (a, push_shape(errs, d.span)),
        },
        DirectiveName::SeekBefore => match &d.value {
            DirectiveValue::Single(ts) => {
                let (slot, e) = set_expr_slot(&a.seek_before, d.span, ts);
                (FieldAttrs { seek_before: slot, ..a }, push_opt(errs, e))
            },
            _ => (a, push_shape(errs, d.span)),
        },
        DirectiveName::PadSizeTo => match &d.value {
            DirectiveValue::Single(ts) => {
                let (slot, e) = set_expr_slot(&a.pad_size_to, d.span, ts);
                (FieldAttrs { pad_size_to: slot, ..a }, push_opt(errs, e))
            },
            _ => (a, push_shape(errs, d.span)),
        },
        DirectiveName::PreAssertion => (a, errs),
    }
}

} // verus!
use vstd::string::StringExecFns;

verus! {

// --- identifier synthesis for positional fields ---

pub open spec fn spec_digit_char(d: nat) -> char {
    ((d + 0x30) as u8) as char
}

/// The decimal digits of `n`, most significant first.
pub open spec fn spec_decimal(n: nat) -> Seq<char>
    decreases n,
{
    if n < 10 {
        seq![spec_digit_char(n)]
    } else {
        spec_decimal(n / 10).push(spec_digit_char(n % 10))
    }
}

/// The identifier synthesized for a positional field at the given index.
pub open spec fn synth_ident_view(index: nat) -> Seq<char> {
    "self_"@ + spec_decimal(index)
}

/// Relies on std's `Display` for `usize` (via `format!`): it renders the
/// index as its decimal digits, most significant first.
#[verifier::external_body]
fn render_index(index: usize) -> (r: String)
    ensures
        r@ == spec_decimal(index as nat),
{
    format!("{}", index)
}

fn synth_ident(index: usize) -> (r: String)
    ensures
        r@ == synth_ident_view(index as nat),
{
    let digits = render_index(index);
    let r = String::from_str("self_").concat(digits.as_str());
    r
}

// --- the validator: cross-directive constraints unknowable from folding one
// directive at a time ---

/// Checks the folded attributes for cross-attribute violations and returns
/// the most relevant one, with a span joining the directives that jointly
/// cause it: `deref_now` with `offset_after`; `try` with a calculated or
/// defaulted read mode; `args` with `calc`.
pub open spec fn spec_validate(a: FieldAttrsV) -> Option<Diagnostic> {
    match (a.offset_after, a.deref_now) {
        (Option::Some(oa), Option::Some(dn)) => Option::Some(
            Diagnostic::ExclusionViolation {
                span: spec_join(oa.span, dn),
                rule: ExclusionRule::DerefNowWithOffsetAfter,
            },
        ),
        _ => spec_validate_try(a),
    }
}

pub open spec fn spec_validate_try(a: FieldAttrsV) -> Option<Diagnostic> {
    match a.do_try {
        Option::Some(tspan) => match a.read_mode {
            FieldMode::Calc(mspan, _) => Option::Some(
                Diagnostic::ExclusionViolation {
                    span: spec_join(tspan, mspan),
                    rule: ExclusionRule::TryWithComputedValue,
                },
            ),
            FieldMode::DefaultVal(mspan) => Option::Some(
                Diagnostic::ExclusionViolation {
                    span: spec_join(tspan, mspan),
                    rule: ExclusionRule::TryWithComputedValue,
                },
            ),
            _ => spec_validate_args(a),
        },
        Option::None => spec_validate_args(a),
    }
}

pub open spec fn spec_validate_args(a: FieldAttrsV) -> Option<Diagnostic> {
    match a.read_mode {
        FieldMode::Calc(mspan, _) => match a.args {
            PassedArgsV::NoArgs => Option::None,
            PassedArgsV::ArgList(aspan, _) => Option::Some(
                Diagnostic::ExclusionViolation {
                    span: spec_join(aspan, mspan),
                    rule: ExclusionRule::ArgsWithCalc,
                },
            ),
            PassedArgsV::RawArgs(aspan, _) => Option::Some(
                Diagnostic::ExclusionViolation {
                    span: spec_join(aspan, mspan),
                    rule: ExclusionRule::ArgsWithCalc,
                },
            ),
        },
        _ => Option::None,
    }
}

// --- derived-property queries, as specification predicates ---

pub open spec fn spec_generated_value(a: FieldAttrsV) -> bool {
    a.read_mode matches FieldMode::Calc(_, _) || a.read_mode matches FieldMode::DefaultVal(_)
}

pub open spec fn spec_can_call_after_parse(a: FieldAttrsV) -> bool {
    a.read_mode matches FieldMode::Normal && a.transform matches ValueTransform::Identity
}

pub open spec fn spec_should_use_after_parse(a: FieldAttrsV) -> bool {
    a.deref_now matches Option::None && a.transform matches ValueTransform::Identity
}

pub open spec fn spec_is_temp(a: FieldAttrsV, for_write: bool) -> bool {
    (for_write && a.read_mode matches FieldMode::Calc(_, _)) || !(a.temp
        matches TempState::NotTemp)
}

pub open spec fn spec_is_written(a: FieldAttrsV) -> bool {
    !(a.read_mode matches FieldMode::DefaultVal(_))
}

pub open spec fn spec_needs_options(a: FieldAttrsV) -> bool {
    !spec_generated_value(a) || a.magic matches Option::Some(_)
}

/// True only when every optional attribute is unset, endianness is inherited,
/// the transform is none, the arguments are none and the read mode is a
/// normal parse; assertions are a list, not an optional attribute, and do not
/// count.
pub open spec fn spec_has_no_attrs(a: FieldAttrsV) -> bool {
    &&& a.endian matches CondEndian::Inherited
    &&& a.transform matches ValueTransform::Identity
    &&& a.args matches PassedArgsV::NoArgs
    &&& a.read_mode matches FieldMode::Normal
    &&& a.magic matches Option::None
    &&& a.count matches Option::None
    &&& a.offset matches Option::None
    &&& a.offset_after matches Option::None
    &&& a.if_cond matches Option::None
    &&& a.deref_now matches Option::None
    &&& a.restore_position matches Option::None
    &&& a.do_try matches Option::None
    &&& a.temp matches TempState::NotTemp
    &&& a.err_context matches Option::None
    &&& a.pad_before matches Option::None
    &&& a.pad_after matches Option::None
    &&& a.align_before matches Option::None
    &&& a.align_after matches Option::None
    &&& a.seek_before matches Option::None
    &&& a.pad_size_to matches Option::None
}

/// What the one permitted late mutation does to the temporary state.
pub open spec fn spec_force_temp(t: TempState) -> TempState {
    match t {
        TempState::NotTemp => TempState::Forced,
        _ => t,
    }
}

/// One normalized, validated field specification.
#[derive(Debug)]
pub struct StructField {
    pub ident: String,
    pub generated_ident: bool,
    pub ty: TokenStream,
    pub attrs: FieldAttrs,
}

/// The identifier a resolved field carries: the explicit name, or the one
/// synthesized from the positional index.
pub open spec fn spec_ident_view(f: FieldDef, index: int) -> Seq<char> {
    match f.ident {
        Option::Some(name) => name@,
        Option::None => synth_ident_view(index as nat),
    }
}

/// What `StructField::from_field` promises of the specification it returns.
pub open spec fn resolved_field(r: StructField, f: FieldDef, index: int, mode: Mode) -> bool {
    &&& r.ident@ == spec_ident_view(f, index)
    &&& r.generated_ident == (f.ident matches Option::None)
    &&& r.ty == f.ty
    &&& r.attrs@ == spec_fold_field(f.directives@, mode).0
}

/// Every diagnostic resolving one field yields: the fold-time errors in
/// source order, then the validation error, if any.
pub open spec fn spec_field_errors(f: FieldDef, mode: Mode) -> Seq<Diagnostic> {
    let (a, errs) = spec_fold_field(f.directives@, mode);
    spec_push_opt(errs, spec_validate(a))
}

impl StructField {
    /// Runs the validator over the folded attributes.
    pub fn validate(&self) -> (r: Option<Diagnostic>)
        ensures
            r == spec_validate(self.attrs@),
    {
        match (&self.attrs.offset_after, &self.attrs.deref_now) {
            (Option::Some(oa), Option::Some(dn)) => Option::Some(
                Diagnostic::ExclusionViolation {
                    span: oa.span.join(*dn),
                    rule: ExclusionRule::DerefNowWithOffsetAfter,
                },
            ),
            _ => match &self.attrs.do_try {
                Option::Some(tspan) => match &self.attrs.read_mode {
                    FieldMode::Calc(mspan, _) => Option::Some(
                        Diagnostic::ExclusionViolation {
                            span: tspan.join(*mspan),
                            rule: ExclusionRule::TryWithComputedValue,
                        },
                    ),
                    FieldMode::DefaultVal(mspan) => Option::Some(
                        Diagnostic::ExclusionViolation {
                            span: tspan.join(*mspan),
                            rule: ExclusionRule::TryWithComputedValue,
                        },
                    ),
                    _ => self.validate_args(),
                },
                Option::None => self.validate_args(),
            },
        }
    }

    fn validate_args(&self) -> (r: Option<Diagnostic>)
        ensures
            r == spec_validate_args(self.attrs@),
    {
        match &self.attrs.read_mode {
            FieldMode::Calc(mspan, _) => match &self.attrs.args {
                PassedArgs::NoArgs => Option::None,
                PassedArgs::ArgList(aspan, _) => Option::Some(
                    Diagnostic::ExclusionViolation {
                        span: aspan.join(*mspan),
                        rule: ExclusionRule::ArgsWithCalc,
                    },
                ),
                PassedArgs::RawArgs(aspan, _) => Option::Some(
                    Diagnostic::ExclusionViolation {
                        span: aspan.join(*mspan),
                        rule: ExclusionRule::ArgsWithCalc,
                    },
                ),
            },
            _ => Option::None,
        }
    }

    /// Resolves one field definition for the given mode: identifier (explicit
    /// or synthesized), mode-aware defaults, every directive folded in source
    /// order, then the validator; all diagnostics accumulate into one set
    /// attached to the best-effort specification. Never a total failure.
    pub fn from_field(field: &FieldDef, index: usize, mode: Mode) -> (r: ParseResult<StructField>)
        ensures
            !(r matches ParseResult::Failed(_)),
            r matches ParseResult::Resolved(s) ==> resolved_field(s, *field, index as int, mode)
                && spec_field_errors(*field, mode).len() == 0,
            r matches ParseResult::Partial(s, e) ==> resolved_field(s, *field, index as int, mode)
                && e@ == spec_field_errors(*field, mode) && e@.len() > 0,
    {
        let (ident, generated_ident) = match &field.ident {
            Option::Some(name) => (name.clone(), false),
            Option::None => (synth_ident(index), true),
        };
        let ty = clone_tokens(&field.ty);
        let mut a = FieldAttrs::new_defaults();
        let mut errs: Vec<Diagnostic> = Vec::new();
        let ghost ds = field.directives@;
        let mut i: usize = 0;
        while i < field.directives.len()
            invariant
                i <= field.directives.len(),
                ds == field.directives@,
                a@ == spec_fold_field(ds.take(i as int), mode).0,
                errs@ == spec_fold_field(ds.take(i as int), mode).1,
            decreases field.directives.len() - i,
        {
            proof {
                lemma_fold_field_snoc(default_attrs_v(), Seq::empty(), ds.take(i as int), ds[i as int], mode);
                assert(ds.take(i as int + 1) =~= ds.take(i as int).push(ds[i as int]));
            }
            let (a2, errs2) = apply_field_directive(a, errs, &field.directives[i], mode);
            a = a2;
            errs = errs2;
            i = i + 1;
        }
        proof {
            assert(ds.take(ds.len() as int) =~= ds);
        }
        let sf = StructField { ident, generated_ident, ty, attrs: a };
        let verr = sf.validate();
        match verr {
            Option::None => {
                if errs.len() == 0 {
                    ParseResult::Resolved(sf)
                } else {
                    ParseResult::Partial(sf, errs)
                }
            },
            Option::Some(e) => {
                let mut errs = errs;
                errs.push(e);
                ParseResult::Partial(sf, errs)
            },
        }
    }

    /// True when this field is read by a parser with an after-parse hook:
    /// a normal parse with no value transform.
    pub fn can_call_after_parse(&self) -> (r: bool)
        ensures
            r == spec_can_call_after_parse(self.attrs@),
    {
        matches!(self.attrs.read_mode, FieldMode::Normal) && matches!(
            self.attrs.transform,
            ValueTransform::Identity,
        )
    }

    /// True when post-processing must run after all sibling fields are read,
    /// rather than immediately.
    pub fn should_use_after_parse(&self) -> (r: bool)
        ensures
            r == spec_should_use_after_parse(self.attrs@),
    {
        matches!(self.attrs.deref_now, Option::None) && matches!(
            self.attrs.transform,
            ValueTransform::Identity,
        )
    }

    /// True when the field is generated from a calculated or defaulted value
    /// instead of a parser; no stream access backs it.
    pub fn generated_value(&self) -> (r: bool)
        ensures
            r == spec_generated_value(self.attrs@),
    {
        matches!(self.attrs.read_mode, FieldMode::Calc(_, _) | FieldMode::DefaultVal(_))
    }

    /// True when the field exists only during parsing: calculated while
    /// writing, or marked temporary.
    pub fn is_temp(&self, for_write: bool) -> (r: bool)
        ensures
            r == spec_is_temp(self.attrs@, for_write),
    {
        (for_write && matches!(self.attrs.read_mode, FieldMode::Calc(_, _))) || !matches!(
            self.attrs.temp,
            TempState::NotTemp,
        )
    }

    /// True when the field is actually written out.
    pub fn is_written(&self) -> (r: bool)
        ensures
            r == spec_is_written(self.attrs@),
    {
        !matches!(self.attrs.read_mode, FieldMode::DefaultVal(_))
    }

    /// True when parsing the field needs the stream context at all: anything
    /// but a generated value with no magic.
    pub fn needs_options(&self) -> (r: bool)
        ensures
            r == spec_needs_options(self.attrs@),
    {
        !self.generated_value() || matches!(self.attrs.magic, Option::Some(_))
    }

    /// True when the only field-level annotations are assertions.
    pub fn has_no_attrs(&self) -> (r: bool)
        ensures
            r == spec_has_no_attrs(self.attrs@),
    {
        matches!(self.attrs.endian, CondEndian::Inherited) && matches!(
            self.attrs.transform,
            ValueTransform::Identity,
        ) && matches!(self.attrs.args, PassedArgs::NoArgs) && matches!(
            self.attrs.read_mode,
            FieldMode::Normal,
        ) && matches!(self.attrs.magic, Option::None) && matches!(self.attrs.count, Option::None)
            && matches!(self.attrs.offset, Option::None) && matches!(
            self.attrs.offset_after,
            Option::None,
        ) && matches!(self.attrs.if_cond, Option::None) && matches!(
            self.attrs.deref_now,
            Option::None,
        ) && matches!(self.attrs.restore_position, Option::None) && matches!(
            self.attrs.do_try,
            Option::None,
        ) && matches!(self.attrs.temp, TempState::NotTemp) && matches!(
            self.attrs.err_context,
            Option::None,
        ) && matches!(self.attrs.pad_before, Option::None) && matches!(
            self.attrs.pad_after,
            Option::None,
        ) && matches!(self.attrs.align_before, Option::None) && matches!(
            self.attrs.align_after,
            Option::None,
        ) && matches!(self.attrs.seek_before, Option::None) && matches!(
            self.attrs.pad_size_to,
            Option::None,
        )
    }

    /// The one permitted late mutation: a later pass may force a resolved
    /// field into the temporary state; every other attribute is untouched.
    pub fn force_temp(&mut self)
        ensures
            final(self).ident == old(self).ident,
            final(self).generated_ident == old(self).generated_ident,
            final(self).ty == old(self).ty,
            final(self).attrs@ == (FieldAttrsV {
                temp: spec_force_temp(old(self).attrs@.temp),
                ..old(self).attrs@
            }),
            spec_is_temp(final(self).attrs@, false),
    {
        match self.attrs.temp {
            TempState::NotTemp => {
                self.attrs.temp = TempState::Forced;
            },
            _ => {},
        }
    }
}

} // verus!
