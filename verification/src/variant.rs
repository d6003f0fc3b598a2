use vstd::prelude::*;
use crate::span::Span;
use crate::tokens::{clone_tokens, clone_opt_tokens};
use crate::diag::{Diagnostic, ParseResult};
use crate::directive::{
    Mode, DirectiveContext, DirectiveName, DirectiveValue, RawDirective, spec_legal, is_legal,
};
use crate::types::{Endian, CondEndian, SpannedExpr, Assertion};
use crate::field::{
    FieldDef, StructField, resolved_field, spec_field_errors, spec_has_no_attrs, spec_endian_span,
    dup_diag, spec_set_expr,
};

verus! {

/// The structure-level attributes of a definition or compound case.
#[derive(Debug)]
pub struct StructHead {
    pub endian: CondEndian,
    pub magic: Option<SpannedExpr>,
    pub pre_assertions: Vec<Assertion>,
    pub assertions: Vec<Assertion>,
}

/// Spec-level mirror of `StructHead`.
#[verifier::ext_equal]
pub struct StructHeadV {
    pub endian: CondEndian,
    pub magic: Option<SpannedExpr>,
    pub pre_assertions: Seq<Assertion>,
    pub assertions: Seq<Assertion>,
}

impl View for StructHead {
    type V = StructHeadV;

    open spec fn view(&self) -> StructHeadV {
        StructHeadV {
            endian: self.endian,
            magic: self.magic,
            pre_assertions: self.pre_assertions@,
            assertions: self.assertions@,
        }
    }
}

pub open spec fn default_head_v() -> StructHeadV {
    StructHeadV {
        endian: CondEndian::Inherited,
        magic: Option::None,
        pre_assertions: Seq::empty(),
        assertions: Seq::empty(),
    }
}

pub open spec fn head_shape_err(h: StructHeadV, errs: Seq<Diagnostic>, span: Span) -> (
    StructHeadV,
    Seq<Diagnostic>,
) {
    (h, errs.push(Diagnostic::ShapeMismatch { span }))
}

pub open spec fn spec_set_head_endian(h: StructHeadV, errs: Seq<Diagnostic>, span: Span, new: CondEndian) -> (
    StructHeadV,
    Seq<Diagnostic>,
) {
    match h.endian {
        CondEndian::Inherited => (StructHeadV { endian: new, ..h }, errs),
        _ => (h, errs.push(dup_diag(spec_endian_span(h.endian), span))),
    }
}

/// Folds one structure- or case-level directive, best-effort, under the
/// legality rules of the given attachment context.
pub open spec fn spec_apply_head_directive(
    h: StructHeadV,
    errs: Seq<Diagnostic>,
    d: RawDirective,
    mode: Mode,
    ctx: DirectiveContext,
) -> (StructHeadV, Seq<Diagnostic>) {
    if !spec_legal(d.name, mode, ctx) {
        (h, errs.push(Diagnostic::UnknownDirective { span: d.span }))
    } else {
        match d.name {
            DirectiveName::Big => match d.value {
                DirectiveValue::Flag => spec_set_head_endian(
                    h,
                    errs,
                    d.span,
                    CondEndian::Fixed(d.span, Endian::Big),
                ),
                _ => head_shape_err(h, errs, d.span),
            },
            DirectiveName::Little => match d.value {
                DirectiveValue::Flag => spec_set_head_endian(
                    h,
                    errs,
                    d.span,
                    CondEndian::Fixed(d.span, Endian::Little),
                ),
                _ => head_shape_err(h, errs, d.span),
            },
            DirectiveName::IsBig => match d.value {
                DirectiveValue::Single(ts) => spec_set_head_endian(
                    h,
                    errs,
                    d.span,
                    CondEndian::Cond(d.span, Endian::Big, ts),
                ),
                _ => head_shape_err(h, errs, d.span),
            },
            DirectiveName::IsLittle => match d.value {
                DirectiveValue::Single(ts) => spec_set_head_endian(
                    h,
                    errs,
                    d.span,
                    CondEndian::Cond(d.span, Endian::Little, ts),
                ),
                _ => head_shape_err(h, errs, d.span),
            },
            DirectiveName::Magic => match d.value {
                DirectiveValue::Single(ts) => {
                    let (slot, e) = spec_set_expr(h.magic, d.span, ts);
                    (
                        StructHeadV { magic: slot, ..h },
                        crate::diag::spec_push_opt(errs, e),
                    )
                },
                _ => head_shape_err(h, errs, d.span),
            },
            DirectiveName::Assertion => match d.value {
                DirectiveValue::Check(c, msg) => (
                    StructHeadV {
                        assertions: h.assertions.push(
                            Assertion { span: d.span, condition: c, message: msg },
                        ),
                        ..h
                    },
                    errs,
                ),
                _ => head_shape_err(h, errs, d.span),
            },
            DirectiveName::PreAssertion => match d.value {
                DirectiveValue::Check(c, msg) => (
                    StructHeadV {
                        pre_assertions: h.pre_assertions.push(
                            Assertion { span: d.span, condition: c, message: msg },
                        ),
                        ..h
                    },
                    errs,
                ),
                _ => head_shape_err(h, errs, d.span),
            },
            _ => (h, errs),
        }
    }
}

pub open spec fn spec_fold_head_from(
    h: StructHeadV,
    errs: Seq<Diagnostic>,
    ds: Seq<RawDirective>,
    mode: Mode,
    ctx: DirectiveContext,
) -> (StructHeadV, Seq<Diagnostic>)
    decreases ds.len(),
{
    if ds.len() == 0 {
        (h, errs)
    } else {
        let (h2, e2) = spec_apply_head_directive(h, errs, ds[0], mode, ctx);
        spec_fold_head_from(h2, e2, ds.subrange(1, ds.len() as int), mode, ctx)
    }
}

pub open spec fn spec_fold_head(ds: Seq<RawDirective>, mode: Mode, ctx: DirectiveContext) -> (
    StructHeadV,
    Seq<Diagnostic>,
) {
    spec_fold_head_from(default_head_v(), Seq::empty(), ds, mode, ctx)
}

pub proof fn lemma_fold_head_snoc(
    h: StructHeadV,
    errs: Seq<Diagnostic>,
    ds: Seq<RawDirective>,
    d: RawDirective,
    mode: Mode,
    ctx: DirectiveContext,
)
    ensures
        spec_fold_head_from(h, errs, ds.push(d), mode, ctx) == ({
            let (h2, e2) = spec_fold_head_from(h, errs, ds, mode, ctx);
            spec_apply_head_directive(h2, e2, d, mode, ctx)
        }),
    decreases ds.len(),
{
    let pushed = ds.push(d);
    if ds.len() == 0 {
        assert(pushed[0] == d);
        let (h2, e2) = spec_apply_head_directive(h, errs, d, mode, ctx);
        assert(pushed.subrange(1, pushed.len() as int) =~= Seq::<RawDirective>::empty());
        assert(spec_fold_head_from(h2, e2, pushed.subrange(1, pushed.len() as int), mode, ctx)
            == (h2, e2));
        assert(spec_fold_head_from(h, errs, ds, mode, ctx) == (h, errs));
    } else {
        assert(pushed[0] == ds[0]);
        assert(pushed.subrange(1, pushed.len() as int) =~= ds.subrange(1, ds.len() as int).push(
            d,
        ));
        let (h2, e2) = spec_apply_head_directive(h, errs, ds[0], mode, ctx);
        lemma_fold_head_snoc(h2, e2, ds.subrange(1, ds.len() as int), d, mode, ctx);
        assert(spec_fold_head_from(h, errs, pushed, mode, ctx) == spec_fold_head_from(
            h2,
            e2,
            pushed.subrange(1, pushed.len() as int),
            mode,
            ctx,
        ));
        assert(spec_fold_head_from(h, errs, ds, mode, ctx) == spec_fold_head_from(
            h2,
            e2,
            ds.subrange(1, ds.len() as int),
            mode,
            ctx,
        ));
    }
}

fn apply_head_directive(
    h: StructHead,
    errs: Vec<Diagnostic>,
    d: &RawDirective,
    mode: Mode,
    ctx: DirectiveContext,
) -> (r: (StructHead, Vec<Diagnostic>))
    ensures
        r.0@ == spec_apply_head_directive(h@, errs@, *d, mode, ctx).0,
        r.1@ == spec_apply_head_directive(h@, errs@, *d, mode, ctx).1,
{
    if !is_legal(d.name, mode, ctx) {
        let mut errs = errs;
        errs.push(Diagnostic::UnknownDirective { span: d.span });
        return (h, errs);
    }
    match d.name {
        DirectiveName::Big => match &d.value {
            DirectiveValue::Flag => set_head_endian(
                h,
                errs,
                d.span,
                CondEndian::Fixed(d.span, Endian::Big),
            ),
            _ => head_push_shape(h, errs, d.span),
        },
        DirectiveName::Little => match &d.value {
            DirectiveValue::Flag => set_head_endian(
                h,
                errs,
                d.span,
                CondEndian::Fixed(d.span, Endian::Little),
            ),
            _ => head_push_shape(h, errs, d.span),
        },
        DirectiveName::IsBig => match &d.value {
            DirectiveValue::Single(ts) => set_head_endian(
                h,
                errs,
                d.span,
                CondEndian::Cond(d.span, Endian::Big, clone_tokens(ts)),
            ),
            _ => head_push_shape(h, errs, d.span),
        },
        DirectiveName::IsLittle => match &d.value {
            DirectiveValue::Single(ts) => set_head_endian(
                h,
                errs,
                d.span,
                CondEndian::Cond(d.span, Endian::Little, clone_tokens(ts)),
            ),
            _ => head_push_shape(h, errs, d.span),
        },
        DirectiveName::Magic => match &d.value {
            DirectiveValue::Single(ts) => match &h.magic {
                Option::None => (
                    StructHead {
                        magic: Option::Some(SpannedExpr { span: d.span, tokens: clone_tokens(ts) }),
                        ..h
                    },
                    errs,
                ),
                Option::Some(prev) => {
                    let first = prev.span;
                    let mut errs = errs;
                    errs.push(Diagnostic::DuplicateDirective { first, second: d.span });
                    (h, errs)
                },
            },
            _ => head_push_shape(h, errs, d.span),
        },
        DirectiveName::Assertion => match &d.value {
            DirectiveValue::Check(c, msg) => {
                let mut h = h;
                h.assertions.push(
                    Assertion {
                        span: d.span,
                        condition: clone_tokens(c),
                        message: clone_opt_tokens(msg),
                    },
                );
                (h, errs)
            },
            _ => head_push_shape(h, errs, d.span),
        },
        DirectiveName::PreAssertion => match &d.value {
            DirectiveValue::Check(c, msg) => {
                let mut h = h;
                h.pre_assertions.push(
                    Assertion {
                        span: d.span,
                        condition: clone_tokens(c),
                        message: clone_opt_tokens(msg),
                    },
                );
                (h, errs)
            },
            _ => head_push_shape(h, errs, d.span),
        },
        _ => (h, errs),
    }
}

fn head_push_shape(h: StructHead, errs: Vec<Diagnostic>, span: Span) -> (r: (
    StructHead,
    Vec<Diagnostic>,
))
    ensures
        r.0@ == h@,
        r.1@ == errs@.push(Diagnostic::ShapeMismatch { span }),
{
    let mut errs = errs;
    errs.push(Diagnostic::ShapeMismatch { span });
    (h, errs)
}

fn set_head_endian(h: StructHead, errs: Vec<Diagnostic>, span: Span, new: CondEndian) -> (r: (
    StructHead,
    Vec<Diagnostic>,
))
    ensures
        r.0@ == spec_set_head_endian(h@, errs@, span, new).0,
        r.1@ == spec_set_head_endian(h@, errs@, span, new).1,
{
    if matches!(h.endian, CondEndian::Inherited) {
        (StructHead { endian: new, ..h }, errs)
    } else {
        let first = crate::field::endian_first_span(&h.endian);
        let mut errs = errs;
        errs.push(Diagnostic::DuplicateDirective { first, second: span });
        (h, errs)
    }
}

/// A fully resolved structure: its own directives plus one resolved
/// specification per field, in order.
#[derive(Debug)]
pub struct Struct {
    pub endian: CondEndian,
    pub magic: Option<SpannedExpr>,
    pub pre_assertions: Vec<Assertion>,
    pub assertions: Vec<Assertion>,
    pub fields: Vec<StructField>,
}

/// The diagnostics from resolving each field of a list, concatenated in
/// field order.
pub open spec fn spec_fields_errors(fs: Seq<FieldDef>, mode: Mode) -> Seq<Diagnostic>
    decreases fs.len(),
{
    if fs.len() == 0 {
        Seq::empty()
    } else {
        spec_fields_errors(fs.drop_last(), mode) + spec_field_errors(fs.last(), mode)
    }
}

/// Every diagnostic resolving a structure yields: its own directives' errors,
/// then each field's errors in order.
pub open spec fn spec_struct_errors(ds: Seq<RawDirective>, fs: Seq<FieldDef>, mode: Mode) -> Seq<
    Diagnostic,
> {
    spec_fold_head(ds, mode, DirectiveContext::StructContext).1 + spec_fields_errors(fs, mode)
}

/// What `Struct::from_input` promises of the structure it returns.
pub open spec fn resolved_struct(s: Struct, ds: Seq<RawDirective>, fs: Seq<FieldDef>, mode: Mode) -> bool {
    let (h, herrs) = spec_fold_head(ds, mode, DirectiveContext::StructContext);
    &&& s.endian == h.endian
    &&& s.magic == h.magic
    &&& s.pre_assertions@ == h.pre_assertions
    &&& s.assertions@ == h.assertions
    &&& s.fields@.len() == fs.len()
    &&& forall|i: int|
        0 <= i < fs.len() ==> resolved_field(#[trigger] s.fields@[i], fs[i], i, mode)
}

/// True when the structure carries no endianness override and every field is
/// unannotated.
pub open spec fn spec_struct_has_no_attrs(s: Struct) -> bool {
    &&& s.endian matches CondEndian::Inherited
    &&& forall|i: int|
        0 <= i < s.fields@.len() ==> spec_has_no_attrs(#[trigger] s.fields@[i].attrs@)
}

impl Struct {
    /// Resolves a whole structure (or compound case): folds the
    /// structure-level directives, then resolves every field in order,
    /// merging all error sets so each defect in the definition surfaces
    /// together. Never a total failure.
    pub fn from_input(directives: &Vec<RawDirective>, fields: &Vec<FieldDef>, mode: Mode) -> (r:
        ParseResult<Struct>)
        ensures
            !(r matches ParseResult::Failed(_)),
            r matches ParseResult::Resolved(s) ==> resolved_struct(s, directives@, fields@, mode)
                && spec_struct_errors(directives@, fields@, mode).len() == 0,
            r matches ParseResult::Partial(s, e) ==> resolved_struct(s, directives@, fields@, mode)
                && e@ == spec_struct_errors(directives@, fields@, mode) && e@.len() > 0,
    {
        let mut h = StructHead {
            endian: CondEndian::Inherited,
            magic: Option::None,
            pre_assertions: Vec::new(),
            assertions: Vec::new(),
        };
        proof {
            assert(h@ =~= default_head_v());
        }
        let mut errs: Vec<Diagnostic> = Vec::new();
        let ghost ds = directives@;
        let ghost ctx = DirectiveContext::StructContext;
        let mut i: usize = 0;
        while i < directives.len()
            invariant
                i <= directives.len(),
                ds == directives@,
                ctx == DirectiveContext::StructContext,
                h@ == spec_fold_head(ds.take(i as int), mode, ctx).0,
                errs@ == spec_fold_head(ds.take(i as int), mode, ctx).1,
            decreases directives.len() - i,
        {
            proof {
                lemma_fold_head_snoc(
                    default_head_v(),
                    Seq::empty(),
                    ds.take(i as int),
                    ds[i as int],
                    mode,
                    ctx,
                );
                assert(ds.take(i as int + 1) =~= ds.take(i as int).push(ds[i as int]));
            }
            let (h2, errs2) = apply_head_directive(h, errs, &directives[i], mode,
                DirectiveContext::StructContext);
            h = h2;
            errs = errs2;
            i = i + 1;
        }
        proof {
            assert(ds.take(ds.len() as int) =~= ds);
        }
        let ghost head_errs = errs@;
        let ghost fs = fields@;
        let mut out: Vec<StructField> = Vec::new();
        let mut j: usize = 0;
        while j < fields.len()
            invariant
                j <= fields.len(),
                fs == fields@,
                out@.len() == j,
                forall|k: int| 0 <= k < j ==> resolved_field(#[trigger] out@[k], fs[k], k, mode),
                errs@ == head_errs + spec_fields_errors(fs.take(j as int), mode),
            decreases fields.len() - j,
        {
            proof {
                assert(fs.take(j as int + 1).drop_last() =~= fs.take(j as int));
                assert(fs.take(j as int + 1).last() == fs[j as int]);
            }
            let fr = StructField::from_field(&fields[j], j, mode);
            match fr {
                ParseResult::Resolved(sf) => {
                    out.push(sf);
                    proof {
                        assert(errs@ + spec_field_errors(fs[j as int], mode) =~= errs@);
                        assert(head_errs + spec_fields_errors(fs.take(j as int + 1), mode)
                            =~= errs@);
                    }
                },
                ParseResult::Partial(sf, mut fe) => {
                    out.push(sf);
                    errs.append(&mut fe);
                    proof {
                        assert(head_errs + spec_fields_errors(fs.take(j as int + 1), mode)
                            =~= errs@);
                    }
                },
                ParseResult::Failed(fe) => {
                    proof {
                        assert(false);
                    }
                    return ParseResult::Failed(fe);
                },
            }
            j = j + 1;
        }
        proof {
            assert(fs.take(fs.len() as int) =~= fs);
        }
        let s = Struct {
            endian: h.endian,
            magic: h.magic,
            pre_assertions: h.pre_assertions,
            assertions: h.assertions,
            fields: out,
        };
        if errs.len() == 0 {
            ParseResult::Resolved(s)
        } else {
            ParseResult::Partial(s, errs)
        }
    }

    /// True when this structure carries no endianness override and every
    /// field reports `has_no_attrs`.
    pub fn has_no_attrs(&self) -> (r: bool)
        ensures
            r == spec_struct_has_no_attrs(*self),
    {
        if !matches!(self.endian, CondEndian::Inherited) {
            return false;
        }
        let mut i: usize = 0;
        while i < self.fields.len()
            invariant
                i <= self.fields.len(),
                forall|k: int|
                    0 <= k < i ==> spec_has_no_attrs(#[trigger] self.fields@[k].attrs@),
            decreases self.fields.len() - i,
        {
            if !self.fields[i].has_no_attrs() {
                return false;
            }
            i = i + 1;
        }
        true
    }
}

/// A unit case of a sum type: identifier, optional magic and ordered
/// pre-condition assertions; no nested fields.
#[derive(Debug)]
pub struct UnitEnumField {
    pub ident: String,
    pub magic: Option<SpannedExpr>,
    pub pre_assertions: Vec<Assertion>,
}

/// One case definition of a sum type as handed in by the scanner: a unit
/// case, or a case with its own (named or positional) field list.
#[derive(Debug)]
pub enum CaseFields {
    Listed(Vec<FieldDef>),
    UnitCase,
}

#[derive(Debug)]
pub struct VariantDef {
    pub ident: String,
    pub fields: CaseFields,
    pub directives: Vec<RawDirective>,
}

/// The diagnostics resolving one unit case yields.
pub open spec fn spec_unit_errors(v: VariantDef, mode: Mode) -> Seq<Diagnostic> {
    spec_fold_head(v.directives@, mode, DirectiveContext::UnitCaseContext).1
}

/// What `UnitEnumField::from_field` promises of the case it returns.
pub open spec fn resolved_unit(u: UnitEnumField, v: VariantDef, mode: Mode) -> bool {
    let (h, errs) = spec_fold_head(v.directives@, mode, DirectiveContext::UnitCaseContext);
    &&& u.ident == v.ident
    &&& u.magic == h.magic
    &&& u.pre_assertions@ == h.pre_assertions
}

impl UnitEnumField {
    /// Resolves a unit case: identifier, optional magic and pre-condition
    /// assertions, directly and with the same best-effort error accumulation
    /// as field resolution. Never a total failure.
    pub fn from_field(variant: &VariantDef, _index: usize, mode: Mode) -> (r: ParseResult<
        UnitEnumField,
    >)
        ensures
            !(r matches ParseResult::Failed(_)),
            r matches ParseResult::Resolved(u) ==> resolved_unit(u, *variant, mode)
                && spec_unit_errors(*variant, mode).len() == 0,
            r matches ParseResult::Partial(u, e) ==> resolved_unit(u, *variant, mode) && e@
                == spec_unit_errors(*variant, mode) && e@.len() > 0,
    {
        let mut h = StructHead {
            endian: CondEndian::Inherited,
            magic: Option::None,
            pre_assertions: Vec::new(),
            assertions: Vec::new(),
        };
        proof {
            assert(h@ =~= default_head_v());
        }
        let mut errs: Vec<Diagnostic> = Vec::new();
        let ghost ds = variant.directives@;
        let ghost ctx = DirectiveContext::UnitCaseContext;
        let mut i: usize = 0;
        while i < variant.directives.len()
            invariant
                i <= variant.directives.len(),
                ds == variant.directives@,
                ctx == DirectiveContext::UnitCaseContext,
                h@ == spec_fold_head(ds.take(i as int), mode, ctx).0,
                errs@ == spec_fold_head(ds.take(i as int), mode, ctx).1,
            decreases variant.directives.len() - i,
        {
            proof {
                lemma_fold_head_snoc(
                    default_head_v(),
                    Seq::empty(),
                    ds.take(i as int),
                    ds[i as int],
                    mode,
                    ctx,
                );
                assert(ds.take(i as int + 1) =~= ds.take(i as int).push(ds[i as int]));
            }
            let (h2, errs2) = apply_head_directive(h, errs, &variant.directives[i], mode,
                DirectiveContext::UnitCaseContext);
            h = h2;
            errs = errs2;
            i = i + 1;
        }
        proof {
            assert(ds.take(ds.len() as int) =~= ds);
        }
        let u = UnitEnumField {
            ident: variant.ident.clone(),
            magic: h.magic,
            pre_assertions: h.pre_assertions,
        };
        if errs.len() == 0 {
            ParseResult::Resolved(u)
        } else {
            ParseResult::Partial(u, errs)
        }
    }

    /// Converts the unit case into the degenerate compound shape: its magic
    /// and pre-condition assertions, no endianness override, and zero fields.
    pub fn into_struct(self) -> (r: Struct)
        ensures
            r.endian == CondEndian::Inherited,
            r.magic == self.magic,
            r.pre_assertions@ == self.pre_assertions@,
            r.assertions@ == Seq::<Assertion>::empty(),
            r.fields@ == Seq::<StructField>::empty(),
    {
        Struct {
            endian: CondEndian::Inherited,
            magic: self.magic,
            pre_assertions: self.pre_assertions,
            assertions: Vec::new(),
            fields: Vec::new(),
        }
    }
}

/// One resolved case of a sum type: a unit case, or a compound case owning
/// its recursively resolved structure.
#[derive(Debug)]
pub enum EnumVariant {
    Variant { ident: String, options: Box<Struct> },
    Unit(UnitEnumField),
}

/// Every diagnostic resolving one case yields.
pub open spec fn spec_variant_errors(v: VariantDef, mode: Mode) -> Seq<Diagnostic> {
    match v.fields {
        CaseFields::Listed(fs) => spec_struct_errors(v.directives@, fs@, mode),
        CaseFields::UnitCase => spec_unit_errors(v, mode),
    }
}

/// What `EnumVariant::from_field` promises of the case it returns: an empty
/// field list resolves through the unit path, any other through full
/// recursive structure resolution.
pub open spec fn resolved_variant(r: EnumVariant, v: VariantDef, mode: Mode) -> bool {
    match v.fields {
        CaseFields::Listed(fs) => match r {
            EnumVariant::Variant { ident, options } => ident == v.ident && resolved_struct(
                *options,
                v.directives@,
                fs@,
                mode,
            ),
            EnumVariant::Unit(_) => false,
        },
        CaseFields::UnitCase => match r {
            EnumVariant::Unit(u) => resolved_unit(u, v, mode),
            EnumVariant::Variant { .. } => false,
        },
    }
}

impl EnumVariant {
    /// Classifies a case by its field-list shape and resolves it: a unit case
    /// through the unit path, anything else as a full nested structure.
    /// Never a total failure.
    pub fn from_field(variant: &VariantDef, index: usize, mode: Mode) -> (r: ParseResult<
        EnumVariant,
    >)
        ensures
            !(r matches ParseResult::Failed(_)),
            r matches ParseResult::Resolved(ev) ==> resolved_variant(ev, *variant, mode)
                && spec_variant_errors(*variant, mode).len() == 0,
            r matches ParseResult::Partial(ev, e) ==> resolved_variant(ev, *variant, mode) && e@
                == spec_variant_errors(*variant, mode) && e@.len() > 0,
    {
        match &variant.fields {
            CaseFields::Listed(fs) => match Struct::from_input(&variant.directives, fs, mode) {
                ParseResult::Resolved(st) => ParseResult::Resolved(
                    EnumVariant::Variant { ident: variant.ident.clone(), options: Box::new(st) },
                ),
                ParseResult::Partial(st, e) => ParseResult::Partial(
                    EnumVariant::Variant { ident: variant.ident.clone(), options: Box::new(st) },
                    e,
                ),
                ParseResult::Failed(e) => {
                    proof {
                        assert(false);
                    }
                    ParseResult::Failed(e)
                },
            },
            CaseFields::UnitCase => match UnitEnumField::from_field(variant, index, mode) {
                ParseResult::Resolved(u) => ParseResult::Resolved(EnumVariant::Unit(u)),
                ParseResult::Partial(u, e) => ParseResult::Partial(EnumVariant::Unit(u), e),
                ParseResult::Failed(e) => {
                    proof {
                        assert(false);
                    }
                    ParseResult::Failed(e)
                },
            },
        }
    }

    /// The case's identifier, whichever path resolved it.
    pub fn ident(&self) -> (r: &String)
        ensures
            r == (match *self {
                EnumVariant::Variant { ident, .. } => ident,
                EnumVariant::Unit(u) => u.ident,
            }),
    {
        match self {
            EnumVariant::Variant { ident, .. } => ident,
            EnumVariant::Unit(u) => &u.ident,
        }
    }

    /// A unit case has no attributes by definition; a compound case reports
    /// its structure's answer.
    pub fn has_no_attrs(&self) -> (r: bool)
        ensures
            r == (match *self {
                EnumVariant::Variant { options, .. } => spec_struct_has_no_attrs(*options),
                EnumVariant::Unit(_) => true,
            }),
    {
        match self {
            EnumVariant::Variant { options, .. } => options.has_no_attrs(),
            EnumVariant::Unit(_) => true,
        }
    }

    /// The uniform compound-shaped view over both kinds of case: a compound
    /// case yields its structure, a unit case its degenerate conversion.
    pub fn into_struct(self) -> (r: Struct)
        ensures
            self matches EnumVariant::Variant { options, .. } ==> r == *options,
            self matches EnumVariant::Unit(u) ==> r.endian == CondEndian::Inherited && r.magic
                == u.magic && r.pre_assertions@ == u.pre_assertions@ && r.assertions@
                == Seq::<Assertion>::empty() && r.fields@ == Seq::<StructField>::empty(),
    {
        match self {
            EnumVariant::Variant { options, .. } => *options,
            EnumVariant::Unit(u) => u.into_struct(),
        }
    }
}

} // verus!
