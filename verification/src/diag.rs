use vstd::prelude::*;
use crate::span::Span;

verus! {

/// The cross-directive constraints the validator enforces; two directives
/// jointly cause each violation.
#[derive(Clone, Copy, Debug, PartialEq, Eq, Structural)]
pub enum ExclusionRule {
    /// `deref_now` and `offset_after` are mutually exclusive.
    DerefNowWithOffsetAfter,
    /// `try` is incompatible with a calculated or defaulted read mode.
    TryWithComputedValue,
    /// `args` is incompatible with `calc`.
    ArgsWithCalc,
}

/// One non-fatal defect found while resolving a definition. Diagnostics
/// accumulate: an error folding one directive never stops the folding of the
/// ones after it.
#[derive(Clone, Copy, Debug, PartialEq, Eq, Structural)]
pub enum Diagnostic {
    /// The directive name is not in the catalog for the active mode.
    UnknownDirective { span: Span },
    /// A single-valued attribute was set more than once; both the original
    /// and the duplicate location are reported.
    DuplicateDirective { first: Span, second: Span },
    /// The directive was given a value shape the catalog does not expect.
    ShapeMismatch { span: Span },
    /// A cross-directive constraint was violated; the span joins the
    /// directives responsible.
    ExclusionViolation { span: Span, rule: ExclusionRule },
}

pub open spec fn spec_message(d: Diagnostic) -> Seq<char> {
    match d {
        Diagnostic::UnknownDirective { .. } => "unrecognized directive for this mode"@,
        Diagnostic::DuplicateDirective { .. } => "directive is set more than once"@,
        Diagnostic::ShapeMismatch { .. } => "directive was given the wrong value shape"@,
        Diagnostic::ExclusionViolation { rule, .. } => match rule {
            ExclusionRule::DerefNowWithOffsetAfter => "`deref_now` and `offset_after` are mutually exclusive"@,
            ExclusionRule::TryWithComputedValue => "`try` is incompatible with `default` and `calc`"@,
            ExclusionRule::ArgsWithCalc => "`args` is incompatible with `calc`"@,
        },
    }
}

impl Diagnostic {
    /// The human-readable message for this diagnostic.
    pub fn message(&self) -> (r: &'static str)
        ensures
            r@ == spec_message(*self),
    {
        match self {
            Diagnostic::UnknownDirective { .. } => "unrecognized directive for this mode",
            Diagnostic::DuplicateDirective { .. } => "directive is set more than once",
            Diagnostic::ShapeMismatch { .. } => "directive was given the wrong value shape",
            Diagnostic::ExclusionViolation { rule, .. } => match rule {
                ExclusionRule::DerefNowWithOffsetAfter => "`deref_now` and `offset_after` are mutually exclusive",
                ExclusionRule::TryWithComputedValue => "`try` is incompatible with `default` and `calc`",
                ExclusionRule::ArgsWithCalc => "`args` is incompatible with `calc`",
            },
        }
    }
}

/// The outcome of resolving one field or case: full success, a best-effort
/// value together with every accumulated diagnostic, or total failure (a
/// malformed directive list at the scanner level; the resolvers in this
/// crate never produce it themselves).
pub enum ParseResult<T> {
    Resolved(T),
    Partial(T, Vec<Diagnostic>),
    Failed(Vec<Diagnostic>),
}

pub open spec fn spec_push_opt(errs: Seq<Diagnostic>, e: Option<Diagnostic>) -> Seq<Diagnostic> {
    match e {
        Option::Some(d) => errs.push(d),
        Option::None => errs,
    }
}

/// Appends an optional diagnostic to the accumulated set.
pub fn push_opt(errs: Vec<Diagnostic>, e: Option<Diagnostic>) -> (r: Vec<Diagnostic>)
    ensures
        r@ == spec_push_opt(errs@, e),
{
    let mut errs = errs;
    match e {
        Option::Some(d) => {
            errs.push(d);
        },
        Option::None => {},
    }
    errs
}

} // verus!
