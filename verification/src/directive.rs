use vstd::prelude::*;
use proc_macro2::TokenStream;
use crate::span::Span;

verus! {

/// The two independent output modes; each admits its own directive subset.
#[derive(Clone, Copy, Debug, PartialEq, Eq, Structural)]
pub enum Mode {
    Read,
    Write,
}

/// Where a directive list is attached: on a struct field, on a unit enum
/// case, or at the level of a whole structure (including a compound case).
#[derive(Clone, Copy, Debug, PartialEq, Eq, Structural)]
pub enum DirectiveContext {
    FieldContext,
    UnitCaseContext,
    StructContext,
}

/// The recognized directive vocabulary.
#[derive(Clone, Copy, Debug, PartialEq, Eq, Structural)]
pub enum DirectiveName {
    /// Fixed big endianness.
    Big,
    /// Fixed little endianness.
    Little,
    /// Big endianness when the given expression holds.
    IsBig,
    /// Little endianness when the given expression holds.
    IsLittle,
    /// Transform the raw value through a function.
    MapValue,
    /// Transform the raw value through a fallible function.
    TryMapValue,
    /// Parse as an alternate representation type.
    Repr,
    /// A fixed pattern that must match in the stream.
    Magic,
    /// An explicit argument list passed to the inner parser.
    Args,
    /// A raw forwarded argument expression.
    ArgsRaw,
    /// The value is calculated instead of parsed.
    Calc,
    /// The value is defaulted; no stream access backs it.
    DefaultValue,
    /// Skip the field: defaulted on read, not written on write.
    Ignore,
    /// A custom parser expression.
    ParseWith,
    /// A custom writer expression.
    WriteWith,
    /// Element count for collection fields.
    Count,
    /// Seek to an offset before the field.
    Offset,
    /// An offset resolved only after all fields are read.
    OffsetAfter,
    /// A boolean expression gating whether the field is parsed.
    IfCond,
    /// Run post-processing immediately after the field is parsed.
    DerefNow,
    /// Alias of `DerefNow`.
    PostProcessNow,
    /// Seek back to the pre-field position afterwards.
    RestorePosition,
    /// Treat a parse failure as a defaulted value.
    DoTry,
    /// The field exists only during parsing.
    Temp,
    /// A checked condition with an optional custom error, appended in order.
    Assertion,
    /// Custom wrapping for errors arising from this field.
    ErrContext,
    /// Padding before the field.
    PadBefore,
    /// Padding after the field.
    PadAfter,
    /// Alignment before the field.
    AlignBefore,
    /// Alignment after the field.
    AlignAfter,
    /// Seek before the field.
    SeekBefore,
    /// Pad the field up to a given size.
    PadSizeTo,
    /// A pre-condition assertion on a case, checked before parsing.
    PreAssertion,
}

/// The value shape a directive carries.
#[derive(Clone, Copy, Debug, PartialEq, Eq, Structural)]
pub enum ValueShape {
    /// No value.
    FlagShape,
    /// A single opaque expression fragment.
    SingleShape,
    /// A list of opaque expression fragments.
    ListShape,
    /// A condition expression with an optional second fragment.
    CheckShape,
}

/// One raw directive handed in by the attribute-syntax scanner: a name, its
/// source location, and the value it was written with.
#[derive(Debug)]
pub enum DirectiveValue {
    Flag,
    Single(TokenStream),
    ExprList(Vec<TokenStream>),
    Check(TokenStream, Option<TokenStream>),
}

#[derive(Debug)]
pub struct RawDirective {
    pub name: DirectiveName,
    pub span: Span,
    pub value: DirectiveValue,
}

pub open spec fn spec_shape_of(n: DirectiveName) -> ValueShape {
    match n {
        DirectiveName::Big => ValueShape::FlagShape,
        DirectiveName::Little => ValueShape::FlagShape,
        DirectiveName::IsBig => ValueShape::SingleShape,
        DirectiveName::IsLittle => ValueShape::SingleShape,
        DirectiveName::MapValue => ValueShape::SingleShape,
        DirectiveName::TryMapValue => ValueShape::SingleShape,
        DirectiveName::Repr => ValueShape::SingleShape,
        DirectiveName::Magic => ValueShape::SingleShape,
        DirectiveName::Args => ValueShape::ListShape,
        DirectiveName::ArgsRaw => ValueShape::SingleShape,
        DirectiveName::Calc => ValueShape::SingleShape,
        DirectiveName::DefaultValue => ValueShape::FlagShape,
        DirectiveName::Ignore => ValueShape::FlagShape,
        DirectiveName::ParseWith => ValueShape::SingleShape,
        DirectiveName::WriteWith => ValueShape::SingleShape,
        DirectiveName::Count => ValueShape::SingleShape,
        DirectiveName::Offset => ValueShape::SingleShape,
        DirectiveName::OffsetAfter => ValueShape::SingleShape,
        DirectiveName::IfCond => ValueShape::CheckShape,
        DirectiveName::DerefNow => ValueShape::FlagShape,
        DirectiveName::PostProcessNow => ValueShape::FlagShape,
        DirectiveName::RestorePosition => ValueShape::FlagShape,
        DirectiveName::DoTry => ValueShape::FlagShape,
        DirectiveName::Temp => ValueShape::FlagShape,
        DirectiveName::Assertion => ValueShape::CheckShape,
        DirectiveName::ErrContext => ValueShape::ListShape,
        DirectiveName::PadBefore => ValueShape::SingleShape,
        DirectiveName::PadAfter => ValueShape::SingleShape,
        DirectiveName::AlignBefore => ValueShape::SingleShape,
        DirectiveName::AlignAfter => ValueShape::SingleShape,
        DirectiveName::SeekBefore => ValueShape::SingleShape,
        DirectiveName::PadSizeTo => ValueShape::SingleShape,
        DirectiveName::PreAssertion => ValueShape::CheckShape,
    }
}

pub open spec fn spec_value_shape(v: DirectiveValue) -> ValueShape {
    match v {
        DirectiveValue::Flag => ValueShape::FlagShape,
        DirectiveValue::Single(_) => ValueShape::SingleShape,
        DirectiveValue::ExprList(_) => ValueShape::ListShape,
        DirectiveValue::Check(_, _) => ValueShape::CheckShape,
    }
}

/// Which directives a field accepts, per mode. Mode-agnostic directives are
/// legal for both; the rest are read-only except the custom writer.
pub open spec fn spec_legal_field(n: DirectiveName, mode: Mode) -> bool {
    match n {
        DirectiveName::DefaultValue
        | DirectiveName::ParseWith
        | DirectiveName::Count
        | DirectiveName::Offset
        | DirectiveName::OffsetAfter
        | DirectiveName::IfCond
        | DirectiveName::DerefNow
        | DirectiveName::PostProcessNow
        | DirectiveName::DoTry
        | DirectiveName::Temp
        | DirectiveName::ErrContext => mode == Mode::Read,
        DirectiveName::WriteWith => mode == Mode::Write,
        DirectiveName::PreAssertion => false,
        _ => true,
    }
}

/// Which directives a unit case accepts, per mode.
pub open spec fn spec_legal_unit(n: DirectiveName, mode: Mode) -> bool {
    match n {
        DirectiveName::Magic => true,
        DirectiveName::PreAssertion => mode == Mode::Read,
        _ => false,
    }
}

/// Which directives a structure (or compound case) accepts at its own level,
/// per mode.
pub open spec fn spec_legal_struct(n: DirectiveName, mode: Mode) -> bool {
    match n {
        DirectiveName::Big
        | DirectiveName::Little
        | DirectiveName::IsBig
        | DirectiveName::IsLittle
        | DirectiveName::Magic
        | DirectiveName::Assertion => true,
        DirectiveName::PreAssertion => mode == Mode::Read,
        _ => false,
    }
}

pub open spec fn spec_legal(n: DirectiveName, mode: Mode, ctx: DirectiveContext) -> bool {
    match ctx {
        DirectiveContext::FieldContext => spec_legal_field(n, mode),
        DirectiveContext::UnitCaseContext => spec_legal_unit(n, mode),
        DirectiveContext::StructContext => spec_legal_struct(n, mode),
    }
}

/// The catalog's legality query: whether a directive name is recognized for
/// the given mode and attachment context. An illegal name is reported as an
/// unknown directive at its location.
pub fn is_legal(n: DirectiveName, mode: Mode, ctx: DirectiveContext) -> (r: bool)
    ensures
        r == spec_legal(n, mode, ctx),
{
    let read = matches!(mode, Mode::Read);
    match ctx {
        DirectiveContext::FieldContext => match n {
            DirectiveName::DefaultValue
            | DirectiveName::ParseWith
            | DirectiveName::Count
            | DirectiveName::Offset
            | DirectiveName::OffsetAfter
            | DirectiveName::IfCond
            | DirectiveName::DerefNow
            | DirectiveName::PostProcessNow
            | DirectiveName::DoTry
            | DirectiveName::Temp
            | DirectiveName::ErrContext => read,
            DirectiveName::WriteWith => !read,
            DirectiveName::PreAssertion => false,
            _ => true,
        },
        DirectiveContext::UnitCaseContext => match n {
            DirectiveName::Magic => true,
            DirectiveName::PreAssertion => read,
            _ => false,
        },
        DirectiveContext::StructContext => match n {
            DirectiveName::Big
            | DirectiveName::Little
            | DirectiveName::IsBig
            | DirectiveName::IsLittle
            | DirectiveName::Magic
            | DirectiveName::Assertion => true,
            DirectiveName::PreAssertion => read,
            _ => false,
        },
    }
}

/// The catalog's shape query: the value shape a directive expects.
pub fn shape_of(n: DirectiveName) -> (r: ValueShape)
    ensures
        r == spec_shape_of(n),
{
    match n {
        DirectiveName::Big => ValueShape::FlagShape,
        DirectiveName::Little => ValueShape::FlagShape,
        DirectiveName::IsBig => ValueShape::SingleShape,
        DirectiveName::IsLittle => ValueShape::SingleShape,
        DirectiveName::MapValue => ValueShape::SingleShape,
        DirectiveName::TryMapValue => ValueShape::SingleShape,
        DirectiveName::Repr => ValueShape::SingleShape,
        DirectiveName::Magic => ValueShape::SingleShape,
        DirectiveName::Args => ValueShape::ListShape,
        DirectiveName::ArgsRaw => ValueShape::SingleShape,
        DirectiveName::Calc => ValueShape::SingleShape,
        DirectiveName::DefaultValue => ValueShape::FlagShape,
        DirectiveName::Ignore => ValueShape::FlagShape,
        DirectiveName::ParseWith => ValueShape::SingleShape,
        DirectiveName::WriteWith => ValueShape::SingleShape,
        DirectiveName::Count => ValueShape::SingleShape,
        DirectiveName::Offset => ValueShape::SingleShape,
        DirectiveName::OffsetAfter => ValueShape::SingleShape,
        DirectiveName::IfCond => ValueShape::CheckShape,
        DirectiveName::DerefNow => ValueShape::FlagShape,
        DirectiveName::PostProcessNow => ValueShape::FlagShape,
        DirectiveName::RestorePosition => ValueShape::FlagShape,
        DirectiveName::DoTry => ValueShape::FlagShape,
        DirectiveName::Temp => ValueShape::FlagShape,
        DirectiveName::Assertion => ValueShape::CheckShape,
        DirectiveName::ErrContext => ValueShape::ListShape,
        DirectiveName::PadBefore => ValueShape::SingleShape,
        DirectiveName::PadAfter => ValueShape::SingleShape,
        DirectiveName::AlignBefore => ValueShape::SingleShape,
        DirectiveName::AlignAfter => ValueShape::SingleShape,
        DirectiveName::SeekBefore => ValueShape::SingleShape,
        DirectiveName::PadSizeTo => ValueShape::SingleShape,
        DirectiveName::PreAssertion => ValueShape::CheckShape,
    }
}

} // verus!
