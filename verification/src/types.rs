use vstd::prelude::*;
use proc_macro2::TokenStream;
use crate::span::Span;

verus! {

/// A byte order.
#[derive(Clone, Copy, Debug, PartialEq, Eq, Structural)]
pub enum Endian {
    Big,
    Little,
}

/// How the endianness of a field or structure is determined.
#[derive(Debug)]
pub enum CondEndian {
    /// Inherited from the surrounding structure (the default).
    Inherited,
    /// Fixed by a directive at the given location.
    Fixed(Span, Endian),
    /// Chosen at runtime by the given expression.
    Cond(Span, Endian, TokenStream),
}

/// An opaque expression fragment together with the location of the directive
/// that supplied it.
#[derive(Debug)]
pub struct SpannedExpr {
    pub span: Span,
    pub tokens: TokenStream,
}

/// How the raw parsed value becomes the field value; the variants are
/// mutually exclusive by construction.
#[derive(Debug)]
pub enum ValueTransform {
    /// No transformation (the default).
    Identity,
    /// Through a function.
    Mapped(Span, TokenStream),
    /// Through a fallible function.
    TryMapped(Span, TokenStream),
    /// Parsed as an alternate representation type.
    Repr(Span, TokenStream),
}

/// Arguments handed to the inner parser of a field.
#[derive(Debug)]
pub enum PassedArgs {
    /// No arguments (the default).
    NoArgs,
    /// An explicit expression list.
    ArgList(Span, Vec<TokenStream>),
    /// A raw forwarded expression.
    RawArgs(Span, TokenStream),
}

/// Spec-level mirror of `PassedArgs`, with the list as a sequence.
pub enum PassedArgsV {
    NoArgs,
    ArgList(Span, Seq<TokenStream>),
    RawArgs(Span, TokenStream),
}

impl View for PassedArgs {
    type V = PassedArgsV;

    open spec fn view(&self) -> PassedArgsV {
        match *self {
            PassedArgs::NoArgs => PassedArgsV::NoArgs,
            PassedArgs::ArgList(s, ref v) => PassedArgsV::ArgList(s, v@),
            PassedArgs::RawArgs(s, t) => PassedArgsV::RawArgs(s, t),
        }
    }
}

/// Whether any stream access happens for a field; the variants are mutually
/// exclusive by construction.
#[derive(Debug)]
pub enum FieldMode {
    /// Normal stream parse (the default).
    Normal,
    /// The value is calculated by the given expression.
    Calc(Span, TokenStream),
    /// The value is defaulted; the field is skipped entirely on write.
    DefaultVal(Span),
    /// A custom parser runs instead of the normal one.
    CustomParser(Span, TokenStream),
    /// A custom writer runs instead of the normal one.
    CustomWriter(Span, TokenStream),
}

/// A boolean expression gating whether a field is parsed, with an optional
/// alternate value when it is not.
#[derive(Debug)]
pub struct Condition {
    pub span: Span,
    pub condition: TokenStream,
    pub alternate: Option<TokenStream>,
}

/// One checked condition with an optional custom error, kept in source order.
#[derive(Debug)]
pub struct Assertion {
    pub span: Span,
    pub condition: TokenStream,
    pub message: Option<TokenStream>,
}

/// Custom wrapping applied to errors arising from a field.
#[derive(Debug)]
pub struct ErrContext {
    pub span: Span,
    pub parts: Vec<TokenStream>,
}

/// Spec-level mirror of `ErrContext`.
pub struct ErrContextV {
    pub span: Span,
    pub parts: Seq<TokenStream>,
}

impl View for ErrContext {
    type V = ErrContextV;

    open spec fn view(&self) -> ErrContextV {
        ErrContextV { span: self.span, parts: self.parts@ }
    }
}

/// Whether a field exists only during parsing. Distinguishes the unset state,
/// a `temp` directive, and the one permitted late mutation that forces a
/// resolved field into the temporary state.
#[derive(Clone, Copy, Debug, PartialEq, Eq, Structural)]
pub enum TempState {
    NotTemp,
    FromDirective(Span),
    Forced,
}

} // verus!
