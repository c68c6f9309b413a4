//! Error types for the lexer.

use vstd::prelude::*;

use crate::token::span::Span;

verus! {

/// The type of error that can occur during lexing.
///
/// A word is never an error: every run of identifier characters is a keyword, a boolean
/// literal or an identifier.
#[derive(Debug, Clone, PartialEq, Eq)]
pub enum LexerErrorKind {
    /// The text of a number without a dot is no integer literal.
    InvalidIntLiteral(String),
    /// The text of a number with a dot is no floating-point literal.
    InvalidFloatLiteral(String),
    /// The string literal is not terminated (i.e. it is missing a closing quote).
    UnterminatedStringLiteral,
    /// An unknown token was encountered.
    UnknownToken(char),
}

/// What a [`LexerErrorKind`] stands for.
pub enum LexerErrorKindView {
    InvalidIntLiteral(Seq<char>),
    InvalidFloatLiteral(Seq<char>),
    UnterminatedStringLiteral,
    UnknownToken(char),
}

impl View for LexerErrorKind {
    type V = LexerErrorKindView;

    open spec fn view(&self) -> LexerErrorKindView {
        match self {
            LexerErrorKind::InvalidIntLiteral(s) => LexerErrorKindView::InvalidIntLiteral(s@),
            LexerErrorKind::InvalidFloatLiteral(s) => LexerErrorKindView::InvalidFloatLiteral(s@),
            LexerErrorKind::UnterminatedStringLiteral => LexerErrorKindView::UnterminatedStringLiteral,
            LexerErrorKind::UnknownToken(c) => LexerErrorKindView::UnknownToken(*c),
        }
    }
}

/// An error that can occur during lexing.
#[derive(Debug, Clone, PartialEq, Eq)]
pub struct LexerError {
    kind: LexerErrorKind,
    span: Span,
}

/// What a [`LexerError`] stands for.
pub struct LexerErrorView {
    pub kind: LexerErrorKindView,
    pub span: Span,
}

impl View for LexerError {
    type V = LexerErrorView;

    closed spec fn view(&self) -> LexerErrorView {
        LexerErrorView { kind: self.kind@, span: self.span }
    }
}

impl LexerError {
    /// Creates a new lexer error of a specific kind at the given span.
    pub fn new(kind: LexerErrorKind, span: Span) -> (r: LexerError)
        ensures
            r@ == (LexerErrorView { kind: kind@, span }),
    {
        LexerError { kind, span }
    }

    /// Returns the kind of this error.
    pub fn kind(&self) -> (r: &LexerErrorKind)
        ensures
            r@ == self@.kind,
    {
        &self.kind
    }

    /// Returns the span of the text that this error is about.
    pub fn span(&self) -> (r: Span)
        ensures
            r == self@.span,
    {
        self.span
    }
}

} // verus!
