//! Errors that can occur during semantic analysis on the AST.

use vstd::prelude::*;

use crate::token::span::Span;

verus! {

/// An error that can occur during semantic analysis on the AST.
#[derive(Debug, Clone, PartialEq, Eq)]
pub enum SemanticError {
    /// An expression is expected to be of a certain kind, but is of a different kind.
    WrongExpressionKind {
        /// The message describing the problem with the expression.
        message: &'static str,
        /// The span of the expression.
        span: Span,
    },
    /// A static item is declared without an initializer.
    StaticWithoutInitializer {
        /// The span of the static item.
        span: Span,
    },
    /// A static item is declared with an initializer in a block of foreign items.
    ExternStaticWithInitializer {
        /// The span of the static item initializer.
        span: Span,
    },
    /// A function is declared with a body in a block of foreign items.
    ExternFunctionWithBody {
        /// The span of the function body.
        span: Span,
    },
}

/// What a [`SemanticError`] stands for.
pub enum SemanticErrorView {
    WrongExpressionKind { message: Seq<char>, span: Span },
    StaticWithoutInitializer { span: Span },
    ExternStaticWithInitializer { span: Span },
    ExternFunctionWithBody { span: Span },
}

impl View for SemanticError {
    type V = SemanticErrorView;

    open spec fn view(&self) -> SemanticErrorView {
        match self {
            SemanticError::WrongExpressionKind { message, span } => {
                SemanticErrorView::WrongExpressionKind { message: message@, span: *span }
            },
            SemanticError::StaticWithoutInitializer { span } => {
                SemanticErrorView::StaticWithoutInitializer { span: *span }
            },
            SemanticError::ExternStaticWithInitializer { span } => {
                SemanticErrorView::ExternStaticWithInitializer { span: *span }
            },
            SemanticError::ExternFunctionWithBody { span } => {
                SemanticErrorView::ExternFunctionWithBody { span: *span }
            },
        }
    }
}

impl SemanticError {
    /// Returns the span of the source text that the error is about.
    pub fn span(&self) -> (r: Span)
        ensures
            r == match self@ {
                SemanticErrorView::WrongExpressionKind { span, .. } => span,
                SemanticErrorView::StaticWithoutInitializer { span } => span,
                SemanticErrorView::ExternStaticWithInitializer { span } => span,
                SemanticErrorView::ExternFunctionWithBody { span } => span,
            },
    {
        match self {
            SemanticError::WrongExpressionKind { span, .. } => *span,
            SemanticError::StaticWithoutInitializer { span } => *span,
            SemanticError::ExternStaticWithInitializer { span } => *span,
            SemanticError::ExternFunctionWithBody { span } => *span,
        }
    }
}

} // verus!
