//! Error types for the parser.

use vstd::prelude::*;

use crate::ast::error::{SemanticError, SemanticErrorView};
use crate::ast::expr::views;
use crate::lexer::error::{LexerError, LexerErrorView};
use crate::token::span::Position;
use crate::token::{Token, TokenType, TokenTypeView, TokenView};

verus! {

/// The type of error that can occur during parsing but does not prevent the parser from
/// continuing.
#[derive(Debug, Clone, PartialEq)]
pub enum RecoverableParserError {
    /// A semantic error.
    SemanticError(SemanticError),
    /// A required token is missing: the kind of the token and the position where it was
    /// expected.
    MissingToken(TokenType, Position),
    /// An unsupported ABI was encountered.
    UnsupportedAbi(String),
}

/// What a [`RecoverableParserError`] stands for.
pub enum RecoverableParserErrorView {
    SemanticError(SemanticErrorView),
    MissingToken(TokenTypeView, Position),
    UnsupportedAbi(Seq<char>),
}

impl View for RecoverableParserError {
    type V = RecoverableParserErrorView;

    open spec fn view(&self) -> RecoverableParserErrorView {
        match self {
            RecoverableParserError::SemanticError(e) => RecoverableParserErrorView::SemanticError(e@),
            RecoverableParserError::MissingToken(kind, position) => {
                RecoverableParserErrorView::MissingToken(kind@, *position)
            },
            RecoverableParserError::UnsupportedAbi(abi) => {
                RecoverableParserErrorView::UnsupportedAbi(abi@)
            },
        }
    }
}

impl From<SemanticError> for RecoverableParserError {
    fn from(error: SemanticError) -> (r: RecoverableParserError) {
        RecoverableParserError::SemanticError(error)
    }
}

impl vstd::std_specs::convert::FromSpecImpl<SemanticError> for RecoverableParserError {
    open spec fn obeys_from_spec() -> bool {
        true
    }

    open spec fn from_spec(error: SemanticError) -> RecoverableParserError {
        RecoverableParserError::SemanticError(error)
    }
}

/// The type of error that can occur during parsing.
#[derive(Debug, Clone, PartialEq)]
pub enum ParserError {
    /// A list of errors that occurred during parsing, but did not prevent the parser from
    /// continuing.
    Aggregated(Vec<RecoverableParserError>),
    /// An error that occurred during lexing.
    LexicalError(LexerError),
    /// Unexpected end of file.
    UnexpectedEOF,
    /// An unexpected token was encountered.
    UnexpectedToken {
        /// The unexpected token.
        actual: Token,
        /// A description of what was expected.
        expected: &'static str,
    },
}

/// What a [`ParserError`] stands for.
pub enum ParserErrorView {
    Aggregated(Seq<RecoverableParserErrorView>),
    LexicalError(LexerErrorView),
    UnexpectedEOF,
    UnexpectedToken { actual: TokenView, expected: Seq<char> },
}

impl View for ParserError {
    type V = ParserErrorView;

    open spec fn view(&self) -> ParserErrorView {
        match self {
            ParserError::Aggregated(errors) => ParserErrorView::Aggregated(views(errors@)),
            ParserError::LexicalError(e) => ParserErrorView::LexicalError(e@),
            ParserError::UnexpectedEOF => ParserErrorView::UnexpectedEOF,
            ParserError::UnexpectedToken { actual, expected } => {
                ParserErrorView::UnexpectedToken { actual: actual@, expected: expected@ }
            },
        }
    }
}

impl From<LexerError> for ParserError {
    fn from(error: LexerError) -> (r: ParserError) {
        ParserError::LexicalError(error)
    }
}

impl vstd::std_specs::convert::FromSpecImpl<LexerError> for ParserError {
    open spec fn obeys_from_spec() -> bool {
        true
    }

    open spec fn from_spec(error: LexerError) -> ParserError {
        ParserError::LexicalError(error)
    }
}

} // verus!
