//! The parser for the μRust compiler.
//!
//! The parser pulls the tokens of a source text from a [`Lexer`], one at a time and
//! through a buffer that holds at most one token, and builds the AST by recursive
//! descent. What it builds is stated by the model of the grammar in [`grammar`].

use vstd::prelude::*;

use crate::ast::crt::{Crate, CrateView};
use crate::ast::expr::{lemma_views_push, views};
use crate::lexer::{lemma_stream_unfold, stream_from, Cursor, Lexer};
use crate::token::span::Position;
use crate::token::Token;

use self::error::{ParserError, ParserErrorView, RecoverableParserError};
use self::grammar::{crate_root, State};

pub mod consumption;
pub mod error;
pub mod grammar;
pub mod laws;
pub mod productions;

verus! {

/// The parser for the μRust compiler.
pub struct Parser {
    lexer: Lexer,
    peeked: Option<Token>,
    errors: Vec<RecoverableParserError>,
    filename: String,
}

impl Parser {
    /// The invariant of a parser: its lexer is well-formed, and has handed out the
    /// end-of-file token just when the buffer holds it.
    pub closed spec fn wf(&self) -> bool {
        &&& self.lexer.wf()
        &&& match self.peeked {
            Some(token) => self.lexer.finished() == token@.is_eof(),
            None => true,
        }
    }

    /// What the parser has before it: the tokens that it has yet to read, the lexical
    /// error that ends them if there is one, and the recoverable errors met so far.
    pub closed spec fn state(&self) -> State {
        let rest = self.lexer.rest();
        State {
            tokens: match self.peeked {
                Some(token) => seq![token@] + rest.tokens,
                None => rest.tokens,
            },
            failure: rest.failure,
            errors: views(self.errors@),
        }
    }

    /// The name of the file being parsed.
    pub closed spec fn name(&self) -> Seq<char> {
        self.filename@
    }

    /// The state in which the parse of the text `source` starts: all its tokens are yet
    /// to be read, and no recoverable error has been met.
    pub open spec fn initial_state(source: Seq<char>) -> State {
        let stream = stream_from(
            source,
            Cursor { index: 0, position: Position { line: 1, column: 1 } },
        );
        State { tokens: stream.tokens, failure: stream.failure, errors: Seq::empty() }
    }

    /// Creates a new `Parser` that will parse the text `source`, which was read from the
    /// file of the name `filename`.
    pub fn new(filename: String, source: Vec<char>) -> (r: Parser)
        requires
            source.len() < usize::MAX,
        ensures
            r.wf(),
            r.name() == filename@,
            r.state() == Parser::initial_state(source@),
    {
        let lexer = Lexer::new(filename, source);
        let filename = lexer.get_filename_owned();
        let r = Parser { lexer, peeked: None, errors: Vec::new(), filename };
        assert(views(r.errors@) =~= Seq::empty());
        r
    }

    /// Returns the name of the file being parsed.
    pub fn filename(&self) -> (r: &str)
        ensures
            r@ == self.name(),
    {
        self.filename.as_str()
    }

    /// Peeks at the next token from the lexer without consuming it.
    pub fn peek(&mut self) -> (r: Result<&Token, ParserError>)
        requires
            old(self).wf(),
        ensures
            final(self).wf(),
            final(self).name() == old(self).name(),
            match r {
                Ok(token) => old(self).state().has_next() && token@ == old(self).state().next()
                    && final(self).state() == old(self).state(),
                Err(e) => !old(self).state().has_next() && e@ == old(self).state().end_error(),
            },
    {
        if self.peeked.is_none() {
            proof {
                self.lexer.lemma_cursor_in_source();
                lemma_stream_unfold(self.lexer.source(), self.lexer.cursor());
            }
            match self.lexer.next() {
                Ok(Some(token)) => {
                    self.peeked = Some(token);
                },
                Ok(None) => {
                    return Err(ParserError::UnexpectedEOF);
                },
                Err(e) => {
                    return Err(ParserError::LexicalError(e));
                },
            }
            assert(self.state().tokens =~= old(self).state().tokens);
        }
        match &self.peeked {
            Some(token) => Ok(token),
            None => Err(ParserError::UnexpectedEOF),
        }
    }

    /// Consumes the next token from the lexer.
    pub fn consume(&mut self) -> (r: Result<Token, ParserError>)
        requires
            old(self).wf(),
        ensures
            final(self).wf(),
            final(self).name() == old(self).name(),
            match r {
                Ok(token) => old(self).state().has_next() && token@ == old(self).state().next()
                    && final(self).state() == old(self).state().advance(),
                Err(e) => !old(self).state().has_next() && e@ == old(self).state().end_error(),
            },
    {
        match self.peeked.take() {
            Some(token) => {
                assert(self.state().tokens =~= old(self).state().advance().tokens);
                Ok(token)
            },
            None => {
                proof {
                    self.lexer.lemma_cursor_in_source();
                    lemma_stream_unfold(self.lexer.source(), self.lexer.cursor());
                }
                match self.lexer.next() {
                    Ok(Some(token)) => {
                        assert(self.state().tokens =~= old(self).state().advance().tokens);
                        Ok(token)
                    },
                    Ok(None) => Err(ParserError::UnexpectedEOF),
                    Err(e) => Err(ParserError::LexicalError(e)),
                }
            },
        }
    }

    /// Parses the whole text and returns the AST of the file.
    ///
    /// The result is what the grammar gives for the tokens of the text: the crate, or the
    /// error that ends the parse, which holds all the recoverable errors if there were
    /// any.
    pub fn parse(self) -> (r: Result<Crate, ParserError>)
        requires
            self.wf(),
        ensures
            match r {
                Ok(root) => crate_root(self.state(), self.name()) == Ok::<_, ParserErrorView>(
                    root@,
                ),
                Err(e) => crate_root(self.state(), self.name()) == Err::<CrateView, _>(e@),
            },
    {
        let root = self.parse_crate()?;
        Ok(Crate::new(Box::new(root)))
    }

    /// Returns the recoverable errors that were met so far, in order.
    pub fn errors(&self) -> (r: &Vec<RecoverableParserError>)
        ensures
            views(r@) == self.state().errors,
    {
        &self.errors
    }

    /// Tells whether a recoverable error has been met.
    pub(crate) fn has_errors(&self) -> (r: bool)
        ensures
            r == (self.state().errors.len() > 0),
    {
        self.errors.len() > 0
    }

    /// Returns the recoverable errors that were met, in order, consuming the parser.
    pub(crate) fn into_errors(self) -> (r: Vec<RecoverableParserError>)
        ensures
            views(r@) == self.state().errors,
    {
        self.errors
    }

    /// Pushes a recoverable error into the parser's error list.
    pub(crate) fn push_rcv_error(&mut self, error: RecoverableParserError)
        requires
            old(self).wf(),
        ensures
            final(self).wf(),
            final(self).name() == old(self).name(),
            final(self).state() == old(self).state().log(error@),
    {
        proof {
            lemma_views_push(self.errors@, error);
        }
        self.errors.push(error);
    }
}

} // verus!
