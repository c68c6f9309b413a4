//! The lexer for the μRust compiler.
//!
//! The lexer reads a source text character by character and hands out its tokens one
//! at a time. What it hands out is stated over a model of the text as a sequence of
//! characters: [`lex_step`] says which token or error comes next from a given place,
//! and [`stream_from`] which tokens come in all.

use vstd::prelude::*;

use crate::token::span::{Position, Span};
use crate::view::{lemma_views_push, views};
use crate::token::{keyword, string_of, symbol_pair, symbol_single, Token, TokenType, TokenTypeView, TokenView};

use self::error::{LexerError, LexerErrorKind, LexerErrorKindView, LexerErrorView};
use self::helper::{
    digit, has_dot, int_literal, is_digit, is_float_literal, is_float_text, is_new_line,
    is_whitespace, is_word_part, is_word_start, new_line, parse_int, whitespace, xid_continue,
    xid_start,
};

pub mod error;
pub mod file_reader;
pub mod helper;

verus! {

/// A class of characters that delimits a run in the source text.
#[derive(Debug, Clone, Copy, PartialEq, Eq, Structural)]
pub enum CharClass {
    /// White space.
    Whitespace,
    /// What a line comment holds: anything but a new line.
    CommentBody,
    /// What may follow the first digit of a number: a character with the Unicode property
    /// XID_Continue, or a dot.
    NumberPart,
    /// What may follow the first character of an identifier: a character with the Unicode
    /// property XID_Continue.
    IdentPart,
}

impl CharClass {
    /// Whether `c` belongs to the class.
    pub open spec fn contains(self, c: char) -> bool {
        match self {
            CharClass::Whitespace => whitespace(c),
            CharClass::CommentBody => !new_line(c),
            CharClass::NumberPart => xid_continue(c) || c == '.',
            CharClass::IdentPart => xid_continue(c),
        }
    }

    /// Tells whether `c` belongs to the class.
    pub fn holds(&self, c: char) -> (r: bool)
        ensures
            r == self.contains(c),
    {
        match self {
            CharClass::Whitespace => is_whitespace(c),
            CharClass::CommentBody => !is_new_line(c),
            CharClass::NumberPart => is_word_part(c) || c == '.',
            CharClass::IdentPart => is_word_part(c),
        }
    }
}

/// A place in a source text: the index of the next character and its position.
pub struct Cursor {
    pub index: int,
    pub position: Position,
}

/// The position that follows `p` once the character `c` has been read: the start of the
/// next line after a new line, the next column after any other character.
pub open spec fn step_over(p: Position, c: char) -> Position {
    if new_line(c) {
        p.next_line()
    } else {
        p.next_column()
    }
}

/// The position `n` columns to the right of `p`.
pub open spec fn columns_right(p: Position, n: int) -> Position {
    Position { line: p.line, column: (p.column + n) as usize }
}

/// The place reached from `cur` by reading characters of `s` for as long as they belong to
/// `class`.
pub open spec fn scan_while(s: Seq<char>, cur: Cursor, class: CharClass) -> Cursor
    decreases s.len() - cur.index,
{
    if 0 <= cur.index < s.len() && class.contains(s[cur.index]) {
        scan_while(
            s,
            Cursor { index: cur.index + 1, position: step_over(cur.position, s[cur.index]) },
            class,
        )
    } else {
        cur
    }
}

/// Whether a line comment starts at `index`: two slashes.
pub open spec fn comment_starts(s: Seq<char>, index: int) -> bool {
    0 <= index && index + 1 < s.len() && s[index] == '/' && s[index + 1] == '/'
}

/// The place reached from `cur` by skipping white space and line comments. A line comment
/// starts with two slashes and ends before the next new line.
pub open spec fn skip_trivia(s: Seq<char>, cur: Cursor) -> Cursor
    decreases s.len() - cur.index,
{
    let blank_end = scan_while(s, cur, CharClass::Whitespace);
    if comment_starts(s, blank_end.index) {
        let comment_end = scan_while(s, blank_end, CharClass::CommentBody);
        if cur.index < comment_end.index <= s.len() {
            skip_trivia(s, comment_end)
        } else {
            comment_end
        }
    } else {
        blank_end
    }
}

/// The index of the quote that closes a string literal whose body goes on at `from`, or the
/// length of `s` if there is none. A backslash escapes the character that follows it, so
/// that an escaped quote does not close the literal; `escaped` tells whether the character
/// at `from` is escaped.
pub open spec fn string_end(s: Seq<char>, from: int, escaped: bool) -> int
    decreases s.len() - from,
{
    if 0 <= from < s.len() {
        if s[from] == '"' && !escaped {
            from
        } else {
            string_end(s, from + 1, s[from] == '\\' && !escaped)
        }
    } else {
        from
    }
}

/// The token or the error that the text `text` of a number gives. With a dot it is a
/// floating-point literal, without one an integer literal; text that is neither is an
/// error that holds the text.
pub open spec fn number_token(text: Seq<char>, span: Span) -> Result<TokenView, LexerErrorView> {
    if text.contains('.') {
        if is_float_text(text) {
            Ok(TokenView { kind: TokenTypeView::FloatLit(text), span })
        } else {
            Err(LexerErrorView { kind: LexerErrorKindView::InvalidFloatLiteral(text), span })
        }
    } else {
        match int_literal(text) {
            Some(value) => Ok(TokenView { kind: TokenTypeView::IntLit(value), span }),
            None => Err(LexerErrorView { kind: LexerErrorKindView::InvalidIntLiteral(text), span }),
        }
    }
}

/// The kind of the word `text`: that of the keyword or boolean literal if it is one, else
/// an identifier.
pub open spec fn word_kind(text: Seq<char>) -> TokenTypeView {
    match keyword(text) {
        Some(kind) => kind,
        None => TokenTypeView::Ident(text),
    }
}

/// What one step of lexing gives: a token or an error, and the place where lexing goes on.
pub struct Lexed {
    pub outcome: Result<TokenView, LexerErrorView>,
    pub next: Cursor,
}

/// The token or error that comes next in the text `s` from the place `cur`.
///
/// White space and line comments are skipped. At the end of the text comes the end-of-file
/// token. Else the next character decides: with the one after it, it may make a symbol of
/// two characters; alone, it may be a delimiter or an operator; a digit starts a number,
/// which goes on over the characters of [`CharClass::NumberPart`]; a quote starts a string
/// literal, which ends with the next quote that no backslash escapes; a character with the
/// Unicode property XID_Start, or an underscore, starts a word, which goes on over the
/// characters of [`CharClass::IdentPart`]; any other character is an unknown token.
///
/// Every character of a token counts as one column. So does a new line inside a string
/// literal: only the new lines between tokens start a new line.
pub open spec fn lex_step(s: Seq<char>, cur: Cursor) -> Lexed {
    let at = skip_trivia(s, cur);
    if !(0 <= at.index < s.len()) {
        Lexed { outcome: Ok(TokenView::eof(at.position)), next: at }
    } else {
        let c = s[at.index];
        let start = at.position;
        let after = Cursor { index: at.index + 1, position: start.next_column() };
        if at.index + 1 < s.len() && symbol_pair(c, s[at.index + 1]).is_some() {
            let end = after.position.next_column();
            Lexed {
                outcome: Ok(
                    TokenView {
                        kind: symbol_pair(c, s[at.index + 1]).unwrap(),
                        span: Span { start, end },
                    },
                ),
                next: Cursor { index: at.index + 2, position: end },
            }
        } else if symbol_single(c).is_some() {
            Lexed {
                outcome: Ok(
                    TokenView {
                        kind: symbol_single(c).unwrap(),
                        span: Span { start, end: after.position },
                    },
                ),
                next: after,
            }
        } else if digit(c) {
            let end = scan_while(s, after, CharClass::NumberPart);
            Lexed {
                outcome: number_token(
                    s.subrange(at.index, end.index),
                    Span { start, end: end.position },
                ),
                next: end,
            }
        } else if c == '"' {
            let quote = string_end(s, after.index, false);
            let body_end = columns_right(after.position, quote - after.index);
            if quote < s.len() {
                let end = body_end.next_column();
                Lexed {
                    outcome: Ok(
                        TokenView {
                            kind: TokenTypeView::Abi(s.subrange(after.index, quote)),
                            span: Span { start, end },
                        },
                    ),
                    next: Cursor { index: quote + 1, position: end },
                }
            } else {
                Lexed {
                    outcome: Err(
                        LexerErrorView {
                            kind: LexerErrorKindView::UnterminatedStringLiteral,
                            span: Span { start, end: body_end },
                        },
                    ),
                    next: Cursor { index: quote, position: body_end },
                }
            }
        } else if xid_start(c) || c == '_' {
            let end = scan_while(s, after, CharClass::IdentPart);
            Lexed {
                outcome: Ok(
                    TokenView {
                        kind: word_kind(s.subrange(at.index, end.index)),
                        span: Span { start, end: end.position },
                    },
                ),
                next: end,
            }
        } else {
            Lexed {
                outcome: Err(
                    LexerErrorView {
                        kind: LexerErrorKindView::UnknownToken(c),
                        span: Span { start, end: after.position },
                    },
                ),
                next: after,
            }
        }
    }
}

/// A run ends at or after its start, and within the text.
pub proof fn lemma_scan_while_bounds(s: Seq<char>, cur: Cursor, class: CharClass)
    requires
        0 <= cur.index <= s.len(),
    ensures
        cur.index <= scan_while(s, cur, class).index <= s.len(),
    decreases s.len() - cur.index,
{
    if cur.index < s.len() && class.contains(s[cur.index]) {
        lemma_scan_while_bounds(
            s,
            Cursor { index: cur.index + 1, position: step_over(cur.position, s[cur.index]) },
            class,
        );
    }
}

/// Skipping white space and comments ends at or after its start, and within the text.
pub proof fn lemma_skip_trivia_bounds(s: Seq<char>, cur: Cursor)
    requires
        0 <= cur.index <= s.len(),
    ensures
        cur.index <= skip_trivia(s, cur).index <= s.len(),
    decreases s.len() - cur.index,
{
    let blank_end = scan_while(s, cur, CharClass::Whitespace);
    lemma_scan_while_bounds(s, cur, CharClass::Whitespace);
    if comment_starts(s, blank_end.index) {
        let comment_end = scan_while(s, blank_end, CharClass::CommentBody);
        lemma_scan_while_bounds(s, blank_end, CharClass::CommentBody);
        if cur.index < comment_end.index <= s.len() {
            lemma_skip_trivia_bounds(s, comment_end);
        }
    }
}

/// A line comment ends after the place where skipping began, and within the text: the
/// comment holds its two slashes at least.
pub proof fn lemma_comment_is_skipped(s: Seq<char>, cur: Cursor)
    requires
        0 <= cur.index <= s.len(),
        comment_starts(s, scan_while(s, cur, CharClass::Whitespace).index),
    ensures
        cur.index < scan_while(
            s,
            scan_while(s, cur, CharClass::Whitespace),
            CharClass::CommentBody,
        ).index <= s.len(),
{
    let blank_end = scan_while(s, cur, CharClass::Whitespace);
    lemma_scan_while_bounds(s, cur, CharClass::Whitespace);
    lemma_scan_while_bounds(
        s,
        Cursor {
            index: blank_end.index + 1,
            position: step_over(blank_end.position, s[blank_end.index]),
        },
        CharClass::CommentBody,
    );
}

/// The quote that closes a string literal lies at or after the place where its body goes
/// on, and within the text or at its end.
pub proof fn lemma_string_end_bounds(s: Seq<char>, from: int, escaped: bool)
    requires
        0 <= from <= s.len(),
    ensures
        from <= string_end(s, from, escaped) <= s.len(),
    decreases s.len() - from,
{
    if from < s.len() && !(s[from] == '"' && !escaped) {
        lemma_string_end_bounds(s, from + 1, s[from] == '\\' && !escaped);
    }
}

/// A step of lexing stays within the text, and goes forward unless it gives the
/// end-of-file token.
pub proof fn lemma_lex_step_advances(s: Seq<char>, cur: Cursor)
    requires
        0 <= cur.index <= s.len(),
    ensures
        cur.index <= lex_step(s, cur).next.index <= s.len(),
        lex_step(s, cur).outcome == Ok::<TokenView, LexerErrorView>(
            TokenView::eof(skip_trivia(s, cur).position),
        ) || cur.index < lex_step(s, cur).next.index,
        lex_step(s, cur).outcome is Ok && lex_step(s, cur).outcome->Ok_0.is_eof() ==> skip_trivia(
            s,
            cur,
        ).index == s.len(),
{
    let at = skip_trivia(s, cur);
    lemma_skip_trivia_bounds(s, cur);
    if at.index < s.len() {
        let after = Cursor { index: at.index + 1, position: at.position.next_column() };
        lemma_scan_while_bounds(s, after, CharClass::NumberPart);
        lemma_scan_while_bounds(s, after, CharClass::IdentPart);
        lemma_string_end_bounds(s, after.index, false);
    }
}

/// The tokens that a text gives, up to its end or to the first error.
pub struct TokenStream {
    /// The tokens, in order.
    pub tokens: Seq<TokenView>,
    /// The error that follows the tokens, if lexing fails before the end of the text.
    pub failure: Option<LexerErrorView>,
}

/// The tokens that come from the text `s` from the place `cur` on, one step of lexing
/// after the other, up to the end-of-file token or to the first error.
pub open spec fn stream_from(s: Seq<char>, cur: Cursor) -> TokenStream
    decreases s.len() - cur.index,
{
    let step = lex_step(s, cur);
    match step.outcome {
        Err(e) => TokenStream { tokens: Seq::empty(), failure: Some(e) },
        Ok(token) => {
            if token.is_eof() || !(cur.index < step.next.index <= s.len()) {
                TokenStream { tokens: seq![token], failure: None }
            } else {
                let rest = stream_from(s, step.next);
                TokenStream { tokens: seq![token] + rest.tokens, failure: rest.failure }
            }
        },
    }
}

/// The tokens that come from a place are the token of the first step followed by the
/// tokens that come from the place where that step ends, unless the first step gives an
/// error or the end-of-file token.
pub proof fn lemma_stream_unfold(s: Seq<char>, cur: Cursor)
    requires
        0 <= cur.index <= s.len(),
    ensures
        ({
            let step = lex_step(s, cur);
            let stream = stream_from(s, cur);
            match step.outcome {
                Err(e) => stream.tokens.len() == 0 && stream.failure == Some(e),
                Ok(token) => if token.is_eof() {
                    stream.tokens == seq![token] && stream.failure is None
                } else {
                    &&& cur.index < step.next.index <= s.len()
                    &&& stream.tokens == seq![token] + stream_from(s, step.next).tokens
                    &&& stream.failure == stream_from(s, step.next).failure
                },
            }
        }),
{
    lemma_lex_step_advances(s, cur);
}

/// Every token sequence without an error ends in exactly one end-of-file token: the last
/// token is the end-of-file token and no token before it is. A token sequence that ends
/// in an error holds no end-of-file token.
pub proof fn lemma_stream_ends_in_one_eof(s: Seq<char>, cur: Cursor)
    requires
        0 <= cur.index <= s.len(),
    ensures
        ({
            let stream = stream_from(s, cur);
            &&& stream.failure is None ==> stream.tokens.len() > 0 && stream.tokens.last().is_eof()
            &&& forall|i: int|
                0 <= i < stream.tokens.len() && #[trigger] stream.tokens[i].is_eof() ==> i
                    == stream.tokens.len() - 1 && stream.failure is None
        }),
    decreases s.len() - cur.index,
{
    let step = lex_step(s, cur);
    lemma_lex_step_advances(s, cur);
    match step.outcome {
        Err(e) => {},
        Ok(token) => {
            if !token.is_eof() {
                lemma_stream_ends_in_one_eof(s, step.next);
            }
        },
    }
}

/// The lexer for the μRust compiler.
///
/// A `Lexer` holds a source text and hands out its tokens one by one. The last token that
/// it hands out is the end-of-file token; after it, or after an error, nothing more
/// comes.
pub struct Lexer {
    filename: String,
    position: Position,
    source: Vec<char>,
    index: usize,
    finished: bool,
}

impl Lexer {
    /// The invariant of a lexer: it stands within its text, and neither the line nor the
    /// column of its position is beyond the number of characters read plus one.
    pub closed spec fn wf(&self) -> bool {
        &&& self.index <= self.source.len() < usize::MAX
        &&& self.position.line <= self.index + 1
        &&& self.position.column <= self.index + 1
    }

    /// The text that the lexer reads.
    pub closed spec fn source(&self) -> Seq<char> {
        self.source@
    }

    /// The place where the lexer stands.
    pub closed spec fn cursor(&self) -> Cursor {
        Cursor { index: self.index as int, position: self.position }
    }

    /// Whether the lexer has handed out the end-of-file token.
    pub closed spec fn finished(&self) -> bool {
        self.finished
    }

    /// The name of the file that the text comes from.
    pub closed spec fn filename(&self) -> Seq<char> {
        self.filename@
    }

    /// The tokens that the lexer has yet to hand out.
    pub open spec fn rest(&self) -> TokenStream {
        if self.finished() {
            TokenStream { tokens: Seq::empty(), failure: None }
        } else {
            stream_from(self.source(), self.cursor())
        }
    }

    /// A lexer stands within its text.
    pub proof fn lemma_cursor_in_source(&self)
        requires
            self.wf(),
        ensures
            0 <= self.cursor().index <= self.source().len(),
    {
    }

    /// Creates a new `Lexer` that will lex the text `source`, which was read from the file
    /// of the name `filename`.
    pub fn new(filename: String, source: Vec<char>) -> (r: Lexer)
        requires
            source.len() < usize::MAX,
        ensures
            r.wf(),
            r.filename() == filename@,
            r.source() == source@,
            r.cursor() == (Cursor { index: 0, position: Position { line: 1, column: 1 } }),
            !r.finished(),
    {
        Lexer { filename, position: Position::new(), source, index: 0, finished: false }
    }

    /// Returns the name of the file being lexed.
    pub fn get_filename(&self) -> (r: &str)
        ensures
            r@ == self.filename(),
    {
        self.filename.as_str()
    }

    /// Returns a copy of the name of the file being lexed.
    pub fn get_filename_owned(&self) -> (r: String)
        ensures
            r@ == self.filename(),
    {
        self.filename.clone()
    }

    /// Collects characters of the text to `text` while they belong to `class`, updating
    /// the position accordingly.
    fn collect_while(&mut self, class: CharClass, text: &mut Vec<char>)
        requires
            old(self).wf(),
        ensures
            final(self).wf(),
            final(self).filename() == old(self).filename(),
            final(self).source() == old(self).source(),
            final(self).finished() == old(self).finished(),
            final(self).cursor() == scan_while(old(self).source(), old(self).cursor(), class),
            old(self).cursor().index <= final(self).cursor().index,
            final(text)@ == old(text)@ + old(self).source().subrange(
                old(self).cursor().index,
                final(self).cursor().index,
            ),
    {
        let ghost start = self.index as int;
        let ghost collected = text@;
        assert(text@ =~= collected + self.source@.subrange(start, start));
        while self.index < self.source.len() && class.holds(self.source[self.index])
            invariant
                self.wf(),
                self.filename@ == old(self).filename@,
                self.source@ == old(self).source@,
                self.finished == old(self).finished,
                0 <= start <= self.index <= self.source.len(),
                scan_while(self.source@, self.cursor(), class) == scan_while(
                    old(self).source@,
                    old(self).cursor(),
                    class,
                ),
                text@ == collected + self.source@.subrange(start, self.index as int),
            decreases self.source.len() - self.index,
        {
            let c = self.source[self.index];
            let ghost before = text@;
            text.push(c);
            assert(text@ == before.push(c));
            assert(text@ =~= collected + self.source@.subrange(start, self.index + 1));
            self.index += 1;
            self.position.col_inc();
            if is_new_line(c) {
                self.position.line_inc();
            }
        }
    }

    /// Skips white space and line comments.
    fn skip_blank(&mut self)
        requires
            old(self).wf(),
        ensures
            final(self).wf(),
            final(self).filename() == old(self).filename(),
            final(self).source() == old(self).source(),
            final(self).finished() == old(self).finished(),
            final(self).cursor() == skip_trivia(old(self).source(), old(self).cursor()),
    {
        let mut skipped: Vec<char> = Vec::new();
        loop
            invariant_except_break
                skip_trivia(self.source@, self.cursor()) == skip_trivia(
                    old(self).source@,
                    old(self).cursor(),
                ),
            invariant
                self.wf(),
                self.filename@ == old(self).filename@,
                self.source@ == old(self).source@,
                self.finished == old(self).finished,
            ensures
                self.wf(),
                self.filename@ == old(self).filename@,
                self.source@ == old(self).source@,
                self.finished == old(self).finished,
                self.cursor() == skip_trivia(old(self).source@, old(self).cursor()),
            decreases self.source.len() - self.index,
        {
            let ghost before = self.cursor();
            self.collect_while(CharClass::Whitespace, &mut skipped);
            if self.index + 1 < self.source.len() && self.source[self.index] == '/'
                && self.source[self.index + 1] == '/' {
                let ghost blank_end = self.cursor();
                self.collect_while(CharClass::CommentBody, &mut skipped);
                proof {
                    lemma_scan_while_bounds(
                        self.source@,
                        Cursor {
                            index: blank_end.index + 1,
                            position: step_over(blank_end.position, self.source@[blank_end.index]),
                        },
                        CharClass::CommentBody,
                    );
                }
            } else {
                break ;
            }
        }
    }

    /// Returns the next token from the source text.
    fn next_token(&mut self) -> (r: Result<Token, LexerError>)
        requires
            old(self).wf(),
            !old(self).finished(),
        ensures
            final(self).wf(),
            final(self).filename() == old(self).filename(),
            final(self).source() == old(self).source(),
            final(self).cursor() == lex_step(old(self).source(), old(self).cursor()).next,
            match r {
                Ok(token) => lex_step(old(self).source(), old(self).cursor()).outcome == Ok::<
                    TokenView,
                    LexerErrorView,
                >(token@) && final(self).finished() == token@.is_eof(),
                Err(e) => lex_step(old(self).source(), old(self).cursor()).outcome == Err::<
                    TokenView,
                    LexerErrorView,
                >(e@) && !final(self).finished(),
            },
    {
        self.skip_blank();
        if self.index >= self.source.len() {
            self.finished = true;
            return Ok(Token::eof(self.position));
        }
        let ghost at = self.cursor();
        let start_pos = self.position;
        let start = self.index;
        let c = self.source[start];
        self.index += 1;
        self.position.col_inc();

        // Two-character delimiters or operators
        if self.index < self.source.len() {
            let n = self.source[self.index];
            match TokenType::pair_symbol(c, n) {
                Some(tt) => {
                    self.index += 1;
                    self.position.col_inc();
                    return Ok(Token::new(tt, start_pos, self.position));
                },
                None => {},
            }
        }
        // One-character delimiters or operators

        match TokenType::single_symbol(c) {
            Some(tt) => {
                return Ok(Token::new(tt, start_pos, self.position));
            },
            None => {},
        }

        // Number literals
        if is_digit(c) {
            let mut text: Vec<char> = Vec::new();
            text.push(c);
            self.collect_while(CharClass::NumberPart, &mut text);
            assert(text@ =~= self.source@.subrange(at.index, self.index as int));
            let span = Span::new(start_pos, self.position);
            if has_dot(&text) {
                if is_float_literal(&text) {
                    return Ok(Token::new(TokenType::FloatLit(string_of(&text)), start_pos, self.position));
                } else {
                    return Err(
                        LexerError::new(LexerErrorKind::InvalidFloatLiteral(string_of(&text)), span),
                    );
                }
            } else {
                match parse_int(&text) {
                    Some(value) => {
                        return Ok(Token::new(TokenType::IntLit(value), start_pos, self.position));
                    },
                    None => {
                        return Err(
                            LexerError::new(LexerErrorKind::InvalidIntLiteral(string_of(&text)), span),
                        );
                    },
                }
            }
        }
        // String literals, which can only appear as the name of an ABI

        if c == '"' {
            let mut body: Vec<char> = Vec::new();
            let mut escaped = false;
            let ghost body_start = self.cursor();
            assert(body@ =~= self.source@.subrange(body_start.index, body_start.index));
            while self.index < self.source.len() && (self.source[self.index] != '"' || escaped)
                invariant
                    self.wf(),
                    self.filename@ == old(self).filename@,
                    self.source@ == old(self).source@,
                    self.finished == old(self).finished,
                    0 <= body_start.index <= self.index,
                    body_start.position.column == body_start.index - at.index + at.position.column,
                    at.position.column <= at.index + 1,
                    0 <= at.index,
                    self.position == columns_right(
                        body_start.position,
                        self.index - body_start.index,
                    ),
                    string_end(self.source@, self.index as int, escaped) == string_end(
                        self.source@,
                        body_start.index,
                        false,
                    ),
                    body@ == self.source@.subrange(body_start.index, self.index as int),
                decreases self.source.len() - self.index,
            {
                let ch = self.source[self.index];
                escaped = ch == '\\' && !escaped;
                body.push(ch);
                assert(body@ =~= self.source@.subrange(body_start.index, self.index + 1));
                self.index += 1;
                self.position.col_inc();
            }
            if self.index >= self.source.len() {
                return Err(
                    LexerError::new(
                        LexerErrorKind::UnterminatedStringLiteral,
                        Span::new(start_pos, self.position),
                    ),
                );
            }
            self.index += 1;
            self.position.col_inc();
            return Ok(Token::new(TokenType::Abi(string_of(&body)), start_pos, self.position));
        }
        // Identifier or keyword

        if is_word_start(c) {
            let mut text: Vec<char> = Vec::new();
            text.push(c);
            self.collect_while(CharClass::IdentPart, &mut text);
            assert(text@ =~= self.source@.subrange(at.index, self.index as int));
            let tt = match TokenType::keyword_of(&text) {
                Some(tt) => tt,
                None => TokenType::Ident(string_of(&text)),
            };
            return Ok(Token::new(tt, start_pos, self.position));
        }
        // Unknown token

        Err(LexerError::new(LexerErrorKind::UnknownToken(c), Span::new(start_pos, self.position)))
    }

    /// Hands out all the tokens that the lexer has yet to hand out, the end-of-file token
    /// last, or fails with the first error that lexing meets.
    pub fn tokenize(&mut self) -> (r: Result<Vec<Token>, LexerError>)
        requires
            old(self).wf(),
        ensures
            final(self).wf(),
            final(self).filename() == old(self).filename(),
            final(self).source() == old(self).source(),
            match r {
                Ok(tokens) => old(self).rest().failure is None && views(tokens@) == old(self).rest().tokens && final(self).finished(),
                Err(e) => old(self).rest().failure == Some(e@),
            },
    {
        let mut tokens: Vec<Token> = Vec::new();
        assert(views(tokens@) + self.rest().tokens =~= old(self).rest().tokens);
        loop
            invariant
                self.wf(),
                self.filename@ == old(self).filename@,
                self.source@ == old(self).source@,
                self.rest().failure == old(self).rest().failure,
                views(tokens@) + self.rest().tokens == old(self).rest().tokens,
            decreases
                    if self.finished {
                        0
                    } else {
                        self.source.len() - self.index + 1
                    },
        {
            proof {
                lemma_stream_unfold(self.source@, self.cursor());
            }
            let ghost before = self.rest().tokens;
            match self.next() {
                Ok(Some(token)) => {
                    proof {
                        lemma_views_push(tokens@, token);
                    }
                    tokens.push(token);
                    assert(views(tokens@) + self.rest().tokens =~= old(self).rest().tokens);
                },
                Ok(None) => {
                    assert(views(tokens@) + Seq::<TokenView>::empty() =~= views(tokens@));
                    return Ok(tokens);
                },
                Err(e) => {
                    return Err(e);
                },
            }
        }
    }

    /// Hands out the next token of the text: `Ok(None)` once the end-of-file token has been
    /// handed out, else the token or the error that comes next.
    pub fn next(&mut self) -> (r: Result<Option<Token>, LexerError>)
        requires
            old(self).wf(),
        ensures
            final(self).wf(),
            final(self).filename() == old(self).filename(),
            final(self).source() == old(self).source(),
            old(self).finished() ==> r == Ok::<Option<Token>, LexerError>(None) && final(self).cursor() == old(self).cursor() && final(self).finished(),
            !old(self).finished() ==> final(self).cursor() == lex_step(
                old(self).source(),
                old(self).cursor(),
            ).next && match r {
                Ok(Some(token)) => lex_step(old(self).source(), old(self).cursor()).outcome == Ok::<
                    TokenView,
                    LexerErrorView,
                >(token@) && final(self).finished() == token@.is_eof(),
                Ok(None) => false,
                Err(e) => lex_step(old(self).source(), old(self).cursor()).outcome == Err::<
                    TokenView,
                    LexerErrorView,
                >(e@) && !final(self).finished(),
            },
    {
        if self.finished {
            return Ok(None);
        }
        match self.next_token() {
            Ok(token) => Ok(Some(token)),
            Err(e) => Err(e),
        }
    }
}

} // verus!
