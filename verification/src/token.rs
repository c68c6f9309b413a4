//! The tokens of a μRust program.

use vstd::prelude::*;

pub use self::span::{Position, Span};

pub mod span;

verus! {

/// The different types of [`Token`]s that can be found in a μRust program.
#[derive(Debug, Clone, PartialEq)]
pub enum TokenType {
    /// An identifier.
    Ident(String),
    /// `_`
    Underscore,
    /// The name of an ABI, written as a string literal; it holds the text between the quotes.
    Abi(String),
    /// `fn`
    Fn,
    /// `static`
    Static,
    /// `extern`
    Extern,
    /// `let`
    Let,
    /// `mut`
    Mut,
    /// `as`
    As,
    /// `loop`
    Loop,
    /// `while`
    While,
    /// `if`
    If,
    /// `else`
    Else,
    /// `unsafe`
    Unsafe,
    /// `return`
    Return,
    /// `(`
    LPar,
    /// `)`
    RPar,
    /// `{`
    LBra,
    /// `}`
    RBra,
    /// `;`
    Semi,
    /// `,`
    Comma,
    /// `:`
    Colon,
    /// `->`
    Arrow,
    /// A 32-bit integer literal.
    IntLit(i32),
    /// A floating-point literal; it holds the literal's text, which
    /// [`is_float_text`](crate::lexer::helper::is_float_text).
    FloatLit(String),
    /// `true` or `false`
    BoolLit(bool),
    /// `=`
    Assign,
    /// `+`
    Plus,
    /// `-`
    Minus,
    /// `*`
    Asterisk,
    /// `/`
    Div,
    /// `%`
    Mod,
    /// `&`
    BitAnd,
    /// `|`
    BitOr,
    /// `^`
    BitXor,
    /// `!`
    Not,
    /// `&&`
    And,
    /// `||`
    Or,
    /// `==`
    Eq,
    /// `!=`
    Ne,
    /// `>`
    Gt,
    /// `<`
    Lt,
    /// `>=`
    Ge,
    /// `<=`
    Le,
    /// The end of the source text.
    EOF,
}

/// What a [`TokenType`] stands for: the same kinds, with each text as a sequence of characters.
pub enum TokenTypeView {
    Ident(Seq<char>),
    Underscore,
    Abi(Seq<char>),
    Fn,
    Static,
    Extern,
    Let,
    Mut,
    As,
    Loop,
    While,
    If,
    Else,
    Unsafe,
    Return,
    LPar,
    RPar,
    LBra,
    RBra,
    Semi,
    Comma,
    Colon,
    Arrow,
    IntLit(i32),
    FloatLit(Seq<char>),
    BoolLit(bool),
    Assign,
    Plus,
    Minus,
    Asterisk,
    Div,
    Mod,
    BitAnd,
    BitOr,
    BitXor,
    Not,
    And,
    Or,
    Eq,
    Ne,
    Gt,
    Lt,
    Ge,
    Le,
    EOF,
}

impl View for TokenType {
    type V = TokenTypeView;

    open spec fn view(&self) -> TokenTypeView {
        match self {
            TokenType::Ident(s) => TokenTypeView::Ident(s@),
            TokenType::Underscore => TokenTypeView::Underscore,
            TokenType::Abi(s) => TokenTypeView::Abi(s@),
            TokenType::Fn => TokenTypeView::Fn,
            TokenType::Static => TokenTypeView::Static,
            TokenType::Extern => TokenTypeView::Extern,
            TokenType::Let => TokenTypeView::Let,
            TokenType::Mut => TokenTypeView::Mut,
            TokenType::As => TokenTypeView::As,
            TokenType::Loop => TokenTypeView::Loop,
            TokenType::While => TokenTypeView::While,
            TokenType::If => TokenTypeView::If,
            TokenType::Else => TokenTypeView::Else,
            TokenType::Unsafe => TokenTypeView::Unsafe,
            TokenType::Return => TokenTypeView::Return,
            TokenType::LPar => TokenTypeView::LPar,
            TokenType::RPar => TokenTypeView::RPar,
            TokenType::LBra => TokenTypeView::LBra,
            TokenType::RBra => TokenTypeView::RBra,
            TokenType::Semi => TokenTypeView::Semi,
            TokenType::Comma => TokenTypeView::Comma,
            TokenType::Colon => TokenTypeView::Colon,
            TokenType::Arrow => TokenTypeView::Arrow,
            TokenType::IntLit(v) => TokenTypeView::IntLit(*v),
            TokenType::FloatLit(s) => TokenTypeView::FloatLit(s@),
            TokenType::BoolLit(b) => TokenTypeView::BoolLit(*b),
            TokenType::Assign => TokenTypeView::Assign,
            TokenType::Plus => TokenTypeView::Plus,
            TokenType::Minus => TokenTypeView::Minus,
            TokenType::Asterisk => TokenTypeView::Asterisk,
            TokenType::Div => TokenTypeView::Div,
            TokenType::Mod => TokenTypeView::Mod,
            TokenType::BitAnd => TokenTypeView::BitAnd,
            TokenType::BitOr => TokenTypeView::BitOr,
            TokenType::BitXor => TokenTypeView::BitXor,
            TokenType::Not => TokenTypeView::Not,
            TokenType::And => TokenTypeView::And,
            TokenType::Or => TokenTypeView::Or,
            TokenType::Eq => TokenTypeView::Eq,
            TokenType::Ne => TokenTypeView::Ne,
            TokenType::Gt => TokenTypeView::Gt,
            TokenType::Lt => TokenTypeView::Lt,
            TokenType::Ge => TokenTypeView::Ge,
            TokenType::Le => TokenTypeView::Le,
            TokenType::EOF => TokenTypeView::EOF,
        }
    }
}

/// The kind that a symbol made of the two characters `first` and `second` has, if there is
/// such a symbol.
pub open spec fn symbol_pair(first: char, second: char) -> Option<TokenTypeView> {
    if first == '-' && second == '>' {
        Some(TokenTypeView::Arrow)
    } else if first == '&' && second == '&' {
        Some(TokenTypeView::And)
    } else if first == '|' && second == '|' {
        Some(TokenTypeView::Or)
    } else if first == '=' && second == '=' {
        Some(TokenTypeView::Eq)
    } else if first == '!' && second == '=' {
        Some(TokenTypeView::Ne)
    } else if first == '<' && second == '=' {
        Some(TokenTypeView::Le)
    } else if first == '>' && second == '=' {
        Some(TokenTypeView::Ge)
    } else {
        None
    }
}

/// The kind that the delimiter or operator made of the one character `c` has, if there is one.
pub open spec fn symbol_single(c: char) -> Option<TokenTypeView> {
    if c == '(' {
        Some(TokenTypeView::LPar)
    } else if c == ')' {
        Some(TokenTypeView::RPar)
    } else if c == '{' {
        Some(TokenTypeView::LBra)
    } else if c == '}' {
        Some(TokenTypeView::RBra)
    } else if c == ';' {
        Some(TokenTypeView::Semi)
    } else if c == ',' {
        Some(TokenTypeView::Comma)
    } else if c == ':' {
        Some(TokenTypeView::Colon)
    } else if c == '=' {
        Some(TokenTypeView::Assign)
    } else if c == '+' {
        Some(TokenTypeView::Plus)
    } else if c == '-' {
        Some(TokenTypeView::Minus)
    } else if c == '*' {
        Some(TokenTypeView::Asterisk)
    } else if c == '/' {
        Some(TokenTypeView::Div)
    } else if c == '%' {
        Some(TokenTypeView::Mod)
    } else if c == '&' {
        Some(TokenTypeView::BitAnd)
    } else if c == '|' {
        Some(TokenTypeView::BitOr)
    } else if c == '^' {
        Some(TokenTypeView::BitXor)
    } else if c == '!' {
        Some(TokenTypeView::Not)
    } else if c == '>' {
        Some(TokenTypeView::Gt)
    } else if c == '<' {
        Some(TokenTypeView::Lt)
    } else {
        None
    }
}

/// The kind that the word `s` has if it is a keyword or a boolean literal.
pub open spec fn keyword(s: Seq<char>) -> Option<TokenTypeView> {
    if s == "fn"@ {
        Some(TokenTypeView::Fn)
    } else if s == "static"@ {
        Some(TokenTypeView::Static)
    } else if s == "extern"@ {
        Some(TokenTypeView::Extern)
    } else if s == "let"@ {
        Some(TokenTypeView::Let)
    } else if s == "mut"@ {
        Some(TokenTypeView::Mut)
    } else if s == "as"@ {
        Some(TokenTypeView::As)
    } else if s == "loop"@ {
        Some(TokenTypeView::Loop)
    } else if s == "while"@ {
        Some(TokenTypeView::While)
    } else if s == "if"@ {
        Some(TokenTypeView::If)
    } else if s == "else"@ {
        Some(TokenTypeView::Else)
    } else if s == "unsafe"@ {
        Some(TokenTypeView::Unsafe)
    } else if s == "return"@ {
        Some(TokenTypeView::Return)
    } else if s == "true"@ {
        Some(TokenTypeView::BoolLit(true))
    } else if s == "false"@ {
        Some(TokenTypeView::BoolLit(false))
    } else {
        None
    }
}

/// The kind that the text `s` has if it is a keyword, a boolean literal, a delimiter or an
/// operator, taken as a whole.
pub open spec fn keyword_or_symbol(s: Seq<char>) -> Option<TokenTypeView> {
    if s.len() == 1 && symbol_single(s[0]).is_some() {
        symbol_single(s[0])
    } else if s.len() == 2 && symbol_pair(s[0], s[1]).is_some() {
        symbol_pair(s[0], s[1])
    } else {
        keyword(s)
    }
}

/// Tells whether the characters of `text` are those of `word`.
pub fn text_is(text: &Vec<char>, word: &str) -> (r: bool)
    ensures
        r == (text@ == word@),
{
    let n = word.unicode_len();
    if text.len() != n {
        return false;
    }
    let mut i: usize = 0;
    while i < n
        invariant
            i <= n,
            n == word@.len(),
            n == text@.len(),
            forall|k: int| 0 <= k < i ==> text@[k] == word@[k],
        decreases n - i,
    {
        if text[i] != word.get_char(i) {
            return false;
        }
        i += 1;
    }
    assert(text@ =~= word@);
    true
}

/// The characters of `s`, in order.
pub fn chars_of(s: &str) -> (r: Vec<char>)
    ensures
        r@ == s@,
{
    let n = s.unicode_len();
    let mut out: Vec<char> = Vec::new();
    let mut i: usize = 0;
    while i < n
        invariant
            i <= n,
            n == s@.len(),
            out@ == s@.subrange(0, i as int),
        decreases n - i,
    {
        out.push(s.get_char(i));
        assert(out@ =~= s@.subrange(0, i + 1));
        i += 1;
    }
    assert(out@ =~= s@);
    out
}

/// The string made of the characters of `text`, in order.
pub fn string_of(text: &Vec<char>) -> (r: String)
    ensures
        r@ == text@,
{
    let mut out = String::new();
    let mut i: usize = 0;
    while i < text.len()
        invariant
            i <= text.len(),
            out@ == text@.subrange(0, i as int),
        decreases text.len() - i,
    {
        out.push(text[i]);
        assert(out@ =~= text@.subrange(0, i + 1));
        i += 1;
    }
    assert(out@ =~= text@);
    out
}

/// `String::push` appends the character `c` to the end of the string `s`.
pub assume_specification[ String::push ](s: &mut String, c: char)
    ensures
        final(s)@ == old(s)@.push(c),
;

impl TokenType {
    /// The kind of the symbol made of the two characters `first` and `second`, if there is
    /// such a symbol.
    pub fn pair_symbol(first: char, second: char) -> (r: Option<TokenType>)
        ensures
            match r {
                Some(t) => symbol_pair(first, second) == Some(t@),
                None => symbol_pair(first, second).is_none(),
            },
    {
        if first == '-' && second == '>' {
            Some(TokenType::Arrow)
        } else if first == '&' && second == '&' {
            Some(TokenType::And)
        } else if first == '|' && second == '|' {
            Some(TokenType::Or)
        } else if first == '=' && second == '=' {
            Some(TokenType::Eq)
        } else if first == '!' && second == '=' {
            Some(TokenType::Ne)
        } else if first == '<' && second == '=' {
            Some(TokenType::Le)
        } else if first == '>' && second == '=' {
            Some(TokenType::Ge)
        } else {
            None
        }
    }

    /// The kind of the delimiter or operator made of the one character `c`, if there is one.
    pub fn single_symbol(c: char) -> (r: Option<TokenType>)
        ensures
            match r {
                Some(t) => symbol_single(c) == Some(t@),
                None => symbol_single(c).is_none(),
            },
    {
        if c == '(' {
            Some(TokenType::LPar)
        } else if c == ')' {
            Some(TokenType::RPar)
        } else if c == '{' {
            Some(TokenType::LBra)
        } else if c == '}' {
            Some(TokenType::RBra)
        } else if c == ';' {
            Some(TokenType::Semi)
        } else if c == ',' {
            Some(TokenType::Comma)
        } else if c == ':' {
            Some(TokenType::Colon)
        } else if c == '=' {
            Some(TokenType::Assign)
        } else if c == '+' {
            Some(TokenType::Plus)
        } else if c == '-' {
            Some(TokenType::Minus)
        } else if c == '*' {
            Some(TokenType::Asterisk)
        } else if c == '/' {
            Some(TokenType::Div)
        } else if c == '%' {
            Some(TokenType::Mod)
        } else if c == '&' {
            Some(TokenType::BitAnd)
        } else if c == '|' {
            Some(TokenType::BitOr)
        } else if c == '^' {
            Some(TokenType::BitXor)
        } else if c == '!' {
            Some(TokenType::Not)
        } else if c == '>' {
            Some(TokenType::Gt)
        } else if c == '<' {
            Some(TokenType::Lt)
        } else {
            None
        }
    }

    /// The kind of the word `text` if it is a keyword or a boolean literal.
    pub fn keyword_of(text: &Vec<char>) -> (r: Option<TokenType>)
        ensures
            match r {
                Some(t) => keyword(text@) == Some(t@),
                None => keyword(text@).is_none(),
            },
    {
        if text_is(text, "fn") {
            Some(TokenType::Fn)
        } else if text_is(text, "static") {
            Some(TokenType::Static)
        } else if text_is(text, "extern") {
            Some(TokenType::Extern)
        } else if text_is(text, "let") {
            Some(TokenType::Let)
        } else if text_is(text, "mut") {
            Some(TokenType::Mut)
        } else if text_is(text, "as") {
            Some(TokenType::As)
        } else if text_is(text, "loop") {
            Some(TokenType::Loop)
        } else if text_is(text, "while") {
            Some(TokenType::While)
        } else if text_is(text, "if") {
            Some(TokenType::If)
        } else if text_is(text, "else") {
            Some(TokenType::Else)
        } else if text_is(text, "unsafe") {
            Some(TokenType::Unsafe)
        } else if text_is(text, "return") {
            Some(TokenType::Return)
        } else if text_is(text, "true") {
            Some(TokenType::BoolLit(true))
        } else if text_is(text, "false") {
            Some(TokenType::BoolLit(false))
        } else {
            None
        }
    }

    /// Tells whether this kind and `other` are the same, texts and values included.
    pub fn same(&self, other: &TokenType) -> (r: bool)
        ensures
            r == (self@ == other@),
    {
        match (self, other) {
            (TokenType::Ident(a), TokenType::Ident(b)) => *a == *b,
            (TokenType::Underscore, TokenType::Underscore) => true,
            (TokenType::Abi(a), TokenType::Abi(b)) => *a == *b,
            (TokenType::Fn, TokenType::Fn) => true,
            (TokenType::Static, TokenType::Static) => true,
            (TokenType::Extern, TokenType::Extern) => true,
            (TokenType::Let, TokenType::Let) => true,
            (TokenType::Mut, TokenType::Mut) => true,
            (TokenType::As, TokenType::As) => true,
            (TokenType::Loop, TokenType::Loop) => true,
            (TokenType::While, TokenType::While) => true,
            (TokenType::If, TokenType::If) => true,
            (TokenType::Else, TokenType::Else) => true,
            (TokenType::Unsafe, TokenType::Unsafe) => true,
            (TokenType::Return, TokenType::Return) => true,
            (TokenType::LPar, TokenType::LPar) => true,
            (TokenType::RPar, TokenType::RPar) => true,
            (TokenType::LBra, TokenType::LBra) => true,
            (TokenType::RBra, TokenType::RBra) => true,
            (TokenType::Semi, TokenType::Semi) => true,
            (TokenType::Comma, TokenType::Comma) => true,
            (TokenType::Colon, TokenType::Colon) => true,
            (TokenType::Arrow, TokenType::Arrow) => true,
            (TokenType::IntLit(a), TokenType::IntLit(b)) => *a == *b,
            (TokenType::FloatLit(a), TokenType::FloatLit(b)) => *a == *b,
            (TokenType::BoolLit(a), TokenType::BoolLit(b)) => *a == *b,
            (TokenType::Assign, TokenType::Assign) => true,
            (TokenType::Plus, TokenType::Plus) => true,
            (TokenType::Minus, TokenType::Minus) => true,
            (TokenType::Asterisk, TokenType::Asterisk) => true,
            (TokenType::Div, TokenType::Div) => true,
            (TokenType::Mod, TokenType::Mod) => true,
            (TokenType::BitAnd, TokenType::BitAnd) => true,
            (TokenType::BitOr, TokenType::BitOr) => true,
            (TokenType::BitXor, TokenType::BitXor) => true,
            (TokenType::Not, TokenType::Not) => true,
            (TokenType::And, TokenType::And) => true,
            (TokenType::Or, TokenType::Or) => true,
            (TokenType::Eq, TokenType::Eq) => true,
            (TokenType::Ne, TokenType::Ne) => true,
            (TokenType::Gt, TokenType::Gt) => true,
            (TokenType::Lt, TokenType::Lt) => true,
            (TokenType::Ge, TokenType::Ge) => true,
            (TokenType::Le, TokenType::Le) => true,
            (TokenType::EOF, TokenType::EOF) => true,
            _ => false,
        }
    }

    /// Converts the provided string slice to a [`TokenType`] if it is a keyword,
    /// a boolean literal, a delimiter, or an operator.
    pub fn extract_keyword_or_symbol(s: &str) -> (r: Option<TokenType>)
        ensures
            match r {
                Some(t) => keyword_or_symbol(s@) == Some(t@),
                None => keyword_or_symbol(s@).is_none(),
            },
    {
        let text = chars_of(s);
        if text.len() == 1 {
            let single = TokenType::single_symbol(text[0]);
            if single.is_some() {
                return single;
            }
        }
        if text.len() == 2 {
            let pair = TokenType::pair_symbol(text[0], text[1]);
            if pair.is_some() {
                return pair;
            }
        }
        TokenType::keyword_of(&text)
    }
}

/// A token: a [`TokenType`] and the [`Span`] of the source text that it was read from.
#[derive(Debug, Clone, PartialEq)]
pub struct Token {
    token_type: TokenType,
    span: Span,
}

/// What a [`Token`] stands for.
pub struct TokenView {
    pub kind: TokenTypeView,
    pub span: Span,
}

impl View for Token {
    type V = TokenView;

    closed spec fn view(&self) -> TokenView {
        TokenView { kind: self.token_type@, span: self.span }
    }
}

impl TokenView {
    /// The token that marks the end of the source text at `pos`.
    pub open spec fn eof(pos: Position) -> TokenView {
        TokenView { kind: TokenTypeView::EOF, span: Span { start: pos, end: pos } }
    }

    /// Whether this token marks the end of the source text.
    pub open spec fn is_eof(self) -> bool {
        self.kind is EOF
    }
}

impl Token {
    /// Creates a new [`Token`] with the given [`TokenType`], starting and ending
    /// at the given [`Position`]s.
    pub fn new(token_type: TokenType, start: Position, end: Position) -> (r: Token)
        ensures
            r@ == (TokenView { kind: token_type@, span: Span { start, end } }),
    {
        let span = Span::new(start, end);
        Token { token_type, span }
    }

    /// Creates a new [`Token`] that represents the end of the source text.
    pub fn eof(pos: Position) -> (r: Token)
        ensures
            r@ == TokenView::eof(pos),
    {
        Token::new(TokenType::EOF, pos, pos)
    }

    /// Returns the [`TokenType`] of this [`Token`].
    pub fn ty(&self) -> (r: &TokenType)
        ensures
            r@ == self@.kind,
    {
        &self.token_type
    }

    /// Returns the [`TokenType`] of this [`Token`], which it consumes.
    pub fn into_ty(self) -> (r: TokenType)
        ensures
            r@ == self@.kind,
    {
        self.token_type
    }

    /// Returns the [`Span`] of this [`Token`].
    pub fn span(&self) -> (r: Span)
        ensures
            r == self@.span,
    {
        self.span
    }

    /// Whether this [`Token`] is the end of the source text.
    pub fn is_eof(&self) -> (r: bool)
        ensures
            r == self@.is_eof(),
    {
        matches!(self.token_type, TokenType::EOF)
    }
}

} // verus!
