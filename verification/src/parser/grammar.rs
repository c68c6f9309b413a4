//! The grammar of μRust, as a model of the parser.
//!
//! The model reads a sequence of tokens, given by its views, and says for every production
//! what it yields: a node and the tokens that are left, or the error that ends the parse.
//! The functions of the parser are proved to do what the model says.
//!
//! Every production is a function from a [`State`] to a [`Parsed`]. Where one production
//! follows another, the outcome of the first goes through [`Parsed::within`] or
//! [`Parsed::below`]. Both hand the outcome on as it is, since no production ever yields
//! more tokens than it was given, which [`crate::parser::consumption`] proves. They are
//! there for the recursion through the productions to be well-founded.

use vstd::prelude::*;

use crate::ast::crt::CrateView;
use crate::ast::error::SemanticErrorView;
use crate::ast::expr::{
    span_of, ArithExprView, ArithOperator, AssignView, BlockView, CompExprView, CompOperator,
    ElseExprView, ExprStmtView, ExprView, FunCallView, GroupedExprView, IfView, InfLoopView,
    LazyBoolExprView, LazyBoolOperator, LetView, LiteralBoxView, LiteralView, NegExprView,
    NegOperator, PathView, ReturnView, StmtView, TypeCastView, UnderscoreView, UnsafeBlockView,
    WhileView,
};
use crate::ast::item::{
    ExternItemView, ExternView, FuncProtoView, FuncView, ItemView, ParamView, StaticView,
};
use crate::ast::types::{type_named, Type, TypeASTMetaNode};
use crate::lexer::error::LexerErrorView;
use crate::parser::error::{ParserErrorView, RecoverableParserErrorView};
use crate::token::span::{Position, Span};
use crate::token::{TokenTypeView, TokenView};

verus! {

/// What the parser has before it: the tokens that are left, the error that ends them if
/// lexing fails, and the recoverable errors that were met so far.
pub struct State {
    /// The tokens that are left, up to the end-of-file token or to the first lexical error.
    pub tokens: Seq<TokenView>,
    /// The lexical error that follows the tokens, if there is one.
    pub failure: Option<LexerErrorView>,
    /// The recoverable errors that were met so far, in order.
    pub errors: Seq<RecoverableParserErrorView>,
}

impl State {
    /// Whether a token is left.
    pub open spec fn has_next(self) -> bool {
        self.tokens.len() > 0
    }

    /// The next token.
    pub open spec fn next(self) -> TokenView {
        self.tokens[0]
    }

    /// The kind of the next token.
    pub open spec fn kind(self) -> TokenTypeView {
        self.tokens[0].kind
    }

    /// The state after the next token has been consumed.
    pub open spec fn advance(self) -> State {
        State {
            tokens: self.tokens.subrange(1, self.tokens.len() as int),
            failure: self.failure,
            errors: self.errors,
        }
    }

    /// The state after the recoverable error `e` has been met.
    pub open spec fn log(self, e: RecoverableParserErrorView) -> State {
        State { tokens: self.tokens, failure: self.failure, errors: self.errors.push(e) }
    }

    /// The state after the semantic error `e` has been met.
    pub open spec fn log_semantic(self, e: SemanticErrorView) -> State {
        self.log(RecoverableParserErrorView::SemanticError(e))
    }

    /// The error that a parse ends with when it needs a token and none is left: the
    /// lexical error that ended the tokens, or else an unexpected end of file.
    pub open spec fn end_error(self) -> ParserErrorView {
        match self.failure {
            Some(e) => ParserErrorView::LexicalError(e),
            None => ParserErrorView::UnexpectedEOF,
        }
    }

    /// The error that a parse ends with when the next token is not among those that
    /// `expected` describes.
    pub open spec fn unexpected(self, expected: Seq<char>) -> ParserErrorView {
        if self.has_next() {
            ParserErrorView::UnexpectedToken { actual: self.next(), expected }
        } else {
            self.end_error()
        }
    }
}

/// What a production yields: a value and the state after it, or the error that ends the
/// parse.
pub enum Parsed<T> {
    /// The production has been read.
    Done(T, State),
    /// The parse ends with an error.
    Failed(ParserErrorView),
}

impl<T> Parsed<T> {
    /// The outcome itself, which leaves no more tokens than `before` had.
    pub open spec fn within(self, before: State) -> Parsed<T> {
        match self {
            Parsed::Done(_, after) => if after.tokens.len() <= before.tokens.len() {
                self
            } else {
                Parsed::Failed(ParserErrorView::UnexpectedEOF)
            },
            Parsed::Failed(_) => self,
        }
    }

    /// The outcome itself, which leaves fewer tokens than `before` had.
    pub open spec fn below(self, before: State) -> Parsed<T> {
        match self {
            Parsed::Done(_, after) => if after.tokens.len() < before.tokens.len() {
                self
            } else {
                Parsed::Failed(ParserErrorView::UnexpectedEOF)
            },
            Parsed::Failed(_) => self,
        }
    }
}

impl TokenTypeView {
    /// Whether an operator expression may start with a token of this kind.
    pub open spec fn starts_operator_expr(self) -> bool {
        self is Minus || self is Not || self is IntLit || self is FloatLit || self is BoolLit
            || self is LPar || self is Underscore || self is LBra || self is If || self is Unsafe
            || self is Ident || self is Loop || self is While
    }

    /// Whether an expression may start with a token of this kind.
    pub open spec fn starts_expr(self) -> bool {
        self.starts_operator_expr() || self is Return
    }

    /// Whether a token of this kind ends every expression: `{`, `)`, `,`, `}`, `;` and the
    /// end of the file.
    pub open spec fn closes_expr(self) -> bool {
        self is LBra || self is RPar || self is Comma || self is RBra || self is Semi || self is EOF
    }

    /// The precedence level of the binary operator that a token of this kind is, if it
    /// is one. The levels go from 1, which binds loosest, to 9: assignment, lazy or, lazy
    /// and, comparison, bitwise or, bitwise xor, bitwise and, sum, product.
    pub open spec fn operator_level(self) -> Option<nat> {
        match self {
            TokenTypeView::Assign => Some(1),
            TokenTypeView::Or => Some(2),
            TokenTypeView::And => Some(3),
            TokenTypeView::Eq => Some(4),
            TokenTypeView::Ne => Some(4),
            TokenTypeView::Gt => Some(4),
            TokenTypeView::Lt => Some(4),
            TokenTypeView::Ge => Some(4),
            TokenTypeView::Le => Some(4),
            TokenTypeView::BitOr => Some(5),
            TokenTypeView::BitXor => Some(6),
            TokenTypeView::BitAnd => Some(7),
            TokenTypeView::Plus => Some(8),
            TokenTypeView::Minus => Some(8),
            TokenTypeView::Asterisk => Some(9),
            TokenTypeView::Div => Some(9),
            TokenTypeView::Mod => Some(9),
            _ => None,
        }
    }

    /// Whether a token of this kind ends an operand of the level `level`: it ends every
    /// expression, or it is a binary operator of a lower level.
    pub open spec fn ends_level(self, level: nat) -> bool {
        self.closes_expr() || match self.operator_level() {
            Some(l) => l < level,
            None => false,
        }
    }

    /// Whether a token of this kind may follow an if expression that has no `else`.
    pub open spec fn ends_if(self) -> bool {
        self.closes_expr() || self is As || self.operator_level().is_some()
    }

    /// Whether a token of this kind may follow a `return` that returns no value.
    pub open spec fn ends_return(self) -> bool {
        self is RPar || self is Comma || self is RBra || self is Semi || self is EOF
    }
}

/// A binary operator of any level.
#[derive(Debug, Clone, Copy, PartialEq, Eq, Structural)]
pub enum BinaryOperator {
    /// `=`
    Assign,
    /// `||` or `&&`
    LazyBool(LazyBoolOperator),
    /// A comparison operator.
    Comp(CompOperator),
    /// An arithmetic or logical operator.
    Arith(ArithOperator),
}

/// The level at which comparisons are read. A comparison takes two operands and does not
/// chain.
pub const COMPARISON_LEVEL: u8 = 4;

/// The level of the binary operators that bind tightest.
pub const LAST_BINARY_LEVEL: u8 = 9;

/// The binary operator that a token of the kind `kind` is.
pub open spec fn binary_operator(kind: TokenTypeView) -> Option<BinaryOperator> {
    match kind {
        TokenTypeView::Assign => Some(BinaryOperator::Assign),
        TokenTypeView::Or => Some(BinaryOperator::LazyBool(LazyBoolOperator::Or)),
        TokenTypeView::And => Some(BinaryOperator::LazyBool(LazyBoolOperator::And)),
        TokenTypeView::Eq => Some(BinaryOperator::Comp(CompOperator::Eq)),
        TokenTypeView::Ne => Some(BinaryOperator::Comp(CompOperator::Ne)),
        TokenTypeView::Gt => Some(BinaryOperator::Comp(CompOperator::Gt)),
        TokenTypeView::Lt => Some(BinaryOperator::Comp(CompOperator::Lt)),
        TokenTypeView::Ge => Some(BinaryOperator::Comp(CompOperator::Ge)),
        TokenTypeView::Le => Some(BinaryOperator::Comp(CompOperator::Le)),
        TokenTypeView::BitOr => Some(BinaryOperator::Arith(ArithOperator::BitOr)),
        TokenTypeView::BitXor => Some(BinaryOperator::Arith(ArithOperator::BitXor)),
        TokenTypeView::BitAnd => Some(BinaryOperator::Arith(ArithOperator::BitAnd)),
        TokenTypeView::Plus => Some(BinaryOperator::Arith(ArithOperator::Add)),
        TokenTypeView::Minus => Some(BinaryOperator::Arith(ArithOperator::Sub)),
        TokenTypeView::Asterisk => Some(BinaryOperator::Arith(ArithOperator::Mul)),
        TokenTypeView::Div => Some(BinaryOperator::Arith(ArithOperator::Div)),
        TokenTypeView::Mod => Some(BinaryOperator::Arith(ArithOperator::Rem)),
        _ => None,
    }
}

/// The node that applies the binary operator `op` to `lhs` and `rhs`. Its span goes from
/// the start of `lhs` to the end of `rhs`.
pub open spec fn binary_node(op: BinaryOperator, lhs: ExprView, rhs: ExprView) -> ExprView {
    let span = Span { start: span_of(lhs).start, end: span_of(rhs).end };
    match op {
        BinaryOperator::Assign => ExprView::Assign(
            AssignView { assignee: Box::new(lhs), value: Box::new(rhs), span },
        ),
        BinaryOperator::LazyBool(operator) => ExprView::LazyBool(
            LazyBoolExprView { operator, lhs: Box::new(lhs), rhs: Box::new(rhs), span },
        ),
        BinaryOperator::Comp(operator) => ExprView::Comp(
            CompExprView { operator, lhs: Box::new(lhs), rhs: Box::new(rhs), span },
        ),
        BinaryOperator::Arith(operator) => ExprView::Arith(
            ArithExprView { operator, lhs: Box::new(lhs), rhs: Box::new(rhs), span },
        ),
    }
}

/// What the error that ends an operand of the level `level` says was expected.
pub open spec fn expected_after_operand(level: nat) -> Seq<char> {
    if level <= 1 {
        "'=', '{', '(', ',', '}', ';'"@
    } else if level == 2 {
        "'||', '=', '{', '(', ',', '}', ';'"@
    } else {
        "<operator>, '=', '{', '(', ',', '}', ';'"@
    }
}

/// The rank of the production that reads the binary operators of the level `level`, by
/// which the recursion through the productions is well-founded.
pub open spec fn level_rank(level: nat) -> nat {
    if level >= 9 {
        5
    } else {
        (14 - level) as nat
    }
}

/// Consumes the next token, which has to be of the kind `kind`, and yields its span.
pub open spec fn take(st: State, kind: TokenTypeView, expected: Seq<char>) -> Parsed<Span> {
    if !st.has_next() {
        Parsed::Failed(st.end_error())
    } else if st.kind() == kind {
        Parsed::Done(st.next().span, st.advance())
    } else {
        Parsed::Failed(st.unexpected(expected))
    }
}

/// Consumes the next token, which has to be an identifier, and yields its name.
pub open spec fn take_ident(st: State, expected: Seq<char>) -> Parsed<Seq<char>> {
    if !st.has_next() {
        Parsed::Failed(st.end_error())
    } else {
        match st.kind() {
            TokenTypeView::Ident(name) => Parsed::Done(name, st.advance()),
            _ => Parsed::Failed(st.unexpected(expected)),
        }
    }
}

/// Consumes the next token if it is of the kind `kind`, and yields its span if it is.
pub open spec fn take_if(st: State, kind: TokenTypeView) -> Parsed<Option<Span>> {
    if !st.has_next() {
        Parsed::Failed(st.end_error())
    } else if st.kind() == kind {
        Parsed::Done(Some(st.next().span), st.advance())
    } else {
        Parsed::Done(None, st)
    }
}

/// `mut`, if it is there: yields whether it was.
#[verifier::opaque]
pub open spec fn mutability(st: State) -> Parsed<bool> {
    match take_if(st, TokenTypeView::Mut) {
        Parsed::Failed(e) => Parsed::Failed(e),
        Parsed::Done(found, st1) => Parsed::Done(found.is_some(), st1),
    }
}

/// A type: the name of a type, or `()`.
#[verifier::opaque]
pub open spec fn type_node(st: State) -> Parsed<TypeASTMetaNode> {
    if !st.has_next() {
        Parsed::Failed(st.end_error())
    } else {
        match st.kind() {
            TokenTypeView::Ident(name) => match type_named(name) {
                Some(ty) => Parsed::Done(TypeASTMetaNode { ty, span: st.next().span }, st.advance()),
                None => Parsed::Failed(st.unexpected("<type>"@)),
            },
            TokenTypeView::LPar => match take(st.advance(), TokenTypeView::RPar, "')'"@) {
                Parsed::Failed(e) => Parsed::Failed(e),
                Parsed::Done(close, st1) => Parsed::Done(
                    TypeASTMetaNode {
                        ty: Type::Unit,
                        span: Span { start: st.next().span.start, end: close.end },
                    },
                    st1,
                ),
            },
            _ => Parsed::Failed(st.unexpected("<type>"@)),
        }
    }
}

/// A parameter of a function: `mut` if any, an identifier or `_`, a colon and a type.
#[verifier::opaque]
pub open spec fn param(st: State) -> Parsed<ParamView> {
    match mutability(st) {
        Parsed::Failed(e) => Parsed::Failed(e),
        Parsed::Done(mutable, st1) => {
            if !st1.has_next() {
                Parsed::Failed(st1.end_error())
            } else {
                let span = st1.next().span;
                let assignee = match st1.kind() {
                    TokenTypeView::Ident(name) => Some(ExprView::Path(PathView { path: name, span })),
                    TokenTypeView::Underscore => Some(ExprView::Underscore(UnderscoreView { span })),
                    _ => None,
                };
                match assignee {
                    None => Parsed::Failed(st1.unexpected("<pattern>"@)),
                    Some(assignee) => match take(st1.advance(), TokenTypeView::Colon, "':'"@) {
                        Parsed::Failed(e) => Parsed::Failed(e),
                        Parsed::Done(_, st2) => match type_node(st2) {
                            Parsed::Failed(e) => Parsed::Failed(e),
                            Parsed::Done(ty, st3) => Parsed::Done(
                                ParamView { assignee: Box::new(assignee), ty, mutable, span },
                                st3,
                            ),
                        },
                    },
                }
            }
        },
    }
}

/// The parameters of a function, separated by commas, up to the closing parenthesis,
/// which is left. `acc` holds the parameters that were read before.
#[verifier::opaque]
pub open spec fn func_params(st: State, acc: Seq<ParamView>) -> Parsed<Seq<ParamView>>
    decreases st.tokens.len(),
{
    if !st.has_next() {
        Parsed::Failed(st.end_error())
    } else if st.kind() is RPar {
        Parsed::Done(acc, st)
    } else if st.kind() is Mut || st.kind() is Underscore || st.kind() is Ident {
        match param(st).within(st) {
            Parsed::Failed(e) => Parsed::Failed(e),
            Parsed::Done(p, st1) => {
                if !st1.has_next() {
                    Parsed::Failed(st1.end_error())
                } else if st1.kind() is Comma {
                    func_params(st1.advance(), acc.push(p))
                } else if st1.kind() is RPar {
                    Parsed::Done(acc.push(p), st1)
                } else {
                    Parsed::Failed(st1.unexpected("',', ')'"@))
                }
            },
        }
    } else {
        Parsed::Failed(st.unexpected("<fn parameter>"@))
    }
}

/// The return type of a function, if one is given: `->` and a type.
#[verifier::opaque]
pub open spec fn func_ret_ty(st: State) -> Parsed<Option<TypeASTMetaNode>> {
    if !st.has_next() {
        Parsed::Failed(st.end_error())
    } else if st.kind() is Semi || st.kind() is LBra {
        Parsed::Done(None, st)
    } else if st.kind() is Arrow {
        match type_node(st.advance()) {
            Parsed::Failed(e) => Parsed::Failed(e),
            Parsed::Done(ty, st1) => Parsed::Done(Some(ty), st1),
        }
    } else {
        Parsed::Failed(st.unexpected("'->', ';', '{'"@))
    }
}

/// The prototype of a function: `fn`, a name, the parameters in parentheses and the
/// return type if one is given. Without one, the function returns the unit type, and the
/// node of that type spans the end of the closing parenthesis.
#[verifier::opaque]
pub open spec fn func_proto(st: State) -> Parsed<FuncProtoView> {
    match take(st, TokenTypeView::Fn, "'fn'"@) {
        Parsed::Failed(e) => Parsed::Failed(e),
        Parsed::Done(first, st1) => match take_ident(st1, "<ident>"@) {
            Parsed::Failed(e) => Parsed::Failed(e),
            Parsed::Done(name, st2) => match take(st2, TokenTypeView::LPar, "'('"@) {
                Parsed::Failed(e) => Parsed::Failed(e),
                Parsed::Done(_, st3) => match func_params(st3, Seq::empty()) {
                    Parsed::Failed(e) => Parsed::Failed(e),
                    Parsed::Done(params, st4) => match take(st4, TokenTypeView::RPar, "')'"@) {
                        Parsed::Failed(e) => Parsed::Failed(e),
                        Parsed::Done(close, st5) => match func_ret_ty(st5) {
                            Parsed::Failed(e) => Parsed::Failed(e),
                            Parsed::Done(ret, st6) => {
                                let return_type = match ret {
                                    Some(ty) => ty,
                                    None => TypeASTMetaNode {
                                        ty: Type::Unit,
                                        span: Span { start: close.end, end: close.end },
                                    },
                                };
                                Parsed::Done(
                                    FuncProtoView {
                                        name,
                                        params,
                                        return_type,
                                        span: Span { start: first.start, end: return_type.span.end },
                                    },
                                    st6,
                                )
                            },
                        },
                    },
                },
            },
        },
    }
}

/// The operand of a binary operator of the level `level`: an expression of the next
/// level.
#[verifier::opaque]
pub open spec fn operand(level: nat, st: State) -> Parsed<ExprView>
    decreases st.tokens.len(), level_rank(level), 1nat,
{
    if level < 9 {
        binary(level + 1, st)
    } else {
        cast(st)
    }
}

/// An expression of the level `level`, which is one of 1 to 9: an operand and, after it,
/// binary operators of that level with an operand each, if there are any.
#[verifier::opaque]
pub open spec fn binary(level: nat, st: State) -> Parsed<ExprView>
    decreases st.tokens.len(), level_rank(level) + 1, 0nat,
{
    if level == 0 || level > 9 {
        Parsed::Failed(ParserErrorView::UnexpectedEOF)
    } else {
        match operand(level, st).within(st) {
            Parsed::Failed(e) => Parsed::Failed(e),
            Parsed::Done(lhs, st1) => binary_tail(level, lhs, st1),
        }
    }
}

/// What follows an operand `lhs` of the level `level`.
///
/// A binary operator of that level and another operand make, with `lhs`, a node that is
/// itself the left operand of what follows: operators of one level associate to the
/// left. A comparison is the exception: it takes two operands, and what follows it has to
/// end the level. A token that ends the level is left, and `lhs` is the expression.
#[verifier::opaque]
pub open spec fn binary_tail(level: nat, lhs: ExprView, st: State) -> Parsed<ExprView>
    decreases st.tokens.len(), 0nat, 0nat,
{
    if !st.has_next() {
        Parsed::Failed(st.end_error())
    } else if st.kind().operator_level() == Some(level) && 1 <= level <= 9 {
        match operand(level, st.advance()).within(st.advance()) {
            Parsed::Failed(e) => Parsed::Failed(e),
            Parsed::Done(rhs, st1) => {
                let node = binary_node(binary_operator(st.kind()).unwrap(), lhs, rhs);
                if level == COMPARISON_LEVEL {
                    if !st1.has_next() {
                        Parsed::Failed(st1.end_error())
                    } else if st1.kind().ends_level(level) {
                        Parsed::Done(node, st1)
                    } else {
                        Parsed::Failed(st1.unexpected(expected_after_operand(level)))
                    }
                } else {
                    binary_tail(level, node, st1)
                }
            },
        }
    } else if st.kind().ends_level(level) {
        Parsed::Done(lhs, st)
    } else {
        Parsed::Failed(st.unexpected(expected_after_operand(level)))
    }
}

/// A cast expression: a unary expression and, after it, `as` with a type, as often as it
/// is there.
#[verifier::opaque]
pub open spec fn cast(st: State) -> Parsed<ExprView>
    decreases st.tokens.len(), 4nat, 0nat,
{
    match unary(st).within(st) {
        Parsed::Failed(e) => Parsed::Failed(e),
        Parsed::Done(lhs, st1) => cast_tail(lhs, st1),
    }
}

/// What follows the operand `lhs` of a cast: `as` and a type make, with `lhs`, a node that
/// may be cast again; a token that ends the operand of a binary operator is left, and
/// `lhs` is the expression.
#[verifier::opaque]
pub open spec fn cast_tail(lhs: ExprView, st: State) -> Parsed<ExprView>
    decreases st.tokens.len(), 0nat, 0nat,
{
    if !st.has_next() {
        Parsed::Failed(st.end_error())
    } else if st.kind() is As {
        match type_node(st.advance()).within(st.advance()) {
            Parsed::Failed(e) => Parsed::Failed(e),
            Parsed::Done(ty, st1) => cast_tail(
                ExprView::TypeCast(
                    TypeCastView {
                        value: Box::new(lhs),
                        ty,
                        span: Span { start: span_of(lhs).start, end: ty.span.end },
                    },
                ),
                st1,
            ),
        }
    } else if st.kind().ends_level(10) {
        Parsed::Done(lhs, st)
    } else {
        Parsed::Failed(st.unexpected("<operator>, '=', '{', '(', ',', '}', ';', 'as'"@))
    }
}

/// A unary expression: `-` or `!` and a unary expression, or a primary expression.
#[verifier::opaque]
pub open spec fn unary(st: State) -> Parsed<ExprView>
    decreases st.tokens.len(), 3nat, 0nat,
{
    if !st.has_next() {
        Parsed::Failed(st.end_error())
    } else if st.kind() is Minus || st.kind() is Not {
        match unary(st.advance()) {
            Parsed::Failed(e) => Parsed::Failed(e),
            Parsed::Done(expr, st1) => Parsed::Done(
                ExprView::Neg(
                    NegExprView {
                        operator: if st.kind() is Minus {
                            NegOperator::Neg
                        } else {
                            NegOperator::Not
                        },
                        expr: Box::new(expr),
                        span: Span { start: st.next().span.start, end: span_of(expr).end },
                    },
                ),
                st1,
            ),
        }
    } else if st.kind() is IntLit || st.kind() is FloatLit || st.kind() is BoolLit || st.kind() is RPar
        || st.kind() is Underscore || st.kind() is Ident {
        primary(st)
    } else if st.kind() is LPar {
        grouped_or_unit(st)
    } else if st.kind() is LBra || st.kind() is If || st.kind() is Unsafe || st.kind() is Loop
        || st.kind() is While {
        expr_with_block(st)
    } else {
        Parsed::Failed(st.unexpected("'!', '-', <expr>"@))
    }
}

/// A primary expression without a block: a literal, a path or a call, an expression in
/// parentheses, the unit literal or the underscore.
#[verifier::opaque]
pub open spec fn primary(st: State) -> Parsed<ExprView>
    decreases st.tokens.len(), 1nat, 0nat,
{
    if !st.has_next() {
        Parsed::Failed(st.end_error())
    } else if st.kind() is IntLit || st.kind() is FloatLit || st.kind() is BoolLit {
        literal(st)
    } else if st.kind() is Ident {
        path_or_call(st)
    } else if st.kind() is LPar {
        grouped_or_unit(st)
    } else if st.kind() is Underscore {
        Parsed::Done(ExprView::Underscore(UnderscoreView { span: st.next().span }), st.advance())
    } else {
        Parsed::Failed(st.unexpected("<expr>"@))
    }
}

/// A literal: an integer, a floating-point number or a boolean.
#[verifier::opaque]
pub open spec fn literal(st: State) -> Parsed<ExprView> {
    if !st.has_next() {
        Parsed::Failed(st.end_error())
    } else {
        let span = st.next().span;
        match st.kind() {
            TokenTypeView::IntLit(value) => Parsed::Done(
                ExprView::Literal(LiteralBoxView::I32(LiteralView { value, ty: Type::I32, span })),
                st.advance(),
            ),
            TokenTypeView::FloatLit(value) => Parsed::Done(
                ExprView::Literal(LiteralBoxView::F64(LiteralView { value, ty: Type::F64, span })),
                st.advance(),
            ),
            TokenTypeView::BoolLit(value) => Parsed::Done(
                ExprView::Literal(LiteralBoxView::Bool(LiteralView { value, ty: Type::Bool, span })),
                st.advance(),
            ),
            _ => Parsed::Failed(st.unexpected("<literal>"@)),
        }
    }
}

/// A path: an identifier.
#[verifier::opaque]
pub open spec fn path(st: State) -> Parsed<PathView> {
    if !st.has_next() {
        Parsed::Failed(st.end_error())
    } else {
        match st.kind() {
            TokenTypeView::Ident(name) => Parsed::Done(
                PathView { path: name, span: st.next().span },
                st.advance(),
            ),
            _ => Parsed::Failed(st.unexpected("<path>"@)),
        }
    }
}

/// A path, or a call of the function that the path names: the path and the arguments in
/// parentheses.
#[verifier::opaque]
pub open spec fn path_or_call(st: State) -> Parsed<ExprView>
    decreases st.tokens.len(), 0nat, 0nat,
{
    match path(st) {
        Parsed::Failed(e) => Parsed::Failed(e),
        Parsed::Done(callee, st1) => {
            if !st1.has_next() {
                Parsed::Failed(st1.end_error())
            } else if st1.kind() is LPar && st1.tokens.len() < st.tokens.len() {
                match call_params(st1.advance(), Seq::empty()) {
                    Parsed::Failed(e) => Parsed::Failed(e),
                    Parsed::Done(args, st2) => match take(st2, TokenTypeView::RPar, "')'"@) {
                        Parsed::Failed(e) => Parsed::Failed(e),
                        Parsed::Done(close, st3) => Parsed::Done(
                            ExprView::FunCall(
                                FunCallView {
                                    path: callee,
                                    args,
                                    span: Span { start: callee.span.start, end: close.end },
                                },
                            ),
                            st3,
                        ),
                    },
                }
            } else {
                Parsed::Done(ExprView::Path(callee), st1)
            }
        },
    }
}

/// The arguments of a call, separated by commas, up to the closing parenthesis, which is
/// left. `acc` holds the arguments that were read before.
#[verifier::opaque]
pub open spec fn call_params(st: State, acc: Seq<ExprView>) -> Parsed<Seq<ExprView>>
    decreases st.tokens.len(), 16nat, 0nat,
{
    if !st.has_next() {
        Parsed::Failed(st.end_error())
    } else if st.kind() is RPar {
        Parsed::Done(acc, st)
    } else if st.kind().starts_expr() {
        match expr(st).within(st) {
            Parsed::Failed(e) => Parsed::Failed(e),
            Parsed::Done(arg, st1) => {
                if !st1.has_next() {
                    Parsed::Failed(st1.end_error())
                } else if st1.kind() is Comma {
                    call_params(st1.advance(), acc.push(arg))
                } else if st1.kind() is RPar {
                    Parsed::Done(acc.push(arg), st1)
                } else {
                    Parsed::Failed(st1.unexpected("',', ')'"@))
                }
            },
        }
    } else {
        Parsed::Failed(st.unexpected("<expr>"@))
    }
}

/// An expression in parentheses, or the unit literal `()`.
#[verifier::opaque]
pub open spec fn grouped_or_unit(st: State) -> Parsed<ExprView>
    decreases st.tokens.len(), 0nat, 0nat,
{
    match take(st, TokenTypeView::LPar, "'('"@) {
        Parsed::Failed(e) => Parsed::Failed(e),
        Parsed::Done(open, st1) => {
            if !st1.has_next() {
                Parsed::Failed(st1.end_error())
            } else if st1.kind() is RPar {
                Parsed::Done(
                    ExprView::Literal(
                        LiteralBoxView::Unit(
                            LiteralView {
                                value: (),
                                ty: Type::Unit,
                                span: Span { start: open.start, end: st1.next().span.end },
                            },
                        ),
                    ),
                    st1.advance(),
                )
            } else {
                match expr(st1) {
                    Parsed::Failed(e) => Parsed::Failed(e),
                    Parsed::Done(inner, st2) => match take(st2, TokenTypeView::RPar, "')'"@) {
                        Parsed::Failed(e) => Parsed::Failed(e),
                        Parsed::Done(close, st3) => Parsed::Done(
                            ExprView::Grouped(
                                GroupedExprView {
                                    expr: Box::new(inner),
                                    span: Span { start: open.start, end: close.end },
                                },
                            ),
                            st3,
                        ),
                    },
                }
            }
        },
    }
}

/// An expression that ends with a block: a block, a loop, an if expression or an unsafe
/// block.
#[verifier::opaque]
pub open spec fn expr_with_block(st: State) -> Parsed<ExprView>
    decreases st.tokens.len(), 2nat, 0nat,
{
    if !st.has_next() {
        Parsed::Failed(st.end_error())
    } else if st.kind() is LBra {
        match block(st) {
            Parsed::Failed(e) => Parsed::Failed(e),
            Parsed::Done(b, st1) => Parsed::Done(ExprView::Block(b), st1),
        }
    } else if st.kind() is Loop || st.kind() is While {
        loop_expr(st)
    } else if st.kind() is If {
        match if_expr(st) {
            Parsed::Failed(e) => Parsed::Failed(e),
            Parsed::Done(node, st1) => Parsed::Done(ExprView::If(node), st1),
        }
    } else if st.kind() is Unsafe {
        unsafe_expr(st)
    } else {
        Parsed::Failed(st.unexpected("<expr>"@))
    }
}

/// A loop: an infinite loop or a while loop.
#[verifier::opaque]
pub open spec fn loop_expr(st: State) -> Parsed<ExprView>
    decreases st.tokens.len(), 1nat, 0nat,
{
    if !st.has_next() {
        Parsed::Failed(st.end_error())
    } else if st.kind() is Loop {
        inf_loop(st)
    } else if st.kind() is While {
        while_loop(st)
    } else {
        Parsed::Failed(st.unexpected("<loop expr>"@))
    }
}

/// An infinite loop: `loop` and a block.
#[verifier::opaque]
pub open spec fn inf_loop(st: State) -> Parsed<ExprView>
    decreases st.tokens.len(), 0nat, 0nat,
{
    match take(st, TokenTypeView::Loop, "'loop'"@) {
        Parsed::Failed(e) => Parsed::Failed(e),
        Parsed::Done(first, st1) => match block(st1) {
            Parsed::Failed(e) => Parsed::Failed(e),
            Parsed::Done(body, st2) => Parsed::Done(
                ExprView::InfLoop(
                    InfLoopView {
                        block: Box::new(body),
                        span: Span { start: first.start, end: body.span.end },
                    },
                ),
                st2,
            ),
        },
    }
}

/// A while loop: `while`, a condition and a block.
#[verifier::opaque]
pub open spec fn while_loop(st: State) -> Parsed<ExprView>
    decreases st.tokens.len(), 0nat, 0nat,
{
    match take(st, TokenTypeView::While, "'while'"@) {
        Parsed::Failed(e) => Parsed::Failed(e),
        Parsed::Done(first, st1) => match expr(st1).within(st1) {
            Parsed::Failed(e) => Parsed::Failed(e),
            Parsed::Done(condition, st2) => match block(st2) {
                Parsed::Failed(e) => Parsed::Failed(e),
                Parsed::Done(body, st3) => Parsed::Done(
                    ExprView::While(
                        WhileView {
                            condition: Box::new(condition),
                            body: Box::new(body),
                            span: Span { start: first.start, end: body.span.end },
                        },
                    ),
                    st3,
                ),
            },
        },
    }
}

/// An if expression: `if`, a condition, a block and what follows it. The expression
/// ends where its last block ends.
#[verifier::opaque]
pub open spec fn if_expr(st: State) -> Parsed<IfView>
    decreases st.tokens.len(), 0nat, 0nat,
{
    match take(st, TokenTypeView::If, "'if'"@) {
        Parsed::Failed(e) => Parsed::Failed(e),
        Parsed::Done(first, st1) => match expr(st1).within(st1) {
            Parsed::Failed(e) => Parsed::Failed(e),
            Parsed::Done(condition, st2) => match block(st2).within(st2) {
                Parsed::Failed(e) => Parsed::Failed(e),
                Parsed::Done(then_block, st3) => match else_expr(st3) {
                    Parsed::Failed(e) => Parsed::Failed(e),
                    Parsed::Done(else_node, st4) => Parsed::Done(
                        IfView {
                            condition: Box::new(condition),
                            then_block: Box::new(then_block),
                            else_node,
                            span: Span {
                                start: first.start,
                                end: match else_node {
                                    ElseExprView::Nothing => then_block.span.end,
                                    ElseExprView::Else(b) => b.span.end,
                                    ElseExprView::ElseIf(n) => n.span.end,
                                },
                            },
                        },
                        st4,
                    ),
                },
            },
        },
    }
}

/// What follows the block of an if expression: `else` with a block or with another if
/// expression, or nothing, where a token follows that may follow an if expression.
#[verifier::opaque]
pub open spec fn else_expr(st: State) -> Parsed<ElseExprView>
    decreases st.tokens.len(), 0nat, 0nat,
{
    if !st.has_next() {
        Parsed::Failed(st.end_error())
    } else if st.kind() is Else {
        let st1 = st.advance();
        if !st1.has_next() {
            Parsed::Failed(st1.end_error())
        } else if st1.kind() is If {
            match if_expr(st1) {
                Parsed::Failed(e) => Parsed::Failed(e),
                Parsed::Done(node, st2) => Parsed::Done(ElseExprView::ElseIf(Box::new(node)), st2),
            }
        } else if st1.kind() is LBra {
            match block(st1) {
                Parsed::Failed(e) => Parsed::Failed(e),
                Parsed::Done(b, st2) => Parsed::Done(ElseExprView::Else(Box::new(b)), st2),
            }
        } else {
            Parsed::Failed(st1.unexpected("'if', '{'"@))
        }
    } else if st.kind().ends_if() {
        Parsed::Done(ElseExprView::Nothing, st)
    } else {
        Parsed::Failed(st.unexpected("'else', ')', ',', '{', 'as', <operator>, '=', '}', ';'"@))
    }
}

/// An unsafe block: `unsafe` and a block.
#[verifier::opaque]
pub open spec fn unsafe_expr(st: State) -> Parsed<ExprView>
    decreases st.tokens.len(), 0nat, 0nat,
{
    match take(st, TokenTypeView::Unsafe, "'unsafe'"@) {
        Parsed::Failed(e) => Parsed::Failed(e),
        Parsed::Done(first, st1) => match block(st1) {
            Parsed::Failed(e) => Parsed::Failed(e),
            Parsed::Done(body, st2) => Parsed::Done(
                ExprView::UnsafeBlock(
                    UnsafeBlockView {
                        block: Box::new(body),
                        span: Span { start: first.start, end: body.span.end },
                    },
                ),
                st2,
            ),
        },
    }
}

/// A return expression: `return` and, if an expression starts after it, that expression.
#[verifier::opaque]
pub open spec fn return_expr(st: State) -> Parsed<ExprView>
    decreases st.tokens.len(), 0nat, 0nat,
{
    match take(st, TokenTypeView::Return, "'return'"@) {
        Parsed::Failed(e) => Parsed::Failed(e),
        Parsed::Done(first, st1) => {
            if !st1.has_next() {
                Parsed::Failed(st1.end_error())
            } else if st1.kind().starts_expr() {
                match expr(st1) {
                    Parsed::Failed(e) => Parsed::Failed(e),
                    Parsed::Done(value, st2) => Parsed::Done(
                        ExprView::Return(
                            ReturnView {
                                value: Some(Box::new(value)),
                                span: Span { start: first.start, end: span_of(value).end },
                            },
                        ),
                        st2,
                    ),
                }
            } else if st1.kind().ends_return() {
                Parsed::Done(ExprView::Return(ReturnView { value: None, span: first }), st1)
            } else {
                Parsed::Failed(st1.unexpected("<expr>, ';'"@))
            }
        },
    }
}

/// An expression: a return expression or an operator expression.
#[verifier::opaque]
pub open spec fn expr(st: State) -> Parsed<ExprView>
    decreases st.tokens.len(), 15nat, 0nat,
{
    if !st.has_next() {
        Parsed::Failed(st.end_error())
    } else if st.kind().starts_operator_expr() {
        binary(1, st)
    } else if st.kind() is Return {
        return_expr(st)
    } else {
        Parsed::Failed(st.unexpected("<expr>"@))
    }
}

/// The initializer of a static item or of a let statement, if one is given: `=` and an
/// expression. Where none is given, a semicolon or the end of the file has to follow,
/// which is left.
#[verifier::opaque]
pub open spec fn item_assignment(st: State) -> Parsed<Option<ExprView>>
    decreases st.tokens.len(), 0nat, 0nat,
{
    if !st.has_next() {
        Parsed::Failed(st.end_error())
    } else if st.kind() is Assign {
        match expr(st.advance()) {
            Parsed::Failed(e) => Parsed::Failed(e),
            Parsed::Done(value, st1) => Parsed::Done(Some(value), st1),
        }
    } else if st.kind() is Semi || st.kind() is EOF {
        Parsed::Done(None, st)
    } else {
        Parsed::Failed(st.unexpected("'=', ';'"@))
    }
}

/// A let statement: `let`, `mut` if any, a name, a colon, a type, an initializer if any,
/// and a semicolon.
///
/// A missing semicolon is a recoverable error, before the end of the file as before any
/// other token that ends the initializer: the statement then ends where its initializer
/// ends, or its type if it has no initializer, and the token that follows is left. The declared pattern is a
/// path with the name, which has the span of the whole statement.
#[verifier::opaque]
pub open spec fn let_stmt(st: State) -> Parsed<LetView>
    decreases st.tokens.len(), 0nat, 0nat,
{
    match take(st, TokenTypeView::Let, "'let'"@) {
        Parsed::Failed(e) => Parsed::Failed(e),
        Parsed::Done(first, st1) => match mutability(st1).within(st1) {
            Parsed::Failed(e) => Parsed::Failed(e),
            Parsed::Done(mutable, st2) => match take_ident(st2, "<pattern>"@).within(st2) {
                Parsed::Failed(e) => Parsed::Failed(e),
                Parsed::Done(name, st3) => match take(st3, TokenTypeView::Colon, "':'"@).within(st3) {
                    Parsed::Failed(e) => Parsed::Failed(e),
                    Parsed::Done(_, st4) => match type_node(st4).within(st4) {
                        Parsed::Failed(e) => Parsed::Failed(e),
                        Parsed::Done(ty, st5) => match item_assignment(st5) {
                            Parsed::Failed(e) => Parsed::Failed(e),
                            Parsed::Done(value, st6) => {
                                let end_pos = match value {
                                    Some(v) => span_of(v).end,
                                    None => ty.span.end,
                                };
                                match take_if(st6, TokenTypeView::Semi) {
                                    Parsed::Failed(e) => Parsed::Failed(e),
                                    Parsed::Done(semi, st7) => {
                                        let end = match semi {
                                            Some(s) => s.end,
                                            None => end_pos,
                                        };
                                        let span = Span { start: first.start, end };
                                        let node = LetView {
                                            decl: Box::new(ExprView::Path(PathView { path: name, span })),
                                            ty,
                                            value: match value {
                                                Some(v) => Some(Box::new(v)),
                                                None => None,
                                            },
                                            mutable,
                                            span,
                                        };
                                        Parsed::Done(
                                            node,
                                            if semi is Some {
                                                st7
                                            } else {
                                                st7.log(
                                                    RecoverableParserErrorView::MissingToken(
                                                        TokenTypeView::Semi,
                                                        end_pos,
                                                    ),
                                                )
                                            },
                                        )
                                    },
                                }
                            },
                        },
                    },
                },
            },
        },
    }
}

/// An expression statement: an expression and a semicolon if one follows. It yields the
/// statement and whether the semicolon was missing. The statement ends with the
/// semicolon, or with the expression where there is none.
#[verifier::opaque]
pub open spec fn expr_stmt(st: State) -> Parsed<(ExprStmtView, bool)>
    decreases st.tokens.len(), 16nat, 0nat,
{
    match expr(st) {
        Parsed::Failed(e) => Parsed::Failed(e),
        Parsed::Done(e, st1) => match take_if(st1, TokenTypeView::Semi) {
            Parsed::Failed(err) => Parsed::Failed(err),
            Parsed::Done(semi, st2) => Parsed::Done(
                (
                    ExprStmtView {
                        expr: Box::new(e),
                        span: Span {
                            start: span_of(e).start,
                            end: match semi {
                                Some(s) => s.end,
                                None => span_of(e).end,
                            },
                        },
                    },
                    semi is None,
                ),
                st2,
            ),
        },
    }
}

/// The statements of a block, up to the closing brace, which is left. `acc` holds the
/// statements that were read before.
///
/// A semicolon alone is skipped. An expression statement without a semicolon ends the
/// statements: its expression is the final expression of the block.
#[verifier::opaque]
pub open spec fn stmts(st: State, acc: Seq<StmtView>) -> Parsed<(Seq<StmtView>, Option<ExprView>)>
    decreases st.tokens.len(), 17nat, 0nat,
{
    if !st.has_next() {
        Parsed::Failed(st.end_error())
    } else if st.kind() is Let {
        match let_stmt(st).below(st) {
            Parsed::Failed(e) => Parsed::Failed(e),
            Parsed::Done(node, st1) => stmts(st1, acc.push(StmtView::Let(node))),
        }
    } else if st.kind() is Semi {
        stmts(st.advance(), acc)
    } else if st.kind() is RBra {
        Parsed::Done((acc, None), st)
    } else {
        match expr_stmt(st).below(st) {
            Parsed::Failed(e) => Parsed::Failed(e),
            Parsed::Done((node, is_last), st1) => if is_last {
                Parsed::Done((acc, Some(*node.expr)), st1)
            } else {
                stmts(st1, acc.push(StmtView::Expr(node)))
            },
        }
    }
}

/// A block: statements between braces.
#[verifier::opaque]
pub open spec fn block(st: State) -> Parsed<BlockView>
    decreases st.tokens.len(), 0nat, 0nat,
{
    match take(st, TokenTypeView::LBra, "'{'"@) {
        Parsed::Failed(e) => Parsed::Failed(e),
        Parsed::Done(open, st1) => match stmts(st1, Seq::empty()) {
            Parsed::Failed(e) => Parsed::Failed(e),
            Parsed::Done((statements, return_expr), st2) => match take(
                st2,
                TokenTypeView::RBra,
                "'}'"@,
            ) {
                Parsed::Failed(e) => Parsed::Failed(e),
                Parsed::Done(close, st3) => Parsed::Done(
                    BlockView {
                        statements,
                        return_expr: match return_expr {
                            Some(e) => Some(Box::new(e)),
                            None => None,
                        },
                        span: Span { start: open.start, end: close.end },
                    },
                    st3,
                ),
            },
        },
    }
}

/// A function: a prototype and a block.
#[verifier::opaque]
pub open spec fn func(st: State) -> Parsed<FuncView> {
    match func_proto(st) {
        Parsed::Failed(e) => Parsed::Failed(e),
        Parsed::Done(proto, st1) => match block(st1) {
            Parsed::Failed(e) => Parsed::Failed(e),
            Parsed::Done(body, st2) => Parsed::Done(
                FuncView {
                    proto,
                    body: Box::new(body),
                    span: Span { start: proto.span.start, end: body.span.end },
                },
                st2,
            ),
        },
    }
}

/// A static item: `static`, `mut` if any, a name, a colon, a type, an initializer if any,
/// and a semicolon.
///
/// An initializer is owed outside a block of foreign items and refused inside one:
/// `is_foreign` tells which holds. Either fault is a recoverable error.
#[verifier::opaque]
pub open spec fn static_item(st: State, is_foreign: bool) -> Parsed<StaticView> {
    match take(st, TokenTypeView::Static, "'static'"@) {
        Parsed::Failed(e) => Parsed::Failed(e),
        Parsed::Done(first, st1) => match mutability(st1) {
            Parsed::Failed(e) => Parsed::Failed(e),
            Parsed::Done(mutable, st2) => match take_ident(st2, "'_', 'mut', <ident>"@) {
                Parsed::Failed(e) => Parsed::Failed(e),
                Parsed::Done(name, st3) => match take(st3, TokenTypeView::Colon, "':'"@) {
                    Parsed::Failed(e) => Parsed::Failed(e),
                    Parsed::Done(_, st4) => match type_node(st4) {
                        Parsed::Failed(e) => Parsed::Failed(e),
                        Parsed::Done(ty, st5) => match item_assignment(st5) {
                            Parsed::Failed(e) => Parsed::Failed(e),
                            Parsed::Done(value, st6) => match take(st6, TokenTypeView::Semi, "';'"@) {
                                Parsed::Failed(e) => Parsed::Failed(e),
                                Parsed::Done(last, st7) => {
                                    let span = Span { start: first.start, end: last.end };
                                    match value {
                                        Some(v) => Parsed::Done(
                                            StaticView {
                                                name,
                                                value: Some(Box::new(v)),
                                                ty,
                                                mutable,
                                                span,
                                            },
                                            if is_foreign {
                                                st7.log_semantic(
                                                    SemanticErrorView::ExternStaticWithInitializer {
                                                        span: span_of(v),
                                                    },
                                                )
                                            } else {
                                                st7
                                            },
                                        ),
                                        None => Parsed::Done(
                                            StaticView { name, value: None, ty, mutable, span },
                                            if is_foreign {
                                                st7
                                            } else {
                                                st7.log_semantic(
                                                    SemanticErrorView::StaticWithoutInitializer { span },
                                                )
                                            },
                                        ),
                                    }
                                },
                            },
                        },
                    },
                },
            },
        },
    }
}

/// The declaration of a foreign function: a prototype and a semicolon. A body in place of
/// the semicolon is read and dropped, and is a recoverable error.
#[verifier::opaque]
pub open spec fn foreign_func(st: State) -> Parsed<FuncProtoView> {
    match func_proto(st) {
        Parsed::Failed(e) => Parsed::Failed(e),
        Parsed::Done(proto, st1) => {
            if !st1.has_next() {
                Parsed::Failed(st1.end_error())
            } else if st1.kind() is Semi {
                Parsed::Done(proto, st1.advance())
            } else if st1.kind() is LBra {
                match block(st1) {
                    Parsed::Failed(e) => Parsed::Failed(e),
                    Parsed::Done(body, st2) => Parsed::Done(
                        proto,
                        st2.log_semantic(
                            SemanticErrorView::ExternFunctionWithBody { span: body.span },
                        ),
                    ),
                }
            } else {
                Parsed::Failed(st1.unexpected("';', '{'"@))
            }
        },
    }
}

/// The items of a block of foreign items, up to the closing brace, which is left. `acc`
/// holds the items that were read before.
#[verifier::opaque]
pub open spec fn foreign_items(st: State, acc: Seq<ExternItemView>) -> Parsed<Seq<ExternItemView>>
    decreases st.tokens.len(),
{
    if !st.has_next() {
        Parsed::Failed(st.end_error())
    } else if st.kind() is Fn {
        match foreign_func(st).below(st) {
            Parsed::Failed(e) => Parsed::Failed(e),
            Parsed::Done(proto, st1) => foreign_items(st1, acc.push(ExternItemView::Func(proto))),
        }
    } else if st.kind() is Static {
        match static_item(st, true).below(st) {
            Parsed::Failed(e) => Parsed::Failed(e),
            Parsed::Done(node, st1) => foreign_items(st1, acc.push(ExternItemView::Static(node))),
        }
    } else if st.kind() is RBra {
        Parsed::Done(acc, st)
    } else {
        Parsed::Failed(st.unexpected("<item>"@))
    }
}

/// A block of foreign items: `extern`, the name of an ABI as a string literal, and the
/// items between braces. An ABI other than `C` is a recoverable error.
#[verifier::opaque]
pub open spec fn foreign_block(st: State) -> Parsed<ExternView> {
    match take(st, TokenTypeView::Extern, "'extern'"@) {
        Parsed::Failed(e) => Parsed::Failed(e),
        Parsed::Done(first, st1) => {
            if !st1.has_next() {
                Parsed::Failed(st1.end_error())
            } else {
                match st1.kind() {
                    TokenTypeView::Abi(abi) => {
                        let st2 = if abi == "C"@ {
                            st1.advance()
                        } else {
                            st1.advance().log(RecoverableParserErrorView::UnsupportedAbi(abi))
                        };
                        match take(st2, TokenTypeView::LBra, "'{'"@) {
                            Parsed::Failed(e) => Parsed::Failed(e),
                            Parsed::Done(_, st3) => match foreign_items(st3, Seq::empty()) {
                                Parsed::Failed(e) => Parsed::Failed(e),
                                Parsed::Done(items, st4) => match take(
                                    st4,
                                    TokenTypeView::RBra,
                                    "'}'"@,
                                ) {
                                    Parsed::Failed(e) => Parsed::Failed(e),
                                    Parsed::Done(close, st5) => Parsed::Done(
                                        ExternView {
                                            abi,
                                            items,
                                            span: Span { start: first.start, end: close.end },
                                        },
                                        st5,
                                    ),
                                },
                            },
                        }
                    },
                    _ => Parsed::Failed(st1.unexpected("<ABI>"@)),
                }
            }
        },
    }
}

/// An item: a function, a static item or a block of foreign items.
#[verifier::opaque]
pub open spec fn item(st: State) -> Parsed<ItemView> {
    if !st.has_next() {
        Parsed::Failed(st.end_error())
    } else if st.kind() is Fn {
        match func(st) {
            Parsed::Failed(e) => Parsed::Failed(e),
            Parsed::Done(node, st1) => Parsed::Done(ItemView::Func(node), st1),
        }
    } else if st.kind() is Static {
        match static_item(st, false) {
            Parsed::Failed(e) => Parsed::Failed(e),
            Parsed::Done(node, st1) => Parsed::Done(ItemView::Static(node), st1),
        }
    } else if st.kind() is Extern {
        match foreign_block(st) {
            Parsed::Failed(e) => Parsed::Failed(e),
            Parsed::Done(node, st1) => Parsed::Done(ItemView::Extern(node), st1),
        }
    } else {
        Parsed::Failed(st.unexpected("<item>"@))
    }
}

/// The items of a source file, up to the end-of-file token, which is left. `acc` holds
/// the items that were read before.
#[verifier::opaque]
pub open spec fn items(st: State, acc: Seq<ItemView>) -> Parsed<Seq<ItemView>>
    decreases st.tokens.len(),
{
    if !st.has_next() {
        Parsed::Failed(st.end_error())
    } else if st.kind() is Fn || st.kind() is Static || st.kind() is Extern {
        match item(st).below(st) {
            Parsed::Failed(e) => Parsed::Failed(e),
            Parsed::Done(node, st1) => items(st1, acc.push(node)),
        }
    } else if st.kind() is EOF {
        Parsed::Done(acc, st)
    } else {
        Parsed::Failed(st.unexpected("<item>"@))
    }
}

/// The crate that a source file is parsed into, or the error that the parse ends with.
///
/// The crate holds the items of the file, has the name `name` and spans the file from its
/// first position to the end-of-file token. Where recoverable errors were met, the parse
/// fails with all of them, in the order in which they were met, though every item was
/// read.
pub open spec fn crate_root(st: State, name: Seq<char>) -> Result<CrateView, ParserErrorView> {
    match items(st, Seq::empty()) {
        Parsed::Failed(e) => Err(e),
        Parsed::Done(nodes, st1) => {
            if st1.errors.len() > 0 {
                Err(ParserErrorView::Aggregated(st1.errors))
            } else if !st1.has_next() {
                Err(st1.end_error())
            } else {
                Ok(
                    CrateView {
                        name,
                        items: nodes,
                        span: Span {
                            start: Position { line: 1, column: 1 },
                            end: st1.next().span.end,
                        },
                    },
                )
            }
        },
    }
}

} // verus!
