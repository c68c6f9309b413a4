//! The production rules of the parser.
//!
//! Every function reads one production of the grammar from the tokens that the parser
//! has before it. Its contract says that it does what the model of the grammar says of
//! the production: the node that it returns and the state in which it leaves the parser
//! are those of the model, and so is the error if it fails.

use vstd::prelude::*;

use crate::ast::crt::{CrateASTNode, CrateView};
use crate::ast::error::SemanticError;
use crate::ast::expr::{
    lemma_views_push, views, ArithExprASTNode, AssignASTNode, CompExprASTNode, Expr, ExprView,
    LazyBoolExprASTNode, PathASTNode, UnderscoreASTNode,
};
use crate::ast::item::{
    ExternASTNode, ExternItem, ExternItemView, FuncASTNode, FuncProtoASTNode, ItemASTNode,
    ItemView, ParamASTNode, ParamView, StaticASTNode,
};
use crate::ast::types::{Type, TypeASTMetaNode};
use crate::parser::error::{ParserError, ParserErrorView, RecoverableParserError};
use crate::parser::grammar;
use crate::parser::grammar::{
    binary_node, binary_operator, expected_after_operand, BinaryOperator, Parsed, State,
};
use crate::parser::Parser;
use crate::token::span::{Position, Span};
use crate::token::{chars_of, text_is, TokenType};

pub mod exprs;
pub mod ops;
pub mod stmts;

verus! {

/// Whether the result `r` of a function of the parser, and the state `after` in which the
/// function leaves the parser, are those that the model gives with `m`.
pub open spec fn agrees<T: View>(r: Result<T, ParserError>, m: Parsed<T::V>, after: State) -> bool {
    match r {
        Ok(v) => m == Parsed::Done(v@, after),
        Err(e) => m == Parsed::<T::V>::Failed(e@),
    }
}

/// As [`agrees`], for a value that the model gives as it is.
pub open spec fn agrees_plain<T>(r: Result<T, ParserError>, m: Parsed<T>, after: State) -> bool {
    match r {
        Ok(v) => m == Parsed::Done(v, after),
        Err(e) => m == Parsed::<T>::Failed(e@),
    }
}

/// What an expression stands for, if there is one.
pub open spec fn opt_view(e: Option<Box<Expr>>) -> Option<ExprView> {
    match e {
        Some(e) => Some((*e)@),
        None => None,
    }
}

impl TokenType {
    /// Tells whether an operator expression may start with a token of this kind.
    pub fn starts_operator_expr(&self) -> (r: bool)
        ensures
            r == self@.starts_operator_expr(),
    {
        matches!(
            self,
            TokenType::Minus | TokenType::Not | TokenType::IntLit(_) | TokenType::FloatLit(_)
                | TokenType::BoolLit(_) | TokenType::LPar | TokenType::Underscore | TokenType::LBra
                | TokenType::If | TokenType::Unsafe | TokenType::Ident(_) | TokenType::Loop
                | TokenType::While
        )
    }

    /// Tells whether an expression may start with a token of this kind.
    pub fn starts_expr(&self) -> (r: bool)
        ensures
            r == self@.starts_expr(),
    {
        self.starts_operator_expr() || matches!(self, TokenType::Return)
    }

    /// Tells whether a token of this kind ends every expression.
    pub fn closes_expr(&self) -> (r: bool)
        ensures
            r == self@.closes_expr(),
    {
        matches!(
            self,
            TokenType::LBra | TokenType::RPar | TokenType::Comma | TokenType::RBra | TokenType::Semi
                | TokenType::EOF
        )
    }

    /// Returns the precedence level of the binary operator that a token of this kind is,
    /// if it is one.
    pub fn operator_level(&self) -> (r: Option<u8>)
        ensures
            match r {
                Some(l) => self@.operator_level() == Some(l as nat) && 1 <= l <= 9,
                None => self@.operator_level() is None,
            },
    {
        match self {
            TokenType::Assign => Some(1),
            TokenType::Or => Some(2),
            TokenType::And => Some(3),
            TokenType::Eq => Some(4),
            TokenType::Ne => Some(4),
            TokenType::Gt => Some(4),
            TokenType::Lt => Some(4),
            TokenType::Ge => Some(4),
            TokenType::Le => Some(4),
            TokenType::BitOr => Some(5),
            TokenType::BitXor => Some(6),
            TokenType::BitAnd => Some(7),
            TokenType::Plus => Some(8),
            TokenType::Minus => Some(8),
            TokenType::Asterisk => Some(9),
            TokenType::Div => Some(9),
            TokenType::Mod => Some(9),
            _ => None,
        }
    }

    /// Returns the binary operator that a token of this kind is, if it is one.
    pub fn binary_operator(&self) -> (r: Option<BinaryOperator>)
        ensures
            r == binary_operator(self@),
    {
        match self {
            TokenType::Assign => Some(BinaryOperator::Assign),
            TokenType::Or => Some(BinaryOperator::LazyBool(crate::ast::expr::LazyBoolOperator::Or)),
            TokenType::And => Some(BinaryOperator::LazyBool(crate::ast::expr::LazyBoolOperator::And)),
            TokenType::Eq => Some(BinaryOperator::Comp(crate::ast::expr::CompOperator::Eq)),
            TokenType::Ne => Some(BinaryOperator::Comp(crate::ast::expr::CompOperator::Ne)),
            TokenType::Gt => Some(BinaryOperator::Comp(crate::ast::expr::CompOperator::Gt)),
            TokenType::Lt => Some(BinaryOperator::Comp(crate::ast::expr::CompOperator::Lt)),
            TokenType::Ge => Some(BinaryOperator::Comp(crate::ast::expr::CompOperator::Ge)),
            TokenType::Le => Some(BinaryOperator::Comp(crate::ast::expr::CompOperator::Le)),
            TokenType::BitOr => Some(BinaryOperator::Arith(crate::ast::expr::ArithOperator::BitOr)),
            TokenType::BitXor => Some(BinaryOperator::Arith(crate::ast::expr::ArithOperator::BitXor)),
            TokenType::BitAnd => Some(BinaryOperator::Arith(crate::ast::expr::ArithOperator::BitAnd)),
            TokenType::Plus => Some(BinaryOperator::Arith(crate::ast::expr::ArithOperator::Add)),
            TokenType::Minus => Some(BinaryOperator::Arith(crate::ast::expr::ArithOperator::Sub)),
            TokenType::Asterisk => Some(BinaryOperator::Arith(crate::ast::expr::ArithOperator::Mul)),
            TokenType::Div => Some(BinaryOperator::Arith(crate::ast::expr::ArithOperator::Div)),
            TokenType::Mod => Some(BinaryOperator::Arith(crate::ast::expr::ArithOperator::Rem)),
            _ => None,
        }
    }

    /// Tells whether a token of this kind ends an operand of the level `level`.
    pub fn ends_level(&self, level: u8) -> (r: bool)
        ensures
            r == self@.ends_level(level as nat),
    {
        self.closes_expr() || match self.operator_level() {
            Some(l) => l < level,
            None => false,
        }
    }

    /// Tells whether a token of this kind may follow an if expression that has no `else`.
    pub fn ends_if(&self) -> (r: bool)
        ensures
            r == self@.ends_if(),
    {
        self.closes_expr() || matches!(self, TokenType::As) || self.operator_level().is_some()
    }

    /// Tells whether a token of this kind may follow a `return` that returns no value.
    pub fn ends_return(&self) -> (r: bool)
        ensures
            r == self@.ends_return(),
    {
        matches!(
            self,
            TokenType::RPar | TokenType::Comma | TokenType::RBra | TokenType::Semi | TokenType::EOF
        )
    }
}

/// Returns the description of what may follow an operand of the level `level`.
pub fn describe_after_operand(level: u8) -> (r: &'static str)
    ensures
        r@ == expected_after_operand(level as nat),
{
    if level <= 1 {
        "'=', '{', '(', ',', '}', ';'"
    } else if level == 2 {
        "'||', '=', '{', '(', ',', '}', ';'"
    } else {
        "<operator>, '=', '{', '(', ',', '}', ';'"
    }
}

/// Makes the node that applies the binary operator `op` to `lhs` and `rhs`.
pub fn make_binary(op: BinaryOperator, lhs: Expr, rhs: Expr) -> (r: Expr)
    ensures
        r@ == binary_node(op, lhs@, rhs@),
{
    let span = Span::new(lhs.span().start(), rhs.span().end());
    match op {
        BinaryOperator::Assign => Expr::Assign(AssignASTNode::new(Box::new(lhs), Box::new(rhs), span)),
        BinaryOperator::LazyBool(operator) => Expr::LazyBool(
            LazyBoolExprASTNode::new(operator, Box::new(lhs), Box::new(rhs), span),
        ),
        BinaryOperator::Comp(operator) => Expr::Comp(
            CompExprASTNode::new(operator, Box::new(lhs), Box::new(rhs), span),
        ),
        BinaryOperator::Arith(operator) => Expr::Arith(
            ArithExprASTNode::new(operator, Box::new(lhs), Box::new(rhs), span),
        ),
    }
}

impl Parser {
    /// The number of tokens that the parser has yet to read.
    pub open spec fn left(&self) -> nat {
        self.state().tokens.len()
    }

    /// Whether this parser is what `before` has become: it is well-formed and parses the
    /// same file.
    pub open spec fn follows(&self, before: &Parser) -> bool {
        self.wf() && self.name() == before.name()
    }

    /// Consumes the next token and returns the error that says that it was not expected.
    pub(crate) fn unknown_token(&mut self, expected: &'static str) -> (e: ParserError)
        requires
            old(self).wf(),
        ensures
            final(self).follows(old(self)),
            e@ == old(self).state().unexpected(expected@),
    {
        match self.consume() {
            Ok(token) => ParserError::UnexpectedToken { actual: token, expected },
            Err(e) => e,
        }
    }

    /// Consumes the next token, which has to be of the kind `kind`, and returns its span.
    pub(crate) fn assert_token(&mut self, kind: TokenType, expected: &'static str) -> (r: Result<
        Span,
        ParserError,
    >)
        requires
            old(self).wf(),
        ensures
            final(self).follows(old(self)),
            agrees_plain(r, grammar::take(old(self).state(), kind@, expected@), final(self).state()),
            r is Ok ==> final(self).left() < old(self).left(),
    {
        let token = self.consume()?;
        if token.ty().same(&kind) {
            Ok(token.span())
        } else {
            Err(ParserError::UnexpectedToken { actual: token, expected })
        }
    }

    /// Consumes the next token if it is of the kind `kind`, and returns its span if it is.
    pub(crate) fn expect_token(&mut self, kind: TokenType) -> (r: Result<Option<Span>, ParserError>)
        requires
            old(self).wf(),
        ensures
            final(self).follows(old(self)),
            agrees_plain(r, grammar::take_if(old(self).state(), kind@), final(self).state()),
            r is Ok ==> final(self).left() <= old(self).left(),
    {
        let matches = self.peek()?.ty().same(&kind);
        if matches {
            let token = self.consume()?;
            Ok(Some(token.span()))
        } else {
            Ok(None)
        }
    }

    /// Consumes the next token, which has to be an identifier, and returns its name.
    pub(crate) fn assert_ident(&mut self, expected: &'static str) -> (r: Result<String, ParserError>)
        requires
            old(self).wf(),
        ensures
            final(self).follows(old(self)),
            agrees(r, grammar::take_ident(old(self).state(), expected@), final(self).state()),
            r is Ok ==> final(self).left() < old(self).left(),
    {
        let token = self.consume()?;
        let name: Option<String> = match token.ty() {
            TokenType::Ident(name) => Some(name.clone()),
            _ => None,
        };
        match name {
            Some(name) => Ok(name),
            None => Err(ParserError::UnexpectedToken { actual: token, expected }),
        }
    }

    /// Parses the input into a [`CrateASTNode`], consuming the `Parser`.
    pub fn parse_crate(self) -> (r: Result<CrateASTNode, ParserError>)
        requires
            self.wf(),
        ensures
            match r {
                Ok(root) => grammar::crate_root(self.state(), self.name()) == Ok::<_, ParserErrorView>(
                    root@,
                ),
                Err(e) => grammar::crate_root(self.state(), self.name()) == Err::<CrateView, _>(e@),
            },
    {
        let mut parser = self;
        let items = parser.parse_items()?;
        if parser.has_errors() {
            return Err(ParserError::Aggregated(parser.into_errors()));
        }
        let end_pos = parser.consume()?.span().end();
        let span = Span::new(Position::new(), end_pos);
        let name = String::from_str(parser.filename());
        Ok(CrateASTNode::new(name, items, span))
    }

    /// Parses the items of the source file, up to the end-of-file token, which it leaves.
    pub fn parse_items(&mut self) -> (r: Result<Vec<ItemASTNode>, ParserError>)
        requires
            old(self).wf(),
        ensures
            final(self).follows(old(self)),
            match r {
                Ok(v) => grammar::items(old(self).state(), Seq::empty()) == Parsed::Done(
                    views(v@),
                    final(self).state(),
                ),
                Err(e) => grammar::items(old(self).state(), Seq::empty()) == Parsed::<
                    Seq<ItemView>,
                >::Failed(e@),
            },
    {
        let mut result: Vec<ItemASTNode> = Vec::new();
        assert(views(result@) =~= Seq::<ItemView>::empty());
        loop
            invariant
                self.follows(old(self)),
                grammar::items(self.state(), views(result@)) == grammar::items(
                    old(self).state(),
                    Seq::empty(),
                ),
            decreases self.left(),
        {
            reveal(grammar::items);
            let next = self.peek()?;
            match next.ty() {
                TokenType::Fn | TokenType::Static | TokenType::Extern => {
                    let item = self.parse_item()?;
                    proof {
                        lemma_views_push(result@, item);
                    }
                    result.push(item);
                },
                TokenType::EOF => {
                    return Ok(result);
                },
                _ => {
                    return Err(self.unknown_token("<item>"));
                },
            }
        }
    }

    /// Parses an item: a function, a static item or a block of foreign items.
    pub fn parse_item(&mut self) -> (r: Result<ItemASTNode, ParserError>)
        requires
            old(self).wf(),
        ensures
            final(self).follows(old(self)),
            agrees(r, grammar::item(old(self).state()), final(self).state()),
            r is Ok ==> final(self).left() < old(self).left(),
    {
        reveal(grammar::item);
        let next = self.peek()?;
        match next.ty() {
            TokenType::Fn => Ok(ItemASTNode::Func(Box::new(self.parse_func()?))),
            TokenType::Static => Ok(ItemASTNode::Static(Box::new(self.parse_static(false)?))),
            TokenType::Extern => Ok(ItemASTNode::Extern(Box::new(self.parse_extern()?))),
            _ => Err(self.unknown_token("<item>")),
        }
    }

    /// Parses a function: a prototype and a body.
    pub fn parse_func(&mut self) -> (r: Result<FuncASTNode, ParserError>)
        requires
            old(self).wf(),
        ensures
            final(self).follows(old(self)),
            agrees(r, grammar::func(old(self).state()), final(self).state()),
            r is Ok ==> final(self).left() < old(self).left(),
    {
        reveal(grammar::func);
        let proto = self.parse_func_proto()?;
        let body = self.parse_block_expr()?;
        let span = Span::new(proto.span().start(), body.span().end());
        Ok(FuncASTNode::new(proto, body, span))
    }

    /// Parses the prototype of a function: `fn`, a name, the parameters in parentheses and
    /// the return type, if one is given.
    pub fn parse_func_proto(&mut self) -> (r: Result<FuncProtoASTNode, ParserError>)
        requires
            old(self).wf(),
        ensures
            final(self).follows(old(self)),
            agrees(r, grammar::func_proto(old(self).state()), final(self).state()),
            r is Ok ==> final(self).left() < old(self).left(),
    {
        reveal(grammar::func_proto);
        let start_pos = self.assert_token(TokenType::Fn, "'fn'")?.start();
        let ident = self.assert_ident("<ident>")?;
        self.assert_token(TokenType::LPar, "'('")?;
        let params = self.parse_func_params()?;
        // If there is no return type, the prototype ends with the closing parenthesis.
        let end_pos = self.assert_token(TokenType::RPar, "')'")?.end();
        // If there is a return type, the prototype ends with the return type.
        let ret_ty = match self.parse_func_ret_ty()? {
            Some(node) => node,
            None => TypeASTMetaNode::new(Type::Unit, Span::new(end_pos, end_pos)),
        };
        let span = Span::new(start_pos, ret_ty.span().end());
        Ok(FuncProtoASTNode::new(ident, params, ret_ty, span))
    }

    /// Parses the parameters of a function, up to the closing parenthesis, which it leaves.
    pub fn parse_func_params(&mut self) -> (r: Result<Vec<ParamASTNode>, ParserError>)
        requires
            old(self).wf(),
        ensures
            final(self).follows(old(self)),
            match r {
                Ok(v) => grammar::func_params(old(self).state(), Seq::empty()) == Parsed::Done(
                    views(v@),
                    final(self).state(),
                ),
                Err(e) => grammar::func_params(old(self).state(), Seq::empty()) == Parsed::<
                    Seq<ParamView>,
                >::Failed(e@),
            },
            r is Ok ==> final(self).left() <= old(self).left(),
    {
        let mut result: Vec<ParamASTNode> = Vec::new();
        assert(views(result@) =~= Seq::<ParamView>::empty());
        loop
            invariant
                self.follows(old(self)),
                self.left() <= old(self).left(),
                grammar::func_params(self.state(), views(result@)) == grammar::func_params(
                    old(self).state(),
                    Seq::empty(),
                ),
            decreases self.left(),
        {
            reveal(grammar::func_params);
            let next = self.peek()?;
            match next.ty() {
                TokenType::Mut | TokenType::Underscore | TokenType::Ident(_) => {
                    let param = self.parse_param()?;
                    proof {
                        lemma_views_push(result@, param);
                    }
                    result.push(param);
                },
                TokenType::RPar => {
                    return Ok(result);
                },
                _ => {
                    return Err(self.unknown_token("<fn parameter>"));
                },
            }
            let next = self.peek()?;
            match next.ty() {
                TokenType::Comma => {
                    self.consume()?;
                },
                TokenType::RPar => {
                    return Ok(result);
                },
                _ => {
                    return Err(self.unknown_token("',', ')'"));
                },
            }
        }
    }

    /// Parses a parameter of a function: `mut` if any, an identifier or `_`, a colon and a
    /// type.
    pub fn parse_param(&mut self) -> (r: Result<ParamASTNode, ParserError>)
        requires
            old(self).wf(),
        ensures
            final(self).follows(old(self)),
            agrees(r, grammar::param(old(self).state()), final(self).state()),
            r is Ok ==> final(self).left() < old(self).left(),
    {
        reveal(grammar::param);
        let mutability = self.parse_mut()?;
        let token = self.consume()?;
        let ident_span = token.span();
        let pattern: Option<Expr> = match token.ty() {
            TokenType::Ident(name) => Some(Expr::Path(PathASTNode::new(name.clone(), ident_span))),
            TokenType::Underscore => Some(Expr::Underscore(UnderscoreASTNode::new(ident_span))),
            _ => None,
        };
        match pattern {
            None => Err(ParserError::UnexpectedToken { actual: token, expected: "<pattern>" }),
            Some(assignee) => {
                self.assert_token(TokenType::Colon, "':'")?;
                let ty = self.parse_type()?;
                Ok(ParamASTNode::new(Box::new(assignee), ty, mutability, ident_span))
            },
        }
    }

    /// Parses the return type of a function, if one is given.
    pub fn parse_func_ret_ty(&mut self) -> (r: Result<Option<TypeASTMetaNode>, ParserError>)
        requires
            old(self).wf(),
        ensures
            final(self).follows(old(self)),
            agrees_plain(r, grammar::func_ret_ty(old(self).state()), final(self).state()),
            r is Ok ==> final(self).left() <= old(self).left(),
    {
        reveal(grammar::func_ret_ty);
        let next = self.peek()?;
        match next.ty() {
            TokenType::Semi | TokenType::LBra => Ok(None),
            TokenType::Arrow => {
                self.consume()?;
                Ok(Some(self.parse_type()?))
            },
            _ => Err(self.unknown_token("'->', ';', '{'")),
        }
    }

    /// Consumes `mut`, if it comes next, and tells whether it did.
    pub fn parse_mut(&mut self) -> (r: Result<bool, ParserError>)
        requires
            old(self).wf(),
        ensures
            final(self).follows(old(self)),
            agrees_plain(r, grammar::mutability(old(self).state()), final(self).state()),
            r is Ok ==> final(self).left() <= old(self).left(),
    {
        reveal(grammar::mutability);
        Ok(self.expect_token(TokenType::Mut)?.is_some())
    }

    /// Parses a static item. Outside a block of foreign items it has to have an
    /// initializer, inside one it must have none: `is_extern` tells where it stands. A
    /// fault against that is logged, and the item is returned as it was read.
    pub fn parse_static(&mut self, is_extern: bool) -> (r: Result<StaticASTNode, ParserError>)
        requires
            old(self).wf(),
        ensures
            final(self).follows(old(self)),
            agrees(r, grammar::static_item(old(self).state(), is_extern), final(self).state()),
            r is Ok ==> final(self).left() < old(self).left(),
    {
        reveal(grammar::static_item);
        let start_pos = self.assert_token(TokenType::Static, "'static'")?.start();
        let mutability = self.parse_mut()?;
        let ident = self.assert_ident("'_', 'mut', <ident>")?;
        self.assert_token(TokenType::Colon, "':'")?;
        let ty = self.parse_type()?;
        let value = self.parse_item_assignment()?;
        let end_pos = self.assert_token(TokenType::Semi, "';'")?.end();
        let span = Span::new(start_pos, end_pos);
        let item = match value {
            Some(value) => {
                if is_extern {
                    self.push_rcv_error(
                        RecoverableParserError::SemanticError(
                            SemanticError::ExternStaticWithInitializer { span: value.span() },
                        ),
                    );
                }
                StaticASTNode::new_with_assignment(ident, value, ty, mutability, span)
            },
            None => {
                if !is_extern {
                    self.push_rcv_error(
                        RecoverableParserError::SemanticError(
                            SemanticError::StaticWithoutInitializer { span },
                        ),
                    );
                }
                StaticASTNode::new(ident, ty, mutability, span)
            },
        };
        Ok(item)
    }

    /// Parses a block of foreign items. An ABI other than `C` is logged.
    pub fn parse_extern(&mut self) -> (r: Result<ExternASTNode, ParserError>)
        requires
            old(self).wf(),
        ensures
            final(self).follows(old(self)),
            agrees(r, grammar::foreign_block(old(self).state()), final(self).state()),
            r is Ok ==> final(self).left() < old(self).left(),
    {
        reveal(grammar::foreign_block);
        let start_pos = self.assert_token(TokenType::Extern, "'extern'")?.start();
        let next = self.consume()?;
        let name: Option<String> = match next.ty() {
            TokenType::Abi(abi) => Some(abi.clone()),
            _ => None,
        };
        let abi = match name {
            Some(abi) => abi,
            None => {
                return Err(ParserError::UnexpectedToken { actual: next, expected: "<ABI>" });
            },
        };
        if !text_is(&chars_of(abi.as_str()), "C") {
            self.push_rcv_error(RecoverableParserError::UnsupportedAbi(abi.clone()));
        }
        self.assert_token(TokenType::LBra, "'{'")?;
        let items = self.parse_extern_items()?;
        let end_pos = self.assert_token(TokenType::RBra, "'}'")?.end();
        let span = Span::new(start_pos, end_pos);
        Ok(ExternASTNode::new(abi, items, span))
    }

    /// Parses the items of a block of foreign items, up to the closing brace, which it
    /// leaves.
    pub fn parse_extern_items(&mut self) -> (r: Result<Vec<ExternItem>, ParserError>)
        requires
            old(self).wf(),
        ensures
            final(self).follows(old(self)),
            match r {
                Ok(v) => grammar::foreign_items(old(self).state(), Seq::empty()) == Parsed::Done(
                    views(v@),
                    final(self).state(),
                ),
                Err(e) => grammar::foreign_items(old(self).state(), Seq::empty()) == Parsed::<
                    Seq<ExternItemView>,
                >::Failed(e@),
            },
            r is Ok ==> final(self).left() <= old(self).left(),
    {
        let mut result: Vec<ExternItem> = Vec::new();
        assert(views(result@) =~= Seq::<ExternItemView>::empty());
        loop
            invariant
                self.follows(old(self)),
                self.left() <= old(self).left(),
                grammar::foreign_items(self.state(), views(result@)) == grammar::foreign_items(
                    old(self).state(),
                    Seq::empty(),
                ),
            decreases self.left(),
        {
            reveal(grammar::foreign_items);
            let next = self.peek()?;
            match next.ty() {
                TokenType::Fn => {
                    let item = ExternItem::Func(Box::new(self.parse_extern_func()?));
                    proof {
                        lemma_views_push(result@, item);
                    }
                    result.push(item);
                },
                TokenType::Static => {
                    let item = ExternItem::Static(Box::new(self.parse_static(true)?));
                    proof {
                        lemma_views_push(result@, item);
                    }
                    result.push(item);
                },
                TokenType::RBra => {
                    return Ok(result);
                },
                _ => {
                    return Err(self.unknown_token("<item>"));
                },
            }
        }
    }

    /// Parses the declaration of a foreign function. A body in place of the semicolon is
    /// read, dropped and logged.
    pub fn parse_extern_func(&mut self) -> (r: Result<FuncProtoASTNode, ParserError>)
        requires
            old(self).wf(),
        ensures
            final(self).follows(old(self)),
            agrees(r, grammar::foreign_func(old(self).state()), final(self).state()),
            r is Ok ==> final(self).left() < old(self).left(),
    {
        reveal(grammar::foreign_func);
        let proto = self.parse_func_proto()?;
        let next = self.peek()?;
        match next.ty() {
            TokenType::Semi => {
                self.consume()?;
            },
            TokenType::LBra => {
                let body_span = self.parse_block_expr()?.span();
                self.push_rcv_error(
                    RecoverableParserError::SemanticError(
                        SemanticError::ExternFunctionWithBody { span: body_span },
                    ),
                );
            },
            _ => {
                return Err(self.unknown_token("';', '{'"));
            },
        }
        Ok(proto)
    }

    /// Parses a type: the name of a type, or `()`.
    pub fn parse_type(&mut self) -> (r: Result<TypeASTMetaNode, ParserError>)
        requires
            old(self).wf(),
        ensures
            final(self).follows(old(self)),
            agrees_plain(r, grammar::type_node(old(self).state()), final(self).state()),
            r is Ok ==> final(self).left() < old(self).left(),
    {
        reveal(grammar::type_node);
        let token = self.consume()?;
        let named: Option<Type> = match token.ty() {
            TokenType::Ident(ident) => Type::from_name(&chars_of(ident.as_str())),
            _ => None,
        };
        match named {
            Some(ty) => Ok(TypeASTMetaNode::new(ty, token.span())),
            None => {
                if matches!(token.ty(), TokenType::LPar) {
                    let end_pos = self.assert_token(TokenType::RPar, "')'")?.end();
                    let span = Span::new(token.span().start(), end_pos);
                    Ok(TypeASTMetaNode::new(Type::Unit, span))
                } else {
                    Err(ParserError::UnexpectedToken { actual: token, expected: "<type>" })
                }
            },
        }
    }
}

} // verus!
