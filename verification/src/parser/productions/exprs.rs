//! The productions of expressions.

use vstd::prelude::*;

use crate::ast::expr::{
    lemma_views_push, views, ElseExpr, Expr, ExprView, FunCallASTNode, GroupedExprASTNode,
    IfASTNode, InfLoopASTNode, LiteralASTNode, LiteralBox, PathASTNode, ReturnASTNode,
    UnderscoreASTNode, UnsafeBlockASTNode, WhileASTNode,
};
use crate::parser::error::ParserError;
use crate::parser::grammar;
use crate::parser::grammar::Parsed;
use crate::parser::Parser;
use crate::parser::productions::agrees;
use crate::token::span::Span;
use crate::token::{TokenType, TokenTypeView};

verus! {

impl Parser {
    /// Parses an expression.
    pub fn parse_expr(&mut self) -> (r: Result<Expr, ParserError>)
        requires
            old(self).wf(),
        ensures
            final(self).follows(old(self)),
            agrees(r, grammar::expr(old(self).state()), final(self).state()),
            r is Ok ==> final(self).left() < old(self).left(),
        decreases old(self).left(), 16nat, 0nat,
    {
        self.parse_expr_wo_block()
    }

    /// Parses an expression: a return expression or an operator expression.
    pub fn parse_expr_wo_block(&mut self) -> (r: Result<Expr, ParserError>)
        requires
            old(self).wf(),
        ensures
            final(self).follows(old(self)),
            agrees(r, grammar::expr(old(self).state()), final(self).state()),
            r is Ok ==> final(self).left() < old(self).left(),
        decreases old(self).left(), 15nat, 0nat,
    {
        reveal(grammar::expr);
        reveal(grammar::binary);
        reveal(grammar::return_expr);
        let next = self.peek()?;
        if next.ty().starts_operator_expr() {
            self.parse_operator_expr()
        } else if matches!(next.ty(), TokenType::Return) {
            Ok(Expr::Return(self.parse_return()?))
        } else {
            Err(self.unknown_token("<expr>"))
        }
    }

    /// Parses a primary expression without a block: a literal, a path or a call, an
    /// expression in parentheses, the unit literal or the underscore.
    pub fn parse_expr_wo_block_(&mut self) -> (r: Result<Expr, ParserError>)
        requires
            old(self).wf(),
        ensures
            final(self).follows(old(self)),
            agrees(r, grammar::primary(old(self).state()), final(self).state()),
            r is Ok ==> final(self).left() < old(self).left(),
        decreases old(self).left(), 1nat, 0nat,
    {
        reveal(grammar::primary);
        reveal(grammar::path_or_call);
        reveal(grammar::grouped_or_unit);
        let next = self.peek()?;
        match next.ty() {
            TokenType::IntLit(_) | TokenType::FloatLit(_) | TokenType::BoolLit(_) => {
                self.parse_literal_expr()
            },
            TokenType::Ident(_) => self.parse_path_or_call_expr(),
            TokenType::LPar => self.parse_grouped_expr_or_unit_lit(),
            TokenType::Underscore => Ok(Expr::Underscore(self.parse_underscore_expr()?)),
            _ => Err(self.unknown_token("<expr>")),
        }
    }

    /// Parses an expression that ends with a block: a block, a loop, an if expression or
    /// an unsafe block.
    pub fn parse_expr_w_block(&mut self) -> (r: Result<Expr, ParserError>)
        requires
            old(self).wf(),
        ensures
            final(self).follows(old(self)),
            agrees(r, grammar::expr_with_block(old(self).state()), final(self).state()),
            r is Ok ==> final(self).left() < old(self).left(),
        decreases old(self).left(), 2nat, 0nat,
    {
        reveal(grammar::expr_with_block);
        reveal(grammar::block);
        reveal(grammar::loop_expr);
        reveal(grammar::if_expr);
        reveal(grammar::unsafe_expr);
        let next = self.peek()?;
        match next.ty() {
            TokenType::LBra => Ok(Expr::Block(self.parse_block_expr()?)),
            TokenType::Loop | TokenType::While => self.parse_loop_expr(),
            TokenType::If => Ok(Expr::If(self.parse_if_expr()?)),
            TokenType::Unsafe => Ok(Expr::UnsafeBlock(self.parse_unsafe_expr()?)),
            _ => Err(self.unknown_token("<expr>")),
        }
    }

    /// Parses a literal.
    pub fn parse_literal_expr(&mut self) -> (r: Result<Expr, ParserError>)
        requires
            old(self).wf(),
        ensures
            final(self).follows(old(self)),
            agrees(r, grammar::literal(old(self).state()), final(self).state()),
            r is Ok ==> final(self).left() < old(self).left(),
    {
        reveal(grammar::literal);
        let token = self.consume()?;
        let span = token.span();
        let literal: Option<LiteralBox> = match token.ty() {
            TokenType::IntLit(val) => Some(LiteralBox::I32(LiteralASTNode::<i32>::new(*val, span))),
            TokenType::FloatLit(val) => Some(
                LiteralBox::F64(LiteralASTNode::<String>::new(val.clone(), span)),
            ),
            TokenType::BoolLit(val) => Some(
                LiteralBox::Bool(LiteralASTNode::<bool>::new(*val, span)),
            ),
            _ => None,
        };
        match literal {
            Some(literal) => Ok(literal.into_parser_expr()),
            None => Err(ParserError::UnexpectedToken { actual: token, expected: "<literal>" }),
        }
    }

    /// Parses a path, or a call of the function that the path names.
    pub fn parse_path_or_call_expr(&mut self) -> (r: Result<Expr, ParserError>)
        requires
            old(self).wf(),
        ensures
            final(self).follows(old(self)),
            agrees(r, grammar::path_or_call(old(self).state()), final(self).state()),
            r is Ok ==> final(self).left() < old(self).left(),
        decreases old(self).left(), 0nat, 0nat,
    {
        reveal(grammar::path_or_call);
        reveal(grammar::call_params);
        let path = self.parse_path_expr()?;
        let next = self.peek()?;
        match next.ty() {
            TokenType::LPar => {
                self.consume()?;
                let params = self.parse_call_params()?;
                let end_pos = self.assert_token(TokenType::RPar, "')'")?.end();
                let span = Span::new(path.span().start(), end_pos);
                Ok(Expr::FunCall(FunCallASTNode::new(Box::new(path), params, span)))
            },
            _ => Ok(Expr::Path(path)),
        }
    }

    /// Parses a path.
    pub fn parse_path_expr(&mut self) -> (r: Result<PathASTNode, ParserError>)
        requires
            old(self).wf(),
        ensures
            final(self).follows(old(self)),
            agrees(r, grammar::path(old(self).state()), final(self).state()),
            r is Ok ==> final(self).left() < old(self).left(),
    {
        reveal(grammar::path);
        let token = self.consume()?;
        let name: Option<String> = match token.ty() {
            TokenType::Ident(ident) => Some(ident.clone()),
            _ => None,
        };
        match name {
            Some(name) => Ok(PathASTNode::new(name, token.span())),
            None => Err(ParserError::UnexpectedToken { actual: token, expected: "<path>" }),
        }
    }

    /// Parses an operator expression.
    pub fn parse_operator_expr(&mut self) -> (r: Result<Expr, ParserError>)
        requires
            old(self).wf(),
        ensures
            final(self).follows(old(self)),
            agrees(r, grammar::binary(1, old(self).state()), final(self).state()),
            r is Ok ==> final(self).left() < old(self).left(),
        decreases old(self).left(), 14nat, 2nat,
    {
        self.parse_ops()
    }

    /// Parses an expression in parentheses, or the unit literal.
    pub fn parse_grouped_expr_or_unit_lit(&mut self) -> (r: Result<Expr, ParserError>)
        requires
            old(self).wf(),
        ensures
            final(self).follows(old(self)),
            agrees(r, grammar::grouped_or_unit(old(self).state()), final(self).state()),
            r is Ok ==> final(self).left() < old(self).left(),
        decreases old(self).left(), 0nat, 0nat,
    {
        reveal(grammar::grouped_or_unit);
        reveal(grammar::expr);
        let start_pos = self.assert_token(TokenType::LPar, "'('")?.start();
        let next = self.peek()?;
        match next.ty() {
            TokenType::RPar => {
                let end_pos = self.consume()?.span().end();
                let span = Span::new(start_pos, end_pos);
                Ok(Expr::Literal(LiteralBox::Unit(LiteralASTNode::<()>::new(span))))
            },
            _ => {
                let expr = self.parse_expr()?;
                let end_pos = self.assert_token(TokenType::RPar, "')'")?.end();
                let span = Span::new(start_pos, end_pos);
                Ok(Expr::Grouped(GroupedExprASTNode::new(Box::new(expr), span)))
            },
        }
    }

    /// Parses the arguments of a call, up to the closing parenthesis, which it leaves.
    pub fn parse_call_params(&mut self) -> (r: Result<Vec<Expr>, ParserError>)
        requires
            old(self).wf(),
        ensures
            final(self).follows(old(self)),
            match r {
                Ok(v) => grammar::call_params(old(self).state(), Seq::empty()) == Parsed::Done(
                    views(v@),
                    final(self).state(),
                ),
                Err(e) => grammar::call_params(old(self).state(), Seq::empty()) == Parsed::<
                    Seq<ExprView>,
                >::Failed(e@),
            },
            r is Ok ==> final(self).left() <= old(self).left(),
        decreases old(self).left(), 17nat, 0nat,
    {
        let mut result: Vec<Expr> = Vec::new();
        assert(views(result@) =~= Seq::<ExprView>::empty());
        loop
            invariant
                self.follows(old(self)),
                self.left() <= old(self).left(),
                grammar::call_params(self.state(), views(result@)) == grammar::call_params(
                    old(self).state(),
                    Seq::empty(),
                ),
            decreases self.left(),
        {
            reveal(grammar::call_params);
            reveal(grammar::expr);
            let next = self.peek()?;
            if next.ty().starts_expr() {
                let expr = self.parse_expr()?;
                proof {
                    lemma_views_push(result@, expr);
                }
                result.push(expr);
            } else if matches!(next.ty(), TokenType::RPar) {
                return Ok(result);
            } else {
                return Err(self.unknown_token("<expr>"));
            }
            let next = self.peek()?;
            match next.ty() {
                TokenType::Comma => {
                    self.consume()?;
                },
                TokenType::RPar => {
                    return Ok(result);
                },
                _ => {
                    return Err(self.unknown_token("',', ')'"));
                },
            }
        }
    }

    /// Parses a loop.
    pub fn parse_loop_expr(&mut self) -> (r: Result<Expr, ParserError>)
        requires
            old(self).wf(),
        ensures
            final(self).follows(old(self)),
            agrees(r, grammar::loop_expr(old(self).state()), final(self).state()),
            r is Ok ==> final(self).left() < old(self).left(),
        decreases old(self).left(), 1nat, 0nat,
    {
        reveal(grammar::loop_expr);
        reveal(grammar::inf_loop);
        reveal(grammar::while_loop);
        let next = self.peek()?;
        match next.ty() {
            TokenType::Loop => Ok(Expr::InfLoop(self.parse_inf_loop_expr()?)),
            TokenType::While => Ok(Expr::While(self.parse_pred_loop_expr()?)),
            _ => Err(self.unknown_token("<loop expr>")),
        }
    }

    /// Parses an infinite loop.
    pub fn parse_inf_loop_expr(&mut self) -> (r: Result<InfLoopASTNode, ParserError>)
        requires
            old(self).wf(),
        ensures
            final(self).follows(old(self)),
            match r {
                Ok(node) => grammar::inf_loop(old(self).state()) == Parsed::Done(
                    ExprView::InfLoop(node@),
                    final(self).state(),
                ),
                Err(e) => grammar::inf_loop(old(self).state()) == Parsed::<ExprView>::Failed(e@),
            },
            r is Ok ==> final(self).left() < old(self).left(),
        decreases old(self).left(), 0nat, 0nat,
    {
        reveal(grammar::inf_loop);
        reveal(grammar::block);
        let start_pos = self.assert_token(TokenType::Loop, "'loop'")?.start();
        let body = self.parse_block_expr()?;
        let end_pos = body.span().end();
        let span = Span::new(start_pos, end_pos);
        Ok(InfLoopASTNode::new(Box::new(body), span))
    }

    /// Parses a while loop.
    pub fn parse_pred_loop_expr(&mut self) -> (r: Result<WhileASTNode, ParserError>)
        requires
            old(self).wf(),
        ensures
            final(self).follows(old(self)),
            match r {
                Ok(node) => grammar::while_loop(old(self).state()) == Parsed::Done(
                    ExprView::While(node@),
                    final(self).state(),
                ),
                Err(e) => grammar::while_loop(old(self).state()) == Parsed::<ExprView>::Failed(e@),
            },
            r is Ok ==> final(self).left() < old(self).left(),
        decreases old(self).left(), 0nat, 0nat,
    {
        reveal(grammar::while_loop);
        reveal(grammar::expr);
        reveal(grammar::block);
        let start_pos = self.assert_token(TokenType::While, "'while'")?.start();
        let condition = self.parse_expr()?;
        let body = self.parse_block_expr()?;
        let end_pos = body.span().end();
        let span = Span::new(start_pos, end_pos);
        Ok(WhileASTNode::new(Box::new(condition), Box::new(body), span))
    }

    /// Parses an if expression, which ends where its last block ends.
    pub fn parse_if_expr(&mut self) -> (r: Result<IfASTNode, ParserError>)
        requires
            old(self).wf(),
        ensures
            final(self).follows(old(self)),
            agrees(r, grammar::if_expr(old(self).state()), final(self).state()),
            r is Ok ==> final(self).left() < old(self).left(),
        decreases old(self).left(), 0nat, 0nat,
    {
        reveal(grammar::if_expr);
        reveal(grammar::expr);
        reveal(grammar::block);
        reveal(grammar::else_expr);
        let start_pos = self.assert_token(TokenType::If, "'if'")?.start();
        let condition = self.parse_expr()?;
        let then_block = self.parse_block_expr()?;
        let else_expr = self.parse_else_expr()?;
        let end_pos = match &else_expr {
            ElseExpr::Nothing => then_block.span().end(),
            ElseExpr::Else(block) => block.span().end(),
            ElseExpr::ElseIf(if_node) => if_node.span().end(),
        };
        let span = Span::new(start_pos, end_pos);
        Ok(IfASTNode::new(Box::new(condition), Box::new(then_block), else_expr, span))
    }

    /// Parses what follows the block of an if expression: `else` with a block or with
    /// another if expression, or nothing.
    pub fn parse_else_expr(&mut self) -> (r: Result<ElseExpr, ParserError>)
        requires
            old(self).wf(),
        ensures
            final(self).follows(old(self)),
            agrees(r, grammar::else_expr(old(self).state()), final(self).state()),
            r is Ok ==> final(self).left() <= old(self).left(),
        decreases old(self).left(), 0nat, 0nat,
    {
        reveal(grammar::else_expr);
        reveal(grammar::if_expr);
        reveal(grammar::block);
        let next = self.peek()?;
        if matches!(next.ty(), TokenType::Else) {
            self.consume()?;
            let next = self.peek()?;
            match next.ty() {
                TokenType::If => Ok(ElseExpr::ElseIf(Box::new(self.parse_if_expr()?))),
                TokenType::LBra => Ok(ElseExpr::Else(Box::new(self.parse_block_expr()?))),
                _ => Err(self.unknown_token("'if', '{'")),
            }
        } else if next.ty().ends_if() {
            Ok(ElseExpr::Nothing)
        } else {
            Err(self.unknown_token("'else', ')', ',', '{', 'as', <operator>, '=', '}', ';'"))
        }
    }

    /// Parses an unsafe block.
    pub fn parse_unsafe_expr(&mut self) -> (r: Result<UnsafeBlockASTNode, ParserError>)
        requires
            old(self).wf(),
        ensures
            final(self).follows(old(self)),
            match r {
                Ok(node) => grammar::unsafe_expr(old(self).state()) == Parsed::Done(
                    ExprView::UnsafeBlock(node@),
                    final(self).state(),
                ),
                Err(e) => grammar::unsafe_expr(old(self).state()) == Parsed::<ExprView>::Failed(e@),
            },
            r is Ok ==> final(self).left() < old(self).left(),
        decreases old(self).left(), 0nat, 0nat,
    {
        reveal(grammar::unsafe_expr);
        reveal(grammar::block);
        let start_pos = self.assert_token(TokenType::Unsafe, "'unsafe'")?.start();
        let block = self.parse_block_expr()?;
        let end_pos = block.span().end();
        let span = Span::new(start_pos, end_pos);
        Ok(UnsafeBlockASTNode::new(Box::new(block), span))
    }

    /// Parses a return expression, with the expression that follows `return` if one does.
    pub fn parse_return(&mut self) -> (r: Result<ReturnASTNode, ParserError>)
        requires
            old(self).wf(),
        ensures
            final(self).follows(old(self)),
            match r {
                Ok(node) => grammar::return_expr(old(self).state()) == Parsed::Done(
                    ExprView::Return(node@),
                    final(self).state(),
                ),
                Err(e) => grammar::return_expr(old(self).state()) == Parsed::<ExprView>::Failed(e@),
            },
            r is Ok ==> final(self).left() < old(self).left(),
        decreases old(self).left(), 0nat, 0nat,
    {
        reveal(grammar::return_expr);
        reveal(grammar::expr);
        let span = self.assert_token(TokenType::Return, "'return'")?;
        let next = self.peek()?;
        if next.ty().starts_expr() {
            let expr = self.parse_expr()?;
            let span = Span::new(span.start(), expr.span().end());
            Ok(ReturnASTNode::new(Box::new(expr), span))
        } else if next.ty().ends_return() {
            Ok(ReturnASTNode::empty(span))
        } else {
            Err(self.unknown_token("<expr>, ';'"))
        }
    }

    /// Parses the underscore expression.
    pub fn parse_underscore_expr(&mut self) -> (r: Result<UnderscoreASTNode, ParserError>)
        requires
            old(self).wf(),
        ensures
            final(self).follows(old(self)),
            match r {
                Ok(node) => grammar::take(old(self).state(), TokenTypeView::Underscore, "'_'"@)
                    == Parsed::Done(node@.span, final(self).state()),
                Err(e) => grammar::take(old(self).state(), TokenTypeView::Underscore, "'_'"@)
                    == Parsed::<Span>::Failed(e@),
            },
            r is Ok ==> final(self).left() < old(self).left(),
    {
        let span = self.assert_token(TokenType::Underscore, "'_'")?;
        Ok(UnderscoreASTNode::new(span))
    }
}

} // verus!
