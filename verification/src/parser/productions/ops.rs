//! The productions of operator expressions.
//!
//! The binary operators have nine levels of precedence. One function reads the operators
//! of any one level: it reads an operand of the next level and then, in a loop, every
//! operator of its own level with another operand, so that operators of one level
//! associate to the left.

use vstd::prelude::*;

use crate::ast::expr::{
    span_of, Expr, ExprView, NegExprASTNode, NegExprView, NegOperator, TypeCastASTNode,
};
use crate::parser::error::ParserError;
use crate::parser::grammar;
use crate::parser::grammar::{level_rank, Parsed, COMPARISON_LEVEL, LAST_BINARY_LEVEL};
use crate::parser::Parser;
use crate::parser::productions::{agrees, describe_after_operand, make_binary};
use crate::token::span::{Position, Span};
use crate::token::TokenType;

verus! {

impl Parser {
    /// Parses an operator expression: an expression of the first level.
    pub fn parse_ops(&mut self) -> (r: Result<Expr, ParserError>)
        requires
            old(self).wf(),
        ensures
            final(self).follows(old(self)),
            agrees(r, grammar::binary(1, old(self).state()), final(self).state()),
            r is Ok ==> final(self).left() < old(self).left(),
        decreases old(self).left(), 14nat, 1nat,
    {
        self.parse_binary(1)
    }

    /// Parses the operand of a binary operator of the level `level`.
    pub fn parse_operand(&mut self, level: u8) -> (r: Result<Expr, ParserError>)
        requires
            old(self).wf(),
            1 <= level <= 9,
        ensures
            final(self).follows(old(self)),
            agrees(r, grammar::operand(level as nat, old(self).state()), final(self).state()),
            r is Ok ==> final(self).left() < old(self).left(),
        decreases old(self).left(), level_rank(level as nat), 1nat,
    {
        reveal(grammar::operand);
        reveal(grammar::binary);
        reveal(grammar::cast);
        if level < LAST_BINARY_LEVEL {
            self.parse_binary(level + 1)
        } else {
            self.parse_cast()
        }
    }

    /// Parses an expression of the level `level`: an operand and the binary operators of
    /// that level that follow it, each with its operand.
    pub fn parse_binary(&mut self, level: u8) -> (r: Result<Expr, ParserError>)
        requires
            old(self).wf(),
            1 <= level <= 9,
        ensures
            final(self).follows(old(self)),
            agrees(r, grammar::binary(level as nat, old(self).state()), final(self).state()),
            r is Ok ==> final(self).left() < old(self).left(),
        decreases old(self).left(), level_rank(level as nat) + 1, 0nat,
    {
        reveal(grammar::binary);
        reveal(grammar::operand);
        reveal(grammar::binary_tail);
        let mut lhs = self.parse_operand(level)?;
        loop
            invariant
                self.follows(old(self)),
                1 <= level <= 9,
                self.left() < old(self).left(),
                grammar::binary_tail(level as nat, lhs@, self.state()) == grammar::binary(
                    level as nat,
                    old(self).state(),
                ),
            decreases self.left(),
        {
            reveal(grammar::binary_tail);
            reveal(grammar::operand);
            let next = self.peek()?;
            match next.ty().binary_operator() {
                Some(op) if next.ty().operator_level() == Some(level) => {
                    self.consume()?;
                    let rhs = self.parse_operand(level)?;
                    lhs = make_binary(op, lhs, rhs);
                    if level == COMPARISON_LEVEL {
                        let next = self.peek()?;
                        if next.ty().ends_level(level) {
                            return Ok(lhs);
                        } else {
                            return Err(self.unknown_token(describe_after_operand(level)));
                        }
                    }
                },
                _ => {
                    if next.ty().ends_level(level) {
                        return Ok(lhs);
                    } else {
                        return Err(self.unknown_token(describe_after_operand(level)));
                    }
                },
            }
        }
    }

    /// Parses a cast expression: a unary expression and every `as` with its type that
    /// follows it.
    pub fn parse_cast(&mut self) -> (r: Result<Expr, ParserError>)
        requires
            old(self).wf(),
        ensures
            final(self).follows(old(self)),
            agrees(r, grammar::cast(old(self).state()), final(self).state()),
            r is Ok ==> final(self).left() < old(self).left(),
        decreases old(self).left(), 4nat, 0nat,
    {
        reveal(grammar::cast);
        reveal(grammar::unary);
        reveal(grammar::cast_tail);
        let mut lhs = self.parse_unary()?;
        loop
            invariant
                self.follows(old(self)),
                self.left() < old(self).left(),
                grammar::cast_tail(lhs@, self.state()) == grammar::cast(old(self).state()),
            decreases self.left(),
        {
            reveal(grammar::cast_tail);
            let next = self.peek()?;
            if matches!(next.ty(), TokenType::As) {
                self.consume()?;
                let ty = self.parse_type()?;
                let span = Span::new(lhs.span().start(), ty.span().end());
                lhs = Expr::TypeCast(TypeCastASTNode::new(Box::new(lhs), ty, span));
            } else if next.ty().ends_level(10) {
                return Ok(lhs);
            } else {
                return Err(self.unknown_token("<operator>, '=', '{', '(', ',', '}', ';', 'as'"));
            }
        }
    }

    /// Parses a unary expression.
    pub fn parse_unary(&mut self) -> (r: Result<Expr, ParserError>)
        requires
            old(self).wf(),
        ensures
            final(self).follows(old(self)),
            agrees(r, grammar::unary(old(self).state()), final(self).state()),
            r is Ok ==> final(self).left() < old(self).left(),
        decreases old(self).left(), 3nat, 0nat,
    {
        reveal(grammar::unary);
        reveal(grammar::primary);
        reveal(grammar::grouped_or_unit);
        reveal(grammar::expr_with_block);
        let next = self.peek()?;
        match next.ty() {
            TokenType::Minus => {
                let start_pos = self.consume()?.span().start();
                self.parse_negation(NegOperator::Neg, start_pos)
            },
            TokenType::Not => {
                let start_pos = self.consume()?.span().start();
                self.parse_negation(NegOperator::Not, start_pos)
            },
            TokenType::IntLit(_) | TokenType::FloatLit(_) | TokenType::BoolLit(_) | TokenType::RPar
            | TokenType::Underscore | TokenType::Ident(_) => self.parse_expr_wo_block_(),
            TokenType::LPar => self.parse_grouped_expr_or_unit_lit(),
            TokenType::LBra | TokenType::If | TokenType::Unsafe | TokenType::Loop
            | TokenType::While => self.parse_expr_w_block(),
            _ => Err(self.unknown_token("'!', '-', <expr>")),
        }
    }

    /// Parses the operand of the negation operator `op`, which started at `start_pos`,
    /// and returns the negation.
    pub fn parse_negation(&mut self, op: NegOperator, start_pos: Position) -> (r: Result<
        Expr,
        ParserError,
    >)
        requires
            old(self).wf(),
        ensures
            final(self).follows(old(self)),
            match r {
                Ok(node) => match grammar::unary(old(self).state()) {
                    Parsed::Done(expr, after) => after == final(self).state() && node@
                        == ExprView::Neg(
                        NegExprView {
                            operator: op,
                            expr: Box::new(expr),
                            span: Span { start: start_pos, end: span_of(expr).end },
                        },
                    ),
                    Parsed::Failed(_) => false,
                },
                Err(e) => grammar::unary(old(self).state()) == Parsed::<ExprView>::Failed(e@),
            },
            r is Ok ==> final(self).left() < old(self).left(),
        decreases old(self).left(), 4nat, 0nat,
    {
        let expr = self.parse_unary()?;
        let span = Span::new(start_pos, expr.span().end());
        Ok(Expr::Neg(NegExprASTNode::new(op, Box::new(expr), span)))
    }
}

} // verus!
