//! The productions of statements and blocks.

use vstd::prelude::*;

use crate::ast::expr::{
    lemma_views_push, views, BlockASTNode, Expr, ExprStmtASTNode, ExprStmtView, ExprView,
    LetASTNode, PathASTNode, Stmt, StmtView,
};
use crate::parser::error::{ParserError, RecoverableParserError};
use crate::parser::grammar;
use crate::parser::grammar::Parsed;
use crate::parser::Parser;
use crate::parser::productions::{agrees, opt_view};
use crate::token::span::Span;
use crate::token::TokenType;

verus! {

impl Parser {
    /// Parses the initializer of a static item or of a let statement, if one is given.
    pub fn parse_item_assignment(&mut self) -> (r: Result<Option<Box<Expr>>, ParserError>)
        requires
            old(self).wf(),
        ensures
            final(self).follows(old(self)),
            match r {
                Ok(v) => grammar::item_assignment(old(self).state()) == Parsed::Done(
                    opt_view(v),
                    final(self).state(),
                ),
                Err(e) => grammar::item_assignment(old(self).state()) == Parsed::<
                    Option<ExprView>,
                >::Failed(e@),
            },
            r is Ok ==> final(self).left() <= old(self).left(),
        decreases old(self).left(), 0nat, 0nat,
    {
        reveal(grammar::item_assignment);
        reveal(grammar::expr);
        let next = self.peek()?;
        match next.ty() {
            TokenType::Assign => {
                self.consume()?;
                let expr = self.parse_expr()?;
                Ok(Some(Box::new(expr)))
            },
            TokenType::Semi | TokenType::EOF => Ok(None),
            _ => Err(self.unknown_token("'=', ';'")),
        }
    }

    /// Parses a let statement. A missing semicolon is logged, and the statement ends where
    /// its last part ends; the token that stands in the place of the semicolon, which may
    /// be the end-of-file token, is left.
    pub fn parse_let_stmt(&mut self) -> (r: Result<LetASTNode, ParserError>)
        requires
            old(self).wf(),
        ensures
            final(self).follows(old(self)),
            agrees(r, grammar::let_stmt(old(self).state()), final(self).state()),
            r is Ok ==> final(self).left() < old(self).left(),
        decreases old(self).left(), 0nat, 0nat,
    {
        reveal(grammar::let_stmt);
        reveal(grammar::item_assignment);
        let start_pos = self.assert_token(TokenType::Let, "'let'")?.start();
        let mutability = self.parse_mut()?;
        let ident = self.assert_ident("<pattern>")?;
        self.assert_token(TokenType::Colon, "':'")?;
        let ty = self.parse_type()?;
        let val = self.parse_item_assignment()?;
        let end_pos = match &val {
            Some(val) => val.span().end(),
            None => ty.span().end(),
        };
        let end_pos = match self.expect_token(TokenType::Semi)? {
            Some(span) => span.end(),
            None => {
                self.push_rcv_error(RecoverableParserError::MissingToken(TokenType::Semi, end_pos));
                end_pos
            },
        };
        let span = Span::new(start_pos, end_pos);
        let assignee = Box::new(Expr::Path(PathASTNode::new(ident, span)));
        let let_stmt = match val {
            Some(val) => LetASTNode::new_with_assignment(assignee, ty, val, mutability, span),
            None => LetASTNode::new(assignee, ty, mutability, span),
        };
        Ok(let_stmt)
    }

    /// Returns the expression statement and whether it had no trailing semicolon.
    pub fn parse_expr_stmt(&mut self) -> (r: Result<(ExprStmtASTNode, bool), ParserError>)
        requires
            old(self).wf(),
        ensures
            final(self).follows(old(self)),
            match r {
                Ok((node, is_last)) => grammar::expr_stmt(old(self).state()) == Parsed::Done(
                    (node@, is_last),
                    final(self).state(),
                ),
                Err(e) => grammar::expr_stmt(old(self).state()) == Parsed::<
                    (ExprStmtView, bool),
                >::Failed(e@),
            },
            r is Ok ==> final(self).left() < old(self).left(),
        decreases old(self).left(), 16nat, 0nat,
    {
        reveal(grammar::expr_stmt);
        reveal(grammar::expr);
        let expr = self.parse_expr_wo_block()?;
        let semi = self.expect_token(TokenType::Semi)?;
        let end_pos = match semi {
            Some(span) => span.end(),
            None => expr.span().end(),
        };
        let span = Span::new(expr.span().start(), end_pos);
        let expr_stmt = ExprStmtASTNode::new(Box::new(expr), span);
        Ok((expr_stmt, semi.is_none()))
    }

    /// Parses a block: statements between braces.
    pub fn parse_block_expr(&mut self) -> (r: Result<BlockASTNode, ParserError>)
        requires
            old(self).wf(),
        ensures
            final(self).follows(old(self)),
            agrees(r, grammar::block(old(self).state()), final(self).state()),
            r is Ok ==> final(self).left() < old(self).left(),
        decreases old(self).left(), 0nat, 0nat,
    {
        reveal(grammar::block);
        reveal(grammar::stmts);
        let start_pos = self.assert_token(TokenType::LBra, "'{'")?.start();
        let (stmts, return_expr) = self.parse_stmts()?;
        let end_pos = self.assert_token(TokenType::RBra, "'}'")?.end();
        let span = Span::new(start_pos, end_pos);
        Ok(
            match return_expr {
                Some(return_expr) => BlockASTNode::new_with_return(stmts, return_expr, span),
                None => BlockASTNode::new(stmts, span),
            },
        )
    }

    /// Parses the statements of a block, up to the closing brace, which it leaves, and
    /// returns them with the final expression of the block, if it has one: the expression
    /// of a statement that has no semicolon.
    pub fn parse_stmts(&mut self) -> (r: Result<(Vec<Stmt>, Option<Box<Expr>>), ParserError>)
        requires
            old(self).wf(),
        ensures
            final(self).follows(old(self)),
            match r {
                Ok((statements, return_expr)) => grammar::stmts(old(self).state(), Seq::empty())
                    == Parsed::Done((views(statements@), opt_view(return_expr)), final(self).state()),
                Err(e) => grammar::stmts(old(self).state(), Seq::empty()) == Parsed::<
                    (Seq<StmtView>, Option<ExprView>),
                >::Failed(e@),
            },
            r is Ok ==> final(self).left() <= old(self).left(),
        decreases old(self).left(), 17nat, 0nat,
    {
        let mut statements: Vec<Stmt> = Vec::new();
        assert(views(statements@) =~= Seq::<StmtView>::empty());
        loop
            invariant
                self.follows(old(self)),
                self.left() <= old(self).left(),
                grammar::stmts(self.state(), views(statements@)) == grammar::stmts(
                    old(self).state(),
                    Seq::empty(),
                ),
            decreases self.left(),
        {
            reveal(grammar::stmts);
            reveal(grammar::let_stmt);
            reveal(grammar::expr_stmt);
            let next = self.peek()?;
            match next.ty() {
                TokenType::Let => {
                    let stmt = Stmt::Let(self.parse_let_stmt()?);
                    proof {
                        lemma_views_push(statements@, stmt);
                    }
                    statements.push(stmt);
                },
                TokenType::Semi => {
                    self.consume()?;
                },
                TokenType::RBra => {
                    return Ok((statements, None));
                },
                _ => {
                    let (expr_stmt, is_last) = self.parse_expr_stmt()?;
                    if is_last {
                        let return_expr = Some(expr_stmt.into_expr());
                        return Ok((statements, return_expr));
                    } else {
                        let stmt = Stmt::Expr(expr_stmt);
                        proof {
                            lemma_views_push(statements@, stmt);
                        }
                        statements.push(stmt);
                    }
                },
            }
        }
    }
}

} // verus!
