//! No production yields more tokens than it was given, and none drops an error.
//!
//! The model of the grammar hands the outcome of a production on through
//! [`Parsed::within`] or [`Parsed::below`] wherever another production follows. The laws of
//! this module show that both are the identity on what the productions yield: every
//! production leaves at most the tokens that it was given, and fewer where it reads at
//! least one token.
//!
//! They also show that the recoverable errors only grow: every production leaves the
//! errors that were met before it in their places, and leaves the lexical error that ends
//! the tokens as it is.
//!
//! And they show that no production reads the end-of-file token: where the tokens end
//! in it, a production leaves it, or fails with an error that is no unexpected end of
//! file.

use vstd::prelude::*;

use crate::ast::expr::{span_of, ExprView, StmtView, TypeCastView};
use crate::ast::item::{ExternItemView, ItemView, ParamView};
use crate::lexer::{lemma_stream_ends_in_one_eof, Cursor};
use crate::parser::grammar::{
    binary, binary_node, binary_operator, binary_tail, block, call_params, cast, cast_tail,
    crate_root, else_expr, expr, expr_stmt, expr_with_block, foreign_block, foreign_func,
    foreign_items, func, func_params, func_proto, func_ret_ty, grouped_or_unit, if_expr,
    inf_loop, item, item_assignment, items, let_stmt, level_rank, literal, loop_expr,
    mutability, operand, param, path, path_or_call, primary, return_expr, static_item, stmts,
    take, take_ident, type_node, unary, unsafe_expr, while_loop, Parsed, State,
    COMPARISON_LEVEL,
};
use crate::parser::Parser;
use crate::token::span::{Position, Span};
use crate::token::TokenTypeView;

verus! {

/// Whether the outcome `p` leaves no more tokens than `before` had.
pub open spec fn leaves_no_more<T>(p: Parsed<T>, before: State) -> bool {
    p.within(before) == p
}

/// Whether the outcome `p` leaves fewer tokens than `before` had.
pub open spec fn leaves_fewer<T>(p: Parsed<T>, before: State) -> bool {
    p.below(before) == p
}

/// Whether the errors `after` are the errors `before`, in their places, with the errors
/// that were met since at their end.
pub open spec fn grown_from<E>(after: Seq<E>, before: Seq<E>) -> bool {
    &&& before.len() <= after.len()
    &&& forall|i: int| 0 <= i < before.len() ==> #[trigger] after[i] == before[i]
}

/// Whether the outcome `p` keeps the errors of the state `before`: the recoverable errors
/// that were met, in their places, and the lexical error that ends the tokens.
pub open spec fn keeps_errors<T>(p: Parsed<T>, before: State) -> bool {
    match p {
        Parsed::Done(_, after) => after.failure == before.failure && grown_from(
            after.errors,
            before.errors,
        ),
        Parsed::Failed(_) => true,
    }
}

/// Whether the tokens of the state `st` end as the tokens of a text do: unless a lexical
/// error ends them, the last of them is the end-of-file token, and no other is.
pub open spec fn ends_in_eof(st: State) -> bool {
    st.failure is None ==> {
        &&& st.tokens.len() > 0
        &&& st.tokens.last().is_eof()
        &&& forall|i: int| 0 <= i < st.tokens.len() - 1 ==> !(#[trigger] st.tokens[i]).is_eof()
    }
}

/// Whether the outcome `p` leaves the end-of-file token where it is: the tokens that it
/// leaves end as those of a text do, and if it is an error, it is no unexpected end of
/// file.
pub open spec fn keeps_eof<T>(p: Parsed<T>) -> bool {
    match p {
        Parsed::Done(_, after) => ends_in_eof(after),
        Parsed::Failed(e) => !(e is UnexpectedEOF),
    }
}

/// An outcome that leaves fewer tokens leaves no more tokens.
pub proof fn lemma_fewer_is_no_more<T>(p: Parsed<T>, before: State)
    requires
        leaves_fewer(p, before),
    ensures
        leaves_no_more(p, before),
{
}

/// `mut`, if it is there, reads at most one token, keeps the errors and does not read the
/// end-of-file token.
pub proof fn lemma_mutability_consumes(st: State)
    ensures
        leaves_no_more(mutability(st), st),
        keeps_errors(mutability(st), st),
        ends_in_eof(st) ==> keeps_eof(mutability(st)),
{
    reveal(mutability);
}

/// A type reads at least one token, keeps the errors and does not read the end-of-file
/// token.
pub proof fn lemma_type_node_consumes(st: State)
    ensures
        leaves_fewer(type_node(st), st),
        keeps_errors(type_node(st), st),
        ends_in_eof(st) ==> keeps_eof(type_node(st)),
{
    reveal(type_node);
}

/// A parameter reads at least one token, keeps the errors and does not read the end-of-file
/// token.
pub proof fn lemma_param_consumes(st: State)
    ensures
        leaves_fewer(param(st), st),
        keeps_errors(param(st), st),
        ends_in_eof(st) ==> keeps_eof(param(st)),
{
    reveal(param);
    lemma_mutability_consumes(st);
    match mutability(st) {
        Parsed::Done(_, st1) => {
            if st1.has_next() {
                match take(st1.advance(), TokenTypeView::Colon, "':'"@) {
                    Parsed::Done(_, st2) => {
                        lemma_type_node_consumes(st2);
                    },
                    Parsed::Failed(_) => {},
                }
            }
        },
        Parsed::Failed(_) => {},
    }
}

/// The parameters of a function leave no more tokens than they were given, keeps the errors
/// and does not read the end-of-file token.
pub proof fn lemma_func_params_consumes(st: State, acc: Seq<ParamView>)
    ensures
        leaves_no_more(func_params(st, acc), st),
        keeps_errors(func_params(st, acc), st),
        ends_in_eof(st) ==> keeps_eof(func_params(st, acc)),
    decreases st.tokens.len(),
{
    reveal(func_params);
    if st.has_next() && (st.kind() is Mut || st.kind() is Underscore || st.kind() is Ident) {
        lemma_param_consumes(st);
        match param(st).within(st) {
            Parsed::Done(p, st1) => {
                if st1.has_next() && st1.kind() is Comma {
                    lemma_func_params_consumes(st1.advance(), acc.push(p));
                }
            },
            Parsed::Failed(_) => {},
        }
    }
}

/// The return type of a function, if one is given, leaves no more tokens than it was given,
/// keeps the errors and does not read the end-of-file token.
pub proof fn lemma_func_ret_ty_consumes(st: State)
    ensures
        leaves_no_more(func_ret_ty(st), st),
        keeps_errors(func_ret_ty(st), st),
        ends_in_eof(st) ==> keeps_eof(func_ret_ty(st)),
{
    reveal(func_ret_ty);
    if st.has_next() {
        lemma_type_node_consumes(st.advance());
    }
}

/// The prototype of a function reads at least one token, keeps the errors and does not read
/// the end-of-file token.
pub proof fn lemma_func_proto_consumes(st: State)
    ensures
        leaves_fewer(func_proto(st), st),
        keeps_errors(func_proto(st), st),
        ends_in_eof(st) ==> keeps_eof(func_proto(st)),
{
    reveal(func_proto);
    match take(st, TokenTypeView::Fn, "'fn'"@) {
        Parsed::Done(_, st1) => match take_ident(st1, "<ident>"@) {
            Parsed::Done(_, st2) => match take(st2, TokenTypeView::LPar, "'('"@) {
                Parsed::Done(_, st3) => {
                    lemma_func_params_consumes(st3, Seq::empty());
                    match func_params(st3, Seq::empty()) {
                        Parsed::Done(_, st4) => match take(st4, TokenTypeView::RPar, "')'"@) {
                            Parsed::Done(_, st5) => {
                                lemma_func_ret_ty_consumes(st5);
                            },
                            Parsed::Failed(_) => {},
                        },
                        Parsed::Failed(_) => {},
                    }
                },
                Parsed::Failed(_) => {},
            },
            Parsed::Failed(_) => {},
        },
        Parsed::Failed(_) => {},
    }
}

/// A literal reads at least one token, keeps the errors and does not read the end-of-file
/// token.
pub proof fn lemma_literal_consumes(st: State)
    ensures
        leaves_fewer(literal(st), st),
        keeps_errors(literal(st), st),
        ends_in_eof(st) ==> keeps_eof(literal(st)),
{
    reveal(literal);
}

/// A path reads at least one token, keeps the errors and does not read the end-of-file
/// token.
pub proof fn lemma_path_consumes(st: State)
    ensures
        leaves_fewer(path(st), st),
        keeps_errors(path(st), st),
        ends_in_eof(st) ==> keeps_eof(path(st)),
{
    reveal(path);
}

/// An operand of a binary operator reads at least one token, keeps the errors and does not
/// read the end-of-file token.
pub proof fn lemma_operand_consumes(level: nat, st: State)
    requires
        1 <= level <= 9,
    ensures
        leaves_fewer(operand(level, st), st),
        keeps_errors(operand(level, st), st),
        ends_in_eof(st) ==> keeps_eof(operand(level, st)),
    decreases st.tokens.len(), level_rank(level), 1nat,
{
    reveal(operand);
    reveal(binary);
    reveal(cast);
    if level < 9 {
        lemma_binary_consumes(level + 1, st);
    } else {
        lemma_cast_consumes(st);
    }
}

/// An expression of any level reads at least one token, keeps the errors and does not read
/// the end-of-file token.
pub proof fn lemma_binary_consumes(level: nat, st: State)
    requires
        1 <= level <= 9,
    ensures
        leaves_fewer(binary(level, st), st),
        keeps_errors(binary(level, st), st),
        ends_in_eof(st) ==> keeps_eof(binary(level, st)),
    decreases st.tokens.len(), level_rank(level) + 1, 0nat,
{
    reveal(binary);
    reveal(operand);
    reveal(binary_tail);
    lemma_operand_consumes(level, st);
    match operand(level, st).within(st) {
        Parsed::Done(lhs, st1) => {
            lemma_binary_tail_consumes(level, lhs, st1);
        },
        Parsed::Failed(_) => {},
    }
}

/// What follows an operand leaves no more tokens than it was given, keeps the errors and
/// does not read the end-of-file token.
pub proof fn lemma_binary_tail_consumes(level: nat, lhs: ExprView, st: State)
    requires
        1 <= level <= 9,
    ensures
        leaves_no_more(binary_tail(level, lhs, st), st),
        keeps_errors(binary_tail(level, lhs, st), st),
        ends_in_eof(st) ==> keeps_eof(binary_tail(level, lhs, st)),
    decreases st.tokens.len(), 0nat, 0nat,
{
    reveal(binary_tail);
    reveal(operand);
    if st.has_next() && st.kind().operator_level() == Some(level) {
        lemma_operand_consumes(level, st.advance());
        match operand(level, st.advance()).within(st.advance()) {
            Parsed::Done(rhs, st1) => {
                let node = binary_node(binary_operator(st.kind()).unwrap(), lhs, rhs);
                if level != COMPARISON_LEVEL {
                    lemma_binary_tail_consumes(level, node, st1);
                }
            },
            Parsed::Failed(_) => {},
        }
    }
}

/// A cast expression reads at least one token, keeps the errors and does not read the end-
/// of-file token.
pub proof fn lemma_cast_consumes(st: State)
    ensures
        leaves_fewer(cast(st), st),
        keeps_errors(cast(st), st),
        ends_in_eof(st) ==> keeps_eof(cast(st)),
    decreases st.tokens.len(), 4nat, 0nat,
{
    reveal(cast);
    reveal(unary);
    reveal(cast_tail);
    lemma_unary_consumes(st);
    match unary(st).within(st) {
        Parsed::Done(lhs, st1) => {
            lemma_cast_tail_consumes(lhs, st1);
        },
        Parsed::Failed(_) => {},
    }
}

/// What follows the operand of a cast leaves no more tokens than it was given, keeps the
/// errors and does not read the end-of-file token.
pub proof fn lemma_cast_tail_consumes(lhs: ExprView, st: State)
    ensures
        leaves_no_more(cast_tail(lhs, st), st),
        keeps_errors(cast_tail(lhs, st), st),
        ends_in_eof(st) ==> keeps_eof(cast_tail(lhs, st)),
    decreases st.tokens.len(), 0nat, 0nat,
{
    reveal(cast_tail);
    if st.has_next() && st.kind() is As {
        lemma_type_node_consumes(st.advance());
        match type_node(st.advance()).within(st.advance()) {
            Parsed::Done(ty, st1) => {
                lemma_cast_tail_consumes(
                    ExprView::TypeCast(
                        TypeCastView {
                            value: Box::new(lhs),
                            ty,
                            span: Span { start: span_of(lhs).start, end: ty.span.end },
                        },
                    ),
                    st1,
                );
            },
            Parsed::Failed(_) => {},
        }
    }
}

/// A unary expression reads at least one token, keeps the errors and does not read the end-
/// of-file token.
pub proof fn lemma_unary_consumes(st: State)
    ensures
        leaves_fewer(unary(st), st),
        keeps_errors(unary(st), st),
        ends_in_eof(st) ==> keeps_eof(unary(st)),
    decreases st.tokens.len(), 3nat, 0nat,
{
    reveal(unary);
    reveal(primary);
    reveal(grouped_or_unit);
    reveal(expr_with_block);
    if st.has_next() {
        if st.kind() is Minus || st.kind() is Not {
            lemma_unary_consumes(st.advance());
        } else {
            lemma_primary_consumes(st);
            lemma_grouped_or_unit_consumes(st);
            lemma_expr_with_block_consumes(st);
        }
    }
}

/// A primary expression reads at least one token, keeps the errors and does not read the
/// end-of-file token.
pub proof fn lemma_primary_consumes(st: State)
    ensures
        leaves_fewer(primary(st), st),
        keeps_errors(primary(st), st),
        ends_in_eof(st) ==> keeps_eof(primary(st)),
    decreases st.tokens.len(), 1nat, 0nat,
{
    reveal(primary);
    reveal(path_or_call);
    reveal(grouped_or_unit);
    lemma_literal_consumes(st);
    lemma_path_or_call_consumes(st);
    lemma_grouped_or_unit_consumes(st);
}

/// A path or a call reads at least one token, keeps the errors and does not read the end-
/// of-file token.
pub proof fn lemma_path_or_call_consumes(st: State)
    ensures
        leaves_fewer(path_or_call(st), st),
        keeps_errors(path_or_call(st), st),
        ends_in_eof(st) ==> keeps_eof(path_or_call(st)),
    decreases st.tokens.len(), 0nat, 0nat,
{
    reveal(path_or_call);
    reveal(call_params);
    lemma_path_consumes(st);
    match path(st) {
        Parsed::Done(_, st1) => {
            if st1.has_next() && st1.kind() is LPar && st1.tokens.len() < st.tokens.len() {
                lemma_call_params_consumes(st1.advance(), Seq::empty());
            }
        },
        Parsed::Failed(_) => {},
    }
}

/// The arguments of a call leave no more tokens than they were given, keeps the errors and
/// does not read the end-of-file token.
pub proof fn lemma_call_params_consumes(st: State, acc: Seq<ExprView>)
    ensures
        leaves_no_more(call_params(st, acc), st),
        keeps_errors(call_params(st, acc), st),
        ends_in_eof(st) ==> keeps_eof(call_params(st, acc)),
    decreases st.tokens.len(), 16nat, 0nat,
{
    reveal(call_params);
    reveal(expr);
    if st.has_next() && !(st.kind() is RPar) && st.kind().starts_expr() {
        lemma_expr_consumes(st);
        match expr(st).within(st) {
            Parsed::Done(arg, st1) => {
                if st1.has_next() && st1.kind() is Comma {
                    lemma_call_params_consumes(st1.advance(), acc.push(arg));
                }
            },
            Parsed::Failed(_) => {},
        }
    }
}

/// An expression in parentheses, or the unit literal, reads at least one token, keeps the
/// errors and does not read the end-of-file token.
pub proof fn lemma_grouped_or_unit_consumes(st: State)
    ensures
        leaves_fewer(grouped_or_unit(st), st),
        keeps_errors(grouped_or_unit(st), st),
        ends_in_eof(st) ==> keeps_eof(grouped_or_unit(st)),
    decreases st.tokens.len(), 0nat, 0nat,
{
    reveal(grouped_or_unit);
    reveal(expr);
    match take(st, TokenTypeView::LPar, "'('"@) {
        Parsed::Done(_, st1) => {
            if st1.has_next() && !(st1.kind() is RPar) {
                lemma_expr_consumes(st1);
            }
        },
        Parsed::Failed(_) => {},
    }
}

/// An expression that ends with a block reads at least one token, keeps the errors and does
/// not read the end-of-file token.
pub proof fn lemma_expr_with_block_consumes(st: State)
    ensures
        leaves_fewer(expr_with_block(st), st),
        keeps_errors(expr_with_block(st), st),
        ends_in_eof(st) ==> keeps_eof(expr_with_block(st)),
    decreases st.tokens.len(), 2nat, 0nat,
{
    reveal(expr_with_block);
    reveal(block);
    reveal(loop_expr);
    reveal(if_expr);
    reveal(unsafe_expr);
    lemma_block_consumes(st);
    lemma_loop_expr_consumes(st);
    lemma_if_expr_consumes(st);
    lemma_unsafe_expr_consumes(st);
}

/// A loop reads at least one token, keeps the errors and does not read the end-of-file
/// token.
pub proof fn lemma_loop_expr_consumes(st: State)
    ensures
        leaves_fewer(loop_expr(st), st),
        keeps_errors(loop_expr(st), st),
        ends_in_eof(st) ==> keeps_eof(loop_expr(st)),
    decreases st.tokens.len(), 1nat, 0nat,
{
    reveal(loop_expr);
    reveal(inf_loop);
    reveal(while_loop);
    lemma_inf_loop_consumes(st);
    lemma_while_loop_consumes(st);
}

/// An infinite loop reads at least one token, keeps the errors and does not read the end-
/// of-file token.
pub proof fn lemma_inf_loop_consumes(st: State)
    ensures
        leaves_fewer(inf_loop(st), st),
        keeps_errors(inf_loop(st), st),
        ends_in_eof(st) ==> keeps_eof(inf_loop(st)),
    decreases st.tokens.len(), 0nat, 0nat,
{
    reveal(inf_loop);
    reveal(block);
    match take(st, TokenTypeView::Loop, "'loop'"@) {
        Parsed::Done(_, st1) => {
            lemma_block_consumes(st1);
        },
        Parsed::Failed(_) => {},
    }
}

/// A while loop reads at least one token, keeps the errors and does not read the end-of-
/// file token.
pub proof fn lemma_while_loop_consumes(st: State)
    ensures
        leaves_fewer(while_loop(st), st),
        keeps_errors(while_loop(st), st),
        ends_in_eof(st) ==> keeps_eof(while_loop(st)),
    decreases st.tokens.len(), 0nat, 0nat,
{
    reveal(while_loop);
    reveal(expr);
    reveal(block);
    match take(st, TokenTypeView::While, "'while'"@) {
        Parsed::Done(_, st1) => {
            lemma_expr_consumes(st1);
            match expr(st1).within(st1) {
                Parsed::Done(_, st2) => {
                    lemma_block_consumes(st2);
                },
                Parsed::Failed(_) => {},
            }
        },
        Parsed::Failed(_) => {},
    }
}

/// An if expression reads at least one token, keeps the errors and does not read the end-
/// of-file token.
pub proof fn lemma_if_expr_consumes(st: State)
    ensures
        leaves_fewer(if_expr(st), st),
        keeps_errors(if_expr(st), st),
        ends_in_eof(st) ==> keeps_eof(if_expr(st)),
    decreases st.tokens.len(), 0nat, 0nat,
{
    reveal(if_expr);
    reveal(expr);
    reveal(block);
    reveal(else_expr);
    match take(st, TokenTypeView::If, "'if'"@) {
        Parsed::Done(_, st1) => {
            lemma_expr_consumes(st1);
            match expr(st1).within(st1) {
                Parsed::Done(_, st2) => {
                    lemma_block_consumes(st2);
                    match block(st2).within(st2) {
                        Parsed::Done(_, st3) => {
                            lemma_else_expr_consumes(st3);
                        },
                        Parsed::Failed(_) => {},
                    }
                },
                Parsed::Failed(_) => {},
            }
        },
        Parsed::Failed(_) => {},
    }
}

/// What follows the block of an if expression leaves no more tokens than it was given,
/// keeps the errors and does not read the end-of-file token.
pub proof fn lemma_else_expr_consumes(st: State)
    ensures
        leaves_no_more(else_expr(st), st),
        keeps_errors(else_expr(st), st),
        ends_in_eof(st) ==> keeps_eof(else_expr(st)),
    decreases st.tokens.len(), 0nat, 0nat,
{
    reveal(else_expr);
    reveal(if_expr);
    reveal(block);
    if st.has_next() && st.kind() is Else {
        lemma_if_expr_consumes(st.advance());
        lemma_block_consumes(st.advance());
    }
}

/// An unsafe block reads at least one token, keeps the errors and does not read the end-of-
/// file token.
pub proof fn lemma_unsafe_expr_consumes(st: State)
    ensures
        leaves_fewer(unsafe_expr(st), st),
        keeps_errors(unsafe_expr(st), st),
        ends_in_eof(st) ==> keeps_eof(unsafe_expr(st)),
    decreases st.tokens.len(), 0nat, 0nat,
{
    reveal(unsafe_expr);
    reveal(block);
    match take(st, TokenTypeView::Unsafe, "'unsafe'"@) {
        Parsed::Done(_, st1) => {
            lemma_block_consumes(st1);
        },
        Parsed::Failed(_) => {},
    }
}

/// A return expression reads at least one token, keeps the errors and does not read the
/// end-of-file token.
pub proof fn lemma_return_expr_consumes(st: State)
    ensures
        leaves_fewer(return_expr(st), st),
        keeps_errors(return_expr(st), st),
        ends_in_eof(st) ==> keeps_eof(return_expr(st)),
    decreases st.tokens.len(), 0nat, 0nat,
{
    reveal(return_expr);
    reveal(expr);
    match take(st, TokenTypeView::Return, "'return'"@) {
        Parsed::Done(_, st1) => {
            if st1.has_next() && st1.kind().starts_expr() {
                lemma_expr_consumes(st1);
            }
        },
        Parsed::Failed(_) => {},
    }
}

/// An expression reads at least one token, keeps the errors and does not read the end-of-
/// file token.
pub proof fn lemma_expr_consumes(st: State)
    ensures
        leaves_fewer(expr(st), st),
        keeps_errors(expr(st), st),
        ends_in_eof(st) ==> keeps_eof(expr(st)),
    decreases st.tokens.len(), 15nat, 0nat,
{
    reveal(expr);
    reveal(binary);
    reveal(return_expr);
    if st.has_next() {
        if st.kind().starts_operator_expr() {
            lemma_binary_consumes(1, st);
        } else if st.kind() is Return {
            lemma_return_expr_consumes(st);
        }
    }
}

/// An initializer, if one is given, leaves no more tokens than it was given, keeps the
/// errors and does not read the end-of-file token.
pub proof fn lemma_item_assignment_consumes(st: State)
    ensures
        leaves_no_more(item_assignment(st), st),
        keeps_errors(item_assignment(st), st),
        ends_in_eof(st) ==> keeps_eof(item_assignment(st)),
    decreases st.tokens.len(), 0nat, 0nat,
{
    reveal(item_assignment);
    reveal(expr);
    if st.has_next() && st.kind() is Assign {
        lemma_expr_consumes(st.advance());
    }
}

/// A let statement reads at least one token, keeps the errors and does not read the end-of-
/// file token.
pub proof fn lemma_let_stmt_consumes(st: State)
    ensures
        leaves_fewer(let_stmt(st), st),
        keeps_errors(let_stmt(st), st),
        ends_in_eof(st) ==> keeps_eof(let_stmt(st)),
    decreases st.tokens.len(), 0nat, 0nat,
{
    reveal(let_stmt);
    reveal(item_assignment);
    match take(st, TokenTypeView::Let, "'let'"@) {
        Parsed::Done(_, st1) => {
            lemma_mutability_consumes(st1);
            match mutability(st1).within(st1) {
                Parsed::Done(_, st2) => match take_ident(st2, "<pattern>"@).within(st2) {
                    Parsed::Done(_, st3) => match take(st3, TokenTypeView::Colon, "':'"@).within(st3) {
                        Parsed::Done(_, st4) => {
                            lemma_type_node_consumes(st4);
                            match type_node(st4).within(st4) {
                                Parsed::Done(_, st5) => {
                                    lemma_item_assignment_consumes(st5);
                                },
                                Parsed::Failed(_) => {},
                            }
                        },
                        Parsed::Failed(_) => {},
                    },
                    Parsed::Failed(_) => {},
                },
                Parsed::Failed(_) => {},
            }
        },
        Parsed::Failed(_) => {},
    }
}

/// An expression statement reads at least one token, keeps the errors and does not read the
/// end-of-file token.
pub proof fn lemma_expr_stmt_consumes(st: State)
    ensures
        leaves_fewer(expr_stmt(st), st),
        keeps_errors(expr_stmt(st), st),
        ends_in_eof(st) ==> keeps_eof(expr_stmt(st)),
    decreases st.tokens.len(), 16nat, 0nat,
{
    reveal(expr_stmt);
    reveal(expr);
    lemma_expr_consumes(st);
}

/// The statements of a block leave no more tokens than they were given, keeps the errors
/// and does not read the end-of-file token.
pub proof fn lemma_stmts_consumes(st: State, acc: Seq<StmtView>)
    ensures
        leaves_no_more(stmts(st, acc), st),
        keeps_errors(stmts(st, acc), st),
        ends_in_eof(st) ==> keeps_eof(stmts(st, acc)),
    decreases st.tokens.len(), 17nat, 0nat,
{
    reveal(stmts);
    reveal(let_stmt);
    reveal(expr_stmt);
    if st.has_next() {
        if st.kind() is Let {
            lemma_let_stmt_consumes(st);
            match let_stmt(st).below(st) {
                Parsed::Done(node, st1) => {
                    lemma_stmts_consumes(st1, acc.push(StmtView::Let(node)));
                },
                Parsed::Failed(_) => {},
            }
        } else if st.kind() is Semi {
            lemma_stmts_consumes(st.advance(), acc);
        } else if !(st.kind() is RBra) {
            lemma_expr_stmt_consumes(st);
            match expr_stmt(st).below(st) {
                Parsed::Done((node, is_last), st1) => {
                    if !is_last {
                        lemma_stmts_consumes(st1, acc.push(StmtView::Expr(node)));
                    }
                },
                Parsed::Failed(_) => {},
            }
        }
    }
}

/// A block reads at least one token, keeps the errors and does not read the end-of-file
/// token.
pub proof fn lemma_block_consumes(st: State)
    ensures
        leaves_fewer(block(st), st),
        keeps_errors(block(st), st),
        ends_in_eof(st) ==> keeps_eof(block(st)),
    decreases st.tokens.len(), 0nat, 0nat,
{
    reveal(block);
    reveal(stmts);
    match take(st, TokenTypeView::LBra, "'{'"@) {
        Parsed::Done(_, st1) => {
            lemma_stmts_consumes(st1, Seq::empty());
        },
        Parsed::Failed(_) => {},
    }
}

/// A function reads at least one token, keeps the errors and does not read the end-of-file
/// token.
pub proof fn lemma_func_consumes(st: State)
    ensures
        leaves_fewer(func(st), st),
        keeps_errors(func(st), st),
        ends_in_eof(st) ==> keeps_eof(func(st)),
{
    reveal(func);
    lemma_func_proto_consumes(st);
    match func_proto(st) {
        Parsed::Done(_, st1) => {
            lemma_block_consumes(st1);
        },
        Parsed::Failed(_) => {},
    }
}

/// A static item reads at least one token, keeps the errors and does not read the end-of-
/// file token.
pub proof fn lemma_static_item_consumes(st: State, is_foreign: bool)
    ensures
        leaves_fewer(static_item(st, is_foreign), st),
        keeps_errors(static_item(st, is_foreign), st),
        ends_in_eof(st) ==> keeps_eof(static_item(st, is_foreign)),
{
    reveal(static_item);
    match take(st, TokenTypeView::Static, "'static'"@) {
        Parsed::Done(_, st1) => {
            lemma_mutability_consumes(st1);
            match mutability(st1) {
                Parsed::Done(_, st2) => match take_ident(st2, "'_', 'mut', <ident>"@) {
                    Parsed::Done(_, st3) => match take(st3, TokenTypeView::Colon, "':'"@) {
                        Parsed::Done(_, st4) => {
                            lemma_type_node_consumes(st4);
                            match type_node(st4) {
                                Parsed::Done(_, st5) => {
                                    lemma_item_assignment_consumes(st5);
                                },
                                Parsed::Failed(_) => {},
                            }
                        },
                        Parsed::Failed(_) => {},
                    },
                    Parsed::Failed(_) => {},
                },
                Parsed::Failed(_) => {},
            }
        },
        Parsed::Failed(_) => {},
    }
}

/// The declaration of a foreign function reads at least one token, keeps the errors and
/// does not read the end-of-file token.
pub proof fn lemma_foreign_func_consumes(st: State)
    ensures
        leaves_fewer(foreign_func(st), st),
        keeps_errors(foreign_func(st), st),
        ends_in_eof(st) ==> keeps_eof(foreign_func(st)),
{
    reveal(foreign_func);
    lemma_func_proto_consumes(st);
    match func_proto(st) {
        Parsed::Done(_, st1) => {
            lemma_block_consumes(st1);
        },
        Parsed::Failed(_) => {},
    }
}

/// The items of a block of foreign items leave no more tokens than they were given, keeps
/// the errors and does not read the end-of-file token.
pub proof fn lemma_foreign_items_consumes(st: State, acc: Seq<ExternItemView>)
    ensures
        leaves_no_more(foreign_items(st, acc), st),
        keeps_errors(foreign_items(st, acc), st),
        ends_in_eof(st) ==> keeps_eof(foreign_items(st, acc)),
    decreases st.tokens.len(),
{
    reveal(foreign_items);
    if st.has_next() {
        if st.kind() is Fn {
            lemma_foreign_func_consumes(st);
            match foreign_func(st).below(st) {
                Parsed::Done(proto, st1) => {
                    lemma_foreign_items_consumes(st1, acc.push(ExternItemView::Func(proto)));
                },
                Parsed::Failed(_) => {},
            }
        } else if st.kind() is Static {
            lemma_static_item_consumes(st, true);
            match static_item(st, true).below(st) {
                Parsed::Done(node, st1) => {
                    lemma_foreign_items_consumes(st1, acc.push(ExternItemView::Static(node)));
                },
                Parsed::Failed(_) => {},
            }
        }
    }
}

/// A block of foreign items reads at least one token, keeps the errors and does not read
/// the end-of-file token.
pub proof fn lemma_foreign_block_consumes(st: State)
    ensures
        leaves_fewer(foreign_block(st), st),
        keeps_errors(foreign_block(st), st),
        ends_in_eof(st) ==> keeps_eof(foreign_block(st)),
{
    reveal(foreign_block);
    match take(st, TokenTypeView::Extern, "'extern'"@) {
        Parsed::Done(_, st1) => {
            if st1.has_next() {
                match st1.kind() {
                    TokenTypeView::Abi(abi) => {
                        let st2 = if abi == "C"@ {
                            st1.advance()
                        } else {
                            st1.advance().log(
                                crate::parser::error::RecoverableParserErrorView::UnsupportedAbi(abi),
                            )
                        };
                        match take(st2, TokenTypeView::LBra, "'{'"@) {
                            Parsed::Done(_, st3) => {
                                lemma_foreign_items_consumes(st3, Seq::empty());
                            },
                            Parsed::Failed(_) => {},
                        }
                    },
                    _ => {},
                }
            }
        },
        Parsed::Failed(_) => {},
    }
}

/// An item reads at least one token, keeps the errors and does not read the end-of-file
/// token.
pub proof fn lemma_item_consumes(st: State)
    ensures
        leaves_fewer(item(st), st),
        keeps_errors(item(st), st),
        ends_in_eof(st) ==> keeps_eof(item(st)),
{
    reveal(item);
    lemma_func_consumes(st);
    lemma_static_item_consumes(st, false);
    lemma_foreign_block_consumes(st);
}

/// The items of a source file leave no more tokens than they were given, keeps the errors
/// and does not read the end-of-file token.
pub proof fn lemma_items_consumes(st: State, acc: Seq<ItemView>)
    ensures
        leaves_no_more(items(st, acc), st),
        keeps_errors(items(st, acc), st),
        ends_in_eof(st) ==> keeps_eof(items(st, acc)),
    decreases st.tokens.len(),
{
    reveal(items);
    if st.has_next() && (st.kind() is Fn || st.kind() is Static || st.kind() is Extern) {
        lemma_item_consumes(st);
        match item(st).below(st) {
            Parsed::Done(node, st1) => {
                lemma_items_consumes(st1, acc.push(node));
            },
            Parsed::Failed(_) => {},
        }
    }
}

/// The parse of a text never ends in an unexpected end of file: the tokens of a text end
/// in the end-of-file token unless a lexical error ends them, and no production reads
/// that token, so that a parse which needs another token always finds one, or the lexical
/// error.
pub proof fn lemma_parse_finds_the_end(source: Seq<char>, name: Seq<char>)
    ensures
        match crate_root(Parser::initial_state(source), name) {
            Ok(_) => true,
            Err(e) => !(e is UnexpectedEOF),
        },
{
    let st = Parser::initial_state(source);
    lemma_stream_ends_in_one_eof(
        source,
        Cursor { index: 0, position: Position { line: 1, column: 1 } },
    );
    assert(ends_in_eof(st));
    lemma_items_consumes(st, Seq::empty());
}

} // verus!
