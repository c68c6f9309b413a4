//! What holds of every expression that the grammar reads: how tightly the operators bind
//! and to which side they associate.

use vstd::prelude::*;

use crate::ast::expr::{span_of, ArithOperator, ExprView, LazyBoolOperator, LetView, PathView};
use crate::ast::types::TypeASTMetaNode;
use crate::parser::consumption::{
    lemma_item_assignment_consumes, lemma_mutability_consumes, lemma_operand_consumes,
    lemma_type_node_consumes,
};
use crate::parser::error::RecoverableParserErrorView;
use crate::token::span::{Position, Span};
use crate::token::TokenTypeView;
use crate::parser::grammar::{
    binary, binary_node, binary_operator, binary_tail, cast, cast_tail, expr_with_block,
    grouped_or_unit, inf_loop, item_assignment, let_stmt, literal, loop_expr, mutability,
    operand, path_or_call, primary, take, take_ident, type_node, unary, unsafe_expr, while_loop,
    Parsed, State, COMPARISON_LEVEL,
};

verus! {

/// The level of the operator at the root of an expression: 1 to 9 for the binary
/// operators, from assignment, which binds loosest, to the product; 10 for a cast; 11 for
/// a negation; 12 for any other expression.
pub open spec fn level_of(e: ExprView) -> nat {
    match e {
        ExprView::Assign(_) => 1,
        ExprView::LazyBool(n) => match n.operator {
            LazyBoolOperator::Or => 2,
            LazyBoolOperator::And => 3,
        },
        ExprView::Comp(_) => 4,
        ExprView::Arith(n) => match n.operator {
            ArithOperator::BitOr => 5,
            ArithOperator::BitXor => 6,
            ArithOperator::BitAnd => 7,
            ArithOperator::Add => 8,
            ArithOperator::Sub => 8,
            ArithOperator::Mul => 9,
            ArithOperator::Div => 9,
            ArithOperator::Rem => 9,
        },
        ExprView::TypeCast(_) => 10,
        ExprView::Neg(_) => 11,
        _ => 12,
    }
}

/// Whether the operands of the operator at the root of an expression bind as tightly as
/// the operator asks.
///
/// The right operand of a binary operator binds tighter than the operator, and its left
/// operand at least as tightly: an operand that binds as tightly as the operator can only
/// stand on the left. Both operands of a comparison bind tighter than the comparison. The
/// operand of a cast binds at least as tightly as a cast, and that of a negation at least
/// as tightly as a negation.
pub open spec fn operands_bind_tighter(e: ExprView) -> bool {
    match e {
        ExprView::Assign(n) => level_of(*n.assignee) >= 1 && level_of(*n.value) > 1,
        ExprView::LazyBool(n) => level_of(*n.lhs) >= level_of(e) && level_of(*n.rhs) > level_of(e),
        ExprView::Comp(n) => level_of(*n.lhs) > 4 && level_of(*n.rhs) > 4,
        ExprView::Arith(n) => level_of(*n.lhs) >= level_of(e) && level_of(*n.rhs) > level_of(e),
        ExprView::TypeCast(n) => level_of(*n.value) >= 10,
        ExprView::Neg(n) => level_of(*n.expr) >= 11,
        _ => true,
    }
}

/// Whether the operands of every operator of an expression bind as tightly as the
/// operator asks: those of the operator at the root, those of the operators at the roots
/// of its operands, and so on, down to the operands that have no operator at their root.
pub open spec fn well_nested(e: ExprView) -> bool
    decreases e,
{
    operands_bind_tighter(e) && match e {
        ExprView::Assign(n) => well_nested(*n.assignee) && well_nested(*n.value),
        ExprView::LazyBool(n) => well_nested(*n.lhs) && well_nested(*n.rhs),
        ExprView::Comp(n) => well_nested(*n.lhs) && well_nested(*n.rhs),
        ExprView::Arith(n) => well_nested(*n.lhs) && well_nested(*n.rhs),
        ExprView::TypeCast(n) => well_nested(*n.value),
        ExprView::Neg(n) => well_nested(*n.expr),
        _ => true,
    }
}

/// Whether the outcome `p`, if it is an expression, has a root of the level `level` at
/// least, and operators whose operands all bind as tightly as the operators ask.
pub open spec fn reads_at(p: Parsed<ExprView>, level: nat) -> bool {
    match p {
        Parsed::Done(e, _) => level_of(e) >= level && well_nested(e),
        Parsed::Failed(_) => true,
    }
}

/// The node of a binary operator has the level of the operator.
pub proof fn lemma_binary_node_level(st: State, lhs: ExprView, rhs: ExprView)
    requires
        st.has_next(),
        st.kind().operator_level().is_some(),
    ensures
        binary_operator(st.kind()).is_some(),
        Some(level_of(binary_node(binary_operator(st.kind()).unwrap(), lhs, rhs)))
            == st.kind().operator_level(),
{
}

/// A unary expression is a negation, whose operand is a unary expression, or an
/// expression without an operator at its root.
pub proof fn lemma_unary_level(st: State)
    ensures
        reads_at(unary(st), 11),
    decreases st.tokens.len(),
{
    reveal(unary);
    reveal(primary);
    reveal(literal);
    reveal(path_or_call);
    reveal(grouped_or_unit);
    reveal(expr_with_block);
    reveal(loop_expr);
    reveal(inf_loop);
    reveal(while_loop);
    reveal(unsafe_expr);
    assert(reads_at(literal(st), 12));
    assert(reads_at(path_or_call(st), 12));
    assert(reads_at(grouped_or_unit(st), 12));
    assert(reads_at(primary(st), 12));
    assert(reads_at(inf_loop(st), 12));
    assert(reads_at(while_loop(st), 12));
    assert(reads_at(loop_expr(st), 12));
    assert(reads_at(unsafe_expr(st), 12));
    assert(reads_at(expr_with_block(st), 12));
    if st.has_next() && (st.kind() is Minus || st.kind() is Not) {
        lemma_unary_level(st.advance());
    }
}

/// What follows the operand of a cast makes a cast of it, or leaves it as it is.
pub proof fn lemma_cast_tail_level(lhs: ExprView, st: State)
    requires
        level_of(lhs) >= 10,
        well_nested(lhs),
    ensures
        reads_at(cast_tail(lhs, st), 10),
    decreases st.tokens.len(),
{
    reveal(cast_tail);
    if st.has_next() && st.kind() is As {
        match crate::parser::grammar::type_node(st.advance()).within(st.advance()) {
            Parsed::Done(ty, st1) => {
                lemma_cast_tail_level(
                    ExprView::TypeCast(
                        crate::ast::expr::TypeCastView {
                            value: Box::new(lhs),
                            ty,
                            span: crate::token::span::Span {
                                start: crate::ast::expr::span_of(lhs).start,
                                end: ty.span.end,
                            },
                        },
                    ),
                    st1,
                );
            },
            Parsed::Failed(_) => {},
        }
    }
}

/// A cast expression has a cast, a negation or no operator at its root.
pub proof fn lemma_cast_level(st: State)
    ensures
        reads_at(cast(st), 10),
{
    reveal(cast);
    reveal(unary);
    reveal(cast_tail);
    lemma_unary_level(st);
    match unary(st).within(st) {
        Parsed::Done(lhs, st1) => {
            lemma_cast_tail_level(lhs, st1);
        },
        Parsed::Failed(_) => {},
    }
}

/// Precedence is respected across the levels: an expression that is read at a level has
/// at its root an operator of that level or of one that binds tighter, and the operands
/// of each of its operators bind as tightly as the operator asks. So in `1 + 2 * 3` the
/// product, which binds tighter, is an operand of the sum.
pub proof fn lemma_precedence(level: nat, st: State)
    requires
        1 <= level <= 9,
    ensures
        reads_at(binary(level, st), level),
        reads_at(operand(level, st), level + 1),
    decreases st.tokens.len(), 10 - level, 1nat,
{
    reveal(binary);
    reveal(operand);
    reveal(binary_tail);
    reveal(cast);
    if level < 9 {
        lemma_precedence(level + 1, st);
    } else {
        lemma_cast_level(st);
    }
    match operand(level, st).within(st) {
        Parsed::Done(lhs, st1) => {
            lemma_left_associative(level, lhs, st1);
        },
        Parsed::Failed(_) => {},
    }
}

/// Binary operators of one level associate to the left: what follows a left operand of
/// their level makes an expression in which the right operand of every operator binds
/// tighter than the operator. So `1 - 2 - 3` is the difference of `1 - 2` and `3`, and
/// never that of `1` and `2 - 3`.
pub proof fn lemma_left_associative(level: nat, lhs: ExprView, st: State)
    requires
        1 <= level <= 9,
        level_of(lhs) >= level,
        level == COMPARISON_LEVEL ==> level_of(lhs) > level,
        well_nested(lhs),
    ensures
        reads_at(binary_tail(level, lhs, st), level),
    decreases st.tokens.len(), 0nat, 0nat,
{
    reveal(binary_tail);
    reveal(operand);
    if st.has_next() && st.kind().operator_level() == Some(level) {
        lemma_precedence(level, st.advance());
        match operand(level, st.advance()).within(st.advance()) {
            Parsed::Done(rhs, st1) => {
                lemma_binary_node_level(st, lhs, rhs);
                let node = binary_node(binary_operator(st.kind()).unwrap(), lhs, rhs);
                if level != COMPARISON_LEVEL {
                    lemma_left_associative(level, node, st1);
                }
            },
            Parsed::Failed(_) => {},
        }
    }
}

/// The node that an operator and its right operand make with the left operand is the left
/// operand of what follows: the operators of one level are applied from left to right.
pub proof fn lemma_tail_folds_left(level: nat, lhs: ExprView, st: State)
    requires
        1 <= level <= 9,
        level != COMPARISON_LEVEL,
        st.has_next(),
        st.kind().operator_level() == Some(level),
        operand(level, st.advance()) is Done,
    ensures
        binary_tail(level, lhs, st) == binary_tail(
            level,
            binary_node(
                binary_operator(st.kind()).unwrap(),
                lhs,
                operand(level, st.advance())->Done_0,
            ),
            operand(level, st.advance())->Done_1,
        ),
{
    reveal(binary_tail);
    reveal(operand);
    lemma_operand_consumes(level, st.advance());
}

/// The end-of-file token ends every operand, as a closing token does: what follows an
/// operand before the end of the file is nothing, and the end-of-file token is left.
pub proof fn lemma_end_of_file_ends_operand(level: nat, lhs: ExprView, st: State)
    requires
        1 <= level <= 9,
        st.has_next(),
        st.kind() is EOF,
    ensures
        binary_tail(level, lhs, st) == Parsed::Done(lhs, st),
        cast_tail(lhs, st) == Parsed::Done(lhs, st),
{
    reveal(binary_tail);
    reveal(cast_tail);
}

/// Before the end of the file no initializer is given, and the end-of-file token is
/// left.
pub proof fn lemma_end_of_file_ends_declaration(st: State)
    requires
        st.has_next(),
        st.kind() is EOF,
    ensures
        item_assignment(st) == Parsed::Done(None::<ExprView>, st),
{
    reveal(item_assignment);
}

/// The parts of a let statement before its semicolon.
pub struct LetParts {
    /// The span of `let`.
    pub first: Span,
    /// Whether `mut` is there.
    pub mutable: bool,
    /// The name that is declared.
    pub name: Seq<char>,
    /// The declared type.
    pub ty: TypeASTMetaNode,
    /// The initializer, if one is given.
    pub value: Option<ExprView>,
    /// The state after the last part.
    pub rest: State,
}

impl LetParts {
    /// The position where the last part ends: the initializer, or the type where there
    /// is no initializer.
    pub open spec fn end(self) -> Position {
        match self.value {
            Some(v) => span_of(v).end,
            None => self.ty.span.end,
        }
    }

    /// The let statement that the parts make when it ends at `end`.
    pub open spec fn node(self, end: Position) -> LetView {
        let span = Span { start: self.first.start, end };
        LetView {
            decl: Box::new(ExprView::Path(PathView { path: self.name, span })),
            ty: self.ty,
            value: match self.value {
                Some(v) => Some(Box::new(v)),
                None => None,
            },
            mutable: self.mutable,
            span,
        }
    }
}

/// The parts of the let statement that starts in the state `st`, up to the place where
/// its semicolon is due, if they can be read.
pub open spec fn let_parts(st: State) -> Option<LetParts> {
    match take(st, TokenTypeView::Let, "'let'"@) {
        Parsed::Done(first, st1) => match mutability(st1) {
            Parsed::Done(mutable, st2) => match take_ident(st2, "<pattern>"@) {
                Parsed::Done(name, st3) => match take(st3, TokenTypeView::Colon, "':'"@) {
                    Parsed::Done(_, st4) => match type_node(st4) {
                        Parsed::Done(ty, st5) => match item_assignment(st5) {
                            Parsed::Done(value, rest) => Some(
                                LetParts { first, mutable, name, ty, value, rest },
                            ),
                            Parsed::Failed(_) => None,
                        },
                        Parsed::Failed(_) => None,
                    },
                    Parsed::Failed(_) => None,
                },
                Parsed::Failed(_) => None,
            },
            Parsed::Failed(_) => None,
        },
        Parsed::Failed(_) => None,
    }
}

/// A let statement needs no semicolon to be read. Whatever token follows its last part,
/// the end-of-file token included, the statement is read if its parts are: with the
/// semicolon it ends where the semicolon ends; without it, it ends where its last part
/// ends, one missing semicolon is logged at that position, and the token that follows is
/// left.
pub proof fn lemma_let_needs_no_semicolon(st: State)
    ensures
        match let_parts(st) {
            Some(parts) => parts.rest.has_next() ==> let_stmt(st) == (if parts.rest.kind() is Semi {
                Parsed::Done(parts.node(parts.rest.next().span.end), parts.rest.advance())
            } else {
                Parsed::Done(
                    parts.node(parts.end()),
                    parts.rest.log(
                        RecoverableParserErrorView::MissingToken(TokenTypeView::Semi, parts.end()),
                    ),
                )
            }),
            None => let_stmt(st) is Failed,
        },
{
    reveal(let_stmt);
    reveal(item_assignment);
    match take(st, TokenTypeView::Let, "'let'"@) {
        Parsed::Done(_, st1) => {
            lemma_mutability_consumes(st1);
            match mutability(st1) {
                Parsed::Done(_, st2) => match take_ident(st2, "<pattern>"@) {
                    Parsed::Done(_, st3) => match take(st3, TokenTypeView::Colon, "':'"@) {
                        Parsed::Done(_, st4) => {
                            lemma_type_node_consumes(st4);
                            match type_node(st4) {
                                Parsed::Done(_, st5) => {
                                    lemma_item_assignment_consumes(st5);
                                },
                                Parsed::Failed(_) => {},
                            }
                        },
                        Parsed::Failed(_) => {},
                    },
                    Parsed::Failed(_) => {},
                },
                Parsed::Failed(_) => {},
            }
        },
        Parsed::Failed(_) => {},
    }
}

} // verus!
