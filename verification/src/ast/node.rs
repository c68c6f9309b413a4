//! What all the nodes of the AST have in common: a span and direct children.
//!
//! The children of a node are for diagnostics and for printing the tree. They are given
//! as references of the type [`ASTNodeRef`], which stands for a node of any kind.

use vstd::prelude::*;

use crate::ast::crt::{CrateASTNode, CrateView};
use crate::ast::expr::{
    lemma_views_push, span_of, views, BlockASTNode, BlockView, ElseExpr, ElseExprView, Expr,
    ExprView, IfASTNode, IfView, Stmt, StmtView,
};
use crate::ast::item::{
    ExternASTNode, ExternItem, ExternItemView, ExternView, FuncASTNode, FuncProtoASTNode,
    FuncProtoView, FuncView, ItemASTNode, ItemView, ParamASTNode, ParamView, StaticASTNode,
    StaticView,
};
use crate::token::span::Span;

verus! {

/// A reference to a node of the AST, of any kind.
#[derive(Debug, Clone, Copy, PartialEq)]
pub enum ASTNodeRef<'a> {
    /// A crate.
    Crate(&'a CrateASTNode),
    /// An item.
    Item(&'a ItemASTNode),
    /// A function.
    Func(&'a FuncASTNode),
    /// The prototype of a function.
    FuncProto(&'a FuncProtoASTNode),
    /// A parameter of a function.
    Param(&'a ParamASTNode),
    /// A static item.
    Static(&'a StaticASTNode),
    /// A block of foreign items.
    Extern(&'a ExternASTNode),
    /// A statement.
    Stmt(&'a Stmt),
    /// A block.
    Block(&'a BlockASTNode),
    /// An if expression.
    If(&'a IfASTNode),
    /// An expression.
    Expr(&'a Expr),
}

/// What an [`ASTNodeRef`] stands for: the view of the node that it refers to.
pub enum ASTNodeView {
    Crate(CrateView),
    Item(ItemView),
    Func(FuncView),
    FuncProto(FuncProtoView),
    Param(ParamView),
    Static(StaticView),
    Extern(ExternView),
    Stmt(StmtView),
    Block(BlockView),
    If(IfView),
    Expr(ExprView),
}

impl<'a> View for ASTNodeRef<'a> {
    type V = ASTNodeView;

    open spec fn view(&self) -> ASTNodeView {
        match self {
            ASTNodeRef::Crate(n) => ASTNodeView::Crate(n@),
            ASTNodeRef::Item(n) => ASTNodeView::Item(n@),
            ASTNodeRef::Func(n) => ASTNodeView::Func(n@),
            ASTNodeRef::FuncProto(n) => ASTNodeView::FuncProto(n@),
            ASTNodeRef::Param(n) => ASTNodeView::Param(n@),
            ASTNodeRef::Static(n) => ASTNodeView::Static(n@),
            ASTNodeRef::Extern(n) => ASTNodeView::Extern(n@),
            ASTNodeRef::Stmt(n) => ASTNodeView::Stmt(n@),
            ASTNodeRef::Block(n) => ASTNodeView::Block(n@),
            ASTNodeRef::If(n) => ASTNodeView::If(n@),
            ASTNodeRef::Expr(n) => ASTNodeView::Expr(n@),
        }
    }
}

/// The expressions `s` as nodes.
pub open spec fn expr_nodes(s: Seq<ExprView>) -> Seq<ASTNodeView> {
    Seq::new(s.len(), |i: int| ASTNodeView::Expr(s[i]))
}

/// The expression `e` as a list of nodes: one node if there is an expression, else none.
pub open spec fn opt_expr_nodes(e: Option<Box<ExprView>>) -> Seq<ASTNodeView> {
    match e {
        Some(e) => seq![ASTNodeView::Expr(*e)],
        None => Seq::empty(),
    }
}

/// The direct children of a block: its statements and then its final expression, if it
/// has one.
pub open spec fn block_children(b: BlockView) -> Seq<ASTNodeView> {
    Seq::new(b.statements.len(), |i: int| ASTNodeView::Stmt(b.statements[i])) + opt_expr_nodes(
        b.return_expr,
    )
}

/// The direct children of an expression, in the order of the source text. An expression
/// that never has children, such as a literal or a path, has none; so has a `return` that
/// returns no value. The children of a call are its arguments, and those of an unsafe
/// block are the children of its block.
pub open spec fn expr_children(e: ExprView) -> Option<Seq<ASTNodeView>> {
    match e {
        ExprView::Literal(_) => None,
        ExprView::Path(_) => None,
        ExprView::Underscore(_) => None,
        ExprView::FunCall(n) => Some(expr_nodes(n.args)),
        ExprView::Assign(n) => Some(seq![ASTNodeView::Expr(*n.assignee), ASTNodeView::Expr(*n.value)]),
        ExprView::Arith(n) => Some(seq![ASTNodeView::Expr(*n.lhs), ASTNodeView::Expr(*n.rhs)]),
        ExprView::Comp(n) => Some(seq![ASTNodeView::Expr(*n.lhs), ASTNodeView::Expr(*n.rhs)]),
        ExprView::LazyBool(n) => Some(seq![ASTNodeView::Expr(*n.lhs), ASTNodeView::Expr(*n.rhs)]),
        ExprView::Neg(n) => Some(seq![ASTNodeView::Expr(*n.expr)]),
        ExprView::TypeCast(n) => Some(seq![ASTNodeView::Expr(*n.value)]),
        ExprView::Grouped(n) => Some(seq![ASTNodeView::Expr(*n.expr)]),
        ExprView::Block(n) => Some(block_children(n)),
        ExprView::InfLoop(n) => Some(seq![ASTNodeView::Block(*n.block)]),
        ExprView::While(n) => Some(seq![ASTNodeView::Expr(*n.condition), ASTNodeView::Block(*n.body)]),
        ExprView::If(n) => Some(if_children(n)),
        ExprView::UnsafeBlock(n) => Some(block_children(*n.block)),
        ExprView::Return(n) => match n.value {
            Some(value) => Some(seq![ASTNodeView::Expr(*value)]),
            None => None,
        },
    }
}

/// The direct children of an if expression: the condition, the `then` block and what
/// follows `else`, if anything.
pub open spec fn if_children(n: IfView) -> Seq<ASTNodeView> {
    let first = seq![ASTNodeView::Expr(*n.condition), ASTNodeView::Block(*n.then_block)];
    match n.else_node {
        ElseExprView::Nothing => first,
        ElseExprView::Else(block) => first.push(ASTNodeView::Block(*block)),
        ElseExprView::ElseIf(node) => first.push(ASTNodeView::If(*node)),
    }
}

/// The direct children of a static item: its initializer, if it has one.
pub open spec fn static_children(n: StaticView) -> Seq<ASTNodeView> {
    opt_expr_nodes(n.value)
}

/// The direct children of the prototype of a function: its parameters.
pub open spec fn proto_children(n: FuncProtoView) -> Seq<ASTNodeView> {
    Seq::new(n.params.len(), |i: int| ASTNodeView::Param(n.params[i]))
}

/// The direct children of a function: its prototype and its body.
pub open spec fn func_children(n: FuncView) -> Seq<ASTNodeView> {
    seq![ASTNodeView::FuncProto(n.proto), ASTNodeView::Block(*n.body)]
}

/// The direct children of a block of foreign items: its items.
pub open spec fn foreign_children(n: ExternView) -> Seq<ASTNodeView> {
    Seq::new(
        n.items.len(),
        |i: int|
            match n.items[i] {
                ExternItemView::Func(proto) => ASTNodeView::FuncProto(proto),
                ExternItemView::Static(item) => ASTNodeView::Static(item),
            },
    )
}

/// The direct children of a node of any kind, in the order of the source text, or none
/// for a node that never has children.
pub open spec fn children_of(n: ASTNodeView) -> Option<Seq<ASTNodeView>> {
    match n {
        ASTNodeView::Crate(c) => Some(Seq::new(c.items.len(), |i: int| ASTNodeView::Item(c.items[i]))),
        ASTNodeView::Item(ItemView::Func(f)) => Some(func_children(f)),
        ASTNodeView::Item(ItemView::Extern(e)) => Some(foreign_children(e)),
        ASTNodeView::Item(ItemView::Static(s)) => Some(static_children(s)),
        ASTNodeView::Func(f) => Some(func_children(f)),
        ASTNodeView::FuncProto(p) => Some(proto_children(p)),
        ASTNodeView::Param(p) => Some(seq![ASTNodeView::Expr(*p.assignee)]),
        ASTNodeView::Static(s) => Some(static_children(s)),
        ASTNodeView::Extern(e) => Some(foreign_children(e)),
        ASTNodeView::Stmt(StmtView::Let(l)) => Some(
            seq![ASTNodeView::Expr(*l.decl)] + opt_expr_nodes(l.value),
        ),
        ASTNodeView::Stmt(StmtView::Expr(s)) => Some(seq![ASTNodeView::Expr(*s.expr)]),
        ASTNodeView::Block(b) => Some(block_children(b)),
        ASTNodeView::If(i) => Some(if_children(i)),
        ASTNodeView::Expr(e) => expr_children(e),
    }
}

/// The span of a node of any kind.
pub open spec fn node_span(n: ASTNodeView) -> Span {
    match n {
        ASTNodeView::Crate(c) => c.span,
        ASTNodeView::Item(i) => i.span(),
        ASTNodeView::Func(f) => f.span,
        ASTNodeView::FuncProto(p) => p.span,
        ASTNodeView::Param(p) => p.span,
        ASTNodeView::Static(s) => s.span,
        ASTNodeView::Extern(e) => e.span,
        ASTNodeView::Stmt(StmtView::Let(l)) => l.span,
        ASTNodeView::Stmt(StmtView::Expr(s)) => s.span,
        ASTNodeView::Block(b) => b.span,
        ASTNodeView::If(i) => i.span,
        ASTNodeView::Expr(e) => span_of(e),
    }
}

/// The common interface of all the nodes of the AST.
pub trait ASTNode {
    /// The node, as a node of any kind.
    spec fn node_view(&self) -> ASTNodeView;

    /// Returns the span that defines the location of this node.
    fn span(&self) -> (r: Span)
        ensures
            r == node_span(self.node_view()),
    ;

    /// Returns the direct children of this node, if it is of a kind that has children.
    fn children(&self) -> (r: Option<Vec<ASTNodeRef<'_>>>)
        ensures
            match r {
                Some(nodes) => children_of(self.node_view()) == Some(views(nodes@)),
                None => children_of(self.node_view()) is None,
            },
    ;
}

/// A kind of node that can be taken as a node of any kind.
pub trait AsASTNode {
    /// The node, as a node of any kind.
    spec fn as_ast_view(&self) -> ASTNodeView;

    /// Returns a reference to this node as a node of any kind.
    fn as_ast(&self) -> (r: ASTNodeRef<'_>)
        ensures
            r@ == self.as_ast_view(),
    ;
}

/// Returns the expressions of `v` as nodes.
fn expr_refs<'a>(v: &'a Vec<Expr>) -> (r: Vec<ASTNodeRef<'a>>)
    ensures
        views(r@) == expr_nodes(views(v@)),
{
    let mut out: Vec<ASTNodeRef<'a>> = Vec::new();
    let mut i: usize = 0;
    while i < v.len()
        invariant
            i <= v.len(),
            views(out@) == expr_nodes(views(v@)).take(i as int),
        decreases v.len() - i,
    {
        proof {
            lemma_views_push(out@, ASTNodeRef::Expr(&v[i as int]));
        }
        out.push(ASTNodeRef::Expr(&v[i]));
        assert(views(out@) =~= expr_nodes(views(v@)).take(i + 1));
        i += 1;
    }
    assert(views(out@) =~= expr_nodes(views(v@)));
    out
}

/// Returns the direct children of the block `b`.
fn block_refs<'a>(b: &'a BlockASTNode) -> (r: Vec<ASTNodeRef<'a>>)
    ensures
        views(r@) == block_children(b@),
{
    let statements = b.statements();
    let ghost stmt_nodes = Seq::new(
        b@.statements.len(),
        |i: int| ASTNodeView::Stmt(b@.statements[i]),
    );
    let mut out: Vec<ASTNodeRef<'a>> = Vec::new();
    let mut i: usize = 0;
    while i < statements.len()
        invariant
            i <= statements.len(),
            views(statements@) == b@.statements,
            stmt_nodes == Seq::new(b@.statements.len(), |i: int| ASTNodeView::Stmt(b@.statements[i])),
            views(out@) == stmt_nodes.take(i as int),
        decreases statements.len() - i,
    {
        proof {
            lemma_views_push(out@, ASTNodeRef::Stmt(&statements[i as int]));
        }
        out.push(ASTNodeRef::Stmt(&statements[i]));
        assert(views(out@) =~= stmt_nodes.take(i + 1));
        i += 1;
    }
    assert(views(out@) =~= stmt_nodes);
    match b.return_expr() {
        Some(e) => {
            proof {
                lemma_views_push(out@, ASTNodeRef::Expr(e));
            }
            out.push(ASTNodeRef::Expr(e));
            assert(views(out@) =~= block_children(b@));
        },
        None => {
            assert(views(out@) =~= block_children(b@));
        },
    }
    out
}

/// Returns the direct children of the if expression `n`.
fn if_refs<'a>(n: &'a IfASTNode) -> (r: Vec<ASTNodeRef<'a>>)
    ensures
        views(r@) == if_children(n@),
{
    let mut out: Vec<ASTNodeRef<'a>> = Vec::new();
    out.push(ASTNodeRef::Expr(n.condition()));
    out.push(ASTNodeRef::Block(n.then_block()));
    match n.else_node() {
        ElseExpr::Nothing => {},
        ElseExpr::Else(block) => {
            out.push(ASTNodeRef::Block(&**block));
        },
        ElseExpr::ElseIf(node) => {
            out.push(ASTNodeRef::If(&**node));
        },
    }
    assert(views(out@) =~= if_children(n@));
    out
}

/// Returns the expression `e` as a list of nodes.
fn opt_expr_refs<'a>(e: Option<&'a Expr>) -> (r: Vec<ASTNodeRef<'a>>)
    ensures
        views(r@) == match e {
            Some(e) => seq![ASTNodeView::Expr(e@)],
            None => Seq::empty(),
        },
{
    let mut out: Vec<ASTNodeRef<'a>> = Vec::new();
    match e {
        Some(e) => {
            out.push(ASTNodeRef::Expr(e));
            assert(views(out@) =~= seq![ASTNodeView::Expr(e@)]);
        },
        None => {
            assert(views(out@) =~= Seq::<ASTNodeView>::empty());
        },
    }
    out
}

/// Returns the two expressions as a list of nodes.
fn pair_refs<'a>(first: &'a Expr, second: &'a Expr) -> (r: Vec<ASTNodeRef<'a>>)
    ensures
        views(r@) == seq![ASTNodeView::Expr(first@), ASTNodeView::Expr(second@)],
{
    let mut out: Vec<ASTNodeRef<'a>> = Vec::new();
    out.push(ASTNodeRef::Expr(first));
    out.push(ASTNodeRef::Expr(second));
    assert(views(out@) =~= seq![ASTNodeView::Expr(first@), ASTNodeView::Expr(second@)]);
    out
}

impl ASTNode for Expr {
    open spec fn node_view(&self) -> ASTNodeView {
        ASTNodeView::Expr(self@)
    }

    fn span(&self) -> (r: Span) {
        Expr::span(self)
    }

    fn children(&self) -> (r: Option<Vec<ASTNodeRef<'_>>>) {
        match self {
            Expr::Literal(_) => None,
            Expr::Path(_) => None,
            Expr::Underscore(_) => None,
            Expr::FunCall(n) => Some(expr_refs(n.args())),
            Expr::Assign(n) => Some(pair_refs(n.assignee_expr(), n.value_expr())),
            Expr::Arith(n) => Some(pair_refs(n.lhs(), n.rhs())),
            Expr::Comp(n) => Some(pair_refs(n.lhs(), n.rhs())),
            Expr::LazyBool(n) => Some(pair_refs(n.lhs(), n.rhs())),
            Expr::Neg(n) => Some(opt_expr_refs(Some(n.expr()))),
            Expr::TypeCast(n) => Some(opt_expr_refs(Some(n.value()))),
            Expr::Grouped(n) => Some(opt_expr_refs(Some(n.expr()))),
            Expr::Block(n) => Some(block_refs(n)),
            Expr::InfLoop(n) => {
                let mut out: Vec<ASTNodeRef<'_>> = Vec::new();
                out.push(ASTNodeRef::Block(n.block()));
                assert(views(out@) =~= seq![ASTNodeView::Block(*n@.block)]);
                Some(out)
            },
            Expr::While(n) => {
                let mut out: Vec<ASTNodeRef<'_>> = Vec::new();
                out.push(ASTNodeRef::Expr(n.condition()));
                out.push(ASTNodeRef::Block(n.body()));
                assert(views(out@) =~= seq![
                    ASTNodeView::Expr(*n@.condition),
                    ASTNodeView::Block(*n@.body),
                ]);
                Some(out)
            },
            Expr::If(n) => Some(if_refs(n)),
            Expr::UnsafeBlock(n) => Some(block_refs(n.block())),
            Expr::Return(n) => match n.value() {
                Some(value) => Some(opt_expr_refs(Some(value))),
                None => None,
            },
        }
    }
}

impl ASTNode for BlockASTNode {
    open spec fn node_view(&self) -> ASTNodeView {
        ASTNodeView::Block(self@)
    }

    fn span(&self) -> (r: Span) {
        BlockASTNode::span(self)
    }

    fn children(&self) -> (r: Option<Vec<ASTNodeRef<'_>>>) {
        Some(block_refs(self))
    }
}

impl ASTNode for IfASTNode {
    open spec fn node_view(&self) -> ASTNodeView {
        ASTNodeView::If(self@)
    }

    fn span(&self) -> (r: Span) {
        IfASTNode::span(self)
    }

    fn children(&self) -> (r: Option<Vec<ASTNodeRef<'_>>>) {
        Some(if_refs(self))
    }
}

impl ASTNode for Stmt {
    open spec fn node_view(&self) -> ASTNodeView {
        ASTNodeView::Stmt(self@)
    }

    fn span(&self) -> (r: Span) {
        Stmt::span(self)
    }

    fn children(&self) -> (r: Option<Vec<ASTNodeRef<'_>>>) {
        match self {
            Stmt::Let(n) => {
                let mut out: Vec<ASTNodeRef<'_>> = Vec::new();
                out.push(ASTNodeRef::Expr(n.decl()));
                match n.value() {
                    Some(value) => {
                        out.push(ASTNodeRef::Expr(value));
                    },
                    None => {},
                }
                assert(views(out@) =~= seq![ASTNodeView::Expr(*n@.decl)] + opt_expr_nodes(n@.value));
                Some(out)
            },
            Stmt::Expr(n) => Some(opt_expr_refs(Some(n.expr()))),
        }
    }
}

impl ASTNode for ParamASTNode {
    open spec fn node_view(&self) -> ASTNodeView {
        ASTNodeView::Param(self@)
    }

    fn span(&self) -> (r: Span) {
        ParamASTNode::span(self)
    }

    fn children(&self) -> (r: Option<Vec<ASTNodeRef<'_>>>) {
        Some(opt_expr_refs(Some(self.assignee_expr())))
    }
}

impl ASTNode for FuncProtoASTNode {
    open spec fn node_view(&self) -> ASTNodeView {
        ASTNodeView::FuncProto(self@)
    }

    fn span(&self) -> (r: Span) {
        FuncProtoASTNode::span(self)
    }

    fn children(&self) -> (r: Option<Vec<ASTNodeRef<'_>>>) {
        let params = self.get_param_iter();
        let mut out: Vec<ASTNodeRef<'_>> = Vec::new();
        let mut i: usize = 0;
        while i < params.len()
            invariant
                i <= params.len(),
                views(params@) == self@.params,
                views(out@) == proto_children(self@).take(i as int),
            decreases params.len() - i,
        {
            proof {
                lemma_views_push(out@, ASTNodeRef::Param(&params[i as int]));
            }
            out.push(ASTNodeRef::Param(&params[i]));
            assert(views(out@) =~= proto_children(self@).take(i + 1));
            i += 1;
        }
        assert(views(out@) =~= proto_children(self@));
        Some(out)
    }
}

impl ASTNode for StaticASTNode {
    open spec fn node_view(&self) -> ASTNodeView {
        ASTNodeView::Static(self@)
    }

    fn span(&self) -> (r: Span) {
        StaticASTNode::span(self)
    }

    fn children(&self) -> (r: Option<Vec<ASTNodeRef<'_>>>) {
        Some(opt_expr_refs(self.value()))
    }
}

impl ASTNode for FuncASTNode {
    open spec fn node_view(&self) -> ASTNodeView {
        ASTNodeView::Func(self@)
    }

    fn span(&self) -> (r: Span) {
        FuncASTNode::span(self)
    }

    fn children(&self) -> (r: Option<Vec<ASTNodeRef<'_>>>) {
        let mut out: Vec<ASTNodeRef<'_>> = Vec::new();
        out.push(ASTNodeRef::FuncProto(self.proto()));
        out.push(ASTNodeRef::Block(self.body()));
        assert(views(out@) =~= func_children(self@));
        Some(out)
    }
}

impl ASTNode for ExternASTNode {
    open spec fn node_view(&self) -> ASTNodeView {
        ASTNodeView::Extern(self@)
    }

    fn span(&self) -> (r: Span) {
        ExternASTNode::span(self)
    }

    fn children(&self) -> (r: Option<Vec<ASTNodeRef<'_>>>) {
        let items = self.items();
        let mut out: Vec<ASTNodeRef<'_>> = Vec::new();
        let mut i: usize = 0;
        while i < items.len()
            invariant
                i <= items.len(),
                views(items@) == self@.items,
                views(out@) == foreign_children(self@).take(i as int),
            decreases items.len() - i,
        {
            let node = match &items[i] {
                ExternItem::Func(proto) => ASTNodeRef::FuncProto(&**proto),
                ExternItem::Static(item) => ASTNodeRef::Static(&**item),
            };
            proof {
                lemma_views_push(out@, node);
            }
            out.push(node);
            assert(views(out@) =~= foreign_children(self@).take(i + 1));
            i += 1;
        }
        assert(views(out@) =~= foreign_children(self@));
        Some(out)
    }
}

impl ASTNode for ItemASTNode {
    open spec fn node_view(&self) -> ASTNodeView {
        ASTNodeView::Item(self@)
    }

    fn span(&self) -> (r: Span) {
        ItemASTNode::span(self)
    }

    fn children(&self) -> (r: Option<Vec<ASTNodeRef<'_>>>) {
        match self {
            ItemASTNode::Func(func) => func.children(),
            ItemASTNode::Extern(ext) => ext.children(),
            ItemASTNode::Static(stat) => stat.children(),
        }
    }
}

impl ASTNode for CrateASTNode {
    open spec fn node_view(&self) -> ASTNodeView {
        ASTNodeView::Crate(self@)
    }

    fn span(&self) -> (r: Span) {
        CrateASTNode::span(self)
    }

    fn children(&self) -> (r: Option<Vec<ASTNodeRef<'_>>>) {
        let items = self.items();
        let ghost nodes = Seq::new(self@.items.len(), |i: int| ASTNodeView::Item(self@.items[i]));
        let mut out: Vec<ASTNodeRef<'_>> = Vec::new();
        let mut i: usize = 0;
        while i < items.len()
            invariant
                i <= items.len(),
                views(items@) == self@.items,
                nodes == Seq::new(self@.items.len(), |i: int| ASTNodeView::Item(self@.items[i])),
                views(out@) == nodes.take(i as int),
            decreases items.len() - i,
        {
            proof {
                lemma_views_push(out@, ASTNodeRef::Item(&items[i as int]));
            }
            out.push(ASTNodeRef::Item(&items[i]));
            assert(views(out@) =~= nodes.take(i + 1));
            i += 1;
        }
        assert(views(out@) =~= nodes);
        Some(out)
    }
}

impl<'a> ASTNode for ASTNodeRef<'a> {
    open spec fn node_view(&self) -> ASTNodeView {
        self@
    }

    fn span(&self) -> (r: Span) {
        match self {
            ASTNodeRef::Crate(n) => n.span(),
            ASTNodeRef::Item(n) => n.span(),
            ASTNodeRef::Func(n) => n.span(),
            ASTNodeRef::FuncProto(n) => n.span(),
            ASTNodeRef::Param(n) => n.span(),
            ASTNodeRef::Static(n) => n.span(),
            ASTNodeRef::Extern(n) => n.span(),
            ASTNodeRef::Stmt(n) => n.span(),
            ASTNodeRef::Block(n) => n.span(),
            ASTNodeRef::If(n) => n.span(),
            ASTNodeRef::Expr(n) => n.span(),
        }
    }

    fn children(&self) -> (r: Option<Vec<ASTNodeRef<'_>>>) {
        match self {
            ASTNodeRef::Crate(n) => n.children(),
            ASTNodeRef::Item(n) => n.children(),
            ASTNodeRef::Func(n) => n.children(),
            ASTNodeRef::FuncProto(n) => n.children(),
            ASTNodeRef::Param(n) => n.children(),
            ASTNodeRef::Static(n) => n.children(),
            ASTNodeRef::Extern(n) => n.children(),
            ASTNodeRef::Stmt(n) => n.children(),
            ASTNodeRef::Block(n) => n.children(),
            ASTNodeRef::If(n) => n.children(),
            ASTNodeRef::Expr(n) => n.children(),
        }
    }
}

impl AsASTNode for Expr {
    open spec fn as_ast_view(&self) -> ASTNodeView {
        ASTNodeView::Expr(self@)
    }

    fn as_ast(&self) -> (r: ASTNodeRef<'_>) {
        ASTNodeRef::Expr(self)
    }
}

impl AsASTNode for Stmt {
    open spec fn as_ast_view(&self) -> ASTNodeView {
        ASTNodeView::Stmt(self@)
    }

    fn as_ast(&self) -> (r: ASTNodeRef<'_>) {
        ASTNodeRef::Stmt(self)
    }
}

impl AsASTNode for BlockASTNode {
    open spec fn as_ast_view(&self) -> ASTNodeView {
        ASTNodeView::Block(self@)
    }

    fn as_ast(&self) -> (r: ASTNodeRef<'_>) {
        ASTNodeRef::Block(self)
    }
}

impl AsASTNode for IfASTNode {
    open spec fn as_ast_view(&self) -> ASTNodeView {
        ASTNodeView::If(self@)
    }

    fn as_ast(&self) -> (r: ASTNodeRef<'_>) {
        ASTNodeRef::If(self)
    }
}

impl AsASTNode for ItemASTNode {
    open spec fn as_ast_view(&self) -> ASTNodeView {
        ASTNodeView::Item(self@)
    }

    fn as_ast(&self) -> (r: ASTNodeRef<'_>) {
        ASTNodeRef::Item(self)
    }
}

impl AsASTNode for CrateASTNode {
    open spec fn as_ast_view(&self) -> ASTNodeView {
        ASTNodeView::Crate(self@)
    }

    fn as_ast(&self) -> (r: ASTNodeRef<'_>) {
        ASTNodeRef::Crate(self)
    }
}

impl ExternItem {
    /// Returns a reference to the item as a node of any kind.
    pub fn as_ast(&self) -> (r: ASTNodeRef<'_>)
        ensures
            r@ == match self@ {
                ExternItemView::Func(proto) => ASTNodeView::FuncProto(proto),
                ExternItemView::Static(item) => ASTNodeView::Static(item),
            },
    {
        match self {
            ExternItem::Func(proto) => ASTNodeRef::FuncProto(&**proto),
            ExternItem::Static(item) => ASTNodeRef::Static(&**item),
        }
    }
}

} // verus!
