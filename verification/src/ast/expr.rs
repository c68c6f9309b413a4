//! The expressions and statements of the AST.
//!
//! Every expression is a value of the sum type [`Expr`]. Which of the three capabilities
//! an expression has, to stand for a place, to yield a value, to be assigned to, is fixed
//! by its variant and asked through [`ExprASTNode`].

use vstd::prelude::*;

use crate::ast::error::{SemanticError, SemanticErrorView};
use crate::ast::types::{Type, TypeASTMetaNode};
use crate::token::span::Span;

pub use crate::view::{lemma_views_push, views};

verus! {

/// The query interface of expressions: which capabilities an expression has.
///
/// An expression that is a place expression is an assignee expression too: an
/// implementation has to prove it.
pub trait ExprASTNode: Sized {
    /// Whether the expression denotes a storage location.
    spec fn is_place(&self) -> bool;

    /// Whether the expression yields a value.
    spec fn is_value(&self) -> bool;

    /// Whether the expression may stand on the left of an assignment or as the pattern of
    /// a declaration.
    spec fn is_assignee(&self) -> bool;

    /// A place expression is an assignee expression.
    proof fn lemma_place_is_assignee(&self)
        ensures
            self.is_place() ==> self.is_assignee(),
    ;

    /// Returns the expression itself if it is a place expression.
    fn try_as_place(&self) -> (r: Option<&Self>)
        ensures
            r == (if self.is_place() {
                Some(self)
            } else {
                None
            }),
    ;

    /// Returns the expression itself if it is a value expression.
    fn try_as_value(&self) -> (r: Option<&Self>)
        ensures
            r == (if self.is_value() {
                Some(self)
            } else {
                None
            }),
    ;

    /// Returns the expression itself if it is an assignee expression.
    fn try_as_assignee(&self) -> (r: Option<&Self>)
        ensures
            r == (if self.is_assignee() {
                Some(self)
            } else {
                None
            }),
    ;
}

/// A kind of expression that always yields a value.
pub trait ValueExprASTNode: ExprASTNode {

}

/// A kind of expression that may always be assigned to.
pub trait AssigneeExprASTNode: ExprASTNode {
    /// The name of the assigned variable, if the expression names one.
    spec fn pattern_name(&self) -> Option<Seq<char>>;

    /// Returns the name of the assigned variable, if the expression names one.
    fn pattern(&self) -> (r: Option<String>)
        ensures
            match r {
                Some(name) => self.pattern_name() == Some(name@),
                None => self.pattern_name() is None,
            },
    ;
}

/// A kind of expression that always denotes a storage location.
pub trait PlaceExprASTNode: AssigneeExprASTNode {

}

/// A kind of node that can be taken as a general expression.
pub trait AsExprASTNode: Sized {
    /// The general expression that the node is.
    spec fn expr_view(&self) -> ExprView;

    /// Returns the node as a general expression.
    fn as_expr(self) -> (r: Expr)
        ensures
            r@ == self.expr_view(),
    ;
}

/// A kind of node that is a statement.
pub trait StatementASTNode {

}

/// An arithmetic or logical binary operator.
#[derive(Debug, Clone, Copy, PartialEq, Eq, Structural)]
pub enum ArithOperator {
    /// `+`
    Add,
    /// `-`
    Sub,
    /// `*`
    Mul,
    /// `/`
    Div,
    /// `%`
    Rem,
    /// `&`
    BitAnd,
    /// `|`
    BitOr,
    /// `^`
    BitXor,
}

impl ArithOperator {
    /// The text of the operator.
    pub open spec fn symbol(self) -> Seq<char> {
        match self {
            ArithOperator::Add => "+"@,
            ArithOperator::Sub => "-"@,
            ArithOperator::Mul => "*"@,
            ArithOperator::Div => "/"@,
            ArithOperator::Rem => "%"@,
            ArithOperator::BitAnd => "&"@,
            ArithOperator::BitOr => "|"@,
            ArithOperator::BitXor => "^"@,
        }
    }

    /// Returns the text of the operator.
    pub fn as_str(&self) -> (r: &'static str)
        ensures
            r@ == self.symbol(),
    {
        match self {
            ArithOperator::Add => "+",
            ArithOperator::Sub => "-",
            ArithOperator::Mul => "*",
            ArithOperator::Div => "/",
            ArithOperator::Rem => "%",
            ArithOperator::BitAnd => "&",
            ArithOperator::BitOr => "|",
            ArithOperator::BitXor => "^",
        }
    }
}

/// A comparison operator.
#[derive(Debug, Clone, Copy, PartialEq, Eq, Structural)]
pub enum CompOperator {
    /// `==`
    Eq,
    /// `!=`
    Ne,
    /// `>`
    Gt,
    /// `<`
    Lt,
    /// `>=`
    Ge,
    /// `<=`
    Le,
}

impl CompOperator {
    /// The text of the operator.
    pub open spec fn symbol(self) -> Seq<char> {
        match self {
            CompOperator::Eq => "=="@,
            CompOperator::Ne => "!="@,
            CompOperator::Gt => ">"@,
            CompOperator::Lt => "<"@,
            CompOperator::Ge => ">="@,
            CompOperator::Le => "<="@,
        }
    }

    /// Returns the text of the operator.
    pub fn as_str(&self) -> (r: &'static str)
        ensures
            r@ == self.symbol(),
    {
        match self {
            CompOperator::Eq => "==",
            CompOperator::Ne => "!=",
            CompOperator::Gt => ">",
            CompOperator::Lt => "<",
            CompOperator::Ge => ">=",
            CompOperator::Le => "<=",
        }
    }
}

/// A lazy boolean operator.
#[derive(Debug, Clone, Copy, PartialEq, Eq, Structural)]
pub enum LazyBoolOperator {
    /// `&&`
    And,
    /// `||`
    Or,
}

impl LazyBoolOperator {
    /// The text of the operator.
    pub open spec fn symbol(self) -> Seq<char> {
        match self {
            LazyBoolOperator::And => "&&"@,
            LazyBoolOperator::Or => "||"@,
        }
    }

    /// Returns the text of the operator.
    pub fn as_str(&self) -> (r: &'static str)
        ensures
            r@ == self.symbol(),
    {
        match self {
            LazyBoolOperator::And => "&&",
            LazyBoolOperator::Or => "||",
        }
    }
}

/// A negation operator.
#[derive(Debug, Clone, Copy, PartialEq, Eq, Structural)]
pub enum NegOperator {
    /// Arithmetic negation: `-`
    Neg,
    /// Logical negation: `!`
    Not,
}

impl NegOperator {
    /// The text of the operator.
    pub open spec fn symbol(self) -> Seq<char> {
        match self {
            NegOperator::Neg => "-"@,
            NegOperator::Not => "!"@,
        }
    }

    /// Returns the text of the operator.
    pub fn as_str(&self) -> (r: &'static str)
        ensures
            r@ == self.symbol(),
    {
        match self {
            NegOperator::Neg => "-",
            NegOperator::Not => "!",
        }
    }
}

/// A generic AST node representing a literal.
#[derive(Debug, Clone, PartialEq, Eq)]
pub struct LiteralASTNode<T> {
    value: T,
    ty: Type,
    span: Span,
}

/// What a [`LiteralASTNode`] stands for.
pub struct LiteralView<V> {
    /// The value of the literal.
    pub value: V,
    /// The type of the literal.
    pub ty: Type,
    /// The span of the source text that the node was read from.
    pub span: Span,
}

impl<T> LiteralASTNode<T> {
    /// What the node holds, with the value as it is.
    pub closed spec fn parts(&self) -> LiteralView<T> {
        LiteralView { value: self.value, ty: self.ty, span: self.span }
    }

    /// Creates a new `LiteralASTNode` with the given value, type and span.
    fn new_generic(value: T, ty: Type, span: Span) -> (r: LiteralASTNode<T>)
        ensures
            r.parts() == (LiteralView { value, ty, span }),
    {
        LiteralASTNode { value, ty, span }
    }

    /// Returns a reference to the value of the literal.
    pub fn value(&self) -> (r: &T)
        ensures
            *r == self.parts().value,
    {
        &self.value
    }

    /// Returns the type of the literal.
    pub fn ty(&self) -> (r: Type)
        ensures
            r == self.parts().ty,
    {
        self.ty
    }

    /// Returns the span of the source text that the node was read from.
    pub fn span(&self) -> (r: Span)
        ensures
            r == self.parts().span,
    {
        self.span
    }
}

impl LiteralASTNode<i32> {
    /// Creates a new integer literal.
    pub fn new(value: i32, span: Span) -> (r: LiteralASTNode<i32>)
        ensures
            r.parts() == (LiteralView { value, ty: Type::I32, span }),
    {
        LiteralASTNode::new_generic(value, Type::I32, span)
    }
}

impl LiteralASTNode<bool> {
    /// Creates a new boolean literal.
    pub fn new(value: bool, span: Span) -> (r: LiteralASTNode<bool>)
        ensures
            r.parts() == (LiteralView { value, ty: Type::Bool, span }),
    {
        LiteralASTNode::new_generic(value, Type::Bool, span)
    }
}

impl LiteralASTNode<()> {
    /// Creates a new unit literal.
    pub fn new(span: Span) -> (r: LiteralASTNode<()>)
        ensures
            r.parts() == (LiteralView { value: (), ty: Type::Unit, span }),
    {
        LiteralASTNode::new_generic((), Type::Unit, span)
    }
}

impl LiteralASTNode<String> {
    /// Creates a new floating-point literal, which holds the text of the literal.
    pub fn new(text: String, span: Span) -> (r: LiteralASTNode<String>)
        ensures
            r.parts() == (LiteralView { value: text, ty: Type::F64, span }),
    {
        LiteralASTNode::new_generic(text, Type::F64, span)
    }
}

/// A literal of any of the four kinds.
#[derive(Debug, Clone, PartialEq, Eq)]
pub enum LiteralBox {
    /// An integer literal.
    I32(LiteralASTNode<i32>),
    /// A floating-point literal, which holds the text of the literal.
    F64(LiteralASTNode<String>),
    /// A boolean literal.
    Bool(LiteralASTNode<bool>),
    /// The unit literal `()`.
    Unit(LiteralASTNode<()>),
}

/// What a [`LiteralBox`] stands for.
pub enum LiteralBoxView {
    I32(LiteralView<i32>),
    F64(LiteralView<Seq<char>>),
    Bool(LiteralView<bool>),
    Unit(LiteralView<()>),
}

impl LiteralBoxView {
    /// The span of the literal.
    pub open spec fn span(self) -> Span {
        match self {
            LiteralBoxView::I32(l) => l.span,
            LiteralBoxView::F64(l) => l.span,
            LiteralBoxView::Bool(l) => l.span,
            LiteralBoxView::Unit(l) => l.span,
        }
    }
}

impl View for LiteralBox {
    type V = LiteralBoxView;

    open spec fn view(&self) -> LiteralBoxView {
        match self {
            LiteralBox::I32(l) => LiteralBoxView::I32(l.parts()),
            LiteralBox::F64(l) => LiteralBoxView::F64(
                LiteralView { value: l.parts().value@, ty: l.parts().ty, span: l.parts().span },
            ),
            LiteralBox::Bool(l) => LiteralBoxView::Bool(l.parts()),
            LiteralBox::Unit(l) => LiteralBoxView::Unit(l.parts()),
        }
    }
}

impl LiteralBox {
    /// Converts the literal into an expression.
    pub fn into_parser_expr(self) -> (r: Expr)
        ensures
            r@ == ExprView::Literal(self@),
    {
        Expr::Literal(self)
    }

    /// Returns the span of the source text that the literal was read from.
    pub fn span(&self) -> (r: Span)
        ensures
            r == self@.span(),
    {
        match self {
            LiteralBox::I32(l) => l.span(),
            LiteralBox::F64(l) => l.span(),
            LiteralBox::Bool(l) => l.span(),
            LiteralBox::Unit(l) => l.span(),
        }
    }
}

impl AsExprASTNode for LiteralBox {
    open spec fn expr_view(&self) -> ExprView {
        ExprView::Literal(self@)
    }

    fn as_expr(self) -> (r: Expr) {
        Expr::Literal(self)
    }
}

/// An expression.
#[derive(Debug, PartialEq)]
pub enum Expr {
    /// A literal.
    Literal(LiteralBox),
    /// A path.
    Path(PathASTNode),
    /// The underscore expression `_`.
    Underscore(UnderscoreASTNode),
    /// A function call.
    FunCall(FunCallASTNode),
    /// An assignment.
    Assign(AssignASTNode),
    /// An arithmetic or logical binary operation.
    Arith(ArithExprASTNode),
    /// A comparison.
    Comp(CompExprASTNode),
    /// A lazy boolean operation.
    LazyBool(LazyBoolExprASTNode),
    /// A negation.
    Neg(NegExprASTNode),
    /// A type cast.
    TypeCast(TypeCastASTNode),
    /// An expression in parentheses.
    Grouped(GroupedExprASTNode),
    /// A block.
    Block(BlockASTNode),
    /// An infinite loop.
    InfLoop(InfLoopASTNode),
    /// A while loop.
    While(WhileASTNode),
    /// An if expression.
    If(IfASTNode),
    /// An unsafe block.
    UnsafeBlock(UnsafeBlockASTNode),
    /// A return expression.
    Return(ReturnASTNode),
}

/// What an [`Expr`] stands for.
pub enum ExprView {
    Literal(LiteralBoxView),
    Path(PathView),
    Underscore(UnderscoreView),
    FunCall(FunCallView),
    Assign(AssignView),
    Arith(ArithExprView),
    Comp(CompExprView),
    LazyBool(LazyBoolExprView),
    Neg(NegExprView),
    TypeCast(TypeCastView),
    Grouped(GroupedExprView),
    Block(BlockView),
    InfLoop(InfLoopView),
    While(WhileView),
    If(IfView),
    UnsafeBlock(UnsafeBlockView),
    Return(ReturnView),
}

impl View for Expr {
    type V = ExprView;

    open spec fn view(&self) -> ExprView
        decreases self, 0nat,
    {
        match self {
            Expr::Literal(n) => ExprView::Literal(n@),
            Expr::Path(n) => ExprView::Path(n@),
            Expr::Underscore(n) => ExprView::Underscore(n@),
            Expr::FunCall(n) => ExprView::FunCall(n@),
            Expr::Assign(n) => ExprView::Assign(n@),
            Expr::Arith(n) => ExprView::Arith(n@),
            Expr::Comp(n) => ExprView::Comp(n@),
            Expr::LazyBool(n) => ExprView::LazyBool(n@),
            Expr::Neg(n) => ExprView::Neg(n@),
            Expr::TypeCast(n) => ExprView::TypeCast(n@),
            Expr::Grouped(n) => ExprView::Grouped(n@),
            Expr::Block(n) => ExprView::Block(n@),
            Expr::InfLoop(n) => ExprView::InfLoop(n@),
            Expr::While(n) => ExprView::While(n@),
            Expr::If(n) => ExprView::If(n@),
            Expr::UnsafeBlock(n) => ExprView::UnsafeBlock(n@),
            Expr::Return(n) => ExprView::Return(n@),
        }
    }
}

impl ExprView {
    /// Whether the expression denotes a storage location: a path does.
    pub open spec fn is_place(self) -> bool {
        self is Path
    }

    /// Whether the expression yields a value: every expression but the underscore does.
    pub open spec fn is_value(self) -> bool {
        !(self is Underscore)
    }

    /// Whether the expression may stand on the left of an assignment or as the pattern of
    /// a declaration: a path and the underscore may.
    pub open spec fn is_assignee(self) -> bool {
        self is Path || self is Underscore
    }
}

/// The span of an expression.
pub open spec fn span_of(e: ExprView) -> Span {
    match e {
        ExprView::Literal(n) => n.span(),
        ExprView::Path(n) => n.span,
        ExprView::Underscore(n) => n.span,
        ExprView::FunCall(n) => n.span,
        ExprView::Assign(n) => n.span,
        ExprView::Arith(n) => n.span,
        ExprView::Comp(n) => n.span,
        ExprView::LazyBool(n) => n.span,
        ExprView::Neg(n) => n.span,
        ExprView::TypeCast(n) => n.span,
        ExprView::Grouped(n) => n.span,
        ExprView::Block(n) => n.span,
        ExprView::InfLoop(n) => n.span,
        ExprView::While(n) => n.span,
        ExprView::If(n) => n.span,
        ExprView::UnsafeBlock(n) => n.span,
        ExprView::Return(n) => n.span,
    }
}

impl Expr {
    /// Returns the span of the source text that the expression was read from.
    pub fn span(&self) -> (r: Span)
        ensures
            r == span_of(self@),
    {
        match self {
            Expr::Literal(n) => n.span(),
            Expr::Path(n) => n.span(),
            Expr::Underscore(n) => n.span(),
            Expr::FunCall(n) => n.span(),
            Expr::Assign(n) => n.span(),
            Expr::Arith(n) => n.span(),
            Expr::Comp(n) => n.span(),
            Expr::LazyBool(n) => n.span(),
            Expr::Neg(n) => n.span(),
            Expr::TypeCast(n) => n.span(),
            Expr::Grouped(n) => n.span(),
            Expr::Block(n) => n.span(),
            Expr::InfLoop(n) => n.span(),
            Expr::While(n) => n.span(),
            Expr::If(n) => n.span(),
            Expr::UnsafeBlock(n) => n.span(),
            Expr::Return(n) => n.span(),
        }
    }

    /// Returns the name of the variable that the expression names as an assignee: that of
    /// a path, and none for any other expression.
    pub fn pattern(&self) -> (r: Option<String>)
        ensures
            match r {
                Some(name) => self@ is Path && name@ == self@->Path_0.path,
                None => !(self@ is Path),
            },
    {
        match self {
            Expr::Path(n) => n.pattern(),
            _ => None,
        }
    }
}

/// The capabilities of an expression go by its variant: a path is a place, a value and an
/// assignee; the underscore is an assignee only; every other expression is a value only.
impl ExprASTNode for Expr {
    open spec fn is_place(&self) -> bool {
        self@.is_place()
    }

    open spec fn is_value(&self) -> bool {
        self@.is_value()
    }

    open spec fn is_assignee(&self) -> bool {
        self@.is_assignee()
    }

    proof fn lemma_place_is_assignee(&self) {
    }

    fn try_as_place(&self) -> (r: Option<&Self>) {
        match self {
            Expr::Path(_) => Some(self),
            _ => None,
        }
    }

    fn try_as_value(&self) -> (r: Option<&Self>) {
        match self {
            Expr::Underscore(_) => None,
            _ => Some(self),
        }
    }

    fn try_as_assignee(&self) -> (r: Option<&Self>) {
        match self {
            Expr::Path(_) => Some(self),
            Expr::Underscore(_) => Some(self),
            _ => None,
        }
    }
}

/// What follows the `then` block of an if expression.
#[derive(Debug, PartialEq)]
pub enum ElseExpr {
    /// Nothing.
    Nothing,
    /// `else` and a block.
    Else(Box<BlockASTNode>),
    /// `else` and another if expression.
    ElseIf(Box<IfASTNode>),
}

/// What an [`ElseExpr`] stands for.
pub enum ElseExprView {
    Nothing,
    Else(Box<BlockView>),
    ElseIf(Box<IfView>),
}

impl View for ElseExpr {
    type V = ElseExprView;

    open spec fn view(&self) -> ElseExprView
        decreases self, 0nat,
    {
        match self {
            ElseExpr::Nothing => ElseExprView::Nothing,
            ElseExpr::Else(block) => ElseExprView::Else(Box::new((**block)@)),
            ElseExpr::ElseIf(node) => ElseExprView::ElseIf(Box::new((**node)@)),
        }
    }
}

/// The chain of `else if` nodes that hangs below an if expression, outermost first.
pub open spec fn else_ifs(v: IfView) -> Seq<IfView>
    decreases v,
{
    match v.else_node {
        ElseExprView::ElseIf(node) => seq![*node] + else_ifs(*node),
        _ => Seq::empty(),
    }
}

/// The block of the `else` that ends the chain of `else if` nodes below an if expression,
/// if there is one.
pub open spec fn final_else(v: IfView) -> Option<BlockView>
    decreases v,
{
    match v.else_node {
        ElseExprView::ElseIf(node) => final_else(*node),
        ElseExprView::Else(block) => Some(*block),
        ElseExprView::Nothing => None,
    }
}

/// The views of the first `n` expressions of `v`, in order.
pub closed spec fn expr_views(v: &Vec<Expr>, n: nat) -> Seq<ExprView>
    decreases v, n,
{
    if n == 0 || n > v@.len() {
        Seq::empty()
    } else {
        expr_views(v, (n - 1) as nat).push(v@[n - 1]@)
    }
}

/// The views of the first `n` statements of `v`, in order.
pub closed spec fn stmt_views(v: &Vec<Stmt>, n: nat) -> Seq<StmtView>
    decreases v, n,
{
    if n == 0 || n > v@.len() {
        Seq::empty()
    } else {
        stmt_views(v, (n - 1) as nat).push(v@[n - 1]@)
    }
}

proof fn lemma_expr_views(v: &Vec<Expr>, n: nat)
    requires
        n <= v@.len(),
    ensures
        expr_views(v, n) == views(v@.take(n as int)),
        n == v@.len() ==> expr_views(v, n) == views(v@),
    decreases n,
{
    if n > 0 {
        lemma_expr_views(v, (n - 1) as nat);
        assert(v@.take(n as int) =~= v@.take(n - 1).push(v@[n - 1]));
        lemma_views_push(v@.take(n - 1), v@[n - 1]);
    } else {
        assert(views(v@.take(0)) =~= Seq::<ExprView>::empty());
    }
    if n == v@.len() {
        assert(v@.take(n as int) =~= v@);
    }
}

proof fn lemma_stmt_views(v: &Vec<Stmt>, n: nat)
    requires
        n <= v@.len(),
    ensures
        stmt_views(v, n) == views(v@.take(n as int)),
        n == v@.len() ==> stmt_views(v, n) == views(v@),
    decreases n,
{
    if n > 0 {
        lemma_stmt_views(v, (n - 1) as nat);
        assert(v@.take(n as int) =~= v@.take(n - 1).push(v@[n - 1]));
        lemma_views_push(v@.take(n - 1), v@[n - 1]);
    } else {
        assert(views(v@.take(0)) =~= Seq::<StmtView>::empty());
    }
    if n == v@.len() {
        assert(v@.take(n as int) =~= v@);
    }
}

/// An AST node representing a path: the name of a variable or of a function.
#[derive(Debug, Clone, PartialEq, Eq)]
pub struct PathASTNode {
    path: String,
    span: Span,
}

/// What a [`PathASTNode`] stands for.
pub struct PathView {
    /// The name.
    pub path: Seq<char>,
    /// The span of the source text that the node was read from.
    pub span: Span,
}

impl View for PathASTNode {
    type V = PathView;

    closed spec fn view(&self) -> PathView
    {
        PathView {
            path: self.path@,
            span: self.span,
        }
    }
}

impl PathASTNode {
    /// Creates a new `PathASTNode` with the given name and span.
    pub fn new(path: String, span: Span) -> (r: PathASTNode)
        ensures
            r@ == (PathView {
                path: path@,
                span,
            }),
    {
        let r = PathASTNode { path, span };
        r
    }

    /// Returns the name.
    pub fn path(&self) -> (r: &str)
        ensures
            r@ == self@.path,
    {
        self.path.as_str()
    }

    /// Returns the span of the source text that the node was read from.
    pub fn span(&self) -> (r: Span)
        ensures
            r == self@.span,
    {
        self.span
    }
}

impl ExprASTNode for PathASTNode {
    open spec fn is_place(&self) -> bool {
        true
    }

    open spec fn is_value(&self) -> bool {
        true
    }

    open spec fn is_assignee(&self) -> bool {
        true
    }

    proof fn lemma_place_is_assignee(&self) {
    }

    fn try_as_place(&self) -> (r: Option<&Self>) {
        Some(self)
    }

    fn try_as_value(&self) -> (r: Option<&Self>) {
        Some(self)
    }

    fn try_as_assignee(&self) -> (r: Option<&Self>) {
        Some(self)
    }
}

impl ValueExprASTNode for PathASTNode {

}

impl AsExprASTNode for PathASTNode {
    open spec fn expr_view(&self) -> ExprView {
        ExprView::Path(self@)
    }

    fn as_expr(self) -> (r: Expr) {
        Expr::Path(self)
    }
}

/// An AST node representing the underscore expression `_`, which stands for an assignee whose
/// value is discarded.
#[derive(Debug, Clone, Copy, PartialEq, Eq)]
pub struct UnderscoreASTNode {
    span: Span,
}

/// What an [`UnderscoreASTNode`] stands for.
pub struct UnderscoreView {
    /// The span of the source text that the node was read from.
    pub span: Span,
}

impl View for UnderscoreASTNode {
    type V = UnderscoreView;

    closed spec fn view(&self) -> UnderscoreView
    {
        UnderscoreView {
            span: self.span,
        }
    }
}

impl UnderscoreASTNode {
    /// Creates a new `UnderscoreASTNode` with the given span.
    pub fn new(span: Span) -> (r: UnderscoreASTNode)
        ensures
            r@ == (UnderscoreView {
                span,
            }),
    {
        let r = UnderscoreASTNode { span };
        r
    }

    /// Returns the span of the source text that the node was read from.
    pub fn span(&self) -> (r: Span)
        ensures
            r == self@.span,
    {
        self.span
    }
}

impl ExprASTNode for UnderscoreASTNode {
    open spec fn is_place(&self) -> bool {
        false
    }

    open spec fn is_value(&self) -> bool {
        false
    }

    open spec fn is_assignee(&self) -> bool {
        true
    }

    proof fn lemma_place_is_assignee(&self) {
    }

    fn try_as_place(&self) -> (r: Option<&Self>) {
        None
    }

    fn try_as_value(&self) -> (r: Option<&Self>) {
        None
    }

    fn try_as_assignee(&self) -> (r: Option<&Self>) {
        Some(self)
    }
}

impl AsExprASTNode for UnderscoreASTNode {
    open spec fn expr_view(&self) -> ExprView {
        ExprView::Underscore(self@)
    }

    fn as_expr(self) -> (r: Expr) {
        Expr::Underscore(self)
    }
}

impl AssigneeExprASTNode for PathASTNode {
    open spec fn pattern_name(&self) -> Option<Seq<char>> {
        Some(self@.path)
    }

    fn pattern(&self) -> (r: Option<String>) {
        Some(self.path.clone())
    }
}

impl PlaceExprASTNode for PathASTNode {

}

impl AssigneeExprASTNode for UnderscoreASTNode {
    open spec fn pattern_name(&self) -> Option<Seq<char>> {
        None
    }

    fn pattern(&self) -> (r: Option<String>) {
        None
    }
}

/// An AST node representing a function call.
#[derive(Debug, PartialEq)]
pub struct FunCallASTNode {
    path: Box<PathASTNode>,
    args: Vec<Expr>,
    span: Span,
}

/// What a [`FunCallASTNode`] stands for.
pub struct FunCallView {
    /// The path of the function that is called.
    pub path: PathView,
    /// The arguments of the call, in order.
    pub args: Seq<ExprView>,
    /// The span of the source text that the node was read from.
    pub span: Span,
}

impl View for FunCallASTNode {
    type V = FunCallView;

    closed spec fn view(&self) -> FunCallView
        decreases self, 0nat,
    {
        FunCallView {
            path: (*self.path)@,
            args: expr_views(&self.args, self.args@.len()),
            span: self.span,
        }
    }
}

impl FunCallASTNode {
    /// Creates a new `FunCallASTNode` with the given path, arguments and span.
    pub fn new(path: Box<PathASTNode>, args: Vec<Expr>, span: Span) -> (r: FunCallASTNode)
        ensures
            r@ == (FunCallView {
                path: (*path)@,
                args: views(args@),
                span,
            }),
    {
        let r = FunCallASTNode { path, args, span };
        proof {
            lemma_expr_views(&r.args, r.args@.len());
        }
        r
    }

    /// Returns the path of the function that is called.
    pub fn path_node(&self) -> (r: &PathASTNode)
        ensures
            r@ == self@.path,
    {
        &*self.path
    }

    /// Returns the arguments of the call, in order.
    pub fn args(&self) -> (r: &Vec<Expr>)
        ensures
            views(r@) == self@.args,
    {
        proof {
            lemma_expr_views(&self.args, self.args@.len());
        }
        &self.args
    }

    /// Returns the name of the function that is called.
    pub fn path(&self) -> (r: &str)
        ensures
            r@ == self@.path.path,
    {
        self.path.path()
    }

    /// Returns the span of the source text that the node was read from.
    pub fn span(&self) -> (r: Span)
        ensures
            r == self@.span,
    {
        self.span
    }
}

impl ExprASTNode for FunCallASTNode {
    open spec fn is_place(&self) -> bool {
        false
    }

    open spec fn is_value(&self) -> bool {
        true
    }

    open spec fn is_assignee(&self) -> bool {
        false
    }

    proof fn lemma_place_is_assignee(&self) {
    }

    fn try_as_place(&self) -> (r: Option<&Self>) {
        None
    }

    fn try_as_value(&self) -> (r: Option<&Self>) {
        Some(self)
    }

    fn try_as_assignee(&self) -> (r: Option<&Self>) {
        None
    }
}

impl ValueExprASTNode for FunCallASTNode {

}

impl AsExprASTNode for FunCallASTNode {
    open spec fn expr_view(&self) -> ExprView {
        ExprView::FunCall(self@)
    }

    fn as_expr(self) -> (r: Expr) {
        Expr::FunCall(self)
    }
}

/// An AST node representing an assignment. An assignment yields the unit value.
#[derive(Debug, PartialEq)]
pub struct AssignASTNode {
    assignee: Box<Expr>,
    value: Box<Expr>,
    span: Span,
}

/// What an [`AssignASTNode`] stands for.
pub struct AssignView {
    /// The expression that is assigned to.
    pub assignee: Box<ExprView>,
    /// The expression whose value is assigned.
    pub value: Box<ExprView>,
    /// The span of the source text that the node was read from.
    pub span: Span,
}

impl View for AssignASTNode {
    type V = AssignView;

    closed spec fn view(&self) -> AssignView
        decreases self, 0nat,
    {
        AssignView {
            assignee: Box::new((*self.assignee)@),
            value: Box::new((*self.value)@),
            span: self.span,
        }
    }
}

impl AssignASTNode {
    /// Creates a new `AssignASTNode` with the given assignee, value and span.
    pub fn new(assignee: Box<Expr>, value: Box<Expr>, span: Span) -> (r: AssignASTNode)
        ensures
            r@ == (AssignView {
                assignee: Box::new((*assignee)@),
                value: Box::new((*value)@),
                span,
            }),
    {
        let r = AssignASTNode { assignee, value, span };
        r
    }

    /// Returns the expression that is assigned to.
    pub fn assignee_expr(&self) -> (r: &Expr)
        ensures
            r@ == *self@.assignee,
    {
        &*self.assignee
    }

    /// Returns the expression whose value is assigned.
    pub fn value_expr(&self) -> (r: &Expr)
        ensures
            r@ == *self@.value,
    {
        &*self.value
    }

    /// Returns the assignee, if it is an assignee expression: a path or the underscore.
    /// Any other assignee is a semantic error, which holds the span of the assignee.
    pub fn assignee(&self) -> (r: Result<&Expr, SemanticError>)
        ensures
            match r {
                Ok(e) => e@ == *self@.assignee && self@.assignee.is_assignee(),
                Err(e) => !self@.assignee.is_assignee() && e@ == (SemanticErrorView::WrongExpressionKind {
                    message: "Expected an assignee expression"@,
                    span: span_of(*self@.assignee),
                }),
            },
    {
        match self.assignee.try_as_assignee() {
            Some(e) => Ok(e),
            None => Err(
                SemanticError::WrongExpressionKind {
                    message: "Expected an assignee expression",
                    span: self.assignee.span(),
                },
            ),
        }
    }

    /// Returns the assigned expression, if it is a value expression: any expression but
    /// the underscore. The underscore is a semantic error, which holds its span.
    pub fn value(&self) -> (r: Result<&Expr, SemanticError>)
        ensures
            match r {
                Ok(e) => e@ == *self@.value && self@.value.is_value(),
                Err(e) => !self@.value.is_value() && e@ == (SemanticErrorView::WrongExpressionKind {
                    message: "Expected a value expression"@,
                    span: span_of(*self@.value),
                }),
            },
    {
        match self.value.try_as_value() {
            Some(e) => Ok(e),
            None => Err(
                SemanticError::WrongExpressionKind {
                    message: "Expected a value expression",
                    span: self.value.span(),
                },
            ),
        }
    }

    /// Returns the span of the source text that the node was read from.
    pub fn span(&self) -> (r: Span)
        ensures
            r == self@.span,
    {
        self.span
    }
}

impl ExprASTNode for AssignASTNode {
    open spec fn is_place(&self) -> bool {
        false
    }

    open spec fn is_value(&self) -> bool {
        true
    }

    open spec fn is_assignee(&self) -> bool {
        false
    }

    proof fn lemma_place_is_assignee(&self) {
    }

    fn try_as_place(&self) -> (r: Option<&Self>) {
        None
    }

    fn try_as_value(&self) -> (r: Option<&Self>) {
        Some(self)
    }

    fn try_as_assignee(&self) -> (r: Option<&Self>) {
        None
    }
}

impl ValueExprASTNode for AssignASTNode {

}

impl AsExprASTNode for AssignASTNode {
    open spec fn expr_view(&self) -> ExprView {
        ExprView::Assign(self@)
    }

    fn as_expr(self) -> (r: Expr) {
        Expr::Assign(self)
    }
}

/// An AST node representing the application of an arithmetic or logical binary operator to two
/// operands.
#[derive(Debug, PartialEq)]
pub struct ArithExprASTNode {
    operator: ArithOperator,
    lhs: Box<Expr>,
    rhs: Box<Expr>,
    span: Span,
}

/// What an [`ArithExprASTNode`] stands for.
pub struct ArithExprView {
    /// The operator.
    pub operator: ArithOperator,
    /// The left-hand side of the operator.
    pub lhs: Box<ExprView>,
    /// The right-hand side of the operator.
    pub rhs: Box<ExprView>,
    /// The span of the source text that the node was read from.
    pub span: Span,
}

impl View for ArithExprASTNode {
    type V = ArithExprView;

    closed spec fn view(&self) -> ArithExprView
        decreases self, 0nat,
    {
        ArithExprView {
            operator: self.operator,
            lhs: Box::new((*self.lhs)@),
            rhs: Box::new((*self.rhs)@),
            span: self.span,
        }
    }
}

impl ArithExprASTNode {
    /// Creates a new `ArithExprASTNode` with the given operator, operands and span.
    pub fn new(
        operator: ArithOperator,
        lhs: Box<Expr>,
        rhs: Box<Expr>,
        span: Span,
    ) -> (r: ArithExprASTNode)
        ensures
            r@ == (ArithExprView {
                operator: operator,
                lhs: Box::new((*lhs)@),
                rhs: Box::new((*rhs)@),
                span,
            }),
    {
        let r = ArithExprASTNode { operator, lhs, rhs, span };
        r
    }

    /// Returns the operator.
    pub fn operator(&self) -> (r: ArithOperator)
        ensures
            r == self@.operator,
    {
        self.operator
    }

    /// Returns the left-hand side of the operator.
    pub fn lhs(&self) -> (r: &Expr)
        ensures
            r@ == *self@.lhs,
    {
        &*self.lhs
    }

    /// Returns the right-hand side of the operator.
    pub fn rhs(&self) -> (r: &Expr)
        ensures
            r@ == *self@.rhs,
    {
        &*self.rhs
    }

    /// Returns the span of the source text that the node was read from.
    pub fn span(&self) -> (r: Span)
        ensures
            r == self@.span,
    {
        self.span
    }
}

impl ExprASTNode for ArithExprASTNode {
    open spec fn is_place(&self) -> bool {
        false
    }

    open spec fn is_value(&self) -> bool {
        true
    }

    open spec fn is_assignee(&self) -> bool {
        false
    }

    proof fn lemma_place_is_assignee(&self) {
    }

    fn try_as_place(&self) -> (r: Option<&Self>) {
        None
    }

    fn try_as_value(&self) -> (r: Option<&Self>) {
        Some(self)
    }

    fn try_as_assignee(&self) -> (r: Option<&Self>) {
        None
    }
}

impl ValueExprASTNode for ArithExprASTNode {

}

impl AsExprASTNode for ArithExprASTNode {
    open spec fn expr_view(&self) -> ExprView {
        ExprView::Arith(self@)
    }

    fn as_expr(self) -> (r: Expr) {
        Expr::Arith(self)
    }
}

/// An AST node representing the application of a comparison operator to two operands.
#[derive(Debug, PartialEq)]
pub struct CompExprASTNode {
    operator: CompOperator,
    lhs: Box<Expr>,
    rhs: Box<Expr>,
    span: Span,
}

/// What a [`CompExprASTNode`] stands for.
pub struct CompExprView {
    /// The operator.
    pub operator: CompOperator,
    /// The left-hand side of the operator.
    pub lhs: Box<ExprView>,
    /// The right-hand side of the operator.
    pub rhs: Box<ExprView>,
    /// The span of the source text that the node was read from.
    pub span: Span,
}

impl View for CompExprASTNode {
    type V = CompExprView;

    closed spec fn view(&self) -> CompExprView
        decreases self, 0nat,
    {
        CompExprView {
            operator: self.operator,
            lhs: Box::new((*self.lhs)@),
            rhs: Box::new((*self.rhs)@),
            span: self.span,
        }
    }
}

impl CompExprASTNode {
    /// Creates a new `CompExprASTNode` with the given operator, operands and span.
    pub fn new(
        operator: CompOperator,
        lhs: Box<Expr>,
        rhs: Box<Expr>,
        span: Span,
    ) -> (r: CompExprASTNode)
        ensures
            r@ == (CompExprView {
                operator: operator,
                lhs: Box::new((*lhs)@),
                rhs: Box::new((*rhs)@),
                span,
            }),
    {
        let r = CompExprASTNode { operator, lhs, rhs, span };
        r
    }

    /// Returns the operator.
    pub fn operator(&self) -> (r: CompOperator)
        ensures
            r == self@.operator,
    {
        self.operator
    }

    /// Returns the left-hand side of the operator.
    pub fn lhs(&self) -> (r: &Expr)
        ensures
            r@ == *self@.lhs,
    {
        &*self.lhs
    }

    /// Returns the right-hand side of the operator.
    pub fn rhs(&self) -> (r: &Expr)
        ensures
            r@ == *self@.rhs,
    {
        &*self.rhs
    }

    /// Returns the span of the source text that the node was read from.
    pub fn span(&self) -> (r: Span)
        ensures
            r == self@.span,
    {
        self.span
    }
}

impl ExprASTNode for CompExprASTNode {
    open spec fn is_place(&self) -> bool {
        false
    }

    open spec fn is_value(&self) -> bool {
        true
    }

    open spec fn is_assignee(&self) -> bool {
        false
    }

    proof fn lemma_place_is_assignee(&self) {
    }

    fn try_as_place(&self) -> (r: Option<&Self>) {
        None
    }

    fn try_as_value(&self) -> (r: Option<&Self>) {
        Some(self)
    }

    fn try_as_assignee(&self) -> (r: Option<&Self>) {
        None
    }
}

impl ValueExprASTNode for CompExprASTNode {

}

impl AsExprASTNode for CompExprASTNode {
    open spec fn expr_view(&self) -> ExprView {
        ExprView::Comp(self@)
    }

    fn as_expr(self) -> (r: Expr) {
        Expr::Comp(self)
    }
}

/// An AST node representing the application of a lazy boolean operator to two operands.
#[derive(Debug, PartialEq)]
pub struct LazyBoolExprASTNode {
    operator: LazyBoolOperator,
    lhs: Box<Expr>,
    rhs: Box<Expr>,
    span: Span,
}

/// What a [`LazyBoolExprASTNode`] stands for.
pub struct LazyBoolExprView {
    /// The operator.
    pub operator: LazyBoolOperator,
    /// The left-hand side of the operator.
    pub lhs: Box<ExprView>,
    /// The right-hand side of the operator.
    pub rhs: Box<ExprView>,
    /// The span of the source text that the node was read from.
    pub span: Span,
}

impl View for LazyBoolExprASTNode {
    type V = LazyBoolExprView;

    closed spec fn view(&self) -> LazyBoolExprView
        decreases self, 0nat,
    {
        LazyBoolExprView {
            operator: self.operator,
            lhs: Box::new((*self.lhs)@),
            rhs: Box::new((*self.rhs)@),
            span: self.span,
        }
    }
}

impl LazyBoolExprASTNode {
    /// Creates a new `LazyBoolExprASTNode` with the given operator, operands and span.
    pub fn new(
        operator: LazyBoolOperator,
        lhs: Box<Expr>,
        rhs: Box<Expr>,
        span: Span,
    ) -> (r: LazyBoolExprASTNode)
        ensures
            r@ == (LazyBoolExprView {
                operator: operator,
                lhs: Box::new((*lhs)@),
                rhs: Box::new((*rhs)@),
                span,
            }),
    {
        let r = LazyBoolExprASTNode { operator, lhs, rhs, span };
        r
    }

    /// Returns the operator.
    pub fn operator(&self) -> (r: LazyBoolOperator)
        ensures
            r == self@.operator,
    {
        self.operator
    }

    /// Returns the left-hand side of the operator.
    pub fn lhs(&self) -> (r: &Expr)
        ensures
            r@ == *self@.lhs,
    {
        &*self.lhs
    }

    /// Returns the right-hand side of the operator.
    pub fn rhs(&self) -> (r: &Expr)
        ensures
            r@ == *self@.rhs,
    {
        &*self.rhs
    }

    /// Returns the span of the source text that the node was read from.
    pub fn span(&self) -> (r: Span)
        ensures
            r == self@.span,
    {
        self.span
    }
}

impl ExprASTNode for LazyBoolExprASTNode {
    open spec fn is_place(&self) -> bool {
        false
    }

    open spec fn is_value(&self) -> bool {
        true
    }

    open spec fn is_assignee(&self) -> bool {
        false
    }

    proof fn lemma_place_is_assignee(&self) {
    }

    fn try_as_place(&self) -> (r: Option<&Self>) {
        None
    }

    fn try_as_value(&self) -> (r: Option<&Self>) {
        Some(self)
    }

    fn try_as_assignee(&self) -> (r: Option<&Self>) {
        None
    }
}

impl ValueExprASTNode for LazyBoolExprASTNode {

}

impl AsExprASTNode for LazyBoolExprASTNode {
    open spec fn expr_view(&self) -> ExprView {
        ExprView::LazyBool(self@)
    }

    fn as_expr(self) -> (r: Expr) {
        Expr::LazyBool(self)
    }
}

/// An AST node representing the application of a negation operator.
#[derive(Debug, PartialEq)]
pub struct NegExprASTNode {
    operator: NegOperator,
    expr: Box<Expr>,
    span: Span,
}

/// What a [`NegExprASTNode`] stands for.
pub struct NegExprView {
    /// The operator.
    pub operator: NegOperator,
    /// The operand.
    pub expr: Box<ExprView>,
    /// The span of the source text that the node was read from.
    pub span: Span,
}

impl View for NegExprASTNode {
    type V = NegExprView;

    closed spec fn view(&self) -> NegExprView
        decreases self, 0nat,
    {
        NegExprView {
            operator: self.operator,
            expr: Box::new((*self.expr)@),
            span: self.span,
        }
    }
}

impl NegExprASTNode {
    /// Creates a new `NegExprASTNode` with the given operator, operand and span.
    pub fn new(operator: NegOperator, expr: Box<Expr>, span: Span) -> (r: NegExprASTNode)
        ensures
            r@ == (NegExprView {
                operator: operator,
                expr: Box::new((*expr)@),
                span,
            }),
    {
        let r = NegExprASTNode { operator, expr, span };
        r
    }

    /// Returns the operator.
    pub fn operator(&self) -> (r: NegOperator)
        ensures
            r == self@.operator,
    {
        self.operator
    }

    /// Returns the operand.
    pub fn expr(&self) -> (r: &Expr)
        ensures
            r@ == *self@.expr,
    {
        &*self.expr
    }

    /// Returns the span of the source text that the node was read from.
    pub fn span(&self) -> (r: Span)
        ensures
            r == self@.span,
    {
        self.span
    }
}

impl ExprASTNode for NegExprASTNode {
    open spec fn is_place(&self) -> bool {
        false
    }

    open spec fn is_value(&self) -> bool {
        true
    }

    open spec fn is_assignee(&self) -> bool {
        false
    }

    proof fn lemma_place_is_assignee(&self) {
    }

    fn try_as_place(&self) -> (r: Option<&Self>) {
        None
    }

    fn try_as_value(&self) -> (r: Option<&Self>) {
        Some(self)
    }

    fn try_as_assignee(&self) -> (r: Option<&Self>) {
        None
    }
}

impl ValueExprASTNode for NegExprASTNode {

}

impl AsExprASTNode for NegExprASTNode {
    open spec fn expr_view(&self) -> ExprView {
        ExprView::Neg(self@)
    }

    fn as_expr(self) -> (r: Expr) {
        Expr::Neg(self)
    }
}

/// An AST node representing a type cast.
#[derive(Debug, PartialEq)]
pub struct TypeCastASTNode {
    value: Box<Expr>,
    ty: TypeASTMetaNode,
    span: Span,
}

/// What a [`TypeCastASTNode`] stands for.
pub struct TypeCastView {
    /// The expression that is cast.
    pub value: Box<ExprView>,
    /// The type that the expression is cast to.
    pub ty: TypeASTMetaNode,
    /// The span of the source text that the node was read from.
    pub span: Span,
}

impl View for TypeCastASTNode {
    type V = TypeCastView;

    closed spec fn view(&self) -> TypeCastView
        decreases self, 0nat,
    {
        TypeCastView {
            value: Box::new((*self.value)@),
            ty: self.ty,
            span: self.span,
        }
    }
}

impl TypeCastASTNode {
    /// Creates a new `TypeCastASTNode` with the given value, type and span.
    pub fn new(value: Box<Expr>, ty: TypeASTMetaNode, span: Span) -> (r: TypeCastASTNode)
        ensures
            r@ == (TypeCastView {
                value: Box::new((*value)@),
                ty: ty,
                span,
            }),
    {
        let r = TypeCastASTNode { value, ty, span };
        r
    }

    /// Returns the expression that is cast.
    pub fn value(&self) -> (r: &Expr)
        ensures
            r@ == *self@.value,
    {
        &*self.value
    }

    /// Returns the type that the expression is cast to.
    pub fn ty(&self) -> (r: TypeASTMetaNode)
        ensures
            r == self@.ty,
    {
        self.ty
    }

    /// Returns the span of the source text that the node was read from.
    pub fn span(&self) -> (r: Span)
        ensures
            r == self@.span,
    {
        self.span
    }
}

impl ExprASTNode for TypeCastASTNode {
    open spec fn is_place(&self) -> bool {
        false
    }

    open spec fn is_value(&self) -> bool {
        true
    }

    open spec fn is_assignee(&self) -> bool {
        false
    }

    proof fn lemma_place_is_assignee(&self) {
    }

    fn try_as_place(&self) -> (r: Option<&Self>) {
        None
    }

    fn try_as_value(&self) -> (r: Option<&Self>) {
        Some(self)
    }

    fn try_as_assignee(&self) -> (r: Option<&Self>) {
        None
    }
}

impl ValueExprASTNode for TypeCastASTNode {

}

impl AsExprASTNode for TypeCastASTNode {
    open spec fn expr_view(&self) -> ExprView {
        ExprView::TypeCast(self@)
    }

    fn as_expr(self) -> (r: Expr) {
        Expr::TypeCast(self)
    }
}

/// An AST node representing an expression in parentheses.
#[derive(Debug, PartialEq)]
pub struct GroupedExprASTNode {
    expr: Box<Expr>,
    span: Span,
}

/// What a [`GroupedExprASTNode`] stands for.
pub struct GroupedExprView {
    /// The expression between the parentheses.
    pub expr: Box<ExprView>,
    /// The span of the source text that the node was read from.
    pub span: Span,
}

impl View for GroupedExprASTNode {
    type V = GroupedExprView;

    closed spec fn view(&self) -> GroupedExprView
        decreases self, 0nat,
    {
        GroupedExprView {
            expr: Box::new((*self.expr)@),
            span: self.span,
        }
    }
}

impl GroupedExprASTNode {
    /// Creates a new `GroupedExprASTNode` with the given expression and span.
    pub fn new(expr: Box<Expr>, span: Span) -> (r: GroupedExprASTNode)
        ensures
            r@ == (GroupedExprView {
                expr: Box::new((*expr)@),
                span,
            }),
    {
        let r = GroupedExprASTNode { expr, span };
        r
    }

    /// Returns the expression between the parentheses.
    pub fn expr(&self) -> (r: &Expr)
        ensures
            r@ == *self@.expr,
    {
        &*self.expr
    }

    /// Returns the span of the source text that the node was read from.
    pub fn span(&self) -> (r: Span)
        ensures
            r == self@.span,
    {
        self.span
    }
}

impl ExprASTNode for GroupedExprASTNode {
    open spec fn is_place(&self) -> bool {
        false
    }

    open spec fn is_value(&self) -> bool {
        true
    }

    open spec fn is_assignee(&self) -> bool {
        false
    }

    proof fn lemma_place_is_assignee(&self) {
    }

    fn try_as_place(&self) -> (r: Option<&Self>) {
        None
    }

    fn try_as_value(&self) -> (r: Option<&Self>) {
        Some(self)
    }

    fn try_as_assignee(&self) -> (r: Option<&Self>) {
        None
    }
}

impl ValueExprASTNode for GroupedExprASTNode {

}

impl AsExprASTNode for GroupedExprASTNode {
    open spec fn expr_view(&self) -> ExprView {
        ExprView::Grouped(self@)
    }

    fn as_expr(self) -> (r: Expr) {
        Expr::Grouped(self)
    }
}

/// An AST node representing a block: statements and, at its end, an expression that gives the
/// value of the block, if there is one.
#[derive(Debug, PartialEq)]
pub struct BlockASTNode {
    statements: Vec<Stmt>,
    return_expr: Option<Box<Expr>>,
    span: Span,
}

/// What a [`BlockASTNode`] stands for.
pub struct BlockView {
    /// The statements of the block, in order.
    pub statements: Seq<StmtView>,
    /// The expression that gives the value of the block, if there is one.
    pub return_expr: Option<Box<ExprView>>,
    /// The span of the source text that the node was read from.
    pub span: Span,
}

impl View for BlockASTNode {
    type V = BlockView;

    closed spec fn view(&self) -> BlockView
        decreases self, 0nat,
    {
        BlockView {
            statements: stmt_views(&self.statements, self.statements@.len()),
            return_expr: match self.return_expr { Some(e) => Some(Box::new((*e)@)), None => None },
            span: self.span,
        }
    }
}

impl BlockASTNode {
    /// Creates a new `BlockASTNode` with the given statements and span, and without a final
    /// expression.
    pub fn new(statements: Vec<Stmt>, span: Span) -> (r: BlockASTNode)
        ensures
            r@ == (BlockView {
                statements: views(statements@),
                return_expr: None,
                span,
            }),
    {
        let r = BlockASTNode { statements, return_expr: None, span };
        proof {
            lemma_stmt_views(&r.statements, r.statements@.len());
        }
        r
    }

    /// Creates a new `BlockASTNode` with the given statements, final expression and span.
    pub fn new_with_return(
        statements: Vec<Stmt>,
        return_expr: Box<Expr>,
        span: Span,
    ) -> (r: BlockASTNode)
        ensures
            r@ == (BlockView {
                statements: views(statements@),
                return_expr: Some(Box::new((*return_expr)@)),
                span,
            }),
    {
        let r = BlockASTNode { statements, return_expr: Some(return_expr), span };
        proof {
            lemma_stmt_views(&r.statements, r.statements@.len());
        }
        r
    }

    /// Returns the statements of the block, in order.
    pub fn statements(&self) -> (r: &Vec<Stmt>)
        ensures
            views(r@) == self@.statements,
    {
        proof {
            lemma_stmt_views(&self.statements, self.statements@.len());
        }
        &self.statements
    }

    /// Returns the expression that gives the value of the block, if there is one.
    pub fn return_expr(&self) -> (r: Option<&Expr>)
        ensures
            match r { Some(e) => self@.return_expr == Some(Box::new(e@)), None => self@.return_expr is None },
    {
        match &self.return_expr { Some(e) => Some(&**e), None => None }
    }

    /// Returns the span of the source text that the node was read from.
    pub fn span(&self) -> (r: Span)
        ensures
            r == self@.span,
    {
        self.span
    }
}

impl ExprASTNode for BlockASTNode {
    open spec fn is_place(&self) -> bool {
        false
    }

    open spec fn is_value(&self) -> bool {
        true
    }

    open spec fn is_assignee(&self) -> bool {
        false
    }

    proof fn lemma_place_is_assignee(&self) {
    }

    fn try_as_place(&self) -> (r: Option<&Self>) {
        None
    }

    fn try_as_value(&self) -> (r: Option<&Self>) {
        Some(self)
    }

    fn try_as_assignee(&self) -> (r: Option<&Self>) {
        None
    }
}

impl ValueExprASTNode for BlockASTNode {

}

impl AsExprASTNode for BlockASTNode {
    open spec fn expr_view(&self) -> ExprView {
        ExprView::Block(self@)
    }

    fn as_expr(self) -> (r: Expr) {
        Expr::Block(self)
    }
}

/// An AST node representing an infinite loop.
#[derive(Debug, PartialEq)]
pub struct InfLoopASTNode {
    block: Box<BlockASTNode>,
    span: Span,
}

/// What an [`InfLoopASTNode`] stands for.
pub struct InfLoopView {
    /// The body of the loop.
    pub block: Box<BlockView>,
    /// The span of the source text that the node was read from.
    pub span: Span,
}

impl View for InfLoopASTNode {
    type V = InfLoopView;

    closed spec fn view(&self) -> InfLoopView
        decreases self, 0nat,
    {
        InfLoopView {
            block: Box::new((*self.block)@),
            span: self.span,
        }
    }
}

impl InfLoopASTNode {
    /// Creates a new `InfLoopASTNode` with the given body and span.
    pub fn new(block: Box<BlockASTNode>, span: Span) -> (r: InfLoopASTNode)
        ensures
            r@ == (InfLoopView {
                block: Box::new((*block)@),
                span,
            }),
    {
        let r = InfLoopASTNode { block, span };
        r
    }

    /// Returns the body of the loop.
    pub fn block(&self) -> (r: &BlockASTNode)
        ensures
            r@ == *self@.block,
    {
        &*self.block
    }

    /// Returns the span of the source text that the node was read from.
    pub fn span(&self) -> (r: Span)
        ensures
            r == self@.span,
    {
        self.span
    }
}

impl ExprASTNode for InfLoopASTNode {
    open spec fn is_place(&self) -> bool {
        false
    }

    open spec fn is_value(&self) -> bool {
        true
    }

    open spec fn is_assignee(&self) -> bool {
        false
    }

    proof fn lemma_place_is_assignee(&self) {
    }

    fn try_as_place(&self) -> (r: Option<&Self>) {
        None
    }

    fn try_as_value(&self) -> (r: Option<&Self>) {
        Some(self)
    }

    fn try_as_assignee(&self) -> (r: Option<&Self>) {
        None
    }
}

impl ValueExprASTNode for InfLoopASTNode {

}

impl AsExprASTNode for InfLoopASTNode {
    open spec fn expr_view(&self) -> ExprView {
        ExprView::InfLoop(self@)
    }

    fn as_expr(self) -> (r: Expr) {
        Expr::InfLoop(self)
    }
}

/// An AST node representing a while loop.
#[derive(Debug, PartialEq)]
pub struct WhileASTNode {
    condition: Box<Expr>,
    body: Box<BlockASTNode>,
    span: Span,
}

/// What a [`WhileASTNode`] stands for.
pub struct WhileView {
    /// The condition of the loop.
    pub condition: Box<ExprView>,
    /// The body of the loop.
    pub body: Box<BlockView>,
    /// The span of the source text that the node was read from.
    pub span: Span,
}

impl View for WhileASTNode {
    type V = WhileView;

    closed spec fn view(&self) -> WhileView
        decreases self, 0nat,
    {
        WhileView {
            condition: Box::new((*self.condition)@),
            body: Box::new((*self.body)@),
            span: self.span,
        }
    }
}

impl WhileASTNode {
    /// Creates a new `WhileASTNode` with the given condition, body and span.
    pub fn new(condition: Box<Expr>, body: Box<BlockASTNode>, span: Span) -> (r: WhileASTNode)
        ensures
            r@ == (WhileView {
                condition: Box::new((*condition)@),
                body: Box::new((*body)@),
                span,
            }),
    {
        let r = WhileASTNode { condition, body, span };
        r
    }

    /// Returns the condition of the loop.
    pub fn condition(&self) -> (r: &Expr)
        ensures
            r@ == *self@.condition,
    {
        &*self.condition
    }

    /// Returns the body of the loop.
    pub fn body(&self) -> (r: &BlockASTNode)
        ensures
            r@ == *self@.body,
    {
        &*self.body
    }

    /// Returns the span of the source text that the node was read from.
    pub fn span(&self) -> (r: Span)
        ensures
            r == self@.span,
    {
        self.span
    }
}

impl ExprASTNode for WhileASTNode {
    open spec fn is_place(&self) -> bool {
        false
    }

    open spec fn is_value(&self) -> bool {
        true
    }

    open spec fn is_assignee(&self) -> bool {
        false
    }

    proof fn lemma_place_is_assignee(&self) {
    }

    fn try_as_place(&self) -> (r: Option<&Self>) {
        None
    }

    fn try_as_value(&self) -> (r: Option<&Self>) {
        Some(self)
    }

    fn try_as_assignee(&self) -> (r: Option<&Self>) {
        None
    }
}

impl ValueExprASTNode for WhileASTNode {

}

impl AsExprASTNode for WhileASTNode {
    open spec fn expr_view(&self) -> ExprView {
        ExprView::While(self@)
    }

    fn as_expr(self) -> (r: Expr) {
        Expr::While(self)
    }
}

/// An AST node representing an if expression.
#[derive(Debug, PartialEq)]
pub struct IfASTNode {
    condition: Box<Expr>,
    then_block: Box<BlockASTNode>,
    else_node: ElseExpr,
    span: Span,
}

/// What an [`IfASTNode`] stands for.
pub struct IfView {
    /// The condition.
    pub condition: Box<ExprView>,
    /// The block that is taken when the condition holds.
    pub then_block: Box<BlockView>,
    /// What follows the `then` block.
    pub else_node: ElseExprView,
    /// The span of the source text that the node was read from.
    pub span: Span,
}

impl View for IfASTNode {
    type V = IfView;

    closed spec fn view(&self) -> IfView
        decreases self, 0nat,
    {
        IfView {
            condition: Box::new((*self.condition)@),
            then_block: Box::new((*self.then_block)@),
            else_node: self.else_node@,
            span: self.span,
        }
    }
}

impl IfASTNode {
    /// Creates a new `IfASTNode` with the given condition, `then` block, `else` part and span.
    pub fn new(
        condition: Box<Expr>,
        then_block: Box<BlockASTNode>,
        else_node: ElseExpr,
        span: Span,
    ) -> (r: IfASTNode)
        ensures
            r@ == (IfView {
                condition: Box::new((*condition)@),
                then_block: Box::new((*then_block)@),
                else_node: else_node@,
                span,
            }),
    {
        let r = IfASTNode { condition, then_block, else_node, span };
        r
    }

    /// Returns the condition.
    pub fn condition(&self) -> (r: &Expr)
        ensures
            r@ == *self@.condition,
    {
        &*self.condition
    }

    /// Returns the block that is taken when the condition holds.
    pub fn then_block(&self) -> (r: &BlockASTNode)
        ensures
            r@ == *self@.then_block,
    {
        &*self.then_block
    }

    /// Returns what follows the `then` block.
    pub fn else_node(&self) -> (r: &ElseExpr)
        ensures
            r@ == self@.else_node,
    {
        &self.else_node
    }

    /// Returns the chain of `else if` nodes that hangs below this node, outermost first, and
    /// the block of the final `else`, if there is one.
    pub fn flatten_else_ifs(&self) -> (r: (Vec<&IfASTNode>, Option<&BlockASTNode>))
        ensures
            views(r.0@) == else_ifs(self@),
            match r.1 {
                Some(block) => final_else(self@) == Some(block@),
                None => final_else(self@) is None,
            },
    {
        let mut nodes: Vec<&IfASTNode> = Vec::new();
        let mut current: &IfASTNode = self;
        assert(views(nodes@) =~= Seq::<IfView>::empty());
        loop
            invariant
                views(nodes@) + else_ifs(current@) == else_ifs(self@),
                final_else(current@) == final_else(self@),
            ensures
                views(nodes@) == else_ifs(self@),
                final_else(current@) == final_else(self@),
                !(current@.else_node is ElseIf),
            decreases current,
        {
            match &current.else_node {
                ElseExpr::ElseIf(if_node) => {
                    let ghost before = nodes@;
                    nodes.push(&**if_node);
                    assert(views(nodes@) =~= views(before).push((**if_node)@));
                    assert(views(before).push((**if_node)@) + else_ifs((**if_node)@) =~= views(before)
                        + else_ifs(current@));
                    current = &**if_node;
                },
                _ => {
                    assert(views(nodes@) + else_ifs(current@) =~= views(nodes@));
                    break ;
                },
            }
        }
        let else_block = match &current.else_node {
            ElseExpr::Else(block) => Some(&**block),
            _ => None,
        };
        (nodes, else_block)
    }

    /// Returns the span of the source text that the node was read from.
    pub fn span(&self) -> (r: Span)
        ensures
            r == self@.span,
    {
        self.span
    }
}

impl ExprASTNode for IfASTNode {
    open spec fn is_place(&self) -> bool {
        false
    }

    open spec fn is_value(&self) -> bool {
        true
    }

    open spec fn is_assignee(&self) -> bool {
        false
    }

    proof fn lemma_place_is_assignee(&self) {
    }

    fn try_as_place(&self) -> (r: Option<&Self>) {
        None
    }

    fn try_as_value(&self) -> (r: Option<&Self>) {
        Some(self)
    }

    fn try_as_assignee(&self) -> (r: Option<&Self>) {
        None
    }
}

impl ValueExprASTNode for IfASTNode {

}

impl AsExprASTNode for IfASTNode {
    open spec fn expr_view(&self) -> ExprView {
        ExprView::If(self@)
    }

    fn as_expr(self) -> (r: Expr) {
        Expr::If(self)
    }
}

/// An AST node representing an unsafe block.
#[derive(Debug, PartialEq)]
pub struct UnsafeBlockASTNode {
    block: Box<BlockASTNode>,
    span: Span,
}

/// What an [`UnsafeBlockASTNode`] stands for.
pub struct UnsafeBlockView {
    /// The block.
    pub block: Box<BlockView>,
    /// The span of the source text that the node was read from.
    pub span: Span,
}

impl View for UnsafeBlockASTNode {
    type V = UnsafeBlockView;

    closed spec fn view(&self) -> UnsafeBlockView
        decreases self, 0nat,
    {
        UnsafeBlockView {
            block: Box::new((*self.block)@),
            span: self.span,
        }
    }
}

impl UnsafeBlockASTNode {
    /// Creates a new `UnsafeBlockASTNode` with the given block and span.
    pub fn new(block: Box<BlockASTNode>, span: Span) -> (r: UnsafeBlockASTNode)
        ensures
            r@ == (UnsafeBlockView {
                block: Box::new((*block)@),
                span,
            }),
    {
        let r = UnsafeBlockASTNode { block, span };
        r
    }

    /// Returns the block.
    pub fn block(&self) -> (r: &BlockASTNode)
        ensures
            r@ == *self@.block,
    {
        &*self.block
    }

    /// Returns the span of the source text that the node was read from.
    pub fn span(&self) -> (r: Span)
        ensures
            r == self@.span,
    {
        self.span
    }
}

impl ExprASTNode for UnsafeBlockASTNode {
    open spec fn is_place(&self) -> bool {
        false
    }

    open spec fn is_value(&self) -> bool {
        true
    }

    open spec fn is_assignee(&self) -> bool {
        false
    }

    proof fn lemma_place_is_assignee(&self) {
    }

    fn try_as_place(&self) -> (r: Option<&Self>) {
        None
    }

    fn try_as_value(&self) -> (r: Option<&Self>) {
        Some(self)
    }

    fn try_as_assignee(&self) -> (r: Option<&Self>) {
        None
    }
}

impl ValueExprASTNode for UnsafeBlockASTNode {

}

impl AsExprASTNode for UnsafeBlockASTNode {
    open spec fn expr_view(&self) -> ExprView {
        ExprView::UnsafeBlock(self@)
    }

    fn as_expr(self) -> (r: Expr) {
        Expr::UnsafeBlock(self)
    }
}

/// An AST node representing a return expression.
#[derive(Debug, PartialEq)]
pub struct ReturnASTNode {
    value: Option<Box<Expr>>,
    span: Span,
}

/// What a [`ReturnASTNode`] stands for.
pub struct ReturnView {
    /// The expression whose value is returned, if there is one.
    pub value: Option<Box<ExprView>>,
    /// The span of the source text that the node was read from.
    pub span: Span,
}

impl View for ReturnASTNode {
    type V = ReturnView;

    closed spec fn view(&self) -> ReturnView
        decreases self, 0nat,
    {
        ReturnView {
            value: match self.value { Some(e) => Some(Box::new((*e)@)), None => None },
            span: self.span,
        }
    }
}

impl ReturnASTNode {
    /// Creates a new `ReturnASTNode` that returns the value of the given expression.
    pub fn new(value: Box<Expr>, span: Span) -> (r: ReturnASTNode)
        ensures
            r@ == (ReturnView {
                value: Some(Box::new((*value)@)),
                span,
            }),
    {
        let r = ReturnASTNode { value: Some(value), span };
        r
    }

    /// Creates a new `ReturnASTNode` that returns no value.
    pub fn empty(span: Span) -> (r: ReturnASTNode)
        ensures
            r@ == (ReturnView {
                value: None,
                span,
            }),
    {
        let r = ReturnASTNode { value: None, span };
        r
    }

    /// Returns the expression whose value is returned, if there is one.
    pub fn value(&self) -> (r: Option<&Expr>)
        ensures
            match r { Some(e) => self@.value == Some(Box::new(e@)), None => self@.value is None },
    {
        match &self.value { Some(e) => Some(&**e), None => None }
    }

    /// Returns the span of the source text that the node was read from.
    pub fn span(&self) -> (r: Span)
        ensures
            r == self@.span,
    {
        self.span
    }
}

impl ExprASTNode for ReturnASTNode {
    open spec fn is_place(&self) -> bool {
        false
    }

    open spec fn is_value(&self) -> bool {
        true
    }

    open spec fn is_assignee(&self) -> bool {
        false
    }

    proof fn lemma_place_is_assignee(&self) {
    }

    fn try_as_place(&self) -> (r: Option<&Self>) {
        None
    }

    fn try_as_value(&self) -> (r: Option<&Self>) {
        Some(self)
    }

    fn try_as_assignee(&self) -> (r: Option<&Self>) {
        None
    }
}

impl ValueExprASTNode for ReturnASTNode {

}

impl AsExprASTNode for ReturnASTNode {
    open spec fn expr_view(&self) -> ExprView {
        ExprView::Return(self@)
    }

    fn as_expr(self) -> (r: Expr) {
        Expr::Return(self)
    }
}

/// A statement.
#[derive(Debug, PartialEq)]
pub enum Stmt {
    /// A let statement.
    Let(LetASTNode),
    /// An expression statement.
    Expr(ExprStmtASTNode),
}

/// What a [`Stmt`] stands for.
pub enum StmtView {
    Let(LetView),
    Expr(ExprStmtView),
}

impl View for Stmt {
    type V = StmtView;

    open spec fn view(&self) -> StmtView
        decreases self, 0nat,
    {
        match self {
            Stmt::Let(n) => StmtView::Let(n@),
            Stmt::Expr(n) => StmtView::Expr(n@),
        }
    }
}

impl Stmt {
    /// Returns the span of the source text that the statement was read from.
    pub fn span(&self) -> (r: Span)
        ensures
            r == match self@ {
                StmtView::Let(n) => n.span,
                StmtView::Expr(n) => n.span,
            },
    {
        match self {
            Stmt::Let(n) => n.span(),
            Stmt::Expr(n) => n.span(),
        }
    }
}

/// An AST node representing a let statement.
#[derive(Debug, PartialEq)]
pub struct LetASTNode {
    decl: Box<Expr>,
    ty: TypeASTMetaNode,
    value: Option<Box<Expr>>,
    mutable: bool,
    span: Span,
}

/// What a [`LetASTNode`] stands for.
pub struct LetView {
    /// The pattern that is declared.
    pub decl: Box<ExprView>,
    /// The declared type.
    pub ty: TypeASTMetaNode,
    /// The initializer, if there is one.
    pub value: Option<Box<ExprView>>,
    /// Whether the declared variable is mutable.
    pub mutable: bool,
    /// The span of the source text that the node was read from.
    pub span: Span,
}

impl View for LetASTNode {
    type V = LetView;

    closed spec fn view(&self) -> LetView
        decreases self, 0nat,
    {
        LetView {
            decl: Box::new((*self.decl)@),
            ty: self.ty,
            value: match self.value { Some(e) => Some(Box::new((*e)@)), None => None },
            mutable: self.mutable,
            span: self.span,
        }
    }
}

impl LetASTNode {
    /// Creates a new `LetASTNode` without an initializer.
    pub fn new(
        decl: Box<Expr>,
        ty: TypeASTMetaNode,
        mutable: bool,
        span: Span,
    ) -> (r: LetASTNode)
        ensures
            r@ == (LetView {
                decl: Box::new((*decl)@),
                ty: ty,
                value: None,
                mutable: mutable,
                span,
            }),
    {
        let r = LetASTNode { decl, ty, value: None, mutable, span };
        r
    }

    /// Creates a new `LetASTNode` with an initializer.
    pub fn new_with_assignment(
        decl: Box<Expr>,
        ty: TypeASTMetaNode,
        value: Box<Expr>,
        mutable: bool,
        span: Span,
    ) -> (r: LetASTNode)
        ensures
            r@ == (LetView {
                decl: Box::new((*decl)@),
                ty: ty,
                value: Some(Box::new((*value)@)),
                mutable: mutable,
                span,
            }),
    {
        let r = LetASTNode { decl, ty, value: Some(value), mutable, span };
        r
    }

    /// Returns the pattern that is declared.
    pub fn decl(&self) -> (r: &Expr)
        ensures
            r@ == *self@.decl,
    {
        &*self.decl
    }

    /// Returns the declared type.
    pub fn ty_node(&self) -> (r: TypeASTMetaNode)
        ensures
            r == self@.ty,
    {
        self.ty
    }

    /// Returns the initializer, if there is one.
    pub fn value(&self) -> (r: Option<&Expr>)
        ensures
            match r { Some(e) => self@.value == Some(Box::new(e@)), None => self@.value is None },
    {
        match &self.value { Some(e) => Some(&**e), None => None }
    }

    /// Returns whether the declared variable is mutable.
    pub fn is_mutable(&self) -> (r: bool)
        ensures
            r == self@.mutable,
    {
        self.mutable
    }

    /// Returns the declared type.
    pub fn ty(&self) -> (r: Type)
        ensures
            r == self@.ty.ty,
    {
        self.ty.ty()
    }

    /// Returns the span of the source text that the node was read from.
    pub fn span(&self) -> (r: Span)
        ensures
            r == self@.span,
    {
        self.span
    }
}

/// An AST node representing an expression statement.
#[derive(Debug, PartialEq)]
pub struct ExprStmtASTNode {
    expr: Box<Expr>,
    span: Span,
}

/// What an [`ExprStmtASTNode`] stands for.
pub struct ExprStmtView {
    /// The expression.
    pub expr: Box<ExprView>,
    /// The span of the source text that the node was read from.
    pub span: Span,
}

impl View for ExprStmtASTNode {
    type V = ExprStmtView;

    closed spec fn view(&self) -> ExprStmtView
        decreases self, 0nat,
    {
        ExprStmtView {
            expr: Box::new((*self.expr)@),
            span: self.span,
        }
    }
}

impl ExprStmtASTNode {
    /// Creates a new `ExprStmtASTNode` with the given expression and span.
    pub fn new(expr: Box<Expr>, span: Span) -> (r: ExprStmtASTNode)
        ensures
            r@ == (ExprStmtView {
                expr: Box::new((*expr)@),
                span,
            }),
    {
        let r = ExprStmtASTNode { expr, span };
        r
    }

    /// Returns the expression.
    pub fn expr(&self) -> (r: &Expr)
        ensures
            r@ == *self@.expr,
    {
        &*self.expr
    }

    /// Returns the expression, consuming the statement.
    pub fn into_expr(self) -> (r: Box<Expr>)
        ensures
            (*r)@ == *self@.expr,
    {
        self.expr
    }

    /// Returns the span of the source text that the node was read from.
    pub fn span(&self) -> (r: Span)
        ensures
            r == self@.span,
    {
        self.span
    }
}

impl StatementASTNode for LetASTNode {

}

impl StatementASTNode for ExprStmtASTNode {

}

} // verus!
