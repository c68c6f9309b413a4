//! The items of the AST: functions, static items and blocks of foreign items.

use vstd::prelude::*;

use crate::ast::error::{SemanticError, SemanticErrorView};
use crate::ast::expr::{
    span_of, views, AssigneeExprASTNode, BlockASTNode, BlockView, Expr, ExprASTNode, ExprView,
};
use crate::ast::types::{TypeASTMetaNode, VarType};
use crate::token::span::Span;

verus! {

/// An AST node representing a parameter of a function.
#[derive(Debug, PartialEq)]
pub struct ParamASTNode {
    assignee: Box<Expr>,
    ty: TypeASTMetaNode,
    mutable: bool,
    span: Span,
}

/// What a [`ParamASTNode`] stands for.
pub struct ParamView {
    /// The pattern that the parameter binds.
    pub assignee: Box<ExprView>,
    /// The type of the parameter.
    pub ty: TypeASTMetaNode,
    /// Whether the parameter is mutable.
    pub mutable: bool,
    /// The span of the source text that the node was read from.
    pub span: Span,
}

impl View for ParamASTNode {
    type V = ParamView;

    closed spec fn view(&self) -> ParamView
    {
        ParamView {
            assignee: Box::new((*self.assignee)@),
            ty: self.ty,
            mutable: self.mutable,
            span: self.span,
        }
    }
}

impl ParamASTNode {
    /// Creates a new `ParamASTNode` with the given pattern, type, mutability and span.
    pub fn new(
        assignee: Box<Expr>,
        ty: TypeASTMetaNode,
        mutable: bool,
        span: Span,
    ) -> (r: ParamASTNode)
        ensures
            r@ == (ParamView {
                assignee: Box::new((*assignee)@),
                ty: ty,
                mutable: mutable,
                span,
            }),
    {
        let r = ParamASTNode { assignee, ty, mutable, span };
        r
    }

    /// Returns the pattern that the parameter binds.
    pub fn assignee_expr(&self) -> (r: &Expr)
        ensures
            r@ == *self@.assignee,
    {
        &*self.assignee
    }

    /// Returns the type of the parameter.
    pub fn ty(&self) -> (r: TypeASTMetaNode)
        ensures
            r == self@.ty,
    {
        self.ty
    }

    /// Returns whether the parameter is mutable.
    pub fn is_mutable(&self) -> (r: bool)
        ensures
            r == self@.mutable,
    {
        self.mutable
    }

    /// Returns the pattern of the parameter, if it is an assignee expression: a path or
    /// the underscore. Any other pattern is a semantic error, which holds the span of the
    /// pattern.
    pub fn assignee(&self) -> (r: Result<&Expr, SemanticError>)
        ensures
            match r {
                Ok(e) => e@ == *self@.assignee && self@.assignee.is_assignee(),
                Err(e) => !self@.assignee.is_assignee() && e@ == (SemanticErrorView::WrongExpressionKind {
                    message: "Expected <pattern>"@,
                    span: span_of(*self@.assignee),
                }),
            },
    {
        match self.assignee.try_as_assignee() {
            Some(e) => Ok(e),
            None => Err(
                SemanticError::WrongExpressionKind {
                    message: "Expected <pattern>",
                    span: self.assignee.span(),
                },
            ),
        }
    }

    /// Returns the span of the source text that the node was read from.
    pub fn span(&self) -> (r: Span)
        ensures
            r == self@.span,
    {
        self.span
    }
}

/// An AST node representing the prototype of a function: its name, its parameters and its
/// return type.
#[derive(Debug, PartialEq)]
pub struct FuncProtoASTNode {
    name: String,
    params: Vec<ParamASTNode>,
    return_type: TypeASTMetaNode,
    span: Span,
}

/// What a [`FuncProtoASTNode`] stands for.
pub struct FuncProtoView {
    /// The name of the function.
    pub name: Seq<char>,
    /// The parameters of the function, in order.
    pub params: Seq<ParamView>,
    /// The return type of the function.
    pub return_type: TypeASTMetaNode,
    /// The span of the source text that the node was read from.
    pub span: Span,
}

impl View for FuncProtoASTNode {
    type V = FuncProtoView;

    closed spec fn view(&self) -> FuncProtoView
    {
        FuncProtoView {
            name: self.name@,
            params: views(self.params@),
            return_type: self.return_type,
            span: self.span,
        }
    }
}

impl FuncProtoASTNode {
    /// Creates a new `FuncProtoASTNode` with the given name, parameters, return type and span.
    pub fn new(
        name: String,
        params: Vec<ParamASTNode>,
        return_type: TypeASTMetaNode,
        span: Span,
    ) -> (r: FuncProtoASTNode)
        ensures
            r@ == (FuncProtoView {
                name: name@,
                params: views(params@),
                return_type: return_type,
                span,
            }),
    {
        let r = FuncProtoASTNode { name, params, return_type, span };
        r
    }

    /// Returns the name of the function.
    pub fn name(&self) -> (r: &str)
        ensures
            r@ == self@.name,
    {
        self.name.as_str()
    }

    /// Returns the parameters of the function, in order.
    pub fn get_param_iter(&self) -> (r: &Vec<ParamASTNode>)
        ensures
            views(r@) == self@.params,
    {
        &self.params
    }

    /// Returns the return type of the function.
    pub fn return_type(&self) -> (r: TypeASTMetaNode)
        ensures
            r == self@.return_type,
    {
        self.return_type
    }

    /// Returns a copy of the name of the function.
    pub fn name_owned(&self) -> (r: String)
        ensures
            r@ == self@.name,
    {
        self.name.clone()
    }

    /// Returns the span of the source text that the node was read from.
    pub fn span(&self) -> (r: Span)
        ensures
            r == self@.span,
    {
        self.span
    }
}

/// An AST node representing a function: a prototype and a body.
#[derive(Debug, PartialEq)]
pub struct FuncASTNode {
    proto: FuncProtoASTNode,
    body: Box<BlockASTNode>,
    span: Span,
}

/// What a [`FuncASTNode`] stands for.
pub struct FuncView {
    /// The prototype of the function.
    pub proto: FuncProtoView,
    /// The body of the function.
    pub body: Box<BlockView>,
    /// The span of the source text that the node was read from.
    pub span: Span,
}

impl View for FuncASTNode {
    type V = FuncView;

    closed spec fn view(&self) -> FuncView
    {
        FuncView {
            proto: self.proto@,
            body: Box::new((*self.body)@),
            span: self.span,
        }
    }
}

impl FuncASTNode {
    /// Returns the prototype of the function.
    pub fn proto(&self) -> (r: &FuncProtoASTNode)
        ensures
            r@ == self@.proto,
    {
        &self.proto
    }

    /// Returns the body of the function.
    pub fn body(&self) -> (r: &BlockASTNode)
        ensures
            r@ == *self@.body,
    {
        &*self.body
    }

    /// Creates a new `FuncASTNode` with the given prototype, body and span.
    pub fn new(proto: FuncProtoASTNode, body: BlockASTNode, span: Span) -> (r: FuncASTNode)
        ensures
            r@ == (FuncView { proto: proto@, body: Box::new(body@), span }),
    {
        FuncASTNode { proto, body: Box::new(body), span }
    }

    /// Returns the span of the source text that the node was read from.
    pub fn span(&self) -> (r: Span)
        ensures
            r == self@.span,
    {
        self.span
    }
}

/// An AST node representing a static item.
#[derive(Debug, PartialEq)]
pub struct StaticASTNode {
    name: String,
    value: Option<Box<Expr>>,
    ty: TypeASTMetaNode,
    mutable: bool,
    span: Span,
}

/// What a [`StaticASTNode`] stands for.
pub struct StaticView {
    /// The name of the static item.
    pub name: Seq<char>,
    /// The initializer, if there is one.
    pub value: Option<Box<ExprView>>,
    /// The type of the static item.
    pub ty: TypeASTMetaNode,
    /// Whether the static item is mutable.
    pub mutable: bool,
    /// The span of the source text that the node was read from.
    pub span: Span,
}

impl View for StaticASTNode {
    type V = StaticView;

    closed spec fn view(&self) -> StaticView
    {
        StaticView {
            name: self.name@,
            value: match self.value { Some(e) => Some(Box::new((*e)@)), None => None },
            ty: self.ty,
            mutable: self.mutable,
            span: self.span,
        }
    }
}

impl StaticASTNode {
    /// Creates a new `StaticASTNode` without an initializer.
    pub fn new(
        name: String,
        ty: TypeASTMetaNode,
        mutable: bool,
        span: Span,
    ) -> (r: StaticASTNode)
        ensures
            r@ == (StaticView {
                name: name@,
                value: None,
                ty: ty,
                mutable: mutable,
                span,
            }),
    {
        let r = StaticASTNode { name, value: None, ty, mutable, span };
        r
    }

    /// Creates a new `StaticASTNode` with an initializer.
    pub fn new_with_assignment(
        name: String,
        value: Box<Expr>,
        ty: TypeASTMetaNode,
        mutable: bool,
        span: Span,
    ) -> (r: StaticASTNode)
        ensures
            r@ == (StaticView {
                name: name@,
                value: Some(Box::new((*value)@)),
                ty: ty,
                mutable: mutable,
                span,
            }),
    {
        let r = StaticASTNode { name, value: Some(value), ty, mutable, span };
        r
    }

    /// Returns the name of the static item.
    pub fn name(&self) -> (r: &str)
        ensures
            r@ == self@.name,
    {
        self.name.as_str()
    }

    /// Returns the initializer, if there is one.
    pub fn value(&self) -> (r: Option<&Expr>)
        ensures
            match r { Some(e) => self@.value == Some(Box::new(e@)), None => self@.value is None },
    {
        match &self.value { Some(e) => Some(&**e), None => None }
    }

    /// Returns the type of the static item.
    pub fn ty(&self) -> (r: TypeASTMetaNode)
        ensures
            r == self@.ty,
    {
        self.ty
    }

    /// Returns whether the static item is mutable.
    pub fn is_mutable(&self) -> (r: bool)
        ensures
            r == self@.mutable,
    {
        self.mutable
    }

    /// Returns a copy of the name of the static item.
    pub fn name_owned(&self) -> (r: String)
        ensures
            r@ == self@.name,
    {
        self.name.clone()
    }

    /// Whether the static item has an initializer.
    pub fn is_initialized(&self) -> (r: bool)
        ensures
            r == self@.value.is_some(),
    {
        self.value.is_some()
    }

    /// Returns the span of the source text that the node was read from.
    pub fn span(&self) -> (r: Span)
        ensures
            r == self@.span,
    {
        self.span
    }
}

/// An item of a block of foreign items.
#[derive(Debug, PartialEq)]
pub enum ExternItem {
    /// The prototype of a foreign function.
    Func(Box<FuncProtoASTNode>),
    /// A foreign static item.
    Static(Box<StaticASTNode>),
}

/// What an [`ExternItem`] stands for.
pub enum ExternItemView {
    Func(FuncProtoView),
    Static(StaticView),
}

impl View for ExternItem {
    type V = ExternItemView;

    open spec fn view(&self) -> ExternItemView {
        match self {
            ExternItem::Func(n) => ExternItemView::Func((**n)@),
            ExternItem::Static(n) => ExternItemView::Static((**n)@),
        }
    }
}

impl ExternItem {
    /// Returns the span of the source text that the item was read from.
    pub fn span(&self) -> (r: Span)
        ensures
            r == match self@ {
                ExternItemView::Func(n) => n.span,
                ExternItemView::Static(n) => n.span,
            },
    {
        match self {
            ExternItem::Func(n) => n.span(),
            ExternItem::Static(n) => n.span(),
        }
    }
}

/// An AST node representing a static item of a block of foreign items, which names a
/// variable by an assignee expression and has no initializer.
#[derive(Debug, PartialEq)]
pub struct ExternStaticASTNode<A: AssigneeExprASTNode> {
    assignee: Box<A>,
    ty: VarType,
    mutable: bool,
    span: Span,
}

impl<A: AssigneeExprASTNode> ExternStaticASTNode<A> {
    /// The assignee expression that names the variable.
    pub closed spec fn assignee_spec(&self) -> A {
        *self.assignee
    }

    /// The type of the variable.
    pub closed spec fn ty_spec(&self) -> VarType {
        self.ty
    }

    /// Whether the variable is mutable.
    pub closed spec fn mutable_spec(&self) -> bool {
        self.mutable
    }

    /// The span of the source text that the node was read from.
    pub closed spec fn span_spec(&self) -> Span {
        self.span
    }

    /// Creates a new `ExternStaticASTNode` with the given assignee, type, mutability and
    /// span.
    pub fn new(assignee: Box<A>, ty: VarType, mutable: bool, span: Span) -> (r: Self)
        ensures
            r.assignee_spec() == *assignee,
            r.ty_spec() == ty,
            r.mutable_spec() == mutable,
            r.span_spec() == span,
    {
        ExternStaticASTNode { assignee, ty, mutable, span }
    }

    /// Returns the assignee expression that names the variable.
    pub fn assignee(&self) -> (r: &A)
        ensures
            *r == self.assignee_spec(),
    {
        &*self.assignee
    }

    /// Returns the type of the variable.
    pub fn ty(&self) -> (r: VarType)
        ensures
            r == self.ty_spec(),
    {
        self.ty
    }

    /// Whether the variable is mutable.
    pub fn is_mutable(&self) -> (r: bool)
        ensures
            r == self.mutable_spec(),
    {
        self.mutable
    }

    /// Returns the span of the source text that the node was read from.
    pub fn span(&self) -> (r: Span)
        ensures
            r == self.span_spec(),
    {
        self.span
    }
}

/// An AST node representing a block of foreign items: the name of an ABI and the prototypes and
/// static items declared for it.
#[derive(Debug, PartialEq)]
pub struct ExternASTNode {
    abi: String,
    items: Vec<ExternItem>,
    span: Span,
}

/// What an [`ExternASTNode`] stands for.
pub struct ExternView {
    /// The name of the ABI.
    pub abi: Seq<char>,
    /// The items of the block, in order.
    pub items: Seq<ExternItemView>,
    /// The span of the source text that the node was read from.
    pub span: Span,
}

impl View for ExternASTNode {
    type V = ExternView;

    closed spec fn view(&self) -> ExternView
    {
        ExternView {
            abi: self.abi@,
            items: views(self.items@),
            span: self.span,
        }
    }
}

impl ExternASTNode {
    /// Creates a new `ExternASTNode` with the given ABI, items and span.
    pub fn new(abi: String, items: Vec<ExternItem>, span: Span) -> (r: ExternASTNode)
        ensures
            r@ == (ExternView {
                abi: abi@,
                items: views(items@),
                span,
            }),
    {
        let r = ExternASTNode { abi, items, span };
        r
    }

    /// Returns the name of the ABI.
    pub fn abi(&self) -> (r: &str)
        ensures
            r@ == self@.abi,
    {
        self.abi.as_str()
    }

    /// Returns the items of the block, in order.
    pub fn items(&self) -> (r: &Vec<ExternItem>)
        ensures
            views(r@) == self@.items,
    {
        &self.items
    }

    /// Returns the span of the source text that the node was read from.
    pub fn span(&self) -> (r: Span)
        ensures
            r == self@.span,
    {
        self.span
    }
}

/// An AST node for an item.
#[derive(Debug, PartialEq)]
pub enum ItemASTNode {
    /// A function declaration.
    Func(Box<FuncASTNode>),
    /// A block of foreign items.
    Extern(Box<ExternASTNode>),
    /// A static item.
    Static(Box<StaticASTNode>),
}

/// What an [`ItemASTNode`] stands for.
pub enum ItemView {
    Func(FuncView),
    Extern(ExternView),
    Static(StaticView),
}

impl ItemView {
    /// The span of the item.
    pub open spec fn span(self) -> Span {
        match self {
            ItemView::Func(n) => n.span,
            ItemView::Extern(n) => n.span,
            ItemView::Static(n) => n.span,
        }
    }
}

impl View for ItemASTNode {
    type V = ItemView;

    open spec fn view(&self) -> ItemView {
        match self {
            ItemASTNode::Func(n) => ItemView::Func((**n)@),
            ItemASTNode::Extern(n) => ItemView::Extern((**n)@),
            ItemASTNode::Static(n) => ItemView::Static((**n)@),
        }
    }
}

impl ItemASTNode {
    /// Returns the span of the source text that the item was read from.
    pub fn span(&self) -> (r: Span)
        ensures
            r == self@.span(),
    {
        match self {
            ItemASTNode::Func(n) => n.span(),
            ItemASTNode::Extern(n) => n.span(),
            ItemASTNode::Static(n) => n.span(),
        }
    }
}

} // verus!
