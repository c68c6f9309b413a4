//! The root of the AST.

use vstd::prelude::*;

use crate::ast::expr::views;
use crate::ast::item::{ItemASTNode, ItemView};
use crate::token::span::Span;

verus! {

/// An AST node representing a crate: the root of the tree that a source file is parsed into.
#[derive(Debug, PartialEq)]
pub struct CrateASTNode {
    name: String,
    items: Vec<ItemASTNode>,
    span: Span,
}

/// What a [`CrateASTNode`] stands for.
pub struct CrateView {
    /// The name of the crate.
    pub name: Seq<char>,
    /// The items of the crate, in order.
    pub items: Seq<ItemView>,
    /// The span of the source text that the node was read from.
    pub span: Span,
}

impl View for CrateASTNode {
    type V = CrateView;

    closed spec fn view(&self) -> CrateView
    {
        CrateView {
            name: self.name@,
            items: views(self.items@),
            span: self.span,
        }
    }
}

impl CrateASTNode {
    /// Creates a new `CrateASTNode` with the given name, items and span.
    pub fn new(name: String, items: Vec<ItemASTNode>, span: Span) -> (r: CrateASTNode)
        ensures
            r@ == (CrateView {
                name: name@,
                items: views(items@),
                span,
            }),
    {
        let r = CrateASTNode { name, items, span };
        r
    }

    /// Returns the name of the crate.
    pub fn name(&self) -> (r: &str)
        ensures
            r@ == self@.name,
    {
        self.name.as_str()
    }

    /// Returns the items of the crate, in order.
    pub fn items(&self) -> (r: &Vec<ItemASTNode>)
        ensures
            views(r@) == self@.items,
    {
        &self.items
    }

    /// Returns the span of the source text that the node was read from.
    pub fn span(&self) -> (r: Span)
        ensures
            r == self@.span,
    {
        self.span
    }
}

/// The AST of a source file.
#[derive(Debug, PartialEq)]
pub struct Crate {
    root: Box<CrateASTNode>,
}

impl View for Crate {
    type V = CrateView;

    closed spec fn view(&self) -> CrateView {
        (*self.root)@
    }
}

impl Crate {
    /// Creates a new `Crate` with the given root node.
    pub fn new(root: Box<CrateASTNode>) -> (r: Crate)
        ensures
            r@ == (*root)@,
    {
        Crate { root }
    }

    /// Returns the root node.
    pub fn root(&self) -> (r: &CrateASTNode)
        ensures
            r@ == self@,
    {
        &*self.root
    }
}

} // verus!
