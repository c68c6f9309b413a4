//! The types that the AST names.

use vstd::prelude::*;

use crate::token::span::Span;
use crate::token::text_is;

verus! {

/// A type of the language.
#[derive(Debug, Clone, Copy, PartialEq, Eq, Structural)]
pub enum Type {
    /// A 32-bit integer type.
    I32,
    /// A 64-bit floating-point type.
    F64,
    /// A boolean type.
    Bool,
    /// The unit type.
    Unit,
}

/// The type that the text `s` names, if it names one: `i32`, `f64`, `bool` or `()`.
pub open spec fn type_named(s: Seq<char>) -> Option<Type> {
    if s == "i32"@ {
        Some(Type::I32)
    } else if s == "f64"@ {
        Some(Type::F64)
    } else if s == "bool"@ {
        Some(Type::Bool)
    } else if s == "()"@ {
        Some(Type::Unit)
    } else {
        None
    }
}

impl Type {
    /// Returns the type that the text `name` names, if it names one.
    pub fn from_name(name: &Vec<char>) -> (r: Option<Type>)
        ensures
            r == type_named(name@),
    {
        if text_is(name, "i32") {
            Some(Type::I32)
        } else if text_is(name, "f64") {
            Some(Type::F64)
        } else if text_is(name, "bool") {
            Some(Type::Bool)
        } else if text_is(name, "()") {
            Some(Type::Unit)
        } else {
            None
        }
    }

    /// Returns the name of the type.
    pub fn name(&self) -> (r: &'static str)
        ensures
            type_named(r@) == Some(*self),
    {
        proof {
            reveal_strlit("i32");
            reveal_strlit("f64");
            reveal_strlit("bool");
            reveal_strlit("()");
            assert("i32"@.len() == 3 && "f64"@.len() == 3 && "bool"@.len() == 4 && "()"@.len() == 2);
            assert("i32"@[0] == 'i' && "f64"@[0] == 'f');
        }
        match self {
            Type::I32 => "i32",
            Type::F64 => "f64",
            Type::Bool => "bool",
            Type::Unit => "()",
        }
    }
}

/// An AST meta-node representing a type.
#[derive(Debug, Clone, Copy, PartialEq, Eq, Structural)]
pub struct TypeASTMetaNode {
    pub ty: Type,
    pub span: Span,
}

impl TypeASTMetaNode {
    /// Creates a new `TypeASTMetaNode` with the given type and span.
    pub fn new(ty: Type, span: Span) -> (r: TypeASTMetaNode)
        ensures
            r == (TypeASTMetaNode { ty, span }),
    {
        TypeASTMetaNode { ty, span }
    }

    /// Returns the type of this meta-node.
    pub fn ty(&self) -> (r: Type)
        ensures
            r == self.ty,
    {
        self.ty
    }

    /// Returns the span of this meta-node.
    pub fn span(&self) -> (r: Span)
        ensures
            r == self.span,
    {
        self.span
    }
}

/// The type of a variable.
#[derive(Debug, Clone, Copy, PartialEq, Eq, Structural)]
pub enum VarType {
    /// An integer type.
    Int,
    /// A floating-point type.
    Float,
    /// A boolean type.
    Bool,
    /// The unit type.
    Unit,
}

} // verus!
