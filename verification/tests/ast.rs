use mini_rust_compiler_components::ast::crt::{Crate, CrateASTNode};
use mini_rust_compiler_components::ast::error::SemanticError;
use mini_rust_compiler_components::ast::expr::{
    ArithExprASTNode, ArithOperator, AsExprASTNode, AssignASTNode, AssigneeExprASTNode,
    BlockASTNode, CompOperator, ElseExpr, Expr, ExprASTNode, ExprStmtASTNode, IfASTNode,
    LazyBoolOperator, LetASTNode, LiteralASTNode, LiteralBox, NegOperator, PathASTNode,
    ReturnASTNode, Stmt, UnderscoreASTNode,
};
use mini_rust_compiler_components::ast::item::{
    ExternStaticASTNode, FuncASTNode, FuncProtoASTNode, ItemASTNode, ParamASTNode, StaticASTNode,
};
use mini_rust_compiler_components::ast::node::{ASTNode, ASTNodeRef, AsASTNode};
use mini_rust_compiler_components::ast::types::{Type, TypeASTMetaNode, VarType};
use mini_rust_compiler_components::parser::productions::make_binary;
use mini_rust_compiler_components::parser::grammar::BinaryOperator;
use mini_rust_compiler_components::token::{Position, Span};

fn span(l1: usize, c1: usize, l2: usize, c2: usize) -> Span {
    Span::new(Position::new_at(l1, c1), Position::new_at(l2, c2))
}

fn int_lit(value: i32) -> Expr {
    Expr::Literal(LiteralBox::I32(LiteralASTNode::<i32>::new(value, span(1, 1, 1, 2))))
}

fn path(name: &str) -> Expr {
    Expr::Path(PathASTNode::new(name.to_string(), span(1, 1, 1, 2)))
}

fn underscore() -> Expr {
    Expr::Underscore(UnderscoreASTNode::new(span(1, 1, 1, 2)))
}

#[test]
fn path_is_place_value_and_assignee() {
    let e = path("x");
    assert_eq!(e.try_as_place(), Some(&e));
    assert_eq!(e.try_as_value(), Some(&e));
    assert_eq!(e.try_as_assignee(), Some(&e));
    assert_eq!(e.pattern(), Some("x".to_string()));
    let node = PathASTNode::new("x".to_string(), span(1, 1, 1, 2));
    assert_eq!(node.try_as_place(), Some(&node));
    assert_eq!(node.try_as_value(), Some(&node));
    assert_eq!(node.try_as_assignee(), Some(&node));
    assert_eq!(AssigneeExprASTNode::pattern(&node), Some("x".to_string()));
    assert_eq!(node.path(), "x");
}

#[test]
fn underscore_is_assignee_only() {
    let e = underscore();
    assert_eq!(e.try_as_place(), None);
    assert_eq!(e.try_as_value(), None);
    assert_eq!(e.try_as_assignee(), Some(&e));
    assert_eq!(e.pattern(), None);
    let node = UnderscoreASTNode::new(span(1, 1, 1, 2));
    assert_eq!(node.try_as_place(), None);
    assert_eq!(node.try_as_value(), None);
    assert_eq!(node.try_as_assignee(), Some(&node));
    assert_eq!(AssigneeExprASTNode::pattern(&node), None);
}

#[test]
fn literal_is_value_only() {
    let e = int_lit(1);
    assert_eq!(e.try_as_place(), None);
    assert_eq!(e.try_as_value(), Some(&e));
    assert_eq!(e.try_as_assignee(), None);
    assert_eq!(e.pattern(), None);
}

#[test]
fn every_place_expression_is_an_assignee_expression() {
    let exprs = vec![
        int_lit(1),
        path("x"),
        underscore(),
        make_binary(BinaryOperator::Assign, path("x"), int_lit(1)),
        make_binary(BinaryOperator::Arith(ArithOperator::Add), int_lit(1), int_lit(2)),
        make_binary(BinaryOperator::Comp(CompOperator::Le), int_lit(1), int_lit(2)),
        make_binary(BinaryOperator::LazyBool(LazyBoolOperator::And), int_lit(1), int_lit(2)),
        Expr::Return(ReturnASTNode::empty(span(1, 1, 1, 7))),
        Expr::Block(BlockASTNode::new(Vec::new(), span(1, 1, 1, 3))),
    ];
    for e in &exprs {
        if e.try_as_place().is_some() {
            assert!(e.try_as_assignee().is_some());
        }
    }
    assert_eq!(exprs.iter().filter(|e| e.try_as_place().is_some()).count(), 1);
    assert_eq!(exprs.iter().filter(|e| e.try_as_assignee().is_some()).count(), 2);
    assert_eq!(exprs.iter().filter(|e| e.try_as_value().is_some()).count(), 8);
}

#[test]
fn binary_node_spans_its_operands() {
    let lhs = Expr::Path(PathASTNode::new("a".to_string(), span(1, 1, 1, 2)));
    let rhs = Expr::Path(PathASTNode::new("b".to_string(), span(1, 5, 2, 6)));
    match make_binary(BinaryOperator::Arith(ArithOperator::Sub), lhs, rhs) {
        Expr::Arith(node) => {
            assert_eq!(node.operator(), ArithOperator::Sub);
            assert_eq!(node.span(), span(1, 1, 2, 6));
        }
        other => panic!("expected an arithmetic node, got {:?}", other),
    }
}

#[test]
fn assignment_checks_its_operands_where_they_are_used() {
    let good = AssignASTNode::new(Box::new(path("x")), Box::new(int_lit(1)), span(1, 1, 1, 6));
    assert_eq!(good.assignee(), Ok(&path("x")));
    assert_eq!(good.value(), Ok(&int_lit(1)));
    assert_eq!(good.span(), span(1, 1, 1, 6));

    let bad = AssignASTNode::new(Box::new(int_lit(1)), Box::new(underscore()), span(1, 1, 1, 6));
    assert_eq!(
        bad.assignee(),
        Err(SemanticError::WrongExpressionKind {
            message: "Expected an assignee expression",
            span: span(1, 1, 1, 2)
        })
    );
    assert_eq!(
        bad.value(),
        Err(SemanticError::WrongExpressionKind {
            message: "Expected a value expression",
            span: span(1, 1, 1, 2)
        })
    );
    assert_eq!(bad.assignee().unwrap_err().span(), span(1, 1, 1, 2));
}

#[test]
fn parameter_checks_its_pattern_where_it_is_used() {
    let ty = TypeASTMetaNode::new(Type::I32, span(1, 4, 1, 7));
    let good = ParamASTNode::new(Box::new(underscore()), ty, true, span(1, 1, 1, 2));
    assert_eq!(good.assignee(), Ok(&underscore()));
    assert_eq!(good.ty(), ty);
    assert!(good.is_mutable());
    let bad = ParamASTNode::new(Box::new(int_lit(3)), ty, false, span(1, 1, 1, 2));
    assert_eq!(
        bad.assignee(),
        Err(SemanticError::WrongExpressionKind {
            message: "Expected <pattern>",
            span: span(1, 1, 1, 2)
        })
    );
    assert_eq!(bad.assignee_expr(), &int_lit(3));
}

#[test]
fn operators_have_their_texts() {
    assert_eq!(ArithOperator::Add.as_str(), "+");
    assert_eq!(ArithOperator::Sub.as_str(), "-");
    assert_eq!(ArithOperator::Mul.as_str(), "*");
    assert_eq!(ArithOperator::Div.as_str(), "/");
    assert_eq!(ArithOperator::Rem.as_str(), "%");
    assert_eq!(ArithOperator::BitAnd.as_str(), "&");
    assert_eq!(ArithOperator::BitOr.as_str(), "|");
    assert_eq!(ArithOperator::BitXor.as_str(), "^");
    assert_eq!(CompOperator::Eq.as_str(), "==");
    assert_eq!(CompOperator::Ne.as_str(), "!=");
    assert_eq!(CompOperator::Gt.as_str(), ">");
    assert_eq!(CompOperator::Lt.as_str(), "<");
    assert_eq!(CompOperator::Ge.as_str(), ">=");
    assert_eq!(CompOperator::Le.as_str(), "<=");
    assert_eq!(LazyBoolOperator::And.as_str(), "&&");
    assert_eq!(LazyBoolOperator::Or.as_str(), "||");
    assert_eq!(NegOperator::Neg.as_str(), "-");
    assert_eq!(NegOperator::Not.as_str(), "!");
}

#[test]
fn types_have_their_names() {
    for (name, ty) in [("i32", Type::I32), ("f64", Type::F64), ("bool", Type::Bool), ("()", Type::Unit)]
    {
        assert_eq!(Type::from_name(&name.chars().collect()), Some(ty));
        assert_eq!(ty.name(), name);
    }
    assert_eq!(Type::from_name(&"I32".chars().collect()), None);
    assert_eq!(Type::from_name(&"".chars().collect()), None);
    assert_eq!(Type::from_name(&"i64".chars().collect()), None);
    let node = TypeASTMetaNode::new(Type::Bool, span(1, 2, 1, 6));
    assert_eq!(node.ty(), Type::Bool);
    assert_eq!(node.span(), span(1, 2, 1, 6));
}

#[test]
fn literals_keep_value_type_and_span() {
    let number = LiteralASTNode::<i32>::new(-5, span(1, 1, 1, 3));
    assert_eq!(*number.value(), -5);
    assert_eq!(number.ty(), Type::I32);
    assert_eq!(number.span(), span(1, 1, 1, 3));
    let boolean = LiteralASTNode::<bool>::new(true, span(1, 1, 1, 5));
    assert!(*boolean.value());
    assert_eq!(boolean.ty(), Type::Bool);
    let unit = LiteralASTNode::<()>::new(span(1, 1, 1, 3));
    assert_eq!(unit.ty(), Type::Unit);
    let float = LiteralASTNode::<String>::new("1.5".to_string(), span(1, 1, 1, 4));
    assert_eq!(float.value(), "1.5");
    assert_eq!(float.ty(), Type::F64);
    let boxed = LiteralBox::I32(number);
    assert_eq!(boxed.span(), span(1, 1, 1, 3));
    assert!(matches!(boxed.into_parser_expr(), Expr::Literal(LiteralBox::I32(_))));
}

#[test]
fn nodes_turn_into_general_expressions() {
    let node = PathASTNode::new("x".to_string(), span(1, 1, 1, 2));
    assert_eq!(node.as_expr(), path("x"));
    assert_eq!(UnderscoreASTNode::new(span(1, 1, 1, 2)).as_expr(), underscore());
    let sum = ArithExprASTNode::new(
        ArithOperator::Add,
        Box::new(int_lit(1)),
        Box::new(int_lit(2)),
        span(1, 1, 1, 6),
    );
    assert!(matches!(sum.as_expr(), Expr::Arith(_)));
    let lit = LiteralBox::Bool(LiteralASTNode::<bool>::new(false, span(1, 1, 1, 6)));
    assert!(matches!(lit.as_expr(), Expr::Literal(LiteralBox::Bool(_))));
}

#[test]
fn blocks_and_statements_keep_their_parts() {
    let stmt = ExprStmtASTNode::new(Box::new(path("a")), span(1, 3, 1, 5));
    assert_eq!(stmt.expr(), &path("a"));
    let let_stmt = LetASTNode::new_with_assignment(
        Box::new(path("x")),
        TypeASTMetaNode::new(Type::I32, span(1, 8, 1, 11)),
        Box::new(int_lit(1)),
        true,
        span(1, 1, 1, 16),
    );
    assert_eq!(let_stmt.ty(), Type::I32);
    assert_eq!(let_stmt.ty_node().span(), span(1, 8, 1, 11));
    assert!(let_stmt.is_mutable());
    assert_eq!(let_stmt.value(), Some(&int_lit(1)));
    let plain = LetASTNode::new(
        Box::new(path("y")),
        TypeASTMetaNode::new(Type::Bool, span(1, 8, 1, 12)),
        false,
        span(1, 1, 1, 13),
    );
    assert_eq!(plain.value(), None);
    assert!(!plain.is_mutable());
    let block = BlockASTNode::new_with_return(
        vec![Stmt::Expr(stmt), Stmt::Let(let_stmt)],
        Box::new(int_lit(2)),
        span(1, 1, 2, 2),
    );
    assert_eq!(block.statements().len(), 2);
    assert_eq!(block.statements()[0].span(), span(1, 3, 1, 5));
    assert_eq!(block.return_expr(), Some(&int_lit(2)));
    assert_eq!(block.span(), span(1, 1, 2, 2));
    let empty = BlockASTNode::new(Vec::new(), span(1, 1, 1, 3));
    assert_eq!(empty.return_expr(), None);
    let stmt = ExprStmtASTNode::new(Box::new(path("b")), span(1, 3, 1, 5));
    assert_eq!(*stmt.into_expr(), path("b"));
}

#[test]
fn else_if_chain_is_flattened_outermost_first() {
    let block = |c: usize| Box::new(BlockASTNode::new(Vec::new(), span(1, c, 1, c + 2)));
    let last = IfASTNode::new(Box::new(path("c")), block(30), ElseExpr::Else(block(40)), span(1, 25, 1, 42));
    let middle = IfASTNode::new(
        Box::new(path("b")),
        block(20),
        ElseExpr::ElseIf(Box::new(last)),
        span(1, 15, 1, 42),
    );
    let first = IfASTNode::new(
        Box::new(path("a")),
        block(10),
        ElseExpr::ElseIf(Box::new(middle)),
        span(1, 1, 1, 42),
    );
    let (chain, else_block) = first.flatten_else_ifs();
    assert_eq!(chain.len(), 2);
    assert_eq!(chain[0].condition(), &path("b"));
    assert_eq!(chain[1].condition(), &path("c"));
    assert_eq!(else_block.unwrap().span(), span(1, 40, 1, 42));
    let (chain, else_block) = chain[1].flatten_else_ifs();
    assert!(chain.is_empty());
    assert_eq!(else_block.unwrap().span(), span(1, 40, 1, 42));
}

#[test]
fn items_keep_their_parts() {
    let ty = TypeASTMetaNode::new(Type::I32, span(1, 1, 1, 4));
    let item = StaticASTNode::new("X".to_string(), ty, false, span(1, 1, 1, 15));
    assert_eq!(item.name(), "X");
    assert!(!item.is_initialized());
    assert_eq!(item.ty(), ty);
    let item = StaticASTNode::new_with_assignment(
        "Y".to_string(),
        Box::new(int_lit(1)),
        ty,
        true,
        span(1, 1, 1, 20),
    );
    assert!(item.is_initialized());
    assert!(item.is_mutable());
    assert_eq!(item.value(), Some(&int_lit(1)));
    let proto = FuncProtoASTNode::new("f".to_string(), Vec::new(), ty, span(1, 1, 1, 14));
    assert_eq!(proto.name(), "f");
    assert_eq!(proto.return_type(), ty);
    let func = FuncASTNode::new(proto, BlockASTNode::new(Vec::new(), span(1, 15, 1, 17)), span(1, 1, 1, 17));
    assert_eq!(func.proto().name(), "f");
    assert_eq!(func.body().span(), span(1, 15, 1, 17));
    let root = CrateASTNode::new(
        "main".to_string(),
        vec![ItemASTNode::Func(Box::new(func)), ItemASTNode::Static(Box::new(item))],
        span(1, 1, 3, 1),
    );
    assert_eq!(root.name(), "main");
    assert_eq!(root.items().len(), 2);
    assert_eq!(root.items()[1].span(), span(1, 1, 1, 20));
    let whole = Crate::new(Box::new(root));
    assert_eq!(whole.root().span(), span(1, 1, 3, 1));
}

#[test]
fn foreign_static_keeps_its_parts() {
    let node = ExternStaticASTNode::new(
        Box::new(PathASTNode::new("errno".to_string(), span(1, 8, 1, 13))),
        VarType::Int,
        true,
        span(1, 1, 1, 19),
    );
    assert_eq!(node.ty(), VarType::Int);
    assert!(node.is_mutable());
    assert_eq!(node.assignee().path(), "errno");
    assert_eq!(node.span(), span(1, 1, 1, 19));
}

#[test]
fn leaves_have_no_children() {
    assert_eq!(ASTNode::children(&int_lit(1)), None);
    assert_eq!(ASTNode::children(&path("x")), None);
    assert_eq!(ASTNode::children(&underscore()), None);
    assert_eq!(ASTNode::children(&Expr::Return(ReturnASTNode::empty(span(1, 1, 1, 7)))), None);
}

#[test]
fn children_come_in_the_order_of_the_source() {
    let lhs = path("a");
    let rhs = int_lit(2);
    let sum = make_binary(BinaryOperator::Arith(ArithOperator::Add), path("a"), int_lit(2));
    assert_eq!(
        ASTNode::children(&sum),
        Some(vec![ASTNodeRef::Expr(&lhs), ASTNodeRef::Expr(&rhs)])
    );
    assert_eq!(ASTNode::span(&sum), span(1, 1, 1, 2));

    let value = int_lit(7);
    let ret = Expr::Return(ReturnASTNode::new(Box::new(int_lit(7)), span(1, 1, 1, 9)));
    assert_eq!(ASTNode::children(&ret), Some(vec![ASTNodeRef::Expr(&value)]));

    let stmt = Stmt::Expr(ExprStmtASTNode::new(Box::new(path("a")), span(1, 3, 1, 5)));
    let stmt_twin = Stmt::Expr(ExprStmtASTNode::new(Box::new(path("a")), span(1, 3, 1, 5)));
    let block = BlockASTNode::new_with_return(vec![stmt], Box::new(int_lit(2)), span(1, 1, 1, 9));
    assert_eq!(
        block.children(),
        Some(vec![ASTNodeRef::Stmt(&stmt_twin), ASTNodeRef::Expr(&rhs)])
    );
    assert_eq!(ASTNode::children(&stmt_twin), Some(vec![ASTNodeRef::Expr(&lhs)]));
    assert_eq!(stmt_twin.as_ast(), ASTNodeRef::Stmt(&stmt_twin));
}

#[test]
fn children_of_items() {
    let ty = TypeASTMetaNode::new(Type::I32, span(1, 1, 1, 4));
    let param = ParamASTNode::new(Box::new(path("a")), ty, false, span(1, 6, 1, 7));
    let param_twin = ParamASTNode::new(Box::new(path("a")), ty, false, span(1, 6, 1, 7));
    let proto = FuncProtoASTNode::new("f".to_string(), vec![param], ty, span(1, 1, 1, 14));
    assert_eq!(proto.children(), Some(vec![ASTNodeRef::Param(&param_twin)]));
    assert_eq!(param_twin.children(), Some(vec![ASTNodeRef::Expr(&path("a"))]));
    let func =
        FuncASTNode::new(proto, BlockASTNode::new(Vec::new(), span(1, 15, 1, 17)), span(1, 1, 1, 17));
    assert_eq!(
        func.children(),
        Some(vec![ASTNodeRef::FuncProto(func.proto()), ASTNodeRef::Block(func.body())])
    );
    let item = ItemASTNode::Func(Box::new(func));
    assert_eq!(item.children().map(|c| c.len()), Some(2));
    assert_eq!(ASTNode::span(&item), span(1, 1, 1, 17));
    let stat = StaticASTNode::new("X".to_string(), ty, false, span(1, 1, 1, 15));
    assert_eq!(stat.children(), Some(Vec::new()));
    let root = CrateASTNode::new("main".to_string(), vec![item], span(1, 1, 2, 1));
    let children = root.children().unwrap();
    assert_eq!(children.len(), 1);
    assert_eq!(children[0], ASTNodeRef::Item(&root.items()[0]));
    assert_eq!(children[0].children().map(|c| c.len()), Some(2));
    assert_eq!(children[0].span(), span(1, 1, 1, 17));
    assert_eq!(root.as_ast().span(), span(1, 1, 2, 1));
}
