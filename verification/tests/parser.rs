use mini_rust_compiler_components::ast::crt::Crate;
use mini_rust_compiler_components::ast::error::SemanticError;
use mini_rust_compiler_components::ast::expr::{
    ArithOperator, BlockASTNode, CompOperator, ElseExpr, Expr, LazyBoolOperator, LiteralBox,
    NegOperator, Stmt,
};
use mini_rust_compiler_components::ast::item::{ExternItem, FuncASTNode, ItemASTNode};
use mini_rust_compiler_components::ast::types::Type;
use mini_rust_compiler_components::lexer::error::LexerErrorKind;
use mini_rust_compiler_components::parser::error::{ParserError, RecoverableParserError};
use mini_rust_compiler_components::parser::Parser;
use mini_rust_compiler_components::token::{Position, Span, TokenType};

fn parse(source: &str) -> Result<Crate, ParserError> {
    Parser::new("test.mrs".to_string(), source.chars().collect()).parse()
}

fn span(l1: usize, c1: usize, l2: usize, c2: usize) -> Span {
    Span::new(Position::new_at(l1, c1), Position::new_at(l2, c2))
}

/// The first item of the crate, which has to be a function.
fn first_func(root: &Crate) -> &FuncASTNode {
    match &root.root().items()[0] {
        ItemASTNode::Func(func) => func,
        other => panic!("expected a function, got {:?}", other),
    }
}

/// The final expression of the body of the function `f` in `fn f() { <source> }`.
fn body_of(root: &Crate) -> &BlockASTNode {
    first_func(root).body()
}

fn tail_of(root: &Crate) -> &Expr {
    body_of(root).return_expr().expect("the block has a final expression")
}

fn int_of(e: &Expr) -> i32 {
    match e {
        Expr::Literal(LiteralBox::I32(lit)) => *lit.value(),
        other => panic!("expected an integer literal, got {:?}", other),
    }
}

fn path_of(e: &Expr) -> &str {
    match e {
        Expr::Path(path) => path.path(),
        other => panic!("expected a path, got {:?}", other),
    }
}

fn recoverable(source: &str) -> Vec<RecoverableParserError> {
    match parse(source) {
        Err(ParserError::Aggregated(errors)) => errors,
        other => panic!("expected aggregated errors, got {:?}", other),
    }
}

#[test]
fn binary_operators_of_one_level_associate_to_the_left() {
    let root = parse("fn f() { 1 - 2 - 3 }").unwrap();
    match tail_of(&root) {
        Expr::Arith(outer) => {
            assert_eq!(outer.operator(), ArithOperator::Sub);
            assert_eq!(int_of(outer.rhs()), 3);
            match outer.lhs() {
                Expr::Arith(inner) => {
                    assert_eq!(inner.operator(), ArithOperator::Sub);
                    assert_eq!(int_of(inner.lhs()), 1);
                    assert_eq!(int_of(inner.rhs()), 2);
                    assert_eq!(inner.span(), span(1, 10, 1, 15));
                }
                other => panic!("expected a difference, got {:?}", other),
            }
            assert_eq!(outer.span(), span(1, 10, 1, 19));
        }
        other => panic!("expected a difference, got {:?}", other),
    }
}

#[test]
fn mixed_operators_of_one_level_associate_to_the_left() {
    let root = parse("fn f() { 8 / 4 * 2 % 3 }").unwrap();
    match tail_of(&root) {
        Expr::Arith(rem) => {
            assert_eq!(rem.operator(), ArithOperator::Rem);
            assert_eq!(int_of(rem.rhs()), 3);
            match rem.lhs() {
                Expr::Arith(mul) => {
                    assert_eq!(mul.operator(), ArithOperator::Mul);
                    assert_eq!(int_of(mul.rhs()), 2);
                    match mul.lhs() {
                        Expr::Arith(div) => {
                            assert_eq!(div.operator(), ArithOperator::Div);
                            assert_eq!(int_of(div.lhs()), 8);
                            assert_eq!(int_of(div.rhs()), 4);
                        }
                        other => panic!("expected a quotient, got {:?}", other),
                    }
                }
                other => panic!("expected a product, got {:?}", other),
            }
        }
        other => panic!("expected a remainder, got {:?}", other),
    }
}

#[test]
fn assignments_associate_to_the_left() {
    let root = parse("fn f() { a = b = c }").unwrap();
    match tail_of(&root) {
        Expr::Assign(outer) => {
            assert_eq!(path_of(outer.value_expr()), "c");
            match outer.assignee_expr() {
                Expr::Assign(inner) => {
                    assert_eq!(path_of(inner.assignee_expr()), "a");
                    assert_eq!(path_of(inner.value_expr()), "b");
                }
                other => panic!("expected an assignment, got {:?}", other),
            }
        }
        other => panic!("expected an assignment, got {:?}", other),
    }
}

#[test]
fn precedence_is_respected_across_levels() {
    let root = parse("fn f() { 1 + 2 * 3 }").unwrap();
    match tail_of(&root) {
        Expr::Arith(sum) => {
            assert_eq!(sum.operator(), ArithOperator::Add);
            assert_eq!(int_of(sum.lhs()), 1);
            match sum.rhs() {
                Expr::Arith(product) => {
                    assert_eq!(product.operator(), ArithOperator::Mul);
                    assert_eq!(int_of(product.lhs()), 2);
                    assert_eq!(int_of(product.rhs()), 3);
                }
                other => panic!("expected a product, got {:?}", other),
            }
        }
        other => panic!("expected a sum, got {:?}", other),
    }

    let root = parse("fn f() { 1 * 2 + 3 }").unwrap();
    match tail_of(&root) {
        Expr::Arith(sum) => {
            assert_eq!(sum.operator(), ArithOperator::Add);
            assert_eq!(int_of(sum.rhs()), 3);
            match sum.lhs() {
                Expr::Arith(product) => assert_eq!(product.operator(), ArithOperator::Mul),
                other => panic!("expected a product, got {:?}", other),
            }
        }
        other => panic!("expected a sum, got {:?}", other),
    }
}

#[test]
fn every_level_binds_tighter_than_the_one_before() {
    // a = b || c && d == e | f ^ g & h + i * j as i32
    let root = parse("fn f() { a = b || c && d == e | f ^ g & h + i * - j as i32 }").unwrap();
    let assign = match tail_of(&root) {
        Expr::Assign(n) => n,
        other => panic!("expected an assignment, got {:?}", other),
    };
    assert_eq!(path_of(assign.assignee_expr()), "a");
    let or = match assign.value_expr() {
        Expr::LazyBool(n) => n,
        other => panic!("expected a lazy or, got {:?}", other),
    };
    assert_eq!(or.operator(), LazyBoolOperator::Or);
    assert_eq!(path_of(or.lhs()), "b");
    let and = match or.rhs() {
        Expr::LazyBool(n) => n,
        other => panic!("expected a lazy and, got {:?}", other),
    };
    assert_eq!(and.operator(), LazyBoolOperator::And);
    assert_eq!(path_of(and.lhs()), "c");
    let eq = match and.rhs() {
        Expr::Comp(n) => n,
        other => panic!("expected a comparison, got {:?}", other),
    };
    assert_eq!(eq.operator(), CompOperator::Eq);
    assert_eq!(path_of(eq.lhs()), "d");
    let bit_or = match eq.rhs() {
        Expr::Arith(n) => n,
        other => panic!("expected a bitwise or, got {:?}", other),
    };
    assert_eq!(bit_or.operator(), ArithOperator::BitOr);
    assert_eq!(path_of(bit_or.lhs()), "e");
    let bit_xor = match bit_or.rhs() {
        Expr::Arith(n) => n,
        other => panic!("expected a bitwise xor, got {:?}", other),
    };
    assert_eq!(bit_xor.operator(), ArithOperator::BitXor);
    assert_eq!(path_of(bit_xor.lhs()), "f");
    let bit_and = match bit_xor.rhs() {
        Expr::Arith(n) => n,
        other => panic!("expected a bitwise and, got {:?}", other),
    };
    assert_eq!(bit_and.operator(), ArithOperator::BitAnd);
    assert_eq!(path_of(bit_and.lhs()), "g");
    let sum = match bit_and.rhs() {
        Expr::Arith(n) => n,
        other => panic!("expected a sum, got {:?}", other),
    };
    assert_eq!(sum.operator(), ArithOperator::Add);
    assert_eq!(path_of(sum.lhs()), "h");
    let product = match sum.rhs() {
        Expr::Arith(n) => n,
        other => panic!("expected a product, got {:?}", other),
    };
    assert_eq!(product.operator(), ArithOperator::Mul);
    assert_eq!(path_of(product.lhs()), "i");
    let cast = match product.rhs() {
        Expr::TypeCast(n) => n,
        other => panic!("expected a cast, got {:?}", other),
    };
    assert_eq!(cast.ty().ty(), Type::I32);
    let neg = match cast.value() {
        Expr::Neg(n) => n,
        other => panic!("expected a negation, got {:?}", other),
    };
    assert_eq!(neg.operator(), NegOperator::Neg);
    assert_eq!(path_of(neg.expr()), "j");
}

#[test]
fn comparisons_do_not_chain() {
    match parse("fn f() { 1 < 2 < 3 }") {
        Err(ParserError::UnexpectedToken { actual, expected }) => {
            assert_eq!(actual.ty(), &TokenType::Lt);
            assert_eq!(actual.span(), span(1, 16, 1, 17));
            assert_eq!(expected, "<operator>, '=', '{', '(', ',', '}', ';'");
        }
        other => panic!("expected an unexpected token, got {:?}", other),
    }
    let root = parse("fn f() { (1 < 2) == (3 >= 4) }").unwrap();
    match tail_of(&root) {
        Expr::Comp(n) => assert_eq!(n.operator(), CompOperator::Eq),
        other => panic!("expected a comparison, got {:?}", other),
    }
}

#[test]
fn foreign_block_without_bodies_and_initializers_parses() {
    let root = parse("extern \"C\" { static X: i32; fn f(); }").unwrap();
    assert_eq!(root.root().items().len(), 1);
    match &root.root().items()[0] {
        ItemASTNode::Extern(block) => {
            assert_eq!(block.abi(), "C");
            assert_eq!(block.items().len(), 2);
            match &block.items()[0] {
                ExternItem::Static(item) => {
                    assert_eq!(item.name(), "X");
                    assert_eq!(item.ty().ty(), Type::I32);
                    assert!(!item.is_initialized());
                    assert!(!item.is_mutable());
                }
                other => panic!("expected a static item, got {:?}", other),
            }
            match &block.items()[1] {
                ExternItem::Func(proto) => {
                    assert_eq!(proto.name(), "f");
                    assert!(proto.get_param_iter().is_empty());
                    assert_eq!(proto.return_type().ty(), Type::Unit);
                }
                other => panic!("expected a prototype, got {:?}", other),
            }
            assert_eq!(block.span(), span(1, 1, 1, 38));
        }
        other => panic!("expected a block of foreign items, got {:?}", other),
    }
}

#[test]
fn foreign_function_with_body_is_a_recoverable_error() {
    assert_eq!(
        recoverable("extern \"C\" { fn f() { } }"),
        vec![RecoverableParserError::SemanticError(SemanticError::ExternFunctionWithBody {
            span: span(1, 21, 1, 24)
        })]
    );
}

#[test]
fn foreign_static_with_initializer_is_a_recoverable_error() {
    assert_eq!(
        recoverable("extern \"C\" { static X: i32 = 1; }"),
        vec![RecoverableParserError::SemanticError(
            SemanticError::ExternStaticWithInitializer { span: span(1, 30, 1, 31) }
        )]
    );
}

#[test]
fn static_without_initializer_is_a_recoverable_error() {
    assert_eq!(
        recoverable("static X: i32;"),
        vec![RecoverableParserError::SemanticError(SemanticError::StaticWithoutInitializer {
            span: span(1, 1, 1, 15)
        })]
    );
}

#[test]
fn unsupported_abi_is_a_recoverable_error() {
    assert_eq!(
        recoverable("extern \"D\" { }"),
        vec![RecoverableParserError::UnsupportedAbi("D".to_string())]
    );
}

#[test]
fn recoverable_errors_are_aggregated_in_order() {
    assert_eq!(
        recoverable("static A: i32;\nextern \"sys\" { fn g() {} }\nfn f() { let x: bool = true }"),
        vec![
            RecoverableParserError::SemanticError(SemanticError::StaticWithoutInitializer {
                span: span(1, 1, 1, 15)
            }),
            RecoverableParserError::UnsupportedAbi("sys".to_string()),
            RecoverableParserError::SemanticError(SemanticError::ExternFunctionWithBody {
                span: span(2, 23, 2, 25)
            }),
            RecoverableParserError::MissingToken(TokenType::Semi, Position::new_at(3, 28)),
        ]
    );
}

#[test]
fn let_statement_with_all_its_parts() {
    let root = parse("fn f() { let mut x: i32 = 1 + 2; }").unwrap();
    let body = body_of(&root);
    assert!(body.return_expr().is_none());
    assert_eq!(body.statements().len(), 1);
    match &body.statements()[0] {
        Stmt::Let(node) => {
            assert!(node.is_mutable());
            assert_eq!(path_of(node.decl()), "x");
            assert_eq!(node.ty(), Type::I32);
            match node.value() {
                Some(Expr::Arith(sum)) => {
                    assert_eq!(sum.operator(), ArithOperator::Add);
                    assert_eq!(int_of(sum.lhs()), 1);
                    assert_eq!(int_of(sum.rhs()), 2);
                }
                other => panic!("expected a sum, got {:?}", other),
            }
            assert_eq!(node.span(), span(1, 10, 1, 33));
        }
        other => panic!("expected a let statement, got {:?}", other),
    }
}

#[test]
fn let_statement_without_initializer() {
    let root = parse("fn f() { let x: f64; }").unwrap();
    match &body_of(&root).statements()[0] {
        Stmt::Let(node) => {
            assert!(!node.is_mutable());
            assert_eq!(path_of(node.decl()), "x");
            assert_eq!(node.ty(), Type::F64);
            assert!(node.value().is_none());
        }
        other => panic!("expected a let statement, got {:?}", other),
    }
}

#[test]
fn while_loop_with_comparison_and_assignment() {
    let root = parse("fn f() { while x < 10 { x = x + 1; } }").unwrap();
    match tail_of(&root) {
        Expr::While(node) => {
            match node.condition() {
                Expr::Comp(comparison) => {
                    assert_eq!(comparison.operator(), CompOperator::Lt);
                    assert_eq!(path_of(comparison.lhs()), "x");
                    assert_eq!(int_of(comparison.rhs()), 10);
                }
                other => panic!("expected a comparison, got {:?}", other),
            }
            let body = node.body();
            assert!(body.return_expr().is_none());
            assert_eq!(body.statements().len(), 1);
            match &body.statements()[0] {
                Stmt::Expr(stmt) => match stmt.expr() {
                    Expr::Assign(assign) => {
                        assert_eq!(path_of(assign.assignee_expr()), "x");
                        match assign.value_expr() {
                            Expr::Arith(sum) => {
                                assert_eq!(sum.operator(), ArithOperator::Add);
                                assert_eq!(path_of(sum.lhs()), "x");
                                assert_eq!(int_of(sum.rhs()), 1);
                            }
                            other => panic!("expected a sum, got {:?}", other),
                        }
                    }
                    other => panic!("expected an assignment, got {:?}", other),
                },
                other => panic!("expected an expression statement, got {:?}", other),
            }
        }
        other => panic!("expected a while loop, got {:?}", other),
    }
}

#[test]
fn let_without_semicolon_is_a_recoverable_error() {
    assert_eq!(
        recoverable("fn f() { let x: i32 = 1 }"),
        vec![RecoverableParserError::MissingToken(TokenType::Semi, Position::new_at(1, 24))]
    );
}

#[test]
fn let_without_initializer_needs_its_semicolon() {
    match parse("fn f() { let x: i32 }") {
        Err(ParserError::UnexpectedToken { actual, expected }) => {
            assert_eq!(actual.ty(), &TokenType::RBra);
            assert_eq!(expected, "'=', ';'");
        }
        other => panic!("expected an unexpected token, got {:?}", other),
    }
}

#[test]
fn let_without_semicolon_right_before_the_end_of_the_file_parses() {
    let mut parser = Parser::new("test.mrs".to_string(), "let x: i32 = 1".chars().collect());
    let node = parser.parse_let_stmt().unwrap();
    assert!(!node.is_mutable());
    assert_eq!(path_of(node.decl()), "x");
    assert_eq!(node.ty(), Type::I32);
    assert_eq!(int_of(node.value().unwrap()), 1);
    assert_eq!(node.span(), span(1, 1, 1, 15));
    assert_eq!(
        parser.errors(),
        &vec![RecoverableParserError::MissingToken(TokenType::Semi, Position::new_at(1, 15))]
    );
    // The end-of-file token is left.
    let next = parser.peek().unwrap();
    assert!(next.is_eof());
    assert_eq!(next.span(), span(1, 15, 1, 15));
    assert!(parser.consume().unwrap().is_eof());
    assert_eq!(parser.consume(), Err(ParserError::UnexpectedEOF));
}

#[test]
fn let_without_initializer_right_before_the_end_of_the_file_parses() {
    let mut parser = Parser::new("test.mrs".to_string(), "let mut y: bool".chars().collect());
    let node = parser.parse_let_stmt().unwrap();
    assert!(node.is_mutable());
    assert_eq!(path_of(node.decl()), "y");
    assert_eq!(node.ty(), Type::Bool);
    assert!(node.value().is_none());
    assert_eq!(node.span(), span(1, 1, 1, 16));
    assert_eq!(
        parser.errors(),
        &vec![RecoverableParserError::MissingToken(TokenType::Semi, Position::new_at(1, 16))]
    );
    assert!(parser.peek().unwrap().is_eof());
}

#[test]
fn let_with_semicolon_logs_nothing() {
    let mut parser = Parser::new("test.mrs".to_string(), "let x: i32 = 1;".chars().collect());
    let node = parser.parse_let_stmt().unwrap();
    assert_eq!(node.span(), span(1, 1, 1, 16));
    assert!(parser.errors().is_empty());
    assert!(parser.peek().unwrap().is_eof());
}

#[test]
fn let_in_an_unclosed_block_logs_the_semicolon_and_then_fails() {
    match parse("fn f() { let x: i32 = 1") {
        Err(ParserError::UnexpectedToken { actual, expected }) => {
            assert!(actual.is_eof());
            assert_eq!(expected, "<expr>");
        }
        other => panic!("expected an unexpected token, got {:?}", other),
    }
}

#[test]
fn end_of_file_ends_an_expression() {
    let mut parser = Parser::new("test.mrs".to_string(), "1 - 2 - 3".chars().collect());
    match parser.parse_expr().unwrap() {
        Expr::Arith(outer) => {
            assert_eq!(outer.operator(), ArithOperator::Sub);
            assert_eq!(int_of(outer.rhs()), 3);
            assert!(matches!(outer.lhs(), Expr::Arith(_)));
            assert_eq!(outer.span(), span(1, 1, 1, 10));
        }
        other => panic!("expected a difference, got {:?}", other),
    }
    assert!(parser.peek().unwrap().is_eof());

    let mut parser = Parser::new("test.mrs".to_string(), "return".chars().collect());
    match parser.parse_expr().unwrap() {
        Expr::Return(node) => assert!(node.value().is_none()),
        other => panic!("expected a return, got {:?}", other),
    }
    assert!(parser.peek().unwrap().is_eof());
}

#[test]
fn static_before_the_end_of_the_file_needs_its_semicolon() {
    match parse("static X: i32 = 1") {
        Err(ParserError::UnexpectedToken { actual, expected }) => {
            assert!(actual.is_eof());
            assert_eq!(expected, "';'");
        }
        other => panic!("expected an unexpected token, got {:?}", other),
    }
}

#[test]
fn empty_source_is_an_empty_crate() {
    let root = parse("").unwrap();
    assert_eq!(root.root().name(), "test.mrs");
    assert!(root.root().items().is_empty());
    assert_eq!(root.root().span(), span(1, 1, 1, 1));
}

#[test]
fn crate_holds_its_items_in_order() {
    let root = parse("static mut A: i32 = 1;\nfn f() {}\nextern \"C\" {}\n").unwrap();
    let items = root.root().items();
    assert_eq!(items.len(), 3);
    match &items[0] {
        ItemASTNode::Static(item) => {
            assert_eq!(item.name(), "A");
            assert_eq!(item.name_owned(), "A".to_string());
            assert!(item.is_mutable());
            assert!(item.is_initialized());
            assert_eq!(int_of(item.value().unwrap()), 1);
            assert_eq!(item.span(), span(1, 1, 1, 23));
        }
        other => panic!("expected a static item, got {:?}", other),
    }
    assert!(matches!(items[1], ItemASTNode::Func(_)));
    assert!(matches!(items[2], ItemASTNode::Extern(_)));
    assert_eq!(items[1].span(), span(2, 1, 2, 10));
    assert_eq!(root.root().span(), span(1, 1, 4, 1));
}

#[test]
fn function_prototype_with_parameters_and_return_type() {
    let root = parse("fn add(mut a: i32, _: bool, c: ()) -> f64 { }").unwrap();
    let func = first_func(&root);
    let proto = func.proto();
    assert_eq!(proto.name(), "add");
    assert_eq!(proto.name_owned(), "add".to_string());
    assert_eq!(proto.return_type().ty(), Type::F64);
    assert_eq!(proto.span(), span(1, 1, 1, 42));
    let params = proto.get_param_iter();
    assert_eq!(params.len(), 3);
    assert!(params[0].is_mutable());
    assert_eq!(path_of(params[0].assignee().unwrap()), "a");
    assert_eq!(params[0].ty().ty(), Type::I32);
    assert!(!params[1].is_mutable());
    assert_eq!(path_of(params[1].assignee().unwrap()), "_");
    assert_eq!(params[1].ty().ty(), Type::Bool);
    assert_eq!(params[2].ty().ty(), Type::Unit);
    assert_eq!(params[2].ty().span(), span(1, 32, 1, 34));
    assert_eq!(func.span(), span(1, 1, 1, 46));
}

#[test]
fn function_without_return_type_returns_unit() {
    let root = parse("fn f() { }").unwrap();
    let proto = first_func(&root).proto();
    assert_eq!(proto.return_type().ty(), Type::Unit);
    assert_eq!(proto.return_type().span(), span(1, 7, 1, 7));
    assert_eq!(proto.span(), span(1, 1, 1, 7));
}

#[test]
fn statements_and_final_expression_of_a_block() {
    let root = parse("fn f() { ; a; ;; b(); c }").unwrap();
    let body = body_of(&root);
    assert_eq!(body.statements().len(), 2);
    match &body.statements()[0] {
        Stmt::Expr(stmt) => {
            assert_eq!(path_of(stmt.expr()), "a");
            assert_eq!(stmt.span(), span(1, 12, 1, 14));
        }
        other => panic!("expected an expression statement, got {:?}", other),
    }
    assert_eq!(path_of(tail_of(&root)), "c");
    assert_eq!(body.span(), span(1, 8, 1, 26));
}

#[test]
fn expression_without_semicolon_has_to_end_the_block() {
    match parse("fn f() { if a { } b }") {
        Err(ParserError::UnexpectedToken { actual, expected }) => {
            assert_eq!(actual.ty(), &TokenType::Ident("b".to_string()));
            assert_eq!(expected, "'else', ')', ',', '{', 'as', <operator>, '=', '}', ';'");
        }
        other => panic!("expected an unexpected token, got {:?}", other),
    }
}

#[test]
fn calls_take_arguments() {
    let root = parse("fn f() { g(1, x, h(), return) }").unwrap();
    match tail_of(&root) {
        Expr::FunCall(call) => {
            assert_eq!(call.path(), "g");
            assert_eq!(call.path_node().span(), span(1, 10, 1, 11));
            let args = call.args();
            assert_eq!(args.len(), 4);
            assert_eq!(int_of(&args[0]), 1);
            assert_eq!(path_of(&args[1]), "x");
            match &args[2] {
                Expr::FunCall(inner) => {
                    assert_eq!(inner.path(), "h");
                    assert!(inner.args().is_empty());
                }
                other => panic!("expected a call, got {:?}", other),
            }
            match &args[3] {
                Expr::Return(node) => assert!(node.value().is_none()),
                other => panic!("expected a return, got {:?}", other),
            }
            assert_eq!(call.span(), span(1, 10, 1, 30));
        }
        other => panic!("expected a call, got {:?}", other),
    }
}

#[test]
fn call_arguments_need_commas() {
    match parse("fn f() { g(1 2) }") {
        Err(ParserError::UnexpectedToken { actual, expected }) => {
            assert_eq!(actual.ty(), &TokenType::IntLit(2));
            assert_eq!(expected, "<operator>, '=', '{', '(', ',', '}', ';', 'as'");
        }
        other => panic!("expected an unexpected token, got {:?}", other),
    }
}

#[test]
fn grouped_expression_and_unit_literal() {
    let root = parse("fn f() { (1 + 2) * () }").unwrap();
    match tail_of(&root) {
        Expr::Arith(product) => {
            assert_eq!(product.operator(), ArithOperator::Mul);
            match product.lhs() {
                Expr::Grouped(group) => {
                    assert!(matches!(group.expr(), Expr::Arith(_)));
                    assert_eq!(group.span(), span(1, 10, 1, 17));
                }
                other => panic!("expected a group, got {:?}", other),
            }
            match product.rhs() {
                Expr::Literal(LiteralBox::Unit(unit)) => {
                    assert_eq!(unit.ty(), Type::Unit);
                    assert_eq!(unit.span(), span(1, 20, 1, 22));
                }
                other => panic!("expected the unit literal, got {:?}", other),
            }
        }
        other => panic!("expected a product, got {:?}", other),
    }
}

#[test]
fn literals_keep_their_values() {
    let root = parse("fn f() { g(7, 2.5, true, false) }").unwrap();
    match tail_of(&root) {
        Expr::FunCall(call) => {
            let args = call.args();
            assert_eq!(int_of(&args[0]), 7);
            match &args[1] {
                Expr::Literal(LiteralBox::F64(lit)) => {
                    assert_eq!(lit.value(), "2.5");
                    assert_eq!(lit.value().parse::<f64>(), Ok(2.5));
                    assert_eq!(lit.ty(), Type::F64);
                }
                other => panic!("expected a float literal, got {:?}", other),
            }
            match &args[2] {
                Expr::Literal(LiteralBox::Bool(lit)) => {
                    assert!(*lit.value());
                    assert_eq!(lit.ty(), Type::Bool);
                }
                other => panic!("expected a boolean literal, got {:?}", other),
            }
            match &args[3] {
                Expr::Literal(LiteralBox::Bool(lit)) => assert!(!*lit.value()),
                other => panic!("expected a boolean literal, got {:?}", other),
            }
        }
        other => panic!("expected a call, got {:?}", other),
    }
}

#[test]
fn negations_nest_to_the_right() {
    let root = parse("fn f() { -!x }").unwrap();
    match tail_of(&root) {
        Expr::Neg(outer) => {
            assert_eq!(outer.operator(), NegOperator::Neg);
            assert_eq!(outer.span(), span(1, 10, 1, 13));
            match outer.expr() {
                Expr::Neg(inner) => {
                    assert_eq!(inner.operator(), NegOperator::Not);
                    assert_eq!(path_of(inner.expr()), "x");
                }
                other => panic!("expected a negation, got {:?}", other),
            }
        }
        other => panic!("expected a negation, got {:?}", other),
    }
}

#[test]
fn casts_chain_to_the_left() {
    let root = parse("fn f() { x as i32 as f64 }").unwrap();
    match tail_of(&root) {
        Expr::TypeCast(outer) => {
            assert_eq!(outer.ty().ty(), Type::F64);
            match outer.value() {
                Expr::TypeCast(inner) => {
                    assert_eq!(inner.ty().ty(), Type::I32);
                    assert_eq!(path_of(inner.value()), "x");
                }
                other => panic!("expected a cast, got {:?}", other),
            }
        }
        other => panic!("expected a cast, got {:?}", other),
    }
}

#[test]
fn unknown_type_is_an_unexpected_token() {
    match parse("static X: u8 = 1;") {
        Err(ParserError::UnexpectedToken { actual, expected }) => {
            assert_eq!(actual.ty(), &TokenType::Ident("u8".to_string()));
            assert_eq!(expected, "<type>");
        }
        other => panic!("expected an unexpected token, got {:?}", other),
    }
}

#[test]
fn if_with_else_if_chain() {
    let root = parse("fn f() { if a { 1 } else if b { 2 } else if c { 3 } else { 4 } }").unwrap();
    match tail_of(&root) {
        Expr::If(node) => {
            assert_eq!(path_of(node.condition()), "a");
            assert_eq!(int_of(node.then_block().return_expr().unwrap()), 1);
            let (else_ifs, else_block) = node.flatten_else_ifs();
            assert_eq!(else_ifs.len(), 2);
            assert_eq!(path_of(else_ifs[0].condition()), "b");
            assert_eq!(path_of(else_ifs[1].condition()), "c");
            assert_eq!(int_of(else_block.unwrap().return_expr().unwrap()), 4);
            match node.else_node() {
                ElseExpr::ElseIf(next) => assert_eq!(path_of(next.condition()), "b"),
                other => panic!("expected an else if, got {:?}", other),
            }
            assert_eq!(node.span(), span(1, 10, 1, 63));
        }
        other => panic!("expected an if expression, got {:?}", other),
    }
}

#[test]
fn if_without_else() {
    let root = parse("fn f() { if a { } }").unwrap();
    match tail_of(&root) {
        Expr::If(node) => {
            assert_eq!(node.else_node(), &ElseExpr::Nothing);
            let (else_ifs, else_block) = node.flatten_else_ifs();
            assert!(else_ifs.is_empty());
            assert!(else_block.is_none());
            assert_eq!(node.span(), span(1, 10, 1, 18));
        }
        other => panic!("expected an if expression, got {:?}", other),
    }
}

#[test]
fn loops_unsafe_blocks_and_returns() {
    let root = parse("fn f() { loop { unsafe { return 1; } } }").unwrap();
    match tail_of(&root) {
        Expr::InfLoop(node) => match node.block().return_expr().unwrap() {
            Expr::UnsafeBlock(block) => match &block.block().statements()[0] {
                Stmt::Expr(stmt) => match stmt.expr() {
                    Expr::Return(ret) => {
                        assert_eq!(int_of(ret.value().unwrap()), 1);
                        assert_eq!(ret.span(), span(1, 26, 1, 34));
                    }
                    other => panic!("expected a return, got {:?}", other),
                },
                other => panic!("expected an expression statement, got {:?}", other),
            },
            other => panic!("expected an unsafe block, got {:?}", other),
        },
        other => panic!("expected a loop, got {:?}", other),
    }
}

#[test]
fn item_is_expected_at_the_top() {
    match parse("let x: i32 = 1;") {
        Err(ParserError::UnexpectedToken { actual, expected }) => {
            assert_eq!(actual.ty(), &TokenType::Let);
            assert_eq!(actual.span(), span(1, 1, 1, 4));
            assert_eq!(expected, "<item>");
        }
        other => panic!("expected an unexpected token, got {:?}", other),
    }
}

#[test]
fn lexical_error_ends_the_parse() {
    match parse("fn f() { $ }") {
        Err(ParserError::LexicalError(e)) => {
            assert_eq!(e.kind(), &LexerErrorKind::UnknownToken('$'));
            assert_eq!(e.span(), span(1, 10, 1, 11));
        }
        other => panic!("expected a lexical error, got {:?}", other),
    }
}

#[test]
fn syntax_error_before_a_lexical_error_comes_first() {
    match parse("fn f() { ) $ }") {
        Err(ParserError::UnexpectedToken { actual, expected }) => {
            assert_eq!(actual.ty(), &TokenType::RPar);
            assert_eq!(expected, "<expr>");
        }
        other => panic!("expected an unexpected token, got {:?}", other),
    }
}

#[test]
fn fatal_error_wins_over_recoverable_errors() {
    match parse("static A: i32;\nfn f() { let }") {
        Err(ParserError::UnexpectedToken { actual, expected }) => {
            assert_eq!(actual.ty(), &TokenType::RBra);
            assert_eq!(expected, "<pattern>");
        }
        other => panic!("expected an unexpected token, got {:?}", other),
    }
}

#[test]
fn parser_keeps_its_filename() {
    let parser = Parser::new("main.mrs".to_string(), Vec::new());
    assert_eq!(parser.filename(), "main.mrs");
}

#[test]
fn conversions_wrap_the_inner_error() {
    let semantic = SemanticError::StaticWithoutInitializer { span: span(1, 1, 1, 2) };
    assert_eq!(
        RecoverableParserError::from(semantic.clone()),
        RecoverableParserError::SemanticError(semantic)
    );
    let mut lexer = mini_rust_compiler_components::lexer::Lexer::new(
        "t".to_string(),
        "#".chars().collect(),
    );
    let e = lexer.next().unwrap_err();
    assert_eq!(ParserError::from(e.clone()), ParserError::LexicalError(e));
}
