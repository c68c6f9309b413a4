use mini_rust_compiler_components::token::{Position, Span, Token, TokenType};

#[test]
fn test_token_type_extract_keyword_or_symbol() {
    assert_eq!(TokenType::extract_keyword_or_symbol("fn"), Some(TokenType::Fn));
    assert_eq!(TokenType::extract_keyword_or_symbol("static"), Some(TokenType::Static));
    assert_eq!(TokenType::extract_keyword_or_symbol("extern"), Some(TokenType::Extern));
    assert_eq!(TokenType::extract_keyword_or_symbol("let"), Some(TokenType::Let));
    assert_eq!(TokenType::extract_keyword_or_symbol("mut"), Some(TokenType::Mut));
    assert_eq!(TokenType::extract_keyword_or_symbol("as"), Some(TokenType::As));
    assert_eq!(TokenType::extract_keyword_or_symbol("loop"), Some(TokenType::Loop));
    assert_eq!(TokenType::extract_keyword_or_symbol("while"), Some(TokenType::While));
    assert_eq!(TokenType::extract_keyword_or_symbol("if"), Some(TokenType::If));
    assert_eq!(TokenType::extract_keyword_or_symbol("else"), Some(TokenType::Else));
    assert_eq!(TokenType::extract_keyword_or_symbol("unsafe"), Some(TokenType::Unsafe));
    assert_eq!(TokenType::extract_keyword_or_symbol("return"), Some(TokenType::Return));
    assert_eq!(TokenType::extract_keyword_or_symbol("("), Some(TokenType::LPar));
    assert_eq!(TokenType::extract_keyword_or_symbol(")"), Some(TokenType::RPar));
    assert_eq!(TokenType::extract_keyword_or_symbol("{"), Some(TokenType::LBra));
    assert_eq!(TokenType::extract_keyword_or_symbol("}"), Some(TokenType::RBra));
    assert_eq!(TokenType::extract_keyword_or_symbol(";"), Some(TokenType::Semi));
    assert_eq!(TokenType::extract_keyword_or_symbol(","), Some(TokenType::Comma));
    assert_eq!(TokenType::extract_keyword_or_symbol(":"), Some(TokenType::Colon));
    assert_eq!(TokenType::extract_keyword_or_symbol("->"), Some(TokenType::Arrow));
    assert_eq!(TokenType::extract_keyword_or_symbol("true"), Some(TokenType::BoolLit(true)));
    assert_eq!(TokenType::extract_keyword_or_symbol("false"), Some(TokenType::BoolLit(false)));
    assert_eq!(TokenType::extract_keyword_or_symbol("="), Some(TokenType::Assign));
    assert_eq!(TokenType::extract_keyword_or_symbol("+"), Some(TokenType::Plus));
    assert_eq!(TokenType::extract_keyword_or_symbol("-"), Some(TokenType::Minus));
    assert_eq!(TokenType::extract_keyword_or_symbol("*"), Some(TokenType::Asterisk));
    assert_eq!(TokenType::extract_keyword_or_symbol("/"), Some(TokenType::Div));
    assert_eq!(TokenType::extract_keyword_or_symbol("%"), Some(TokenType::Mod));
    assert_eq!(TokenType::extract_keyword_or_symbol("&"), Some(TokenType::BitAnd));
    assert_eq!(TokenType::extract_keyword_or_symbol("|"), Some(TokenType::BitOr));
    assert_eq!(TokenType::extract_keyword_or_symbol("^"), Some(TokenType::BitXor));
    assert_eq!(TokenType::extract_keyword_or_symbol("!"), Some(TokenType::Not));
    assert_eq!(TokenType::extract_keyword_or_symbol("&&"), Some(TokenType::And));
    assert_eq!(TokenType::extract_keyword_or_symbol("||"), Some(TokenType::Or));
    assert_eq!(TokenType::extract_keyword_or_symbol("=="), Some(TokenType::Eq));
    assert_eq!(TokenType::extract_keyword_or_symbol("!="), Some(TokenType::Ne));
    assert_eq!(TokenType::extract_keyword_or_symbol(">"), Some(TokenType::Gt));
    assert_eq!(TokenType::extract_keyword_or_symbol("<"), Some(TokenType::Lt));
    assert_eq!(TokenType::extract_keyword_or_symbol(">="), Some(TokenType::Ge));
    assert_eq!(TokenType::extract_keyword_or_symbol("<="), Some(TokenType::Le));
    assert_eq!(TokenType::extract_keyword_or_symbol(""), None);
    assert_eq!(TokenType::extract_keyword_or_symbol("invalid"), None);
    assert_eq!(TokenType::extract_keyword_or_symbol("== "), None);
    assert_eq!(TokenType::extract_keyword_or_symbol(" !"), None);
    assert_eq!(TokenType::extract_keyword_or_symbol("|||"), None);
    assert_eq!(TokenType::extract_keyword_or_symbol("f n"), None);
    assert_eq!(TokenType::extract_keyword_or_symbol("Return"), None);
    assert_eq!(TokenType::extract_keyword_or_symbol("0123"), None);
    assert_eq!(TokenType::extract_keyword_or_symbol(r#""C""#), None);
}

#[test]
fn underscore_alone_is_no_keyword_or_symbol() {
    assert_eq!(TokenType::extract_keyword_or_symbol("_"), None);
}

#[test]
fn position_starts_at_line_one_column_one() {
    let pos = Position::new();
    assert_eq!(pos.line(), 1);
    assert_eq!(pos.column(), 1);
    assert_eq!(Position::default(), pos);
}

#[test]
fn position_new_at_keeps_line_and_column() {
    let pos = Position::new_at(2, 3);
    assert_eq!(pos.line(), 2);
    assert_eq!(pos.column(), 3);
}

#[test]
fn position_line_inc_resets_column() {
    let mut pos = Position::new_at(2, 3);
    pos.line_inc();
    assert_eq!(pos.line(), 3);
    assert_eq!(pos.column(), 1);
}

#[test]
fn position_col_inc_keeps_line() {
    let mut pos = Position::new_at(2, 3);
    pos.col_inc();
    assert_eq!(pos.line(), 2);
    assert_eq!(pos.column(), 4);
}

#[test]
fn span_keeps_start_and_end() {
    let start = Position::new_at(1, 1);
    let end = Position::new_at(2, 3);
    let span = Span::new(start, end);
    assert_eq!(span.start(), start);
    assert_eq!(span.end(), end);
}

#[test]
fn token_new_keeps_type_and_span() {
    let start = Position::new_at(1, 1);
    let end = Position::new_at(1, 2);
    let tok = Token::new(TokenType::Plus, start, end);
    assert_eq!(tok.ty(), &TokenType::Plus);
    assert_eq!(tok.span().start(), start);
    assert_eq!(tok.span().end(), end);
    assert!(!tok.is_eof());
    assert_eq!(tok.into_ty(), TokenType::Plus);
}

#[test]
fn token_eof_is_empty_span_at_position() {
    let pos = Position::new_at(4, 7);
    let tok = Token::eof(pos);
    assert!(tok.is_eof());
    assert_eq!(tok.ty(), &TokenType::EOF);
    assert_eq!(tok.span(), Span::new(pos, pos));
}

#[test]
fn token_type_same_compares_kind_and_payload() {
    assert!(TokenType::Fn.same(&TokenType::Fn));
    assert!(!TokenType::Fn.same(&TokenType::Let));
    assert!(TokenType::Ident("a".to_string()).same(&TokenType::Ident("a".to_string())));
    assert!(!TokenType::Ident("a".to_string()).same(&TokenType::Ident("b".to_string())));
    assert!(!TokenType::Ident("a".to_string()).same(&TokenType::Abi("a".to_string())));
    assert!(TokenType::IntLit(3).same(&TokenType::IntLit(3)));
    assert!(!TokenType::IntLit(3).same(&TokenType::IntLit(4)));
    assert!(!TokenType::BoolLit(true).same(&TokenType::BoolLit(false)));
}
