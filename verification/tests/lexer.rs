use mini_rust_compiler_components::lexer::error::{LexerError, LexerErrorKind};
use mini_rust_compiler_components::lexer::file_reader::{
    FileReader, LineBuffer, ReadEvent, ReadStep, RETRY_LIMIT,
};
use mini_rust_compiler_components::lexer::helper::{
    has_dot, is_float_literal, is_word_part, is_word_start, parse_int, skip_digits,
};
use mini_rust_compiler_components::lexer::{CharClass, Lexer};
use mini_rust_compiler_components::token::{Position, Span, Token, TokenType};

fn lexer_for(source: &str) -> Lexer {
    Lexer::new("test.mrs".to_string(), source.chars().collect())
}

/// Pulls tokens until the lexer is exhausted or fails.
fn lex(source: &str) -> (Vec<Token>, Option<LexerError>) {
    let mut lexer = lexer_for(source);
    let mut tokens = Vec::new();
    loop {
        match lexer.next() {
            Ok(Some(token)) => tokens.push(token),
            Ok(None) => return (tokens, None),
            Err(e) => return (tokens, Some(e)),
        }
    }
}

fn kinds(source: &str) -> Vec<TokenType> {
    let (tokens, failure) = lex(source);
    assert_eq!(failure, None);
    tokens.into_iter().map(|t| t.into_ty()).collect()
}

fn span(l1: usize, c1: usize, l2: usize, c2: usize) -> Span {
    Span::new(Position::new_at(l1, c1), Position::new_at(l2, c2))
}

fn chars(s: &str) -> Vec<char> {
    s.chars().collect()
}

#[test]
fn float_literal_is_one_token_over_the_whole_text() {
    let (tokens, failure) = lex("123.45");
    assert_eq!(failure, None);
    assert_eq!(tokens.len(), 2);
    assert_eq!(tokens[0].ty(), &TokenType::FloatLit("123.45".to_string()));
    assert_eq!(tokens[0].span(), span(1, 1, 1, 7));
    assert!(tokens[1].is_eof());
    assert_eq!("123.45".parse::<f64>(), Ok(123.45));
}

#[test]
fn int_literal_is_one_token() {
    let (tokens, failure) = lex("123");
    assert_eq!(failure, None);
    assert_eq!(tokens.len(), 2);
    assert_eq!(tokens[0].ty(), &TokenType::IntLit(123));
    assert_eq!(tokens[0].span(), span(1, 1, 1, 4));
    assert!(tokens[1].is_eof());
}

#[test]
fn bare_dot_is_not_part_of_a_number() {
    let (tokens, failure) = lex(".");
    assert!(tokens.is_empty());
    let e = failure.unwrap();
    assert_eq!(e.kind(), &LexerErrorKind::UnknownToken('.'));
    assert_eq!(e.span(), span(1, 1, 1, 2));

    let (tokens, failure) = lex(".5");
    assert!(tokens.is_empty());
    assert_eq!(failure.unwrap().kind(), &LexerErrorKind::UnknownToken('.'));
}

#[test]
fn token_sequence_ends_in_exactly_one_eof() {
    let mut lexer = lexer_for("fn main() {}");
    let mut seen = Vec::new();
    while let Some(token) = lexer.next().unwrap() {
        seen.push(token);
    }
    let eofs = seen.iter().filter(|t| t.is_eof()).count();
    assert_eq!(eofs, 1);
    assert!(seen.last().unwrap().is_eof());
    assert_eq!(
        seen.into_iter().map(|t| t.into_ty()).collect::<Vec<_>>(),
        vec![
            TokenType::Fn,
            TokenType::Ident("main".to_string()),
            TokenType::LPar,
            TokenType::RPar,
            TokenType::LBra,
            TokenType::RBra,
            TokenType::EOF,
        ]
    );
    assert_eq!(lexer.next(), Ok(None));
    assert_eq!(lexer.next(), Ok(None));
}

#[test]
fn empty_source_gives_only_eof() {
    let (tokens, failure) = lex("");
    assert_eq!(failure, None);
    assert_eq!(tokens.len(), 1);
    assert!(tokens[0].is_eof());
    assert_eq!(tokens[0].span(), span(1, 1, 1, 1));
}

#[test]
fn two_character_symbols_come_before_one_character_symbols() {
    assert_eq!(
        kinds("-> && || == != <= >="),
        vec![
            TokenType::Arrow,
            TokenType::And,
            TokenType::Or,
            TokenType::Eq,
            TokenType::Ne,
            TokenType::Le,
            TokenType::Ge,
            TokenType::EOF,
        ]
    );
    assert_eq!(
        kinds("=+-*/%&|^!><(){};,:"),
        vec![
            TokenType::Assign,
            TokenType::Plus,
            TokenType::Minus,
            TokenType::Asterisk,
            TokenType::Div,
            TokenType::Mod,
            TokenType::BitAnd,
            TokenType::BitOr,
            TokenType::BitXor,
            TokenType::Not,
            TokenType::Gt,
            TokenType::Lt,
            TokenType::LPar,
            TokenType::RPar,
            TokenType::LBra,
            TokenType::RBra,
            TokenType::Semi,
            TokenType::Comma,
            TokenType::Colon,
            TokenType::EOF,
        ]
    );
    assert_eq!(kinds("==="), vec![TokenType::Eq, TokenType::Assign, TokenType::EOF]);
}

#[test]
fn keywords_booleans_and_identifiers() {
    assert_eq!(
        kinds("fn static extern let mut as loop while if else unsafe return true false foo _ _x"),
        vec![
            TokenType::Fn,
            TokenType::Static,
            TokenType::Extern,
            TokenType::Let,
            TokenType::Mut,
            TokenType::As,
            TokenType::Loop,
            TokenType::While,
            TokenType::If,
            TokenType::Else,
            TokenType::Unsafe,
            TokenType::Return,
            TokenType::BoolLit(true),
            TokenType::BoolLit(false),
            TokenType::Ident("foo".to_string()),
            TokenType::Ident("_".to_string()),
            TokenType::Ident("_x".to_string()),
            TokenType::EOF,
        ]
    );
    assert_eq!(
        kinds("fnx iff"),
        vec![
            TokenType::Ident("fnx".to_string()),
            TokenType::Ident("iff".to_string()),
            TokenType::EOF
        ]
    );
}

#[test]
fn identifiers_follow_unicode_xid() {
    assert_eq!(kinds("é"), vec![TokenType::Ident("é".to_string()), TokenType::EOF]);
    assert_eq!(kinds("x1"), vec![TokenType::Ident("x1".to_string()), TokenType::EOF]);
    assert_eq!(
        kinds("a+b"),
        vec![
            TokenType::Ident("a".to_string()),
            TokenType::Plus,
            TokenType::Ident("b".to_string()),
            TokenType::EOF
        ]
    );
    let (tokens, failure) = lex("€");
    assert!(tokens.is_empty());
    assert_eq!(failure.unwrap().kind(), &LexerErrorKind::UnknownToken('€'));
}

#[test]
fn char_classes_hold_for_their_characters() {
    assert!(CharClass::Whitespace.holds(' '));
    assert!(!CharClass::Whitespace.holds('a'));
    assert!(CharClass::CommentBody.holds('a'));
    assert!(!CharClass::CommentBody.holds('\n'));
    assert!(CharClass::NumberPart.holds('.'));
    assert!(CharClass::NumberPart.holds('7'));
    assert!(CharClass::NumberPart.holds('e'));
    assert!(!CharClass::NumberPart.holds('+'));
    assert!(CharClass::IdentPart.holds('_'));
    assert!(CharClass::IdentPart.holds('z'));
    assert!(!CharClass::IdentPart.holds('.'));
    assert!(!CharClass::IdentPart.holds(' '));
}

#[test]
fn positions_follow_lines_and_columns() {
    let (tokens, failure) = lex("a\n  b");
    assert_eq!(failure, None);
    assert_eq!(tokens[0].span(), span(1, 1, 1, 2));
    assert_eq!(tokens[1].ty(), &TokenType::Ident("b".to_string()));
    assert_eq!(tokens[1].span(), span(2, 3, 2, 4));
    assert_eq!(tokens[2].span(), span(2, 4, 2, 4));
}

#[test]
fn unicode_whitespace_is_skipped() {
    let (tokens, failure) = lex("\u{2028}\u{200E}\t a");
    assert_eq!(failure, None);
    assert_eq!(tokens[0].ty(), &TokenType::Ident("a".to_string()));
    assert_eq!(tokens[0].span(), span(1, 5, 1, 6));
}

#[test]
fn line_comments_are_skipped() {
    let (tokens, failure) = lex("a // b c\n// d\n  e / f //");
    assert_eq!(failure, None);
    assert_eq!(
        tokens.iter().map(|t| t.ty().clone()).collect::<Vec<_>>(),
        vec![
            TokenType::Ident("a".to_string()),
            TokenType::Ident("e".to_string()),
            TokenType::Div,
            TokenType::Ident("f".to_string()),
            TokenType::EOF,
        ]
    );
    assert_eq!(tokens[1].span(), span(3, 3, 3, 4));
    assert_eq!(tokens[4].span(), span(3, 11, 3, 11));
}

#[test]
fn string_literal_is_an_abi() {
    let (tokens, failure) = lex("\"C\"");
    assert_eq!(failure, None);
    assert_eq!(tokens[0].ty(), &TokenType::Abi("C".to_string()));
    assert_eq!(tokens[0].span(), span(1, 1, 1, 4));

    let (tokens, failure) = lex("\"\"");
    assert_eq!(failure, None);
    assert_eq!(tokens[0].ty(), &TokenType::Abi(String::new()));
}

#[test]
fn escaped_quote_does_not_close_a_string() {
    let (tokens, failure) = lex(r#""a\"b" x"#);
    assert_eq!(failure, None);
    assert_eq!(tokens[0].ty(), &TokenType::Abi(r#"a\"b"#.to_string()));
    assert_eq!(tokens[0].span(), span(1, 1, 1, 7));
    assert_eq!(tokens[1].ty(), &TokenType::Ident("x".to_string()));

    let (tokens, failure) = lex(r#""a\\" x"#);
    assert_eq!(failure, None);
    assert_eq!(tokens[0].ty(), &TokenType::Abi(r#"a\\"#.to_string()));
    assert_eq!(tokens[1].ty(), &TokenType::Ident("x".to_string()));
}

#[test]
fn unterminated_string_is_an_error() {
    let (tokens, failure) = lex("\"abc");
    assert!(tokens.is_empty());
    let e = failure.unwrap();
    assert_eq!(e.kind(), &LexerErrorKind::UnterminatedStringLiteral);
    assert_eq!(e.span(), span(1, 1, 1, 5));

    let (_, failure) = lex(r#""abc\""#);
    assert_eq!(failure.unwrap().kind(), &LexerErrorKind::UnterminatedStringLiteral);
}

#[test]
fn integer_literals_fit_in_32_bits() {
    assert_eq!(kinds("2147483647"), vec![TokenType::IntLit(2147483647), TokenType::EOF]);
    assert_eq!(kinds("0"), vec![TokenType::IntLit(0), TokenType::EOF]);
    assert_eq!(kinds("007"), vec![TokenType::IntLit(7), TokenType::EOF]);
    let (tokens, failure) = lex("2147483648");
    assert!(tokens.is_empty());
    let e = failure.unwrap();
    assert_eq!(e.kind(), &LexerErrorKind::InvalidIntLiteral("2147483648".to_string()));
    assert_eq!(e.span(), span(1, 1, 1, 11));
}

#[test]
fn malformed_numbers_are_errors() {
    let (_, failure) = lex("123abc");
    assert_eq!(
        failure.unwrap().kind(),
        &LexerErrorKind::InvalidIntLiteral("123abc".to_string())
    );
    let (_, failure) = lex("1e5");
    assert_eq!(failure.unwrap().kind(), &LexerErrorKind::InvalidIntLiteral("1e5".to_string()));
    let (_, failure) = lex("1.2.3");
    let e = failure.unwrap();
    assert_eq!(e.kind(), &LexerErrorKind::InvalidFloatLiteral("1.2.3".to_string()));
    assert_eq!(e.span(), span(1, 1, 1, 6));
    let (_, failure) = lex("1.5f");
    assert_eq!(
        failure.unwrap().kind(),
        &LexerErrorKind::InvalidFloatLiteral("1.5f".to_string())
    );
}

#[test]
fn float_literals_may_have_an_exponent() {
    assert_eq!(kinds("1.5e3"), vec![TokenType::FloatLit("1.5e3".to_string()), TokenType::EOF]);
    assert_eq!(kinds("1."), vec![TokenType::FloatLit("1.".to_string()), TokenType::EOF]);
    assert_eq!(
        kinds("1.5+2"),
        vec![
            TokenType::FloatLit("1.5".to_string()),
            TokenType::Plus,
            TokenType::IntLit(2),
            TokenType::EOF
        ]
    );
}

#[test]
fn float_text_is_what_the_standard_library_reads() {
    for text in [
        "1.5", "1.", "0.0", "1.e5", "1.5e3", "1.5E10", "1.5e", "1..2", "1.2.3", "1.5f", "1.5e_3",
        "1.inf", "1.5_0", "12.75e0", "1e5.5", "1.e", "9.9e99999",
    ] {
        assert_eq!(is_float_literal(&chars(text)), text.parse::<f64>().is_ok(), "{}", text);
    }
    assert!(!is_float_literal(&chars("")));
    assert!(!is_float_literal(&chars("15")));
    assert!(!is_float_literal(&chars(".5")));
}

#[test]
fn integer_text_has_its_decimal_value() {
    assert_eq!(parse_int(&chars("0")), Some(0));
    assert_eq!(parse_int(&chars("42")), Some(42));
    assert_eq!(parse_int(&chars("0000000000000042")), Some(42));
    assert_eq!(parse_int(&chars("2147483647")), Some(i32::MAX));
    assert_eq!(parse_int(&chars("2147483648")), None);
    assert_eq!(parse_int(&chars("99999999999999999999")), None);
    assert_eq!(parse_int(&chars("")), None);
    assert_eq!(parse_int(&chars("12a")), None);
    assert_eq!(parse_int(&chars("-1")), None);
    assert_eq!(parse_int(&chars("١٢")), None);
    for text in ["7", "10", "123456", "2147483647", "2147483648", "4294967296"] {
        assert_eq!(parse_int(&chars(text)), text.parse::<i32>().ok(), "{}", text);
    }
}

#[test]
fn digit_runs_and_dots() {
    assert_eq!(skip_digits(&chars("123a"), 0), 3);
    assert_eq!(skip_digits(&chars("123a"), 3), 3);
    assert_eq!(skip_digits(&chars("123"), 1), 3);
    assert_eq!(skip_digits(&chars(""), 0), 0);
    assert!(has_dot(&chars("1.2")));
    assert!(!has_dot(&chars("12")));
}

#[test]
fn lexing_goes_on_after_an_error() {
    let mut lexer = lexer_for("$ a");
    let e = lexer.next().unwrap_err();
    assert_eq!(e.kind(), &LexerErrorKind::UnknownToken('$'));
    assert_eq!(e.span(), span(1, 1, 1, 2));
    let token = lexer.next().unwrap().unwrap();
    assert_eq!(token.ty(), &TokenType::Ident("a".to_string()));
    assert_eq!(token.span(), span(1, 3, 1, 4));
    assert!(lexer.next().unwrap().unwrap().is_eof());
    assert_eq!(lexer.next(), Ok(None));
}

#[test]
fn lexer_keeps_its_filename() {
    let lexer = lexer_for("");
    assert_eq!(lexer.get_filename(), "test.mrs");
    assert_eq!(lexer.get_filename_owned(), "test.mrs".to_string());
}

#[test]
fn lexer_error_keeps_kind_and_span() {
    let e = LexerError::new(LexerErrorKind::UnknownToken('#'), span(2, 3, 2, 4));
    assert_eq!(e.kind(), &LexerErrorKind::UnknownToken('#'));
    assert_eq!(e.span(), span(2, 3, 2, 4));
}

#[test]
fn file_reader_keeps_its_path() {
    let reader = FileReader::new("dir/file.mrs".to_string());
    assert_eq!(reader.path(), "dir/file.mrs");
}

#[test]
fn line_buffer_hands_out_a_line_character_by_character() {
    let mut buffer = LineBuffer::new();
    assert_eq!(buffer.pop(), None);
    assert_eq!(buffer.on_read(ReadEvent::Line(chars("ab\n"))), ReadStep::Yield('a'));
    assert_eq!(buffer.pop(), Some('b'));
    assert_eq!(buffer.pop(), Some('\n'));
    assert_eq!(buffer.pop(), None);
    assert_eq!(buffer.pop(), None);
    assert_eq!(buffer.on_read(ReadEvent::Line(chars("c"))), ReadStep::Yield('c'));
    assert_eq!(buffer.pop(), None);
    assert_eq!(buffer.on_read(ReadEvent::End), ReadStep::Stop);
    assert_eq!(buffer.pop(), None);
    assert_eq!(buffer.on_read(ReadEvent::Line(Vec::new())), ReadStep::Stop);
}

#[test]
fn line_buffer_retries_after_interruptions_up_to_the_limit() {
    let mut buffer = LineBuffer::new();
    for _ in 0..RETRY_LIMIT {
        assert_eq!(buffer.on_read(ReadEvent::Interrupted), ReadStep::Retry);
    }
    assert_eq!(buffer.on_read(ReadEvent::Interrupted), ReadStep::Stop);
    assert_eq!(buffer.on_read(ReadEvent::Interrupted), ReadStep::Stop);
    assert_eq!(buffer.on_read(ReadEvent::Line(chars("x"))), ReadStep::Yield('x'));
    assert_eq!(buffer.pop(), None);
    assert_eq!(buffer.on_read(ReadEvent::Interrupted), ReadStep::Retry);
    assert_eq!(buffer.on_read(ReadEvent::Failed), ReadStep::Stop);
    assert_eq!(RETRY_LIMIT, 10);
}

#[test]
fn tokenize_hands_out_all_tokens_and_the_eof_last() {
    let mut lexer = lexer_for("let x = 1;");
    let tokens = lexer.tokenize().unwrap();
    assert_eq!(
        tokens.iter().map(|t| t.ty().clone()).collect::<Vec<_>>(),
        vec![
            TokenType::Let,
            TokenType::Ident("x".to_string()),
            TokenType::Assign,
            TokenType::IntLit(1),
            TokenType::Semi,
            TokenType::EOF,
        ]
    );
    assert_eq!(tokens.iter().filter(|t| t.is_eof()).count(), 1);
    assert_eq!(lexer.next(), Ok(None));
    assert_eq!(lexer.tokenize(), Ok(Vec::new()));
}

#[test]
fn tokenize_starts_where_the_lexer_stands() {
    let mut lexer = lexer_for("a b");
    assert_eq!(lexer.next().unwrap().unwrap().ty(), &TokenType::Ident("a".to_string()));
    let tokens = lexer.tokenize().unwrap();
    assert_eq!(tokens.len(), 2);
    assert_eq!(tokens[0].ty(), &TokenType::Ident("b".to_string()));
    assert!(tokens[1].is_eof());
}

#[test]
fn tokenize_fails_with_the_first_error() {
    let mut lexer = lexer_for("a # b ?");
    let e = lexer.tokenize().unwrap_err();
    assert_eq!(e.kind(), &LexerErrorKind::UnknownToken('#'));
    assert_eq!(e.span(), span(1, 3, 1, 4));
}

#[test]
fn new_line_in_a_string_counts_as_a_column() {
    let (tokens, failure) = lex("\"a\nb\" c");
    assert_eq!(failure, None);
    assert_eq!(tokens[0].ty(), &TokenType::Abi("a\nb".to_string()));
    assert_eq!(tokens[0].span(), span(1, 1, 1, 6));
    assert_eq!(tokens[1].span(), span(1, 7, 1, 8));
}

#[test]
fn ascii_words_are_letters_digits_and_underscores() {
    for code in 0u8..128 {
        let c = code as char;
        let letter = c.is_ascii_alphabetic();
        assert_eq!(is_word_start(c), letter || c == '_', "{:?}", c);
        assert_eq!(is_word_part(c), letter || c.is_ascii_digit() || c == '_', "{:?}", c);
    }
    assert!(is_word_start('é'));
    assert!(is_word_part('é'));
    assert!(!is_word_start('€'));
    assert!(!is_word_part('€'));
}
