use mini_rust_compiler_components::lexer::helper::{is_digit, is_new_line, is_whitespace};

#[test]
fn test_is_whitespace() {
    assert!(is_whitespace('\t'));
    assert!(is_whitespace('\n'));
    assert!(is_whitespace('\u{000B}'));
    assert!(is_whitespace('\u{000C}'));
    assert!(is_whitespace('\r'));
    assert!(is_whitespace(' '));
    assert!(is_whitespace('\u{0085}'));
    assert!(is_whitespace('\u{200E}'));
    assert!(is_whitespace('\u{200F}'));
    assert!(is_whitespace('\u{2028}'));
    assert!(is_whitespace('\u{2029}'));
    assert!(!is_whitespace('a'));
    assert!(!is_whitespace('.'));
}

#[test]
fn test_is_new_line() {
    assert!(is_new_line('\n'));
    assert!(!is_new_line('\t'));
    assert!(!is_new_line('\r'));
    assert!(!is_new_line('n'));
}

#[test]
fn test_is_digit() {
    assert!(is_digit('0'));
    assert!(is_digit('1'));
    assert!(is_digit('2'));
    assert!(is_digit('3'));
    assert!(is_digit('4'));
    assert!(is_digit('5'));
    assert!(is_digit('6'));
    assert!(is_digit('7'));
    assert!(is_digit('8'));
    assert!(is_digit('9'));
    assert!(!is_digit('a'));
    assert!(!is_digit('.'));
}
