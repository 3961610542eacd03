use rslox::errors::ScanErr;
use rslox::host::{Arithmetic, Host, Recorded};
use rslox::scanner::Scanner;
use rslox::token::{Token, TokenType};

struct TestHost;

impl Host for TestHost {
    fn parse_number(&mut self, text: &str) -> u64 {
        text.parse::<f64>().unwrap().to_bits()
    }

    fn arithmetic(&mut self, op: Arithmetic, a: u64, b: u64) -> u64 {
        let (a, b) = (f64::from_bits(a), f64::from_bits(b));
        let r = match op {
            Arithmetic::Add => a + b,
            Arithmetic::Subtract => a - b,
            Arithmetic::Multiply => a * b,
            Arithmetic::Divide => a / b,
        };
        r.to_bits()
    }

    fn format_number(&mut self, bits: u64) -> String {
        f64::from_bits(bits).to_string()
    }

    fn current_unix_seconds(&mut self) -> u64 {
        0f64.to_bits()
    }

    fn write_stdout(&mut self, _line: &str) {}
}

fn scan(source: &str) -> (Vec<Token>, Vec<ScanErr>) {
    let mut host = Recorded::new(TestHost);
    let mut scanner = Scanner::new(source.to_string());
    let tokens = scanner.scan_tokens(&mut host).clone();
    let errors = scanner.get_errors().clone();
    (tokens, errors)
}

fn number(value: f64) -> TokenType {
    TokenType::Number(value.to_bits())
}

#[test]
fn test_single_character_tokens() {
    let (tokens, _) = scan("(){},.+-;*");

    let expected_types = vec![
        TokenType::LeftParen,
        TokenType::RightParen,
        TokenType::LeftBrace,
        TokenType::RightBrace,
        TokenType::Comma,
        TokenType::Dot,
        TokenType::Plus,
        TokenType::Minus,
        TokenType::Semicolon,
        TokenType::Star,
        TokenType::EOF,
    ];

    assert_eq!(tokens.len(), expected_types.len());

    for (i, expected_type) in expected_types.iter().enumerate() {
        assert_eq!(&tokens[i].type_, expected_type);
    }
}

#[test]
fn test_two_character_tokens() {
    let (tokens, _) = scan("!= == <= >=");

    let expected_types = vec![
        TokenType::BangEqual,
        TokenType::EqualEqual,
        TokenType::LessEqual,
        TokenType::GreaterEqual,
        TokenType::EOF,
    ];

    for (i, expected_type) in expected_types.iter().enumerate() {
        assert_eq!(&tokens[i].type_, expected_type);
    }
}

#[test]
fn test_string_literals() {
    let (tokens, _) = scan(r#""hello" "world with spaces""#);

    assert_eq!(tokens.len(), 3); // two strings + EOF

    match &tokens[0].type_ {
        TokenType::String(value) => assert_eq!(value, "hello"),
        _ => panic!("Expected string token"),
    }

    match &tokens[1].type_ {
        TokenType::String(value) => assert_eq!(value, "world with spaces"),
        _ => panic!("Expected string token"),
    }
}

#[test]
fn test_number_literals() {
    let (tokens, _) = scan("123 456.789 0.5");

    assert_eq!(tokens.len(), 4); // three numbers + EOF

    match tokens[0].type_ {
        TokenType::Number(value) => assert_eq!(f64::from_bits(value), 123.0),
        _ => panic!("Expected number token"),
    }

    match tokens[1].type_ {
        TokenType::Number(value) => assert_eq!(f64::from_bits(value), 456.789),
        _ => panic!("Expected number token"),
    }

    match tokens[2].type_ {
        TokenType::Number(value) => assert_eq!(f64::from_bits(value), 0.5),
        _ => panic!("Expected number token"),
    }
}

#[test]
fn test_keywords() {
    let (tokens, _) = scan("if else true false nil");

    let expected_types = vec![
        TokenType::If,
        TokenType::Else,
        TokenType::True,
        TokenType::False,
        TokenType::Nil,
        TokenType::EOF,
    ];

    for (i, expected_type) in expected_types.iter().enumerate() {
        assert_eq!(&tokens[i].type_, expected_type);
    }
}

#[test]
fn test_identifiers() {
    let (tokens, _) = scan("variable_name function123 _underscore");

    assert_eq!(tokens.len(), 4); // three identifiers + EOF

    for i in 0..3 {
        assert_eq!(&tokens[i].type_, &TokenType::Identifier);
    }

    assert_eq!(tokens[0].lexeme, "variable_name");
    assert_eq!(tokens[1].lexeme, "function123");
    assert_eq!(tokens[2].lexeme, "_underscore");
}

#[test]
fn test_comments() {
    let (tokens, _) = scan("// this is a comment\n123");

    assert_eq!(tokens.len(), 2); // number + EOF (comment ignored)

    match tokens[0].type_ {
        TokenType::Number(value) => assert_eq!(f64::from_bits(value), 123.0),
        _ => panic!("Expected number token"),
    }
}

#[test]
fn test_block_comments() {
    let (tokens, _) = scan("/* block comment */ 456");

    assert_eq!(tokens.len(), 2); // number + EOF (comment ignored)

    match tokens[0].type_ {
        TokenType::Number(value) => assert_eq!(f64::from_bits(value), 456.0),
        _ => panic!("Expected number token"),
    }
}

#[test]
fn test_line_counting() {
    let (tokens, _) = scan("123\n456\n789");

    assert_eq!(tokens[0].line, 1);
    assert_eq!(tokens[1].line, 2);
    assert_eq!(tokens[2].line, 3);
}

#[test]
fn test_expression() {
    let (tokens, _) = scan("1 + 2 * (3 - 4)");

    let expected_types = vec![
        number(1.0),
        TokenType::Plus,
        number(2.0),
        TokenType::Star,
        TokenType::LeftParen,
        number(3.0),
        TokenType::Minus,
        number(4.0),
        TokenType::RightParen,
        TokenType::EOF,
    ];

    for (i, expected_type) in expected_types.iter().enumerate() {
        assert_eq!(&tokens[i].type_, expected_type);
    }
}

#[test]
fn scanner_reports_unexpected_character_and_goes_on() {
    let (tokens, errors) = scan("1 @ 2\n#");
    assert_eq!(tokens.len(), 3);
    assert_eq!(errors, vec![ScanErr::UnexpectedChar('@', 1), ScanErr::UnexpectedChar('#', 2)]);
}

#[test]
fn scanner_reports_unterminated_string_at_its_first_line() {
    let (tokens, errors) = scan("var a;\n\"abc\ndef");
    assert_eq!(errors, vec![ScanErr::UnterminatedString(2)]);
    assert_eq!(tokens.last().unwrap().type_, TokenType::EOF);
    assert_eq!(tokens.last().unwrap().line, 3);
}

#[test]
fn scanner_reports_unterminated_block_comment() {
    let (tokens, errors) = scan("1 /* never\nclosed");
    assert_eq!(errors, vec![ScanErr::UnterminatedString(1)]);
    assert_eq!(tokens.len(), 2);
}

#[test]
fn scanner_counts_lines_inside_strings_and_comments() {
    let (tokens, errors) = scan("\"a\nb\" x /* c\n\n */ y");
    assert!(errors.is_empty());
    assert_eq!(tokens[0].type_, TokenType::String("a\nb".to_string()));
    assert_eq!(tokens[0].line, 1);
    assert_eq!(tokens[1].lexeme, "x");
    assert_eq!(tokens[1].line, 2);
    assert_eq!(tokens[2].lexeme, "y");
    assert_eq!(tokens[2].line, 4);
}

#[test]
fn scanner_number_does_not_take_a_trailing_dot() {
    let (tokens, _) = scan("12.");
    assert_eq!(tokens[0].type_, number(12.0));
    assert_eq!(tokens[0].lexeme, "12");
    assert_eq!(tokens[1].type_, TokenType::Dot);
}

#[test]
fn scanner_keywords_are_whole_words() {
    let (tokens, _) = scan("class classy fun super this var while return print or and for");
    assert_eq!(tokens[0].type_, TokenType::Class);
    assert_eq!(tokens[1].type_, TokenType::Identifier);
    assert_eq!(tokens[2].type_, TokenType::Fun);
    assert_eq!(tokens[3].type_, TokenType::Super);
    assert_eq!(tokens[4].type_, TokenType::This);
    assert_eq!(tokens[5].type_, TokenType::Var);
    assert_eq!(tokens[6].type_, TokenType::While);
    assert_eq!(tokens[7].type_, TokenType::Return);
    assert_eq!(tokens[8].type_, TokenType::Print);
    assert_eq!(tokens[9].type_, TokenType::Or);
    assert_eq!(tokens[10].type_, TokenType::And);
    assert_eq!(tokens[11].type_, TokenType::For);
}

#[test]
fn scanner_handles_non_ascii_text() {
    let (tokens, errors) = scan("\"héllo\" é");
    assert_eq!(tokens[0].type_, TokenType::String("héllo".to_string()));
    assert_eq!(errors, vec![ScanErr::UnexpectedChar('é', 1)]);
}
