use rslox::alert::Alert;
use rslox::ast::{Expr, LiteralExpr, Stmt};
use rslox::cli::{Commands, ToolCommand};
use rslox::env::{Binding, Environment};
use rslox::errors::{IoErr, LoxError, ParseErr, ResolveErr, RuntimeErr, ScanErr};
use rslox::host::{Arithmetic, Host, Recorded};
use rslox::interpreter::Interpreter;
use rslox::parser::Parser;
use rslox::resolver::Resolver;
use rslox::rle::{MarshalError, OpCode, RleArr};
use rslox::run::{handle_path_format, handle_run_command, run, RunOptsCommand};
use rslox::scanner::Scanner;
use rslox::text::{decimal, join};
use rslox::token::{Token, TokenKind, TokenType};
use rslox::tools::AstGenerator;
use rslox::value::{
    is_equal, is_nan_bits, is_truthy, is_zero_bits, negate, number_is_less, number_is_less_equal,
    numbers_equal,
};

struct TestHost {
    out: Vec<String>,
}

impl Host for TestHost {
    fn parse_number(&mut self, text: &str) -> u64 {
        text.parse::<f64>().unwrap().to_bits()
    }

    fn arithmetic(&mut self, op: Arithmetic, a: u64, b: u64) -> u64 {
        let (a, b) = (f64::from_bits(a), f64::from_bits(b));
        let r = match op {
            Arithmetic::Add => a + b,
            Arithmetic::Subtract => a - b,
            Arithmetic::Multiply => a * b,
            Arithmetic::Divide => a / b,
        };
        r.to_bits()
    }

    fn format_number(&mut self, bits: u64) -> String {
        f64::from_bits(bits).to_string()
    }

    fn current_unix_seconds(&mut self) -> u64 {
        1234.5f64.to_bits()
    }

    fn write_stdout(&mut self, line: &str) {
        self.out.push(line.to_string());
    }
}

fn host() -> Recorded<TestHost> {
    Recorded::new(TestHost { out: Vec::new() })
}

fn name(text: &str) -> Token {
    Token::new(TokenType::Identifier, text.to_string(), 1)
}

fn number(value: f64) -> LiteralExpr {
    LiteralExpr::Number(value.to_bits())
}

fn resolved(src: &str) -> Vec<Stmt> {
    let mut host = host();
    let tokens = Scanner::scan_from(src.to_string(), &mut host);
    let stmts = Parser::new(tokens).parse().unwrap();
    Resolver::new().resolve_stmts(&stmts).unwrap()
}

const SAMPLES: [f64; 14] = [
    0.0,
    -0.0,
    1.0,
    -1.0,
    0.5,
    -0.5,
    1e300,
    -1e300,
    5e-324,
    -5e-324,
    f64::INFINITY,
    f64::NEG_INFINITY,
    f64::NAN,
    123456.789,
];

#[test]
fn number_order_is_that_of_the_doubles() {
    for a in SAMPLES {
        for b in SAMPLES {
            let (x, y) = (a.to_bits(), b.to_bits());
            assert_eq!(numbers_equal(x, y), a == b, "{} == {}", a, b);
            assert_eq!(number_is_less(x, y), a < b, "{} < {}", a, b);
            assert_eq!(number_is_less_equal(x, y), a <= b, "{} <= {}", a, b);
        }
        let x = a.to_bits();
        assert_eq!(is_nan_bits(x), a.is_nan());
        assert_eq!(is_zero_bits(x), a == 0.0);
        assert_eq!(negate(x), (-a).to_bits());
    }
}

#[test]
fn truthiness_of_values() {
    assert!(!is_truthy(&LiteralExpr::Nil));
    assert!(!is_truthy(&LiteralExpr::Boolean(false)));
    assert!(is_truthy(&LiteralExpr::Boolean(true)));
    assert!(is_truthy(&number(0.0)));
    assert!(is_truthy(&LiteralExpr::String(String::new())));
    assert!(is_truthy(&LiteralExpr::Call(0)));
    assert!(is_truthy(&LiteralExpr::Instance(0)));
}

#[test]
fn equality_of_values() {
    assert!(is_equal(&LiteralExpr::Nil, &LiteralExpr::Nil));
    assert!(!is_equal(&LiteralExpr::Nil, &LiteralExpr::Boolean(false)));
    assert!(is_equal(&number(0.0), &number(-0.0)));
    assert!(!is_equal(&number(f64::NAN), &number(f64::NAN)));
    assert!(is_equal(&LiteralExpr::String("a".into()), &LiteralExpr::String("a".into())));
    assert!(!is_equal(&LiteralExpr::String("1".into()), &number(1.0)));
    assert!(is_equal(&LiteralExpr::Call(3), &LiteralExpr::Call(3)));
    assert!(!is_equal(&LiteralExpr::Call(3), &LiteralExpr::Instance(3)));
    assert!(!is_equal(&LiteralExpr::Instance(1), &LiteralExpr::Instance(2)));
}

#[test]
fn alert_lines_are_coloured() {
    assert_eq!(
        Alert::error("boom".to_string()).line(),
        "\x1b[41m ERROR \x1b[49m \x1b[31mboom\x1b[39m"
    );
    assert_eq!(
        Alert::warning("w".to_string()).line(),
        "\x1b[43m WARNING \x1b[49m \x1b[33mw\x1b[39m"
    );
    assert_eq!(Alert::info("i".to_string()).line(), "\x1b[44m INFO \x1b[49m \x1b[34mi\x1b[39m");
    assert_eq!(
        Alert::success("s".to_string()).line(),
        "\x1b[42m SUCCESS \x1b[49m \x1b[32ms\x1b[39m"
    );
}

#[test]
fn decimal_numerals() {
    assert_eq!(decimal(0), "0");
    assert_eq!(decimal(7), "7");
    assert_eq!(decimal(10), "10");
    assert_eq!(decimal(1905), "1905");
    assert_eq!(decimal(usize::MAX), usize::MAX.to_string());
    assert_eq!(join("ab", "cd"), "abcd");
}

#[test]
fn diagnostics_of_every_phase() {
    assert_eq!(
        ScanErr::UnexpectedChar('@', 3).get_msg(),
        "SCAN | [line 3] Unexpected character '@'."
    );
    assert_eq!(ScanErr::UnterminatedString(12).get_msg(), "SCAN | [line 12] Unterminated string.");
    assert_eq!(
        ParseErr::ExpectedToken("Expect ';' after value.".to_string(), 2).get_msg(),
        "PARSE | [line 2] Expect ';' after value."
    );
    assert_eq!(ParseErr::UnexpectedEOF(1).message(), "Unexpected end of input.");
    assert_eq!(ParseErr::TooManyArguments(1).message(), "Can't have more than 255 arguments.");
    assert_eq!(ParseErr::TooManyParameters(1).message(), "Can't have more than 255 parameters.");
    assert_eq!(ParseErr::InvalidAssignment(1).message(), "Invalid assignment target.");
    assert_eq!(
        ResolveErr::InvalidLocalVariable(4).get_msg(),
        "RESOLVE | [line 4] Can't read local variable in its own initializer."
    );
    assert_eq!(
        ResolveErr::VariablesWithSameName(1).message(),
        "Already a variable with this name in this scope."
    );
    assert_eq!(ResolveErr::TopLevelReturn(1).message(), "Can't return from top-level code.");
    assert_eq!(
        ResolveErr::ReturnFromInitializer(1).message(),
        "Can't return a value from an initializer."
    );
    assert_eq!(ResolveErr::ThisOutsideClass(1).message(), "Can't use 'this' outside of a class.");
    assert_eq!(ResolveErr::SuperOutsideClass(1).message(), "Can't use 'super' outside of a class.");
    assert_eq!(
        ResolveErr::SuperWithoutSuperclass(1).message(),
        "Can't use 'super' in a class with no superclass."
    );
    assert_eq!(ResolveErr::SelfInheritance(1).message(), "A class can't inherit from itself.");
    assert_eq!(
        RuntimeErr::InvalidOperandTypes(1).get_msg(),
        "RUNTIME | [line 1] Operands must be two numbers or two strings."
    );
    assert_eq!(RuntimeErr::OperandMustBeNumber(1).message(), "Operand must be a number.");
    assert_eq!(RuntimeErr::DivisionByZero(1).message(), "Division by zero.");
    assert_eq!(
        RuntimeErr::UndefinedVariable("x".to_string(), 1).message(),
        "Undefined variable 'x'."
    );
    assert_eq!(
        RuntimeErr::UndefinedProperty("p".to_string(), 1).message(),
        "Undefined property 'p'."
    );
    assert_eq!(
        RuntimeErr::ArgumentCountMismatch(2, 13, 1).message(),
        "Expected 2 arguments but got 13."
    );
    assert_eq!(RuntimeErr::InvalidCalleeExpr(1).message(), "Can only call functions and classes.");
    assert_eq!(
        RuntimeErr::OnlyInstancesHaveProperties(1).message(),
        "Only instances have properties."
    );
    assert_eq!(RuntimeErr::SuperclassMustBeClass(1).message(), "Superclass must be a class.");
    assert_eq!(
        IoErr::FileNotFound("a.lox".to_string()).get_msg(),
        "SYS | File not found in path: 'a.lox'"
    );
    assert_eq!(
        IoErr::FailedToCreateFile("x".to_string()).message(),
        "Failed to create file in path: 'x'"
    );
    assert_eq!(
        IoErr::InvalidFileExtension.message(),
        "Invalid file extension, expected '.lox' extension"
    );
    assert_eq!(IoErr::ASTSyntaxInvalid.message(), "Syntax invalid in AST tool");
}

#[test]
fn errors_convert_and_report() {
    assert_eq!(ScanErr::UnterminatedString(1).to_err(), LoxError::Scan(ScanErr::UnterminatedString(1)));
    assert_eq!(ParseErr::UnexpectedEOF(1).to_err(), LoxError::Parse(ParseErr::UnexpectedEOF(1)));
    assert_eq!(
        ResolveErr::TopLevelReturn(1).to_err(),
        LoxError::Resolve(ResolveErr::TopLevelReturn(1))
    );
    assert_eq!(
        RuntimeErr::DivisionByZero(1).to_err(),
        LoxError::Runtime(RuntimeErr::DivisionByZero(1))
    );
    assert_eq!(IoErr::InvalidFileExtension.to_err(), LoxError::Io(IoErr::InvalidFileExtension));
    assert_eq!(RuntimeErr::DivisionByZero(1).to_err().exit_code(), 70);
    assert_eq!(ParseErr::UnexpectedEOF(1).to_err().exit_code(), 1);
    assert_eq!(
        LoxError::Runtime(RuntimeErr::InvalidOperandTypes(1)).report().line(),
        "\x1b[41m ERROR \x1b[49m \x1b[31mRUNTIME | [line 1] Operands must be two numbers or two strings.\x1b[39m"
    );
}

#[test]
fn run_length_lines() {
    let mut rle = RleArr::new();
    assert_eq!(rle.get_ln(0), 0);
    rle.add_rle(); // line 1: one instruction
    rle.incr_count(); // line 1: two instructions
    rle.add_rle(); // line 2
    rle.incr_delta(); // line 3
    rle.incr_count();
    rle.incr_count();
    assert_eq!(rle.deltas, vec![1, 2]);
    assert_eq!(rle.counts, vec![2, 3]);
    assert_eq!(rle.curr_ln, 3);
    assert_eq!(rle.get_ln(0), 1);
    assert_eq!(rle.get_ln(1), 1);
    assert_eq!(rle.get_ln(2), 3);
    assert_eq!(rle.get_ln(4), 3);
    assert_eq!(rle.get_ln(5), 0);
    let mut empty = RleArr::new();
    empty.incr_count();
    empty.incr_delta();
    assert_eq!(empty.deltas, vec![1]);
    assert_eq!(empty.curr_ln, 2);
}

#[test]
fn operation_bytes() {
    for byte in 0u8..=6 {
        assert_eq!(OpCode::try_from_byte(byte).unwrap().into_byte(), byte);
    }
    assert_eq!(OpCode::try_from_byte(0), Ok(OpCode::Constant));
    assert_eq!(OpCode::try_from_byte(6), Ok(OpCode::Return));
    assert_eq!(OpCode::try_from_byte(7), Err(MarshalError::InvalidBytecode));
    assert_eq!(OpCode::try_from_byte(255), Err(MarshalError::InvalidBytecode));
}

#[test]
fn environment_arena_operations() {
    let mut env = Environment::new();
    env.define("a".to_string(), number(1.0));
    env.define("a".to_string(), number(2.0));
    assert_eq!(env.get_global(&name("a")), Ok(number(2.0)));
    assert_eq!(
        env.get_global(&name("b")),
        Err(LoxError::Runtime(RuntimeErr::UndefinedVariable("b".to_string(), 1)))
    );
    assert_eq!(
        env.assign_global(&name("b"), LiteralExpr::Nil),
        Err(LoxError::Runtime(RuntimeErr::UndefinedVariable("b".to_string(), 1)))
    );
    env.push_block();
    assert_eq!(env.current(), 1);
    env.define("b".to_string(), number(3.0));
    env.push_block();
    assert_eq!(env.current(), 2);
    assert_eq!(env.ancestor(0), 2);
    assert_eq!(env.ancestor(1), 1);
    assert_eq!(env.ancestor(2), 0);
    assert_eq!(env.ancestor(9), 0);
    assert_eq!(env.get_at(1, &name("b")), Ok(number(3.0)));
    assert_eq!(env.get_at(2, &name("a")), Ok(number(2.0)));
    assert!(env.get_at(0, &name("b")).is_err());
    env.assign_at(1, &name("b"), number(4.0));
    assert_eq!(env.get(&name("b")), Ok(number(4.0)));
    assert_eq!(env.assign(&name("a"), number(5.0)), Ok(()));
    assert_eq!(env.get_global(&name("a")), Ok(number(5.0)));
    env.pop();
    env.pop();
    assert_eq!(env.current(), 0);
    env.pop();
    assert_eq!(env.current(), 0);
    assert_eq!(env.len(), 3);
    // A closure holds scope 1 by its id; the scope is still there.
    env.push_closure(
        vec![Binding { name: "p".to_string(), value: LiteralExpr::Boolean(true) }],
        1,
    );
    assert_eq!(env.current(), 3);
    assert_eq!(env.get_at(0, &name("p")), Ok(LiteralExpr::Boolean(true)));
    assert_eq!(env.get_at(1, &name("b")), Ok(number(4.0)));
    assert_eq!(env.get_in(1, &"b".to_string()), Some(number(4.0)));
    env.set_current(0);
    assert_eq!(env.get(&name("p")).is_err(), true);
}

#[test]
fn closure_observes_later_assignments() {
    let mut host = host();
    let mut interpreter = Interpreter::new();
    let stmts = resolved(
        "var f; { var x = 1; fun get() { return x; } f = get; x = 2; print f(); x = 3; print f(); }",
    );
    interpreter.interpret(&stmts, &mut host).unwrap();
    assert_eq!(host.into_inner().out, vec!["2", "3"]);
}

#[test]
fn blocks_and_calls_restore_the_current_scope() {
    let mut host = host();
    let mut interpreter = Interpreter::new();
    let stmts = resolved(
        "fun f(n) { { { if (n > 0) return n; } } return 0; } { var a = f(1); { var b = f(0); } } f(2);",
    );
    for stmt in &stmts {
        let before = interpreter.env.current();
        interpreter.execute(stmt, &mut host).unwrap();
        assert_eq!(interpreter.env.current(), before);
    }
    // A runtime error leaves the evaluator in the scope it was in.
    let failing = resolved("{ { print 1 + nil; } }");
    assert!(interpreter.execute(&failing[0], &mut host).is_err());
    assert_eq!(interpreter.env.current(), 0);
}

#[test]
fn resolver_gives_depths() {
    let stmts = resolved("var g = 1; { var a = 2; { var b = 3; print a; print b; print g; a = b; } }");
    let outer = match &stmts[1] {
        Stmt::Block(stmts) => stmts,
        other => panic!("expected a block, got {:?}", other),
    };
    let inner = match &outer[1] {
        Stmt::Block(stmts) => stmts,
        other => panic!("expected a block, got {:?}", other),
    };
    let depth_of = |s: &Stmt| match s {
        Stmt::Print(Expr::Var(v)) => v.depth,
        other => panic!("expected a print, got {:?}", other),
    };
    assert_eq!(depth_of(&inner[1]), Some(1));
    assert_eq!(depth_of(&inner[2]), Some(0));
    assert_eq!(depth_of(&inner[3]), None);
    match &inner[4] {
        Stmt::Expression(Expr::Assign(a)) => {
            assert_eq!(a.depth, Some(1));
            assert!(matches!(&*a.value, Expr::Var(v) if v.depth == Some(0)));
        }
        other => panic!("expected an assignment, got {:?}", other),
    }
}

#[test]
fn resolver_reports_every_error_and_goes_on() {
    let mut host = host();
    let tokens = Scanner::scan_from("return 1; { var a = a; } print this;".to_string(), &mut host);
    let stmts = Parser::new(tokens).parse().unwrap();
    let mut resolver = Resolver::new();
    assert_eq!(
        resolver.resolve_stmts(&stmts),
        Err(LoxError::Resolve(ResolveErr::TopLevelReturn(1)))
    );
    assert_eq!(
        resolver.get_errors(),
        &vec![
            ResolveErr::TopLevelReturn(1),
            ResolveErr::InvalidLocalVariable(1),
            ResolveErr::ThisOutsideClass(1),
        ]
    );
}

#[test]
fn path_must_end_in_lox() {
    assert_eq!(handle_path_format("main.lox"), Ok("main.lox".to_string()));
    assert_eq!(handle_path_format(".lox"), Ok(".lox".to_string()));
    assert_eq!(handle_path_format("main.txt"), Err(LoxError::Io(IoErr::InvalidFileExtension)));
    assert_eq!(handle_path_format("lox"), Err(LoxError::Io(IoErr::InvalidFileExtension)));
    assert_eq!(handle_path_format("a.loxx"), Err(LoxError::Io(IoErr::InvalidFileExtension)));
}

#[test]
fn runs_keep_the_declarations_of_earlier_runs() {
    let mut host = host();
    let mut interpreter = Interpreter::new();
    assert_eq!(handle_run_command("var a = 1;".to_string(), &mut interpreter, &mut host), Ok(()));
    assert_eq!(
        handle_run_command("print b;".to_string(), &mut interpreter, &mut host),
        Err(LoxError::Runtime(RuntimeErr::UndefinedVariable("b".to_string(), 1)))
    );
    assert_eq!(
        handle_run_command("print a + ;".to_string(), &mut interpreter, &mut host),
        Err(LoxError::Parse(ParseErr::UnexpectedEOF(1)))
    );
    assert_eq!(
        handle_run_command("print a; @".to_string(), &mut interpreter, &mut host),
        Err(LoxError::Scan(ScanErr::UnexpectedChar('@', 1)))
    );
    assert_eq!(
        handle_run_command("return a;".to_string(), &mut interpreter, &mut host),
        Err(LoxError::Resolve(ResolveErr::TopLevelReturn(1)))
    );
    assert_eq!(handle_run_command("print a + 1;".to_string(), &mut interpreter, &mut host), Ok(()));
    assert_eq!(host.into_inner().out, vec!["2"]);
}

#[test]
fn run_of_tokens() {
    let mut host = host();
    let mut interpreter = Interpreter::new();
    let tokens = Scanner::scan_from("print \"a\" + \"b\"; print clock();".to_string(), &mut host);
    assert_eq!(run(tokens, &mut interpreter, &mut host), Ok(()));
    assert_eq!(host.into_inner().out, vec!["ab", "1234.5"]);
}

#[test]
fn run_options() {
    let opts = RunOptsCommand::default();
    assert!(!opts.lists_tokens() && !opts.lists_ast());
    let debug = RunOptsCommand { debug: true, show_ast: false, show_tokens: false };
    assert!(debug.lists_tokens() && debug.lists_ast());
    let tokens = RunOptsCommand { debug: true, show_ast: false, show_tokens: true };
    assert!(tokens.lists_tokens() && !tokens.lists_ast());
    let command =
        Commands::Run { path: None, debug: false, show_ast: true, show_tokens: false };
    let opts = command.run_options().unwrap();
    assert!(opts.show_ast && !opts.debug && !opts.show_tokens);
    let tool = Commands::Tool { command: ToolCommand::GenAst { output_path: "x".to_string() } };
    assert!(tool.run_options().is_none());
}

#[test]
fn token_accessors() {
    let token = Token::new(TokenType::String("hi".to_string()), "\"hi\"".to_string(), 4);
    assert_eq!(token.get_type(), &TokenType::String("hi".to_string()));
    assert_eq!(token.get_lexeme(), "\"hi\"");
    assert_eq!(token.get_line(), 4);
    assert_eq!(token.kind(), TokenKind::String);
    assert_eq!(token.clone(), token);
    assert_eq!(TokenType::plain(TokenKind::While), TokenType::While);
    assert_eq!(TokenType::Number(7).kind(), TokenKind::Number);
}

#[test]
fn more_than_255_arguments_are_reported() {
    let mut source = String::from("f(");
    for i in 0..256 {
        if i > 0 {
            source.push(',');
        }
        source.push('1');
    }
    source.push_str(");");
    let mut host = host();
    let tokens = Scanner::scan_from(source, &mut host);
    let mut parser = Parser::new(tokens);
    assert_eq!(parser.parse(), Err(LoxError::Parse(ParseErr::TooManyArguments(1))));
    assert_eq!(parser.get_errors().len(), 1);
}

#[test]
fn more_than_255_parameters_are_reported() {
    let mut source = String::from("fun f(");
    for i in 0..256 {
        if i > 0 {
            source.push(',');
        }
        source.push_str(&format!("p{}", i));
    }
    source.push_str(") {}");
    let mut host = host();
    let tokens = Scanner::scan_from(source, &mut host);
    let mut parser = Parser::new(tokens);
    assert_eq!(parser.parse(), Err(LoxError::Parse(ParseErr::TooManyParameters(1))));
}

#[test]
fn while_returns_out_of_a_function() {
    let mut host = host();
    let mut interpreter = Interpreter::new();
    let stmts = resolved(
        "fun first(n) { var i = 0; while (true) { if (i >= n) return i; i = i + 1; } } print first(5);",
    );
    interpreter.interpret(&stmts, &mut host).unwrap();
    assert_eq!(host.into_inner().out, vec!["5"]);
}

#[test]
fn super_calls_the_method_of_the_superclass() {
    let mut host = host();
    let mut interpreter = Interpreter::new();
    let stmts = resolved(
        "class A { name() { return \"A\"; } } class B < A { name() { return super.name() + \"B\"; } } class C < B { name() { return super.name() + \"C\"; } } print C().name(); var m = C().name; print m();",
    );
    interpreter.interpret(&stmts, &mut host).unwrap();
    assert_eq!(host.into_inner().out, vec!["ABC", "ABC"]);
}

#[test]
fn generated_syntax_tree_source() {
    let types = vec![
        "Binary   : Expr left, Token operator, Expr right".to_string(),
        "Literal  : String value".to_string(),
    ];
    let mut generator = AstGenerator::new("Expr".to_string(), types).unwrap();
    assert_eq!(generator.base_name(), "Expr");
    let expected = "use super::token::Token;\n\n\
pub enum Expr {\n\tBinary(Binary),\n\tLiteral(Literal),\n}\n\n\
pub struct Binary {\n\tleft: Box<Expr>,\n\toperator: Token,\n\tright: Box<Expr>,\n}\n\n\
pub struct Literal {\n\tvalue: String,\n}\n\n\
impl Binary {\n\tpub fn new(left: Expr, operator: Token, right: Expr) -> Self {\n\t\tSelf {\n\
\t\t\tleft: Box::new(left),\n\t\t\toperator,\n\t\t\tright: Box::new(right),\n\t\t}\n\t}\n}\n\n\
impl Literal {\n\tpub fn new(value: String) -> Self {\n\t\tSelf {\n\t\t\tvalue,\n\t\t}\n\t}\n}\n\n";
    assert_eq!(generator.gen_(), expected);
}

#[test]
fn invalid_syntax_tree_definitions() {
    let no_colon = AstGenerator::new("Expr".to_string(), vec!["Binary Expr left".to_string()]);
    assert_eq!(no_colon.err(), Some(LoxError::Io(IoErr::ASTSyntaxInvalid)));
    let one_word = AstGenerator::new("Expr".to_string(), vec!["Binary : Expr".to_string()]);
    assert_eq!(one_word.err(), Some(LoxError::Io(IoErr::ASTSyntaxInvalid)));
    assert!(AstGenerator::new("Expr".to_string(), Vec::new()).is_ok());
}

fn parsed(src: &str) -> Vec<Stmt> {
    let mut host = host();
    let tokens = Scanner::scan_from(src.to_string(), &mut host);
    Parser::new(tokens).parse().unwrap()
}

fn printed(stmts: &[Stmt]) -> String {
    let mut host = host();
    let texts: Vec<String> = stmts.iter().map(|s| s.print(&mut host)).collect();
    texts.join(" ")
}

#[test]
fn printed_statements() {
    assert_eq!(printed(&parsed("print 1 + 2 * 3;")), "print 1 + 2 * 3;");
    assert_eq!(printed(&parsed("var a; var b = (a or 0.5) and !a;")), "var a = nil; var b = (a or 0.5) and !a;");
    assert_eq!(printed(&parsed("if (a) b = 1;")), "if (a) b = 1; else nil;");
    assert_eq!(
        printed(&parsed("for (var i = 0; i < 3; i = i + 1) print i;")),
        "{ var i = 0; while (i < 3) { print i; i = i + 1; } }"
    );
    assert_eq!(
        printed(&parsed("fun f(a, b) { return; } class A < B { init(x) { this.x = x; } m() { return super.m(1, \"s\").y; } }")),
        "fun f(a, b) { return nil; } class A < B { init(x) { this.x = x; } m() { return super.m(1, \"s\").y; } }"
    );
}

#[test]
fn printed_text_parses_back_to_the_same_tree() {
    let sources = [
        "print 1 + 2 * 3;",
        "var a = \"b\"; { var a = \"inner\"; print a; } print a;",
        "fun fib(n){ if (n<=1) return n; return fib(n-2)+fib(n-1); } print fib(10);",
        "fun mk(){var i=0; fun c(){i=i+1; return i;} return c;} var k=mk(); print k(); print k(); print k();",
        "class A { greet() { print \"A\"; } } class B < A { greet() { super.greet(); print \"B\"; } } B().greet();",
        "var x = -(1 - 2) / 3 >= 4 == !true != (nil or false and 0.25); x.y.z = a.b(c)(d, e).f = g;",
        "for (;;) {} for (i = 0; ; ) i; for (var j; j < 2; j = j + 1) { if (j) print j; else { j; } }",
        "while (a and b or c) if (d) e; else if (f) g; this; return 1;",
        "class C { init() { return; } } if (a) if (b) c; else d;",
    ];
    for source in sources {
        let first = parsed(source);
        let text = printed(&first);
        let second = parsed(&text);
        assert_eq!(first, second, "{}", text);
        assert_eq!(printed(&second), text);
    }
}
