use rslox::ast::{Expr, LiteralExpr, Stmt};
use rslox::errors::{LoxError, ParseErr, ResolveErr, RuntimeErr};
use rslox::host::{Arithmetic, Host, Recorded};
use rslox::interpreter::Interpreter;
use rslox::parser::Parser;
use rslox::resolver::Resolver;
use rslox::scanner::Scanner;
use rslox::token::{Token, TokenType};

struct TestHost {
    out: Vec<String>,
}

impl Host for TestHost {
    fn parse_number(&mut self, text: &str) -> u64 {
        text.parse::<f64>().unwrap().to_bits()
    }

    fn arithmetic(&mut self, op: Arithmetic, a: u64, b: u64) -> u64 {
        let (a, b) = (f64::from_bits(a), f64::from_bits(b));
        let r = match op {
            Arithmetic::Add => a + b,
            Arithmetic::Subtract => a - b,
            Arithmetic::Multiply => a * b,
            Arithmetic::Divide => a / b,
        };
        r.to_bits()
    }

    fn format_number(&mut self, bits: u64) -> String {
        f64::from_bits(bits).to_string()
    }

    fn current_unix_seconds(&mut self) -> u64 {
        std::time::SystemTime::now()
            .duration_since(std::time::UNIX_EPOCH)
            .unwrap()
            .as_secs_f64()
            .to_bits()
    }

    fn write_stdout(&mut self, line: &str) {
        self.out.push(line.to_string());
    }
}

fn host() -> Recorded<TestHost> {
    Recorded::new(TestHost { out: Vec::new() })
}

fn number(value: f64) -> LiteralExpr {
    LiteralExpr::Number(value.to_bits())
}

fn parse_stmts(src: &str) -> Vec<Stmt> {
    let mut host = host();
    let mut scanner = Scanner::new(src.to_string());
    let tokens = scanner.scan_tokens(&mut host).clone();
    let mut parser = Parser::new(tokens);
    let stmts = parser.parse().expect("Failed to parse statements");
    let mut resolver = Resolver::new();
    resolver.resolve_stmts(&stmts).expect("Failed to resolve statements")
}

fn eval_expr(src: &str) -> Result<LiteralExpr, LoxError> {
    let mut host = host();
    let mut scanner = Scanner::new(src.to_string());
    let tokens = scanner.scan_tokens(&mut host).clone();
    let mut parser = Parser::new(tokens);

    let stmts = parser.parse()?;

    if let Some(stmt) = stmts.first() {
        match stmt {
            Stmt::Expression(expr) => {
                let mut interpreter = Interpreter::default();
                interpreter.evaluate(expr, &mut host)
            }
            Stmt::Print(expr) => {
                let mut interpreter = Interpreter::default();
                interpreter.evaluate(expr, &mut host)
            }
            _ => Err(LoxError::Runtime(RuntimeErr::InvalidOperandTypes(0))),
        }
    } else {
        Err(LoxError::Runtime(RuntimeErr::InvalidOperandTypes(0)))
    }
}

fn run_src(src: &str) -> Result<(), LoxError> {
    run_output(src).map(|_| ())
}

fn run_output(src: &str) -> Result<Vec<String>, LoxError> {
    let mut host = host();
    let mut scanner = Scanner::new(src.to_string());
    let tokens = scanner.scan_tokens(&mut host).clone();
    if let Some(e) = scanner.get_errors().first() {
        return Err(LoxError::Scan(*e));
    }
    let mut parser = Parser::new(tokens);
    let stmts = parser.parse()?;
    let mut resolver = Resolver::new();
    let stmts = resolver.resolve_stmts(&stmts)?;
    let mut interpreter = Interpreter::new();
    interpreter.interpret(&stmts, &mut host)?;
    Ok(host.into_inner().out)
}

fn run_all(interpreter: &mut Interpreter, src: &str) {
    let mut host = host();
    for stmt in parse_stmts(src) {
        interpreter.execute(&stmt, &mut host).expect("execution failed");
    }
}

fn global(interpreter: &Interpreter, name: &str) -> Result<LiteralExpr, LoxError> {
    let token = Token::new(TokenType::Identifier, name.to_string(), 1);
    interpreter.env.get(&token)
}

#[test]
fn test_interpreter_arithmetic() {
    let res = eval_expr("1 + 2 * 3;").expect("evaluation failed");
    assert_eq!(res, number(7.0));
}

#[test]
fn test_division_by_zero_returns_runtime_error() {
    let res = eval_expr("10 / 0;");
    assert!(res.is_err(), "Expected an error for division by zero");
    let err = res.unwrap_err();
    let dbg = format!("{:?}", err);
    // The Debug output should include the runtime error variant or message
    assert!(dbg.contains("Division") || dbg.contains("DivisionByZero") || dbg.contains("RUNTIME"));
    assert_eq!(err, LoxError::Runtime(RuntimeErr::DivisionByZero(1)));
}

#[test]
fn test_unary_operand_type_error() {
    let res = eval_expr("-\"hello\";");
    assert!(res.is_err(), "Expected an error for negating a string");
    let err = res.unwrap_err();
    let dbg = format!("{:?}", err);
    assert!(
        dbg.contains("Operand") || dbg.contains("OperandMustBeNumber") || dbg.contains("RUNTIME")
    );
    assert_eq!(err, LoxError::Runtime(RuntimeErr::OperandMustBeNumber(1)));
}

#[test]
fn test_print_statement() {
    let res = run_src("print \"Hello, World! from tests\";");
    assert!(res.is_ok(), "Print statement should execute successfully");
}

#[test]
fn test_expression_statement() {
    let res = run_src("1 + 2;");
    assert!(res.is_ok(), "Expression statement should execute successfully");
}

#[test]
fn test_variable_declaration() {
    let mut interpreter = Interpreter::default();
    run_all(&mut interpreter, "var a = 1;");

    // Check if 'a' is in the environment
    let val = global(&interpreter, "a").expect("variable lookup failed");
    assert_eq!(val, number(1.0));
}

#[test]
fn test_variable_assignment() {
    let mut interpreter = Interpreter::default();
    run_all(&mut interpreter, "var a = 1; a = 2;");

    let val = global(&interpreter, "a").expect("variable lookup failed");
    assert_eq!(val, number(2.0));
}

#[test]
fn test_block_scope() {
    let mut interpreter = Interpreter::default();
    let src = "
            var a = \"global\";
            {
                var a = \"block\";
                var b = \"block_b\";
            }
        ";
    run_all(&mut interpreter, src);

    let val_a = global(&interpreter, "a").expect("variable lookup failed");
    assert_eq!(val_a, LiteralExpr::String("global".to_string()));

    let val_b = global(&interpreter, "b");
    assert!(val_b.is_err(), "Variable b should not be accessible outside the block");
}

#[test]
fn test_scope_shadowing_and_assignment() {
    let mut interpreter = Interpreter::default();
    let src = "
            var a = 1;
            {
                var a = 2;
                a = 3;
            }
        ";
    run_all(&mut interpreter, src);

    let val_a = global(&interpreter, "a").expect("variable lookup failed");
    assert_eq!(val_a, number(1.0));
}

#[test]
fn test_if_statement_true() {
    let mut interpreter = Interpreter::default();
    let src = "
            var a = 1;
            if (true) {
                a = 2;
            }
        ";
    run_all(&mut interpreter, src);

    let val_a = global(&interpreter, "a").expect("variable lookup failed");
    assert_eq!(val_a, number(2.0));
}

#[test]
fn test_if_statement_false() {
    let mut interpreter = Interpreter::default();
    let src = "
            var a = 1;
            if (false) {
                a = 2;
            }
        ";
    run_all(&mut interpreter, src);

    let val_a = global(&interpreter, "a").expect("variable lookup failed");
    assert_eq!(val_a, number(1.0));
}

#[test]
fn test_if_else_statement_true() {
    let mut interpreter = Interpreter::default();
    let src = "
            var a = 1;
            if (true) {
                a = 2;
            } else {
                a = 3;
            }
        ";
    run_all(&mut interpreter, src);

    let val_a = global(&interpreter, "a").expect("variable lookup failed");
    assert_eq!(val_a, number(2.0));
}

#[test]
fn test_if_else_statement_false() {
    let mut interpreter = Interpreter::default();
    let src = "
            var a = 1;
            if (false) {
                a = 2;
            } else {
                a = 3;
            }
        ";
    run_all(&mut interpreter, src);

    let val_a = global(&interpreter, "a").expect("variable lookup failed");
    assert_eq!(val_a, number(3.0));
}

#[test]
fn test_logical_or() {
    let result = eval_expr("print 2 or \"hi\";").expect("evaluation failed");
    assert_eq!(result, number(2.0));

    let result = eval_expr("print nil or \"hi\";").expect("evaluation failed");
    assert_eq!(result, LiteralExpr::String("hi".to_string()));
}

#[test]
fn test_logical_and() {
    let result = eval_expr("print \"hi\" and 2;").expect("evaluation failed");
    assert_eq!(result, number(2.0));

    let result = eval_expr("print nil and \"hi\";").expect("evaluation failed");
    assert_eq!(result, LiteralExpr::Nil);
}

#[test]
fn test_while_statement() {
    let mut interpreter = Interpreter::default();
    let src = "
            var a = 1;
            while (a < 3) {
                a = a + 1;
            }
        ";
    run_all(&mut interpreter, src);

    let val_a = global(&interpreter, "a").expect("variable lookup failed");
    assert_eq!(val_a, number(3.0));
}

#[test]
fn test_for_loop() {
    let mut interpreter = Interpreter::default();
    let src = "
            var a = 0;
            for (var i = 0; i < 3; i = i + 1) {
                a = a + i;
            }
        ";
    run_all(&mut interpreter, src);

    let val_a = global(&interpreter, "a").expect("variable lookup failed");
    assert_eq!(val_a, number(3.0));
}

#[test]
fn test_function_declaration_and_call() {
    let mut interpreter = Interpreter::default();
    let src = "
            fun add(a, b) {
                return a + b;
            }
            var res = add(1, 2);
        ";
    run_all(&mut interpreter, src);

    let val_res = global(&interpreter, "res").expect("variable lookup failed");
    assert_eq!(val_res, number(3.0));
}

#[test]
fn test_recursion_fibonacci() {
    let mut interpreter = Interpreter::default();
    let src = "
            fun fib(n) {
                if (n <= 1) return n;
                return fib(n - 2) + fib(n - 1);
            }
            var res = fib(10);
        ";
    run_all(&mut interpreter, src);

    let val_res = global(&interpreter, "res").expect("variable lookup failed");
    assert_eq!(val_res, number(55.0));
}

#[test]
fn test_closure() {
    let mut interpreter = Interpreter::default();
    let src = "
            fun makeCounter() {
                var i = 0;
                fun count() {
                    i = i + 1;
                    return i;
                }
                return count;
            }

            var counter = makeCounter();
            var c1 = counter();
            var c2 = counter();
        ";
    run_all(&mut interpreter, src);

    let val_c1 = global(&interpreter, "c1").expect("variable lookup failed");
    assert_eq!(val_c1, number(1.0));

    let val_c2 = global(&interpreter, "c2").expect("variable lookup failed");
    assert_eq!(val_c2, number(2.0));
}

#[test]
fn test_native_function_clock() {
    let mut interpreter = Interpreter::default();

    let src = "
            var t = clock();
        ";
    run_all(&mut interpreter, src);

    let val_t = global(&interpreter, "t").expect("variable lookup failed");

    if let LiteralExpr::Number(_) = val_t {
        // Pass
    } else {
        panic!("clock() should return a number");
    }
}

#[test]
fn scenario_print_arithmetic() {
    assert_eq!(run_output("print 1 + 2 * 3;").unwrap(), vec!["7"]);
}

#[test]
fn scenario_block_shadowing() {
    let out = run_output("var a = \"b\"; { var a = \"inner\"; print a; } print a;").unwrap();
    assert_eq!(out, vec!["inner", "b"]);
}

#[test]
fn scenario_fibonacci() {
    let out = run_output(
        "fun fib(n){ if (n<=1) return n; return fib(n-2)+fib(n-1); } print fib(10);",
    )
    .unwrap();
    assert_eq!(out, vec!["55"]);
}

#[test]
fn scenario_closure_counter() {
    let out = run_output(
        "fun mk(){var i=0; fun c(){i=i+1; return i;} return c;} var k=mk(); print k(); print k(); print k();",
    )
    .unwrap();
    assert_eq!(out, vec!["1", "2", "3"]);
}

#[test]
fn scenario_class_inheritance() {
    let out = run_output(
        "class A { greet() { print \"A\"; } } class B < A { greet() { super.greet(); print \"B\"; } } B().greet();",
    )
    .unwrap();
    assert_eq!(out, vec!["A", "B"]);
}

#[test]
fn scenario_runtime_error_has_line() {
    let err = run_output("print 1 + \"x\";").unwrap_err();
    assert_eq!(err, LoxError::Runtime(RuntimeErr::InvalidOperandTypes(1)));
}

#[test]
fn scenario_self_reference_in_initializer() {
    let err = run_output("{ var a = a; }").unwrap_err();
    assert_eq!(err, LoxError::Resolve(ResolveErr::InvalidLocalVariable(1)));
    assert!(run_output("var a = 1; { var b = a; print b; }").is_ok());
}

#[test]
fn initializer_returns_the_instance() {
    let out = run_output(
        "class P { init(x) { this.x = x; return; } } var p = P(3); print p.x; print p.init(4).x; print p.x;",
    )
    .unwrap();
    assert_eq!(out, vec!["3", "4", "4"]);
    let err = run_output("class P { init() { return 1; } }").unwrap_err();
    assert_eq!(err, LoxError::Resolve(ResolveErr::ReturnFromInitializer(1)));
}

#[test]
fn static_errors_of_the_resolver() {
    let cases = vec![
        ("return 1;", ResolveErr::TopLevelReturn(1)),
        ("{ var a = 1; var a = 2; }", ResolveErr::VariablesWithSameName(1)),
        ("print this;", ResolveErr::ThisOutsideClass(1)),
        ("print super.x;", ResolveErr::SuperOutsideClass(1)),
        ("class A { m() { super.m(); } }", ResolveErr::SuperWithoutSuperclass(1)),
        ("class A < A {}", ResolveErr::SelfInheritance(1)),
    ];
    for (src, expected) in cases {
        assert_eq!(run_output(src).unwrap_err(), LoxError::Resolve(expected), "{}", src);
    }
}

#[test]
fn runtime_errors() {
    let cases = vec![
        ("print x;", RuntimeErr::UndefinedVariable("x".to_string(), 1)),
        ("x = 1;", RuntimeErr::UndefinedVariable("x".to_string(), 1)),
        ("var a = 1;\na();", RuntimeErr::InvalidCalleeExpr(2)),
        ("fun f(a) {}\nf(1, 2);", RuntimeErr::ArgumentCountMismatch(1, 2, 2)),
        ("class A {}\nprint A().x;", RuntimeErr::UndefinedProperty("x".to_string(), 2)),
        ("var a = 1; print a.x;", RuntimeErr::OnlyInstancesHaveProperties(1)),
        ("var a = 1; a.x = 2;", RuntimeErr::OnlyInstancesHaveProperties(1)),
        ("var a = 1; class B < a {}", RuntimeErr::SuperclassMustBeClass(1)),
        ("print 1 < \"a\";", RuntimeErr::OperandMustBeNumber(1)),
        ("print \"a\" + 1;", RuntimeErr::InvalidOperandTypes(1)),
        ("print 1 / 0;", RuntimeErr::DivisionByZero(1)),
    ];
    for (src, expected) in cases {
        assert_eq!(run_output(src).unwrap_err(), LoxError::Runtime(expected), "{}", src);
    }
}

#[test]
fn depth_limit_stops_runaway_recursion() {
    let mut host = host();
    let stmts = parse_stmts("fun f() { return f(); }\nf();");
    let mut interpreter = Interpreter::with_depth(50);
    let err = interpreter.interpret(&stmts, &mut host).unwrap_err();
    assert_eq!(err, LoxError::Runtime(RuntimeErr::DepthLimitExceeded(1)));
}

#[test]
fn default_depth_limit_stops_runaway_recursion() {
    let err = run_output("fun f(n) { return f(n + 1) + 1; }\nprint f(0);").unwrap_err();
    assert_eq!(err, LoxError::Runtime(RuntimeErr::DepthLimitExceeded(1)));
    let out = run_output("fun down(n) { if (n <= 0) return 0; return down(n - 1) + 1; } print down(200);")
        .unwrap();
    assert_eq!(out, vec!["200"]);
}

#[test]
fn truthiness_and_equality() {
    let out = run_output(
        "print !nil; print !false; print !0; print !\"\"; print nil == nil; print nil == false; print 1 == 1; print \"a\" == \"a\"; print 1 == \"1\"; print 0 == -0; print 1 != 2;",
    )
    .unwrap();
    assert_eq!(
        out,
        vec!["true", "true", "false", "false", "true", "false", "true", "true", "false", "true", "true"]
    );
}

#[test]
fn comparisons_and_strings() {
    let out = run_output(
        "print 1 < 2; print 2 <= 2; print 3 > 4; print -1 >= -2; print -3 < -2; print \"a\" + \"b\"; print -(1 - 3); print 7 / 2;",
    )
    .unwrap();
    assert_eq!(out, vec!["true", "true", "false", "true", "true", "ab", "2", "3.5"]);
}

#[test]
fn printing_values() {
    let out = run_output(
        "fun f() {} class A {} print f; print A; print A(); print clock; print nil; print true;",
    )
    .unwrap();
    assert_eq!(out, vec!["<fn f>", "A", "A instance", "<native fn>", "nil", "true"]);
}

#[test]
fn parser_reports_errors_and_synchronizes() {
    let mut host = host();
    let mut scanner = Scanner::new("var = 1; print 2; print ; fun (".to_string());
    let tokens = scanner.scan_tokens(&mut host).clone();
    let mut parser = Parser::new(tokens);
    let result = parser.parse();
    assert_eq!(
        result.unwrap_err(),
        LoxError::Parse(ParseErr::ExpectedToken("Expected a variable name".to_string(), 1))
    );
    assert_eq!(
        parser.get_errors(),
        &vec![
            ParseErr::ExpectedToken("Expected a variable name".to_string(), 1),
            ParseErr::UnexpectedEOF(1),
            ParseErr::ExpectedToken("Expect function name.".to_string(), 1),
        ]
    );
}

#[test]
fn parser_invalid_assignment_target_is_reported_not_fatal() {
    let mut host = host();
    let mut scanner = Scanner::new("1 = 2; print 3;".to_string());
    let tokens = scanner.scan_tokens(&mut host).clone();
    let mut parser = Parser::new(tokens);
    let _ = parser.parse();
    assert_eq!(parser.get_errors(), &vec![ParseErr::InvalidAssignment(1)]);
}

#[test]
fn for_loop_desugars_to_while() {
    let mut host = host();
    let mut scanner = Scanner::new("for (;;) print 1;".to_string());
    let tokens = scanner.scan_tokens(&mut host).clone();
    let mut parser = Parser::new(tokens);
    let stmts = parser.parse().unwrap();
    match &stmts[0] {
        Stmt::While(w) => {
            assert_eq!(w.condition, Expr::Literal(LiteralExpr::Boolean(true)));
            assert!(matches!(*w.body, Stmt::Print(_)));
        }
        other => panic!("expected a while loop, got {:?}", other),
    }
}

#[test]
fn methods_and_fields() {
    let out = run_output(
        "class C { init() { this.n = 0; } inc() { this.n = this.n + 1; return this; } } var c = C(); c.inc().inc(); print c.n; var m = c.inc; m(); print c.n;",
    )
    .unwrap();
    assert_eq!(out, vec!["2", "3"]);
}

#[test]
fn inherited_initializer_sets_arity() {
    let out = run_output(
        "class A { init(x) { this.x = x; } } class B < A {} print B(5).x;",
    )
    .unwrap();
    assert_eq!(out, vec!["5"]);
}
