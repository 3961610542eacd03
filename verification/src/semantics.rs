//! The meaning of a resolved program: what its statements and expressions
//! do to the state of the evaluator, and what they ask of the host. The
//! host's answers are not the library's to compute; the meaning takes them
//! from a script, the sequence of the calls of the host with their
//! answers, and is a function of the program, the state and the script.

use crate::ast::{ExprView, FunView, LiteralView, StmtView};
use crate::callable::{
    CallableView, ClassView, Flow, InstanceView, UserView, arity_of, find_method,
};
use crate::env::{EnvView, ScopeView, ancestor_from, law_closure_sees_current_bindings};
use crate::errors::{LoxErrorView, RuntimeErrView};
use crate::host::{Arithmetic, HostCall};
use crate::token::{TokenKind, TokenView};
use crate::value::{
    is_zero, negated, number_less, number_less_equal, short_circuits, truthy, values_equal,
};
use vstd::prelude::*;

verus! {

/// The state of the evaluator: the arena of scopes, the tables of
/// callables and instances, and the calls of the host made so far.
pub struct State {
    pub env: EnvView,
    pub callables: Seq<CallableView>,
    pub instances: Seq<InstanceView>,
    pub calls: Seq<HostCall>,
}

/// The state behind an evaluation and its value or its error.
pub struct Outcome<T> {
    pub state: State,
    pub result: Result<T, LoxErrorView>,
}

pub open spec fn done<T>(state: State, value: T) -> Outcome<T> {
    Outcome { state, result: Ok(value) }
}

pub open spec fn failed<T>(state: State, e: RuntimeErrView) -> Outcome<T> {
    Outcome { state, result: Err(LoxErrorView::Runtime(e)) }
}

/// `o`, which ended with an error, as the outcome of an evaluation of
/// another kind.
pub open spec fn pass<T, U>(o: Outcome<T>) -> Outcome<U> {
    Outcome { state: o.state, result: Err(o.result->Err_0) }
}

/// The number that the `k`th call of the script returns.
pub open spec fn number_reply(script: Seq<HostCall>, k: nat) -> u64 {
    if k < script.len() {
        match script[k as int] {
            HostCall::ParseNumber { text, bits } => bits,
            HostCall::Arithmetic { op, a, b, bits } => bits,
            HostCall::CurrentUnixSeconds { bits } => bits,
            _ => 0,
        }
    } else {
        0
    }
}

/// The text that the `k`th call of the script returns.
pub open spec fn text_reply(script: Seq<HostCall>, k: nat) -> Seq<char> {
    if k < script.len() {
        match script[k as int] {
            HostCall::FormatNumber { bits, text } => text,
            _ => Seq::empty(),
        }
    } else {
        Seq::empty()
    }
}

impl State {
    pub open spec fn with_env(self, env: EnvView) -> State {
        State { env, ..self }
    }

    pub open spec fn with_call(self, call: HostCall) -> State {
        State { calls: self.calls.push(call), ..self }
    }

    pub open spec fn with_callable(self, callable: CallableView) -> State {
        State { callables: self.callables.push(callable), ..self }
    }

    /// The scope that a variable of depth `depth` lives in: the scope so
    /// many steps above the current one, or that of the globals.
    pub open spec fn target(self, depth: Option<nat>) -> nat {
        match depth {
            Some(d) => self.env.ancestor(d),
            None => 0,
        }
    }

    /// The value of the variable `name` of depth `depth`.
    pub open spec fn lookup(self, depth: Option<nat>, name: TokenView) -> Outcome<LiteralView> {
        match self.env.value_in(self.target(depth), name.lexeme) {
            Some(v) => done(self, v),
            None => failed(self, RuntimeErrView::UndefinedVariable(name.lexeme, name.line)),
        }
    }

    /// The assignment of `value` to the variable `name` of depth `depth`:
    /// a local variable is bound in its scope, a global must exist.
    pub open spec fn assign(self, depth: Option<nat>, name: TokenView, value: LiteralView) -> Outcome<
        LiteralView,
    > {
        match depth {
            Some(d) => done(
                self.with_env(self.env.with_binding(self.env.ancestor(d), name.lexeme, value)),
                value,
            ),
            None => match self.env.value_in(0, name.lexeme) {
                Some(_) => done(self.with_env(self.env.with_binding(0, name.lexeme, value)), value),
                None => failed(self, RuntimeErrView::UndefinedVariable(name.lexeme, name.line)),
            },
        }
    }

    /// The state in which the body of `f` runs in a call with `args`: a new
    /// scope holds the parameters, under the scope in which `f` was
    /// declared, and is the current one.
    pub open spec fn enter(self, f: UserView, args: Seq<LiteralView>) -> State {
        self.with_env(
            self.env.with_scope(
                ScopeView {
                    bindings: parameter_map(
                        f.declaration.params,
                        args,
                        bound_count(f.declaration.params, args),
                    ),
                    parent: Some(f.closure),
                },
            ),
        )
    }

    /// The host is asked for the result of `op` on `a` and `b`.
    pub open spec fn ask_arithmetic(self, op: Arithmetic, a: u64, b: u64, script: Seq<HostCall>) -> Outcome<
        LiteralView,
    > {
        let bits = number_reply(script, self.calls.len());
        done(self.with_call(HostCall::Arithmetic { op, a, b, bits }), LiteralView::Number(bits))
    }

    /// The host is asked for the time.
    pub open spec fn ask_clock(self, script: Seq<HostCall>) -> Outcome<LiteralView> {
        let bits = number_reply(script, self.calls.len());
        done(self.with_call(HostCall::CurrentUnixSeconds { bits }), LiteralView::Number(bits))
    }

    /// The text of `v` for `print`: the host writes out a number, every
    /// other text is the evaluator's.
    pub open spec fn stringify(self, v: LiteralView, script: Seq<HostCall>) -> Outcome<Seq<char>> {
        match v {
            LiteralView::Number(bits) => {
                let text = text_reply(script, self.calls.len());
                done(self.with_call(HostCall::FormatNumber { bits, text }), text)
            },
            _ => done(self, rendering(self.callables, self.instances, v)),
        }
    }

    /// `print`: the text of `v` goes to the host, for the standard output.
    pub open spec fn print(self, v: LiteralView, script: Seq<HostCall>) -> Outcome<Flow> {
        let text = self.stringify(v, script);
        done(text.state.with_call(HostCall::WriteStdout { line: text.result->Ok_0 }), Flow::Normal)
    }

    /// The method `method` bound to `this`: a copy whose scope is a new
    /// scope that holds `this` alone and whose parent is the scope of
    /// `method`. The evaluator stays in its scope.
    pub open spec fn bind(self, method: UserView, this: LiteralView, line: nat) -> Outcome<UserView> {
        if method.closure >= self.env.scopes.len() {
            failed(self, RuntimeErrView::InvalidCalleeExpr(line))
        } else {
            done(
                self.with_env(
                    self.env.with_scope(
                        ScopeView {
                            bindings: Map::<Seq<char>, LiteralView>::empty().insert("this"@, this),
                            parent: Some(method.closure),
                        },
                    ).at(self.env.current),
                ),
                UserView {
                    declaration: method.declaration,
                    closure: self.env.scopes.len(),
                    is_initializer: method.is_initializer,
                },
            )
        }
    }

    /// The method named `name` of the class with the handle `class`, bound
    /// to `this` and entered in the table of callables: the value is the
    /// new handle. A class without such a method has no such property.
    pub open spec fn bound_method(
        self,
        class: nat,
        name: TokenView,
        this: LiteralView,
    ) -> Outcome<LiteralView> {
        match find_method(self.callables, class as int, name.lexeme) {
            Some(method) => {
                let bound = self.bind(method, this, name.line);
                match bound.result {
                    Ok(f) => done(
                        bound.state.with_callable(CallableView::User(f)),
                        LiteralView::Call(bound.state.callables.len()),
                    ),
                    Err(_) => pass(bound),
                }
            },
            None => failed(self, RuntimeErrView::UndefinedProperty(name.lexeme, name.line)),
        }
    }

    /// A property of `object`, which must be an instance: the field, or
    /// else the method of the class bound to the instance.
    pub open spec fn property(self, object: LiteralView, name: TokenView) -> Outcome<LiteralView> {
        match object {
            LiteralView::Instance(h) => if h < self.instances.len() {
                if self.instances[h as int].fields.contains_key(name.lexeme) {
                    done(self, self.instances[h as int].fields[name.lexeme])
                } else {
                    self.bound_method(self.instances[h as int].class, name, object)
                }
            } else {
                failed(self, RuntimeErrView::OnlyInstancesHaveProperties(name.line))
            },
            _ => failed(self, RuntimeErrView::OnlyInstancesHaveProperties(name.line)),
        }
    }

    /// The field `name` of the instance with the handle `h` is set to
    /// `value`, over any field of that name.
    pub open spec fn set_field(self, h: nat, name: TokenView, value: LiteralView) -> Outcome<
        LiteralView,
    > {
        if h < self.instances.len() {
            done(
                State {
                    instances: self.instances.update(
                        h as int,
                        InstanceView {
                            fields: self.instances[h as int].fields.insert(name.lexeme, value),
                            ..self.instances[h as int]
                        },
                    ),
                    ..self
                },
                value,
            )
        } else {
            failed(self, RuntimeErrView::OnlyInstancesHaveProperties(name.line))
        }
    }

    /// `super.method`: the method of the superclass, which stands in the
    /// scope `depth` steps up, bound to the `this` of the scope below it.
    pub open spec fn super_method(self, keyword: TokenView, method: TokenView, depth: Option<nat>) -> Outcome<
        LiteralView,
    > {
        match depth {
            Some(d) => if d == 0 {
                failed(self, RuntimeErrView::UndefinedVariable(keyword.lexeme, keyword.line))
            } else {
                match self.env.value_in(self.env.ancestor(d), keyword.lexeme) {
                    None => failed(
                        self,
                        RuntimeErrView::UndefinedVariable(keyword.lexeme, keyword.line),
                    ),
                    Some(superclass) => match self.env.value_in(
                        self.env.ancestor((d - 1) as nat),
                        "this"@,
                    ) {
                        None => failed(self, RuntimeErrView::UndefinedVariable("this"@, keyword.line)),
                        Some(this) => match superclass {
                            LiteralView::Call(h) => self.bound_method(h, method, this),
                            _ => failed(self, RuntimeErrView::SuperclassMustBeClass(keyword.line)),
                        },
                    },
                }
            },
            None => failed(self, RuntimeErrView::UndefinedVariable(keyword.lexeme, keyword.line)),
        }
    }

    /// A function declaration: the function with the current scope as its
    /// closure, bound to its name in the current scope.
    pub open spec fn declare_function(self, f: FunView) -> State {
        State {
            env: self.env.with_binding(
                self.env.current,
                f.name.lexeme,
                LiteralView::Call(self.callables.len()),
            ),
            callables: self.callables.push(
                CallableView::User(
                    UserView { declaration: f, closure: self.env.current, is_initializer: false },
                ),
            ),
            ..self
        }
    }

    /// The handle of the superclass of a class declaration: the value of
    /// the variable, which must be a class.
    pub open spec fn superclass(self, superclass: Option<ExprView>) -> Outcome<Option<nat>> {
        match superclass {
            Some(ExprView::Var { name, depth }) => {
                let value = self.lookup(depth, name);
                match value.result {
                    Err(_) => pass(value),
                    Ok(LiteralView::Call(h)) => if h < self.callables.len()
                        && self.callables[h as int] is Class {
                        done(self, Some(h))
                    } else {
                        failed(self, RuntimeErrView::SuperclassMustBeClass(name.line))
                    },
                    Ok(_) => failed(self, RuntimeErrView::SuperclassMustBeClass(name.line)),
                }
            },
            _ => done(self, None),
        }
    }

    /// A class declaration: the class with its methods, bound to its name
    /// in the current scope. With a superclass the methods close over a new
    /// scope that holds `super`.
    pub open spec fn declare_class(self, name: TokenView, superclass: Option<nat>, methods: Seq<FunView>) -> State {
        let named = self.env.with_binding(self.env.current, name.lexeme, LiteralView::Nil);
        let inside = match superclass {
            Some(h) => {
                let pushed = named.with_scope(
                    ScopeView { bindings: Map::empty(), parent: Some(named.current) },
                );
                pushed.with_binding(pushed.current, "super"@, LiteralView::Call(h))
            },
            None => named,
        };
        let class = ClassView {
            name: name.lexeme,
            superclass,
            methods: methods.map_values(
                |m: FunView|
                    UserView { declaration: m, closure: inside.current, is_initializer: m.is_init },
            ),
        };
        State {
            env: inside.at(self.env.current).with_binding(
                self.env.current,
                name.lexeme,
                LiteralView::Call(self.callables.len()),
            ),
            callables: self.callables.push(CallableView::Class(class)),
            ..self
        }
    }
}

/// The name of the class with the handle `class`.
pub open spec fn class_name(callables: Seq<CallableView>, class: int) -> Seq<char> {
    if 0 <= class < callables.len() {
        match callables[class] {
            CallableView::Class(c) => c.name,
            _ => "<class>"@,
        }
    } else {
        "<class>"@
    }
}

/// The text that `print` writes for a value that is no number.
pub open spec fn rendering(callables: Seq<CallableView>, instances: Seq<InstanceView>, v: LiteralView) -> Seq<
    char,
> {
    match v {
        LiteralView::Nil => "nil"@,
        LiteralView::Boolean(b) => if b {
            "true"@
        } else {
            "false"@
        },
        LiteralView::Number(_) => Seq::empty(),
        LiteralView::String(s) => s,
        LiteralView::Call(h) => if h < callables.len() {
            match callables[h as int] {
                CallableView::User(f) => "<fn "@ + f.declaration.name.lexeme + ">"@,
                CallableView::Class(c) => c.name,
                CallableView::Native(_) => "<native fn>"@,
            }
        } else {
            "<fn>"@
        },
        LiteralView::Instance(h) => if h < instances.len() {
            class_name(callables, instances[h as int].class as int) + " instance"@
        } else {
            "<instance>"@
        },
    }
}

/// What the evaluator does with the operand values of a binary operator.
pub enum BinaryPlan {
    /// The host computes the result from the two numbers.
    Ask(Arithmetic, u64, u64),
    /// The result is this value.
    Yield(LiteralView),
    /// The evaluation stops with this error.
    Fail(RuntimeErrView),
}

/// The plan for `-`, `*` and `/`: both operands must be numbers, and the
/// divisor must not be zero.
pub open spec fn arithmetic_plan(op: Arithmetic, l: LiteralView, r: LiteralView, line: nat) -> BinaryPlan {
    match (l, r) {
        (LiteralView::Number(a), LiteralView::Number(b)) => if op == Arithmetic::Divide && is_zero(
            b,
        ) {
            BinaryPlan::Fail(RuntimeErrView::DivisionByZero(line))
        } else {
            BinaryPlan::Ask(op, a, b)
        },
        _ => BinaryPlan::Fail(RuntimeErrView::OperandMustBeNumber(line)),
    }
}

/// The plan for `<`, `<=`, `>` and `>=`: both operands must be numbers.
pub open spec fn ordering_plan(kind: TokenKind, l: LiteralView, r: LiteralView, line: nat) -> BinaryPlan {
    match (l, r) {
        (LiteralView::Number(a), LiteralView::Number(b)) => BinaryPlan::Yield(
            LiteralView::Boolean(
                match kind {
                    TokenKind::Greater => number_less(b, a),
                    TokenKind::GreaterEqual => number_less_equal(b, a),
                    TokenKind::Less => number_less(a, b),
                    _ => number_less_equal(a, b),
                },
            ),
        ),
        _ => BinaryPlan::Fail(RuntimeErrView::OperandMustBeNumber(line)),
    }
}

/// The plan for the operator of kind `kind`, which stands on line `line`,
/// and the operand values `l` and `r`. `+` adds two numbers and joins two
/// strings, and takes nothing else.
pub open spec fn binary_plan(kind: TokenKind, l: LiteralView, r: LiteralView, line: nat) -> BinaryPlan {
    match kind {
        TokenKind::Plus => match (l, r) {
            (LiteralView::Number(a), LiteralView::Number(b)) => BinaryPlan::Ask(
                Arithmetic::Add,
                a,
                b,
            ),
            (LiteralView::String(a), LiteralView::String(b)) => BinaryPlan::Yield(
                LiteralView::String(a + b),
            ),
            _ => BinaryPlan::Fail(RuntimeErrView::InvalidOperandTypes(line)),
        },
        TokenKind::Minus => arithmetic_plan(Arithmetic::Subtract, l, r, line),
        TokenKind::Star => arithmetic_plan(Arithmetic::Multiply, l, r, line),
        TokenKind::Slash => arithmetic_plan(Arithmetic::Divide, l, r, line),
        TokenKind::Greater | TokenKind::GreaterEqual | TokenKind::Less | TokenKind::LessEqual => ordering_plan(
            kind,
            l,
            r,
            line,
        ),
        TokenKind::EqualEqual => BinaryPlan::Yield(LiteralView::Boolean(values_equal(l, r))),
        TokenKind::BangEqual => BinaryPlan::Yield(LiteralView::Boolean(!values_equal(l, r))),
        _ => BinaryPlan::Yield(LiteralView::Nil),
    }
}

/// What the binary operator `operator` makes of the operand values `l` and
/// `r` in the state `s`.
pub open spec fn binary_value(s: State, operator: TokenView, l: LiteralView, r: LiteralView, script: Seq<HostCall>) -> Outcome<
    LiteralView,
> {
    match binary_plan(operator.kind, l, r, operator.line) {
        BinaryPlan::Ask(op, a, b) => s.ask_arithmetic(op, a, b, script),
        BinaryPlan::Yield(v) => done(s, v),
        BinaryPlan::Fail(e) => failed(s, e),
    }
}

/// What a unary operator of kind `kind` on line `line` makes of `v`: `-`
/// negates a number and takes nothing else, `!` negates the truthiness.
pub open spec fn unary_value(kind: TokenKind, v: LiteralView, line: nat) -> Result<
    LiteralView,
    RuntimeErrView,
> {
    match kind {
        TokenKind::Minus => match v {
            LiteralView::Number(b) => Ok(LiteralView::Number(negated(b))),
            _ => Err(RuntimeErrView::OperandMustBeNumber(line)),
        },
        TokenKind::Bang => Ok(LiteralView::Boolean(!truthy(v))),
        _ => Ok(LiteralView::Nil),
    }
}

/// The bindings of the first `n` parameters to their arguments; of two
/// parameters of one name the later one counts.
pub open spec fn parameter_map(params: Seq<TokenView>, args: Seq<LiteralView>, n: nat) -> Map<
    Seq<char>,
    LiteralView,
>
    decreases n,
{
    if n == 0 || n > params.len() || n > args.len() {
        Map::empty()
    } else {
        parameter_map(params, args, (n - 1) as nat).insert(params[n - 1].lexeme, args[n - 1])
    }
}

/// The number of parameters that get an argument.
pub open spec fn bound_count(params: Seq<TokenView>, args: Seq<LiteralView>) -> nat {
    if params.len() <= args.len() {
        params.len()
    } else {
        args.len()
    }
}

/// The rounds that a `while` loop may make.
pub open spec fn round_limit() -> nat {
    u64::MAX as nat
}

/// The value of a call that has passed its checks: a call of the callable
/// with the handle `h`, which takes as many arguments as `args` holds, at
/// a depth that allows a call.
pub open spec fn checked_call(
    s: State,
    callee: LiteralView,
    args: Seq<LiteralView>,
    line: nat,
    depth: nat,
) -> Option<RuntimeErrView> {
    match callee {
        LiteralView::Call(h) => if h >= s.callables.len() {
            Some(RuntimeErrView::InvalidCalleeExpr(line))
        } else if args.len() != arity_of(s.callables, h as int) {
            Some(
                RuntimeErrView::ArgumentCountMismatch(arity_of(s.callables, h as int), args.len(), line),
            )
        } else if depth == 0 {
            Some(RuntimeErrView::DepthLimitExceeded(line))
        } else {
            None
        },
        _ => Some(RuntimeErrView::InvalidCalleeExpr(line)),
    }
}

/// The arguments `args` from the index `i` on, evaluated in order after the
/// values `values`.
#[verifier::opaque]
pub open spec fn eval_args(
    s: State,
    args: Seq<ExprView>,
    i: nat,
    values: Seq<LiteralView>,
    depth: nat,
    script: Seq<HostCall>,
) -> Outcome<Seq<LiteralView>>
    decreases depth, 0nat, args, args.len() - i,
{
    if i >= args.len() {
        done(s, values)
    } else {
        let one = eval_expr(s, args[i as int], depth, script);
        match one.result {
            Err(_) => pass(one),
            Ok(v) => eval_args(one.state, args, i + 1, values.push(v), depth, script),
        }
    }
}

/// The value of the expression `e` in the state `s`, with calls nested at
/// most `depth` deep.
#[verifier::opaque]
pub open spec fn eval_expr(s: State, e: ExprView, depth: nat, script: Seq<HostCall>) -> Outcome<
    LiteralView,
>
    decreases depth, 0nat, e, 0nat,
{
    match e {
        ExprView::Literal(v) => done(s, v),
        ExprView::Grouping { expression } => eval_expr(s, *expression, depth, script),
        ExprView::Unary { operator, right } => {
            let r = eval_expr(s, *right, depth, script);
            match r.result {
                Err(_) => r,
                Ok(v) => match unary_value(operator.kind, v, operator.line) {
                    Ok(value) => done(r.state, value),
                    Err(e) => failed(r.state, e),
                },
            }
        },
        ExprView::Binary { left, operator, right } => {
            let l = eval_expr(s, *left, depth, script);
            match l.result {
                Err(_) => l,
                Ok(lv) => {
                    let r = eval_expr(l.state, *right, depth, script);
                    match r.result {
                        Err(_) => r,
                        Ok(rv) => binary_value(r.state, operator, lv, rv, script),
                    }
                },
            }
        },
        ExprView::Logical { left, operator, right } => {
            let l = eval_expr(s, *left, depth, script);
            match l.result {
                Err(_) => l,
                Ok(lv) => if short_circuits(operator.kind == TokenKind::Or, lv) {
                    l
                } else {
                    eval_expr(l.state, *right, depth, script)
                },
            }
        },
        ExprView::Var { name, depth: d } => s.lookup(d, name),
        ExprView::Assign { name, value, depth: d } => {
            let v = eval_expr(s, *value, depth, script);
            match v.result {
                Err(_) => v,
                Ok(value) => v.state.assign(d, name, value),
            }
        },
        ExprView::Call { callee, paren, args } => {
            let c = eval_expr(s, *callee, depth, script);
            match c.result {
                Err(_) => c,
                Ok(callee) => {
                    let a = eval_args(c.state, args, 0, Seq::empty(), depth, script);
                    match a.result {
                        Err(_) => pass(a),
                        Ok(values) => match checked_call(a.state, callee, values, paren.line, depth) {
                            Some(e) => failed(a.state, e),
                            None => call_value(
                                a.state,
                                callee->Call_0,
                                values,
                                paren.line,
                                (depth - 1) as nat,
                                script,
                            ),
                        },
                    }
                },
            }
        },
        ExprView::Get { object, name } => {
            let o = eval_expr(s, *object, depth, script);
            match o.result {
                Err(_) => o,
                Ok(object) => o.state.property(object, name),
            }
        },
        ExprView::SetField { object, name, value } => {
            let o = eval_expr(s, *object, depth, script);
            match o.result {
                Err(_) => o,
                Ok(LiteralView::Instance(h)) => {
                    let v = eval_expr(o.state, *value, depth, script);
                    match v.result {
                        Err(_) => v,
                        Ok(value) => v.state.set_field(h, name, value),
                    }
                },
                Ok(_) => failed(o.state, RuntimeErrView::OnlyInstancesHaveProperties(name.line)),
            }
        },
        ExprView::This { keyword, depth: d } => s.lookup(d, keyword),
        ExprView::Super { keyword, method, depth: d } => s.super_method(keyword, method, d),
    }
}

/// The call of the callable with the handle `h`.
#[verifier::opaque]
pub open spec fn call_value(
    s: State,
    h: nat,
    args: Seq<LiteralView>,
    line: nat,
    depth: nat,
    script: Seq<HostCall>,
) -> Outcome<LiteralView>
    decreases depth, 5nat, Flow::Normal, 0nat,
{
    if h >= s.callables.len() {
        failed(s, RuntimeErrView::InvalidCalleeExpr(line))
    } else {
        match s.callables[h as int] {
            CallableView::User(f) => call_function(s, f, args, line, depth, script),
            CallableView::Class(_) => instantiate(s, h, args, line, depth, script),
            CallableView::Native(_) => s.ask_clock(script),
        }
    }
}

/// The construction of an instance of the class with the handle `class`:
/// the instance is entered in the table, and the initializer of the class,
/// if it has one, is called on it with `args`. The value is the instance
/// whatever the initializer returns.
#[verifier::opaque]
pub open spec fn instantiate(
    s: State,
    class: nat,
    args: Seq<LiteralView>,
    line: nat,
    depth: nat,
    script: Seq<HostCall>,
) -> Outcome<LiteralView>
    decreases depth, 4nat, Flow::Normal, 0nat,
{
    let id = s.instances.len();
    let made = State {
        instances: s.instances.push(InstanceView { id, class, fields: Map::empty() }),
        ..s
    };
    match find_method(made.callables, class as int, "init"@) {
        Some(initializer) => {
            let bound = made.bind(initializer, LiteralView::Instance(id), line);
            match bound.result {
                Err(_) => pass(bound),
                Ok(f) => {
                    let called = call_function(bound.state, f, args, line, depth, script);
                    match called.result {
                        Err(_) => called,
                        Ok(_) => done(called.state, LiteralView::Instance(id)),
                    }
                },
            }
        },
        None => done(made, LiteralView::Instance(id)),
    }
}

/// The call of the function `f` with `args`: a new scope under the scope
/// of the function holds the parameters, the body runs in it, and the
/// evaluator comes back to the scope of the call. The value is that of the
/// `return` that ended the body, or `nil`; an initializer yields the `this`
/// of its scope whatever it returns.
#[verifier::opaque]
pub open spec fn call_function(
    s: State,
    f: UserView,
    args: Seq<LiteralView>,
    line: nat,
    depth: nat,
    script: Seq<HostCall>,
) -> Outcome<LiteralView>
    decreases depth, 3nat, Flow::Normal, 0nat,
{
    if f.closure >= s.env.scopes.len() {
        failed(s, RuntimeErrView::InvalidCalleeExpr(line))
    } else {
        let body = exec_list(s.enter(f, args), f.declaration.body, 0, depth, script);
        let back = body.state.with_env(body.state.env.at(s.env.current));
        match body.result {
            Err(e) => Outcome { state: back, result: Err(e) },
            Ok(flow) => if f.is_initializer {
                match back.env.value_in(f.closure, "this"@) {
                    Some(this) => done(back, this),
                    None => failed(back, RuntimeErrView::UndefinedVariable("this"@, line)),
                }
            } else {
                match flow {
                    Flow::Return(v) => done(back, v),
                    Flow::Normal => done(back, LiteralView::Nil),
                }
            },
        }
    }
}

/// The statements `stmts` from the index `i` on, executed in order up to
/// the first that ends with a `return` or an error.
#[verifier::opaque]
pub open spec fn exec_list(s: State, stmts: Seq<StmtView>, i: nat, depth: nat, script: Seq<HostCall>) -> Outcome<
    Flow,
>
    decreases depth, 2nat, stmts, stmts.len() - i,
{
    if i >= stmts.len() {
        done(s, Flow::Normal)
    } else {
        let one = exec_stmt(s, stmts[i as int], depth, script);
        match one.result {
            Ok(Flow::Normal) => exec_list(one.state, stmts, i + 1, depth, script),
            _ => one,
        }
    }
}

/// A block with a scope of its own: a new scope under the current one, the
/// statements, and back to the parent of the scope the evaluator is then
/// in, however the block ends.
#[verifier::opaque]
pub open spec fn exec_block(s: State, stmts: Seq<StmtView>, depth: nat, script: Seq<HostCall>) -> Outcome<
    Flow,
>
    decreases depth, 2nat, stmts, stmts.len() + 1,
{
    let entered = s.with_env(
        s.env.with_scope(ScopeView { bindings: Map::empty(), parent: Some(s.env.current) }),
    );
    let inside = exec_list(entered, stmts, 0, depth, script);
    Outcome {
        state: inside.state.with_env(
            inside.state.env.at(
                match inside.state.env.scopes[inside.state.env.current as int].parent {
                    Some(p) => p,
                    None => 0,
                },
            ),
        ),
        result: inside.result,
    }
}

/// A `while` loop that may make `rounds` more rounds: the body as long as
/// the condition is truthy; a `return` in the body ends the loop.
#[verifier::opaque]
pub open spec fn while_loop(
    s: State,
    condition: ExprView,
    body: StmtView,
    rounds: nat,
    depth: nat,
    script: Seq<HostCall>,
) -> Outcome<Flow>
    decreases depth, 2nat, body, rounds + 1,
{
    if rounds == 0 {
        failed(s, RuntimeErrView::DepthLimitExceeded(0))
    } else {
        let c = eval_expr(s, condition, depth, script);
        match c.result {
            Err(_) => pass(c),
            Ok(v) => if !truthy(v) {
                done(c.state, Flow::Normal)
            } else {
                let b = exec_stmt(c.state, body, depth, script);
                match b.result {
                    Ok(Flow::Normal) => while_loop(
                        b.state,
                        condition,
                        body,
                        (rounds - 1) as nat,
                        depth,
                        script,
                    ),
                    _ => b,
                }
            },
        }
    }
}

/// What the statement `st` does in the state `s`, with calls nested at
/// most `depth` deep.
#[verifier::opaque]
pub open spec fn exec_stmt(s: State, st: StmtView, depth: nat, script: Seq<HostCall>) -> Outcome<Flow>
    decreases depth, 2nat, st, 0nat,
{
    match st {
        StmtView::Expression(e) => {
            let v = eval_expr(s, e, depth, script);
            match v.result {
                Err(_) => pass(v),
                Ok(_) => done(v.state, Flow::Normal),
            }
        },
        StmtView::Print(e) => {
            let v = eval_expr(s, e, depth, script);
            match v.result {
                Err(_) => pass(v),
                Ok(value) => v.state.print(value, script),
            }
        },
        StmtView::Var { name, val } => {
            let v = eval_expr(s, val, depth, script);
            match v.result {
                Err(_) => pass(v),
                Ok(value) => done(
                    v.state.with_env(
                        v.state.env.with_binding(v.state.env.current, name.lexeme, value),
                    ),
                    Flow::Normal,
                ),
            }
        },
        StmtView::If { condition, then_b, else_b } => {
            let c = eval_expr(s, condition, depth, script);
            match c.result {
                Err(_) => pass(c),
                Ok(v) => if truthy(v) {
                    exec_stmt(c.state, *then_b, depth, script)
                } else {
                    exec_stmt(c.state, *else_b, depth, script)
                },
            }
        },
        StmtView::While { condition, body } => while_loop(
            s,
            condition,
            *body,
            round_limit(),
            depth,
            script,
        ),
        StmtView::Function(f) => done(s.declare_function(f), Flow::Normal),
        StmtView::Block(stmts) => exec_block(s, stmts, depth, script),
        StmtView::Return { keyword, value } => {
            let v = eval_expr(s, value, depth, script);
            match v.result {
                Err(_) => pass(v),
                Ok(value) => done(v.state, Flow::Return(value)),
            }
        },
        StmtView::Class { name, superclass, methods } => {
            let parent = s.superclass(superclass);
            match parent.result {
                Err(_) => pass(parent),
                Ok(handle) => done(s.declare_class(name, handle, methods), Flow::Normal),
            }
        },
    }
}

/// The statements of a program from the index `i` on, executed in order up
/// to the first error; a `return` at the top does not end the program.
pub open spec fn run_program(s: State, stmts: Seq<StmtView>, i: nat, depth: nat, script: Seq<HostCall>) -> Outcome<
    (),
>
    decreases stmts.len() - i,
{
    if i >= stmts.len() {
        done(s, ())
    } else {
        let one = exec_stmt(s, stmts[i as int], depth, script);
        match one.result {
            Err(_) => pass(one),
            Ok(_) => run_program(one.state, stmts, i + 1, depth, script),
        }
    }
}


/// `and` and `or` yield one of their operand values, uncoerced: the value
/// of the left operand where it decides, and with it the state behind the
/// left operand; else whatever the right operand yields behind the left
/// one. An error of the left operand is the error of the whole.
pub proof fn law_logical_yields_an_operand(
    s: State,
    left: ExprView,
    operator: TokenView,
    right: ExprView,
    depth: nat,
    script: Seq<HostCall>,
)
    ensures
        ({
            let whole = eval_expr(
                s,
                ExprView::Logical { left: Box::new(left), operator, right: Box::new(right) },
                depth,
                script,
            );
            let l = eval_expr(s, left, depth, script);
            match l.result {
                Err(_) => whole == l,
                Ok(lv) => if truthy(lv) == (operator.kind == TokenKind::Or) {
                    whole == l
                } else {
                    whole == eval_expr(l.state, right, depth, script)
                },
            }
        }),
{
    reveal(eval_expr);
}

/// A call of an initializer that returns at all returns the `this` of the
/// scope of the initializer: the instance that it is bound to, whatever
/// its body returns.
pub proof fn law_initializer_returns_this(
    s: State,
    f: UserView,
    args: Seq<LiteralView>,
    line: nat,
    depth: nat,
    script: Seq<HostCall>,
)
    requires
        f.is_initializer,
        call_function(s, f, args, line, depth, script).result is Ok,
    ensures
        ({
            let called = call_function(s, f, args, line, depth, script);
            called.state.env.value_in(f.closure, "this"@) == Some(called.result->Ok_0)
        }),
{
    reveal(call_function);
}

/// A method bound to an instance has a scope that holds `this`, the
/// instance, and nothing else, under the scope of the method; so a call of
/// the bound method reads `this` one scope above its parameters.
pub proof fn law_bound_method_holds_this(s: State, method: UserView, this: LiteralView, line: nat)
    requires
        s.env.well_formed(),
        method.closure < s.env.scopes.len(),
    ensures
        ({
            let bound = s.bind(method, this, line);
            &&& bound.result is Ok
            &&& bound.state.env.well_formed()
            &&& bound.state.env.current == s.env.current
            &&& bound.state.env.value_in(bound.result->Ok_0.closure, "this"@) == Some(this)
            &&& bound.state.env.scopes[bound.result->Ok_0.closure as int].parent == Some(
                method.closure,
            )
            &&& bound.result->Ok_0.declaration == method.declaration
        }),
{
}


/// The body of a function that is called reads its free variables from the
/// arena as it is at the call: a variable of depth `distance`, one or
/// more, is read from the scope `distance - 1` steps above the scope in
/// which the function was declared, with the value that this scope holds
/// now. So a closure sees every assignment made since it was declared.
pub proof fn law_call_reads_current_bindings(
    s: State,
    f: UserView,
    args: Seq<LiteralView>,
    distance: nat,
    name: TokenView,
)
    requires
        s.env.well_formed(),
        f.closure < s.env.scopes.len(),
        distance >= 1,
    ensures
        s.enter(f, args).env.well_formed(),
        s.enter(f, args).target(Some(distance)) == ancestor_from(
            s.env.scopes,
            f.closure,
            (distance - 1) as nat,
        ),
        s.enter(f, args).lookup(Some(distance), name).result == s.with_env(
            s.env.at(ancestor_from(s.env.scopes, f.closure, (distance - 1) as nat)),
        ).lookup(Some(0), name).result,
{
    law_closure_sees_current_bindings(
        s.env,
        parameter_map(f.declaration.params, args, bound_count(f.declaration.params, args)),
        f.closure,
        distance,
        name.lexeme,
    );
}

} // verus!
