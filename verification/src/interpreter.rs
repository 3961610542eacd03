//! The evaluator: walks the statements of a resolved program against the
//! environment arena and the tables of callables and instances. What it
//! does is what `semantics` says, for every way the host may answer.

use crate::ast::{
    AssignmentExpr, BinaryExpr, BlockKind, CallExpr, ClassStmt, Expr, FunStmt, FunView, GetExpr,
    IfStmt, LiteralExpr, LiteralView, LogicalExpr, ReturnStmt, SetExpr, Stmt, StmtView,
    SuperExpr, UnaryExpr, VarExpr, VarStmt, WhileStmt, depth_view, expr_views, fun_views,
    stmt_views, superclass_view,
};
use crate::callable::{
    Callable, CallableView, ClassDec, ClassInstance, ExecResult, Flow, InstanceView,
    NativeAction, NativeFn, UserFunction, UserView, callable_views, get_method,
    instance_views, share, user_views,
};
use crate::env::{Binding, EnvId, Environment, bindings_map, read_binding, write_binding};
use crate::errors::{LoxError, LoxErrorView, RuntimeErr};
use crate::host::{Arithmetic, Host, HostCall, Recorded, continues};
use crate::semantics::{
    BinaryPlan, Outcome, State, binary_value, bound_count, call_function, call_value, class_name,
    eval_args, eval_expr, exec_block, exec_list, exec_stmt, instantiate, ordering_plan,
    parameter_map, round_limit, run_program, unary_value, while_loop,
};
use crate::token::{Token, TokenKind, TokenType, token_views};
use crate::value::{is_equal, is_truthy, is_zero_bits, negate, number_is_less, number_is_less_equal};
use std::rc::Rc;
use vstd::prelude::*;
use vstd::string::StringExecFns;

verus! {

/// The nesting of calls that an evaluator allows unless it is made with
/// another limit.
pub const DEFAULT_DEPTH: u64 = 256;

pub open spec fn value_result(r: Result<LiteralExpr, LoxError>) -> Result<LiteralView, LoxErrorView> {
    match r {
        Ok(v) => Ok(v@),
        Err(e) => Err(e@),
    }
}

pub open spec fn flow_result(r: Result<ExecResult, LoxError>) -> Result<Flow, LoxErrorView> {
    match r {
        Ok(f) => Ok(f@),
        Err(e) => Err(e@),
    }
}

pub open spec fn unit_result(r: Result<(), LoxError>) -> Result<(), LoxErrorView> {
    match r {
        Ok(_) => Ok(()),
        Err(e) => Err(e@),
    }
}

pub open spec fn literal_views(values: Seq<LiteralExpr>) -> Seq<LiteralView> {
    values.map_values(|v: LiteralExpr| v@)
}

pub open spec fn values_result(r: Result<Vec<LiteralExpr>, LoxError>) -> Result<
    Seq<LiteralView>,
    LoxErrorView,
> {
    match r {
        Ok(values) => Ok(literal_views(values@)),
        Err(e) => Err(e@),
    }
}

pub open spec fn user_result(r: Result<UserFunction, LoxError>) -> Result<UserView, LoxErrorView> {
    match r {
        Ok(f) => Ok(f@),
        Err(e) => Err(e@),
    }
}

pub open spec fn handle_result(r: Result<Option<usize>, LoxError>) -> Result<Option<nat>, LoxErrorView> {
    match r {
        Ok(Some(h)) => Ok(Some(h as nat)),
        Ok(None) => Ok(None),
        Err(e) => Err(e@),
    }
}

/// However the host goes on from the calls made until `after`, `meaning`
/// ends in the state `after` with `result`. (The script is taken through a
/// log in between; that says the same and lets one evaluation follow from
/// the evaluations it is made of.)
pub open spec fn foretold<T>(
    after: State,
    result: Result<T, LoxErrorView>,
    meaning: spec_fn(Seq<HostCall>) -> Outcome<T>,
) -> bool {
    forall|later: Seq<HostCall>, script: Seq<HostCall>|
        #![trigger continues(later, script)]
        continues(after.calls, later) && continues(later, script) ==> meaning(script) == (Outcome {
            state: after,
            result,
        })
}

/// However the host goes on from the calls `calls`, `whole` and `rest`
/// mean the same.
pub open spec fn same_meaning<T>(
    calls: Seq<HostCall>,
    whole: spec_fn(Seq<HostCall>) -> Outcome<T>,
    rest: spec_fn(Seq<HostCall>) -> Outcome<T>,
) -> bool {
    forall|later: Seq<HostCall>, script: Seq<HostCall>|
        #![trigger continues(later, script)]
        continues(calls, later) && continues(later, script) ==> whole(script) == rest(script)
}

/// The evaluator. Its environment and its tables last as long as it does,
/// so the declarations of one run are there in the next.
pub struct Interpreter {
    pub env: Environment,
    pub callables: Vec<Callable>,
    pub instances: Vec<ClassInstance>,
    pub max_depth: u64,
}

/// What a handle names, taken out of the table for the length of a call.
enum Callee {
    User(UserFunction),
    Class,
    Native(NativeFn),
}

impl Interpreter {
    /// The state of the evaluator where the host has been called with
    /// `calls`.
    pub open spec fn state(&self, calls: Seq<HostCall>) -> State {
        State {
            env: self.env@,
            callables: callable_views(self.callables@),
            instances: instance_views(self.instances@),
            calls,
        }
    }

    pub open spec fn well_formed(&self) -> bool {
        self.env@.well_formed()
    }

    /// The evaluator has kept, since `before`, every scope under its id
    /// with its parent, every callable under its handle as it was, and
    /// every instance under its handle.
    pub open spec fn grown_from(&self, before: &Interpreter) -> bool {
        &&& self.well_formed()
        &&& before.env@.grows_to(self.env@)
        &&& before.callables.len() <= self.callables.len()
        &&& forall|i: int|
            0 <= i < before.callables.len() ==> #[trigger] callable_views(self.callables@)[i]
                == callable_views(before.callables@)[i]
        &&& before.instances.len() <= self.instances.len()
        &&& self.max_depth == before.max_depth
    }

    /// The evaluator has grown from `before` and stands in the same scope.
    pub open spec fn evolved_from(&self, before: &Interpreter) -> bool {
        self.grown_from(before) && self.env@.current == before.env@.current
    }

    /// An evaluator with the native function `clock` among its globals,
    /// which allows calls nested `max_depth` deep.
    pub fn with_depth(max_depth: u64) -> (it: Self)
        ensures
            it.is_fresh(max_depth),
    {
        let mut env = Environment::new();
        env.define("clock".to_owned(), LiteralExpr::Call(0));
        let mut callables: Vec<Callable> = Vec::new();
        callables.push(Callable::Native(NativeFn { arity: 0, action: NativeAction::Clock }));
        let it = Interpreter { env, callables, instances: Vec::new(), max_depth };
        assert(callable_views(it.callables@) =~= seq![
            CallableView::Native(NativeFn { arity: 0, action: NativeAction::Clock }),
        ]);
        assert(it.env@.scopes[0].bindings =~= Map::<Seq<char>, LiteralView>::empty().insert(
            "clock"@,
            LiteralView::Call(0),
        ));
        it
    }

    /// A fresh evaluator: the scope of the globals alone, which binds
    /// `clock` to the native function, and no instance.
    pub open spec fn is_fresh(&self, max_depth: u64) -> bool {
        &&& self.well_formed()
        &&& self.max_depth == max_depth
        &&& self.env@.current == 0
        &&& self.env@.scopes.len() == 1
        &&& self.env@.scopes[0].bindings == Map::<Seq<char>, LiteralView>::empty().insert(
            "clock"@,
            LiteralView::Call(0),
        )
        &&& callable_views(self.callables@) == seq![
            CallableView::Native(NativeFn { arity: 0, action: NativeAction::Clock }),
        ]
        &&& self.instances.len() == 0
    }

    /// An evaluator with the native function `clock` among its globals,
    /// which allows calls nested `DEFAULT_DEPTH` deep.
    pub fn new() -> (it: Self)
        ensures
            it.is_fresh(DEFAULT_DEPTH),
    {
        Self::with_depth(DEFAULT_DEPTH)
    }

    fn fail<T>(e: RuntimeErr) -> (r: Result<T, LoxError>)
        ensures
            r == Err::<T, LoxError>(LoxError::Runtime(e)),
    {
        Err(LoxError::Runtime(e))
    }

    /// What the unary operator `operator` makes of `value`.
    pub fn apply_unary(operator: &Token, value: &LiteralExpr) -> (r: Result<LiteralExpr, LoxError>)
        ensures
            value_result(r) == match unary_value(operator@.kind, value@, operator@.line) {
                Ok(v) => Ok::<LiteralView, LoxErrorView>(v),
                Err(e) => Err::<LiteralView, LoxErrorView>(LoxErrorView::Runtime(e)),
            },
    {
        match operator.kind() {
            TokenKind::Minus => match value {
                LiteralExpr::Number(b) => Ok(LiteralExpr::Number(negate(*b))),
                _ => Self::fail(RuntimeErr::OperandMustBeNumber(operator.line)),
            },
            TokenKind::Bang => Ok(LiteralExpr::Boolean(!is_truthy(value))),
            _ => Ok(LiteralExpr::Nil),
        }
    }

    /// The result of `-`, `*` or `/` on `l` and `r`, which the host
    /// computes from two numbers.
    fn arithmetic<H: Host>(
        &self,
        op: Arithmetic,
        operator: &Token,
        l: &LiteralExpr,
        r: &LiteralExpr,
        host: &mut Recorded<H>,
    ) -> (res: Result<LiteralExpr, LoxError>)
        requires
            match op {
                Arithmetic::Subtract => operator@.kind == TokenKind::Minus,
                Arithmetic::Multiply => operator@.kind == TokenKind::Star,
                Arithmetic::Divide => operator@.kind == TokenKind::Slash,
                Arithmetic::Add => false,
            },
        ensures
            continues(old(host).calls(), final(host).calls()),
            foretold(
                self.state(final(host).calls()),
                value_result(res),
                |script: Seq<HostCall>|
                    binary_value(self.state(old(host).calls()), operator@, l@, r@, script),
            ),
    {
        let line = operator.line;
        match (l, r) {
            (LiteralExpr::Number(a), LiteralExpr::Number(b)) => {
                if op == Arithmetic::Divide && is_zero_bits(*b) {
                    Self::fail(RuntimeErr::DivisionByZero(line))
                } else {
                    Ok(LiteralExpr::Number(host.arithmetic(op, *a, *b)))
                }
            },
            _ => Self::fail(RuntimeErr::OperandMustBeNumber(line)),
        }
    }

    /// The result of `<`, `<=`, `>` or `>=` on `l` and `r`.
    fn ordering(kind: TokenKind, l: &LiteralExpr, r: &LiteralExpr, line: usize) -> (res: Result<
        LiteralExpr,
        LoxError,
    >)
        ensures
            match ordering_plan(kind, l@, r@, line as nat) {
                BinaryPlan::Yield(v) => value_result(res) == Ok::<
                    LiteralView,
                    LoxErrorView,
                >(v),
                BinaryPlan::Fail(e) => value_result(res) == Err::<
                    LiteralView,
                    LoxErrorView,
                >(LoxErrorView::Runtime(e)),
                BinaryPlan::Ask(_, _, _) => false,
            },
    {
        match (l, r) {
            (LiteralExpr::Number(a), LiteralExpr::Number(b)) => {
                let holds = match kind {
                    TokenKind::Greater => number_is_less(*b, *a),
                    TokenKind::GreaterEqual => number_is_less_equal(*b, *a),
                    TokenKind::Less => number_is_less(*a, *b),
                    _ => number_is_less_equal(*a, *b),
                };
                Ok(LiteralExpr::Boolean(holds))
            },
            _ => Self::fail(RuntimeErr::OperandMustBeNumber(line)),
        }
    }

    /// What the binary operator `operator` makes of the operand values `l`
    /// and `r`: the value or the error of its plan, and, where the plan
    /// asks the host, the number that the host returns for it.
    pub fn apply_binary<H: Host>(
        &self,
        operator: &Token,
        l: &LiteralExpr,
        r: &LiteralExpr,
        host: &mut Recorded<H>,
    ) -> (res: Result<LiteralExpr, LoxError>)
        ensures
            continues(old(host).calls(), final(host).calls()),
            foretold(
                self.state(final(host).calls()),
                value_result(res),
                |script: Seq<HostCall>|
                    binary_value(self.state(old(host).calls()), operator@, l@, r@, script),
            ),
    {
        let line = operator.line;
        match operator.kind() {
            TokenKind::Plus => match (l, r) {
                (LiteralExpr::Number(a), LiteralExpr::Number(b)) => Ok(
                    LiteralExpr::Number(host.arithmetic(Arithmetic::Add, *a, *b)),
                ),
                (LiteralExpr::String(a), LiteralExpr::String(b)) => {
                    let mut joined = a.clone();
                    joined.append(b.as_str());
                    Ok(LiteralExpr::String(joined))
                },
                _ => Self::fail(RuntimeErr::InvalidOperandTypes(line)),
            },
            TokenKind::Minus => self.arithmetic(Arithmetic::Subtract, operator, l, r, host),
            TokenKind::Star => self.arithmetic(Arithmetic::Multiply, operator, l, r, host),
            TokenKind::Slash => self.arithmetic(Arithmetic::Divide, operator, l, r, host),
            TokenKind::Greater => Self::ordering(TokenKind::Greater, l, r, line),
            TokenKind::GreaterEqual => Self::ordering(TokenKind::GreaterEqual, l, r, line),
            TokenKind::Less => Self::ordering(TokenKind::Less, l, r, line),
            TokenKind::LessEqual => Self::ordering(TokenKind::LessEqual, l, r, line),
            TokenKind::EqualEqual => Ok(LiteralExpr::Boolean(is_equal(l, r))),
            TokenKind::BangEqual => Ok(LiteralExpr::Boolean(!is_equal(l, r))),
            _ => Ok(LiteralExpr::Nil),
        }
    }

    /// The bindings of a call: each parameter with its argument, in order;
    /// of two parameters of one name the later one counts.
    pub fn bind_parameters(params: &Vec<Token>, args: &Vec<LiteralExpr>) -> (bindings: Vec<Binding>)
        ensures
            bindings_map(bindings@) == parameter_map(
                token_views(params@),
                literal_views(args@),
                bound_count(token_views(params@), literal_views(args@)),
            ),
    {
        let mut bindings: Vec<Binding> = Vec::new();
        assert(bindings_map(bindings@) =~= Map::<Seq<char>, LiteralView>::empty());
        let mut i: usize = 0;
        while i < params.len() && i < args.len()
            invariant
                i <= params.len(),
                i <= args.len(),
                bindings_map(bindings@) == parameter_map(
                    token_views(params@),
                    literal_views(args@),
                    i as nat,
                ),
            decreases params.len() - i,
        {
            write_binding(&mut bindings, params[i].lexeme.clone(), args[i].clone());
            i += 1;
        }
        bindings
    }

    /// The name of the class with the handle `class`.
    fn class_name(&self, class: usize) -> (name: String)
        ensures
            name@ == class_name(callable_views(self.callables@), class as int),
    {
        if class < self.callables.len() {
            match &self.callables[class] {
                Callable::Class(c) => c.name.clone(),
                _ => "<class>".to_owned(),
            }
        } else {
            "<class>".to_owned()
        }
    }

    /// The text that `print` writes for `value`. The host writes out a
    /// number; every other text is the evaluator's.
    pub fn stringify<H: Host>(&self, value: &LiteralExpr, host: &mut Recorded<H>) -> (text: String)
        ensures
            continues(old(host).calls(), final(host).calls()),
            foretold(
                self.state(final(host).calls()),
                Ok(text@),
                |script: Seq<HostCall>| self.state(old(host).calls()).stringify(value@, script),
            ),
    {
        match value {
            LiteralExpr::Nil => "nil".to_owned(),
            LiteralExpr::Boolean(b) => if *b {
                "true".to_owned()
            } else {
                "false".to_owned()
            },
            LiteralExpr::Number(bits) => host.format_number(*bits),
            LiteralExpr::String(s) => s.clone(),
            LiteralExpr::Call(h) => if *h < self.callables.len() {
                match &self.callables[*h] {
                    Callable::User(f) => {
                        let mut text = "<fn ".to_owned();
                        text.append(f.declaration.name.lexeme.as_str());
                        text.append(">");
                        text
                    },
                    Callable::Class(c) => c.name.clone(),
                    Callable::Native(_) => "<native fn>".to_owned(),
                }
            } else {
                "<fn>".to_owned()
            },
            LiteralExpr::Instance(h) => if *h < self.instances.len() {
                let mut text = self.class_name(self.instances[*h].class);
                text.append(" instance");
                text
            } else {
                "<instance>".to_owned()
            },
        }
    }

    /// `print`: hands the text of `value` to the host, for the standard
    /// output.
    fn print<H: Host>(&self, value: &LiteralExpr, host: &mut Recorded<H>)
        ensures
            continues(old(host).calls(), final(host).calls()),
            foretold(
                self.state(final(host).calls()),
                Ok(Flow::Normal),
                |script: Seq<HostCall>| self.state(old(host).calls()).print(value@, script),
            ),
    {
        let text = self.stringify(value, host);
        host.write_stdout(text.as_str());
    }

    /// Adds `callable` to the table and returns its handle.
    fn add_callable(&mut self, callable: Callable) -> (handle: usize)
        requires
            old(self).well_formed(),
        ensures
            final(self).evolved_from(old(self)),
            final(self).env == old(self).env,
            final(self).instances == old(self).instances,
            handle == old(self).callables.len(),
            callable_views(final(self).callables@) == callable_views(old(self).callables@).push(
                callable@,
            ),
    {
        self.callables.push(callable);
        assert(callable_views(self.callables@) =~= callable_views(old(self).callables@).push(
            callable@,
        ));
        self.callables.len() - 1
    }

    /// The method `method` bound to `this`: a copy whose scope is a new
    /// scope that holds `this` alone and whose parent is the scope of
    /// `method`. The evaluator stays in its scope.
    fn bind(
        &mut self,
        method: &UserFunction,
        this: LiteralExpr,
        line: usize,
        Ghost(calls): Ghost<Seq<HostCall>>,
    ) -> (r: Result<UserFunction, LoxError>)
        requires
            old(self).well_formed(),
        ensures
            final(self).evolved_from(old(self)),
            old(self).state(calls).bind(method@, this@, line as nat) == (Outcome {
                state: final(self).state(calls),
                result: user_result(r),
            }),
    {
        if method.closure >= self.env.len() {
            return Self::fail(RuntimeErr::InvalidCalleeExpr(line));
        }
        let saved = self.env.current();
        let mut bindings: Vec<Binding> = Vec::new();
        proof {
            assert(bindings_map(bindings@) =~= Map::<Seq<char>, LiteralView>::empty());
        }
        write_binding(&mut bindings, "this".to_owned(), this);
        self.env.push_closure(bindings, method.closure);
        let scope = self.env.current();
        self.env.set_current(saved);
        Ok(
            UserFunction {
                declaration: share(&method.declaration),
                closure: scope,
                is_initializer: method.is_initializer,
            },
        )
    }

    /// The method named `name` of the class with the handle `class`, bound
    /// to `this` and entered in the table of callables.
    fn bound_method(
        &mut self,
        class: usize,
        name: &Token,
        this: LiteralExpr,
        Ghost(calls): Ghost<Seq<HostCall>>,
    ) -> (r: Result<LiteralExpr, LoxError>)
        requires
            old(self).well_formed(),
        ensures
            final(self).evolved_from(old(self)),
            old(self).state(calls).bound_method(class as nat, name@, this@) == (Outcome {
                state: final(self).state(calls),
                result: value_result(r),
            }),
    {
        match get_method(&self.callables, class, &name.lexeme) {
            Some(method) => {
                let bound = self.bind(&method, this, name.line, Ghost(calls))?;
                Ok(LiteralExpr::Call(self.add_callable(Callable::User(bound))))
            },
            None => Self::fail(RuntimeErr::UndefinedProperty(name.lexeme.clone(), name.line)),
        }
    }

    /// The value of the variable `name` of depth `depth`.
    fn lookup(&self, depth: Option<usize>, name: &Token, Ghost(calls): Ghost<Seq<HostCall>>) -> (r:
        Result<LiteralExpr, LoxError>)
        requires
            self.well_formed(),
        ensures
            self.state(calls).lookup(depth_view(depth), name@) == (Outcome {
                state: self.state(calls),
                result: value_result(r),
            }),
    {
        match depth {
            Some(d) => self.env.get_at(d, name),
            None => self.env.get_global(name),
        }
    }

    /// Assigns `value` to the variable `name` of depth `depth`.
    fn assign(
        &mut self,
        depth: Option<usize>,
        name: &Token,
        value: LiteralExpr,
        Ghost(calls): Ghost<Seq<HostCall>>,
    ) -> (r: Result<LiteralExpr, LoxError>)
        requires
            old(self).well_formed(),
        ensures
            final(self).evolved_from(old(self)),
            old(self).state(calls).assign(depth_view(depth), name@, value@) == (Outcome {
                state: final(self).state(calls),
                result: value_result(r),
            }),
    {
        match depth {
            Some(d) => {
                self.env.assign_at(d, name, value.clone());
            },
            None => {
                self.env.assign_global(name, value.clone())?;
            },
        }
        Ok(value)
    }

    /// A property of `object`: the field, or else the method of the class
    /// bound to the instance.
    fn property(&mut self, object: LiteralExpr, name: &Token, Ghost(calls): Ghost<Seq<HostCall>>) -> (r:
        Result<LiteralExpr, LoxError>)
        requires
            old(self).well_formed(),
        ensures
            final(self).evolved_from(old(self)),
            old(self).state(calls).property(object@, name@) == (Outcome {
                state: final(self).state(calls),
                result: value_result(r),
            }),
    {
        let line = name.line;
        let handle = match object {
            LiteralExpr::Instance(h) => h,
            _ => {
                return Self::fail(RuntimeErr::OnlyInstancesHaveProperties(line));
            },
        };
        if handle >= self.instances.len() {
            return Self::fail(RuntimeErr::OnlyInstancesHaveProperties(line));
        }
        match read_binding(&self.instances[handle].fields, &name.lexeme) {
            Some(value) => Ok(value),
            None => {
                let class = self.instances[handle].class;
                self.bound_method(class, name, LiteralExpr::Instance(handle), Ghost(calls))
            },
        }
    }

    /// Sets the field `name` of the instance with the handle `handle`.
    fn set_field(
        &mut self,
        handle: usize,
        name: &Token,
        value: LiteralExpr,
        Ghost(calls): Ghost<Seq<HostCall>>,
    ) -> (r: Result<LiteralExpr, LoxError>)
        requires
            old(self).well_formed(),
        ensures
            final(self).evolved_from(old(self)),
            old(self).state(calls).set_field(handle as nat, name@, value@) == (Outcome {
                state: final(self).state(calls),
                result: value_result(r),
            }),
    {
        if handle >= self.instances.len() {
            return Self::fail(RuntimeErr::OnlyInstancesHaveProperties(name.line));
        }
        write_binding(&mut self.instances[handle].fields, name.lexeme.clone(), value.clone());
        proof {
            let before = old(self).state(calls);
            assert(instance_views(self.instances@) =~= before.set_field(
                handle as nat,
                name@,
                value@,
            ).state.instances);
        }
        Ok(value)
    }

    /// `super.method`: the method of the superclass, which stands in the
    /// scope `depth` steps up, bound to the `this` of the scope below it.
    fn super_method(&mut self, sup: &SuperExpr, Ghost(calls): Ghost<Seq<HostCall>>) -> (r: Result<
        LiteralExpr,
        LoxError,
    >)
        requires
            old(self).well_formed(),
        ensures
            final(self).evolved_from(old(self)),
            old(self).state(calls).super_method(sup.keyword@, sup.method@, depth_view(sup.depth))
                == (Outcome { state: final(self).state(calls), result: value_result(r) }),
    {
        let depth = match sup.depth {
            Some(d) => d,
            None => {
                return Self::fail(
                    RuntimeErr::UndefinedVariable(sup.keyword.lexeme.clone(), sup.keyword.line),
                );
            },
        };
        if depth == 0 {
            return Self::fail(
                RuntimeErr::UndefinedVariable(sup.keyword.lexeme.clone(), sup.keyword.line),
            );
        }
        let superclass = self.env.get_at(depth, &sup.keyword)?;
        let this_token = Token::new(TokenType::This, "this".to_owned(), sup.keyword.line);
        let this = self.env.get_at(depth - 1, &this_token)?;
        let class = match superclass {
            LiteralExpr::Call(h) => h,
            _ => {
                return Self::fail(RuntimeErr::SuperclassMustBeClass(sup.keyword.line));
            },
        };
        self.bound_method(class, &sup.method, this, Ghost(calls))
    }

    /// A function declaration: the function with the current scope as its
    /// closure, bound to its name in the current scope.
    fn fun_statement(&mut self, function: &Rc<FunStmt>, Ghost(calls): Ghost<Seq<HostCall>>)
        requires
            old(self).well_formed(),
        ensures
            final(self).evolved_from(old(self)),
            final(self).state(calls) == old(self).state(calls).declare_function(function@),
    {
        let callable = Callable::User(
            UserFunction {
                declaration: share(function),
                closure: self.env.current(),
                is_initializer: false,
            },
        );
        let handle = self.add_callable(callable);
        self.env.define(function.name.lexeme.clone(), LiteralExpr::Call(handle));
    }

    /// The handle of the superclass of a class declaration: the value of
    /// the variable, which must be a class.
    fn superclass(&self, superclass: &Option<VarExpr>, Ghost(calls): Ghost<Seq<HostCall>>) -> (r:
        Result<Option<usize>, LoxError>)
        requires
            self.well_formed(),
        ensures
            self.state(calls).superclass(superclass_view(*superclass)) == (Outcome {
                state: self.state(calls),
                result: handle_result(r),
            }),
    {
        match superclass {
            Some(var) => {
                let value = self.lookup(var.depth, &var.name, Ghost(calls))?;
                let handle = match value {
                    LiteralExpr::Call(h) => h,
                    _ => {
                        return Self::fail(RuntimeErr::SuperclassMustBeClass(var.name.line));
                    },
                };
                if handle >= self.callables.len() {
                    return Self::fail(RuntimeErr::SuperclassMustBeClass(var.name.line));
                }
                match &self.callables[handle] {
                    Callable::Class(_) => Ok(Some(handle)),
                    _ => Self::fail(RuntimeErr::SuperclassMustBeClass(var.name.line)),
                }
            },
            None => Ok(None),
        }
    }

    /// The methods of a class declaration, each with `closure` as its
    /// closure.
    fn class_methods(class: &ClassStmt, closure: EnvId) -> (methods: Vec<UserFunction>)
        ensures
            user_views(methods@) == fun_views(&class.methods).map_values(
                |m: FunView|
                    UserView {
                        declaration: m,
                        closure: closure as nat,
                        is_initializer: m.is_init,
                    },
            ),
    {
        let mut methods: Vec<UserFunction> = Vec::new();
        let mut i: usize = 0;
        while i < class.methods.len()
            invariant
                i <= class.methods.len(),
                methods.len() == i,
                forall|j: int|
                    0 <= j < i ==> (#[trigger] methods[j])@ == (UserView {
                        declaration: class.methods[j]@,
                        closure: closure as nat,
                        is_initializer: class.methods[j].is_init,
                    }),
            decreases class.methods.len() - i,
        {
            methods.push(
                UserFunction {
                    declaration: share(&class.methods[i]),
                    closure,
                    is_initializer: class.methods[i].is_init,
                },
            );
            i += 1;
        }
        assert(user_views(methods@) =~= fun_views(&class.methods).map_values(
            |m: FunView|
                UserView { declaration: m, closure: closure as nat, is_initializer: m.is_init },
        ));
        methods
    }

    /// A class declaration: the class with its methods, bound to its name
    /// in the current scope. With a superclass the methods close over a new
    /// scope that holds `super`.
    fn declare_class(
        &mut self,
        class: &ClassStmt,
        superclass: Option<usize>,
        Ghost(calls): Ghost<Seq<HostCall>>,
    )
        requires
            old(self).well_formed(),
        ensures
            final(self).evolved_from(old(self)),
            final(self).state(calls) == old(self).state(calls).declare_class(
                class.name@,
                match superclass {
                    Some(h) => Some(h as nat),
                    None => None,
                },
                fun_views(&class.methods),
            ),
    {
        self.env.define(class.name.lexeme.clone(), LiteralExpr::Nil);
        let outside = self.env.current();
        match superclass {
            Some(handle) => {
                self.env.push_block();
                self.env.define("super".to_owned(), LiteralExpr::Call(handle));
            },
            None => {},
        }
        let methods = Self::class_methods(class, self.env.current());
        self.env.set_current(outside);
        let handle = self.add_callable(
            Callable::Class(ClassDec { name: class.name.lexeme.clone(), superclass, methods }),
        );
        self.env.define(class.name.lexeme.clone(), LiteralExpr::Call(handle));
    }

    /// Evaluates `expr` with calls nested at most `depth` deep.
    pub fn evaluate_at<H: Host>(&mut self, expr: &Expr, host: &mut Recorded<H>, depth: u64) -> (r:
        Result<LiteralExpr, LoxError>)
        requires
            old(self).well_formed(),
        ensures
            final(self).evolved_from(old(self)),
            continues(old(host).calls(), final(host).calls()),
            foretold(
                final(self).state(final(host).calls()),
                value_result(r),
                |script: Seq<HostCall>|
                    eval_expr(old(self).state(old(host).calls()), expr@, depth as nat, script),
            ),
        decreases depth, 0nat, expr, 0nat,
    {
        reveal(eval_expr);
        match expr {
            Expr::Literal(literal) => Ok(literal.clone()),
            Expr::Grouping(group) => self.evaluate_at(&group.expression, host, depth),
            Expr::Unary(unary) => self.unary_expr(unary, host, depth),
            Expr::Binary(binary) => self.binary_expr(binary, host, depth),
            Expr::Logical(logical) => self.logical_expr(logical, host, depth),
            Expr::Var(var) => self.lookup(var.depth, &var.name, Ghost(host.calls())),
            Expr::Assign(assign) => self.assign_expr(assign, host, depth),
            Expr::Call(call) => self.call_expr(call, host, depth),
            Expr::Get(get) => self.get_expr(get, host, depth),
            Expr::SetField(set) => self.set_expr(set, host, depth),
            Expr::This(this) => self.lookup(this.depth, &this.keyword, Ghost(host.calls())),
            Expr::Super(sup) => self.super_method(sup, Ghost(host.calls())),
        }
    }

    fn unary_expr<H: Host>(&mut self, unary: &UnaryExpr, host: &mut Recorded<H>, depth: u64) -> (r:
        Result<LiteralExpr, LoxError>)
        requires
            old(self).well_formed(),
        ensures
            final(self).evolved_from(old(self)),
            continues(old(host).calls(), final(host).calls()),
            foretold(
                final(self).state(final(host).calls()),
                value_result(r),
                |script: Seq<HostCall>|
                    eval_expr(
                        old(self).state(old(host).calls()),
                        (Expr::Unary(*unary))@,
                        depth as nat,
                        script,
                    ),
            ),
        decreases depth, 0nat, unary, 0nat,
    {
        reveal(eval_expr);
        let right = self.evaluate_at(&unary.right, host, depth)?;
        Self::apply_unary(&unary.operator, &right)
    }

    fn binary_expr<H: Host>(&mut self, binary: &BinaryExpr, host: &mut Recorded<H>, depth: u64) -> (r:
        Result<LiteralExpr, LoxError>)
        requires
            old(self).well_formed(),
        ensures
            final(self).evolved_from(old(self)),
            continues(old(host).calls(), final(host).calls()),
            foretold(
                final(self).state(final(host).calls()),
                value_result(r),
                |script: Seq<HostCall>|
                    eval_expr(
                        old(self).state(old(host).calls()),
                        (Expr::Binary(*binary))@,
                        depth as nat,
                        script,
                    ),
            ),
        decreases depth, 0nat, binary, 0nat,
    {
        reveal(eval_expr);
        let left = self.evaluate_at(&binary.left, host, depth)?;
        let right = self.evaluate_at(&binary.right, host, depth)?;
        self.apply_binary(&binary.operator, &left, &right, host)
    }

    /// `and` and `or`: the left operand where it decides, else the right
    /// one; the value itself, not a boolean made of it.
    fn logical_expr<H: Host>(&mut self, logical: &LogicalExpr, host: &mut Recorded<H>, depth: u64) -> (r:
        Result<LiteralExpr, LoxError>)
        requires
            old(self).well_formed(),
        ensures
            final(self).evolved_from(old(self)),
            continues(old(host).calls(), final(host).calls()),
            foretold(
                final(self).state(final(host).calls()),
                value_result(r),
                |script: Seq<HostCall>|
                    eval_expr(
                        old(self).state(old(host).calls()),
                        (Expr::Logical(*logical))@,
                        depth as nat,
                        script,
                    ),
            ),
        decreases depth, 0nat, logical, 0nat,
    {
        reveal(eval_expr);
        let left = self.evaluate_at(&logical.left, host, depth)?;
        let is_or = logical.operator.kind() == TokenKind::Or;
        if is_truthy(&left) == is_or {
            Ok(left)
        } else {
            self.evaluate_at(&logical.right, host, depth)
        }
    }

    fn assign_expr<H: Host>(&mut self, assign: &AssignmentExpr, host: &mut Recorded<H>, depth: u64) -> (r:
        Result<LiteralExpr, LoxError>)
        requires
            old(self).well_formed(),
        ensures
            final(self).evolved_from(old(self)),
            continues(old(host).calls(), final(host).calls()),
            foretold(
                final(self).state(final(host).calls()),
                value_result(r),
                |script: Seq<HostCall>|
                    eval_expr(
                        old(self).state(old(host).calls()),
                        (Expr::Assign(*assign))@,
                        depth as nat,
                        script,
                    ),
            ),
        decreases depth, 0nat, assign, 0nat,
    {
        reveal(eval_expr);
        let value = self.evaluate_at(&assign.value, host, depth)?;
        self.assign(assign.depth, &assign.name, value, Ghost(host.calls()))
    }

    /// The arguments of a call, evaluated from left to right.
    #[verifier::loop_isolation(false)]
    fn arguments<H: Host>(&mut self, args: &Vec<Expr>, host: &mut Recorded<H>, depth: u64) -> (r:
        Result<Vec<LiteralExpr>, LoxError>)
        requires
            old(self).well_formed(),
        ensures
            final(self).evolved_from(old(self)),
            continues(old(host).calls(), final(host).calls()),
            foretold(
                final(self).state(final(host).calls()),
                values_result(r),
                |script: Seq<HostCall>|
                    eval_args(
                        old(self).state(old(host).calls()),
                        expr_views(args),
                        0,
                        Seq::empty(),
                        depth as nat,
                        script,
                    ),
            ),
        decreases depth, 0nat, args, 0nat,
    {
        reveal(eval_args);
        reveal(eval_expr);
        let mut values: Vec<LiteralExpr> = Vec::new();
        assert(literal_views(values@) =~= Seq::<LiteralView>::empty());
        let mut i: usize = 0;
        while i < args.len()
            invariant
                i <= args.len(),
                self.evolved_from(old(self)),
                continues(old(host).calls(), host.calls()),
                same_meaning(
                    host.calls(),
                    |script: Seq<HostCall>|
                        eval_args(
                            old(self).state(old(host).calls()),
                            expr_views(args),
                            0,
                            Seq::empty(),
                            depth as nat,
                            script,
                        ),
                    |script: Seq<HostCall>|
                        eval_args(
                            self.state(host.calls()),
                            expr_views(args),
                            i as nat,
                            literal_views(values@),
                            depth as nat,
                            script,
                        ),
                ),
            decreases args.len() - i,
        {
            reveal(eval_args);
            reveal(eval_expr);
            let value = self.evaluate_at(&args[i], host, depth)?;
            let ghost pushed = literal_views(values@).push(value@);
            values.push(value);
            assert(literal_views(values@) =~= pushed);
            i += 1;
        }
        Ok(values)
    }

    /// A call: the callee, then the arguments from left to right; the
    /// callee must be callable and take as many arguments as are given.
    fn call_expr<H: Host>(&mut self, call: &CallExpr, host: &mut Recorded<H>, depth: u64) -> (r:
        Result<LiteralExpr, LoxError>)
        requires
            old(self).well_formed(),
        ensures
            final(self).evolved_from(old(self)),
            continues(old(host).calls(), final(host).calls()),
            foretold(
                final(self).state(final(host).calls()),
                value_result(r),
                |script: Seq<HostCall>|
                    eval_expr(
                        old(self).state(old(host).calls()),
                        (Expr::Call(*call))@,
                        depth as nat,
                        script,
                    ),
            ),
        decreases depth, 0nat, call, 0nat,
    {
        reveal(eval_expr);
        reveal(eval_args);
        reveal(call_value);
        let callee = self.evaluate_at(&call.callee, host, depth)?;
        let arguments = self.arguments(&call.args, host, depth)?;
        let line = call.paren.line;
        let handle = match callee {
            LiteralExpr::Call(h) => h,
            _ => {
                return Self::fail(RuntimeErr::InvalidCalleeExpr(line));
            },
        };
        if handle >= self.callables.len() {
            return Self::fail(RuntimeErr::InvalidCalleeExpr(line));
        }
        let arity = Callable::arity(&self.callables, handle);
        if arguments.len() != arity {
            return Self::fail(RuntimeErr::ArgumentCountMismatch(arity, arguments.len(), line));
        }
        if depth == 0 {
            return Self::fail(RuntimeErr::DepthLimitExceeded(line));
        }
        self.call(handle, arguments, line, host, depth - 1)
    }

    /// Calls the callable with the handle `handle`.
    pub fn call<H: Host>(
        &mut self,
        handle: usize,
        arguments: Vec<LiteralExpr>,
        line: usize,
        host: &mut Recorded<H>,
        depth: u64,
    ) -> (r: Result<LiteralExpr, LoxError>)
        requires
            old(self).well_formed(),
        ensures
            final(self).evolved_from(old(self)),
            continues(old(host).calls(), final(host).calls()),
            foretold(
                final(self).state(final(host).calls()),
                value_result(r),
                |script: Seq<HostCall>|
                    call_value(
                        old(self).state(old(host).calls()),
                        handle as nat,
                        literal_views(arguments@),
                        line as nat,
                        depth as nat,
                        script,
                    ),
            ),
        decreases depth, 5nat, BlockKind::Closure, 0nat,
    {
        reveal(call_value);
        reveal(call_function);
        reveal(instantiate);
        if handle >= self.callables.len() {
            return Self::fail(RuntimeErr::InvalidCalleeExpr(line));
        }
        let callee = match &self.callables[handle] {
            Callable::User(f) => Callee::User(f.clone()),
            Callable::Class(_) => Callee::Class,
            Callable::Native(n) => Callee::Native(*n),
        };
        match callee {
            Callee::User(f) => self.call_function(&f, arguments, line, host, depth),
            Callee::Class => self.instantiate(handle, arguments, line, host, depth),
            Callee::Native(_) => Ok(LiteralExpr::Number(host.current_unix_seconds())),
        }
    }

    /// Makes an instance of the class with the handle `class`, and calls
    /// its initializer, if it has one, on the instance with `arguments`.
    /// The result is the instance whatever the initializer returns.
    fn instantiate<H: Host>(
        &mut self,
        class: usize,
        arguments: Vec<LiteralExpr>,
        line: usize,
        host: &mut Recorded<H>,
        depth: u64,
    ) -> (r: Result<LiteralExpr, LoxError>)
        requires
            old(self).well_formed(),
        ensures
            final(self).evolved_from(old(self)),
            continues(old(host).calls(), final(host).calls()),
            r is Ok ==> r->Ok_0@ == LiteralView::Instance(old(self).instances.len() as nat),
            foretold(
                final(self).state(final(host).calls()),
                value_result(r),
                |script: Seq<HostCall>|
                    instantiate(
                        old(self).state(old(host).calls()),
                        class as nat,
                        literal_views(arguments@),
                        line as nat,
                        depth as nat,
                        script,
                    ),
            ),
        decreases depth, 4nat, BlockKind::Closure, 0nat,
    {
        reveal(instantiate);
        reveal(call_function);
        let id = self.instances.len();
        let fields: Vec<Binding> = Vec::new();
        proof {
            assert(bindings_map(fields@) =~= Map::<Seq<char>, LiteralView>::empty());
        }
        self.instances.push(ClassInstance { id, class, fields });
        proof {
            assert(instance_views(self.instances@) =~= instance_views(old(self).instances@).push(
                InstanceView { id: id as nat, class: class as nat, fields: Map::empty() },
            ));
        }
        let init = "init".to_owned();
        match get_method(&self.callables, class, &init) {
            Some(initializer) => {
                let bound = self.bind(
                    &initializer,
                    LiteralExpr::Instance(id),
                    line,
                    Ghost(host.calls()),
                )?;
                let _ = self.call_function(&bound, arguments, line, host, depth)?;
            },
            None => {},
        }
        Ok(LiteralExpr::Instance(id))
    }

    /// Calls `function` with `arguments`: a new scope under the scope of
    /// the function holds the parameters, the body runs in it, and the
    /// evaluator comes back to the scope of the call. The result is the
    /// value of the `return` that ended the body, or `nil`; an initializer
    /// yields the `this` of its scope whatever it returns.
    pub fn call_function<H: Host>(
        &mut self,
        function: &UserFunction,
        arguments: Vec<LiteralExpr>,
        line: usize,
        host: &mut Recorded<H>,
        depth: u64,
    ) -> (r: Result<LiteralExpr, LoxError>)
        requires
            old(self).well_formed(),
        ensures
            final(self).evolved_from(old(self)),
            continues(old(host).calls(), final(host).calls()),
            function.is_initializer && r is Ok ==> final(self).env@.value_in(
                function.closure as nat,
                "this"@,
            ) == Some(r->Ok_0@),
            foretold(
                final(self).state(final(host).calls()),
                value_result(r),
                |script: Seq<HostCall>|
                    call_function(
                        old(self).state(old(host).calls()),
                        function@,
                        literal_views(arguments@),
                        line as nat,
                        depth as nat,
                        script,
                    ),
            ),
        decreases depth, 3nat, BlockKind::Closure, 0nat,
    {
        reveal(call_function);
        reveal(exec_list);
        if function.closure >= self.env.len() {
            return Self::fail(RuntimeErr::InvalidCalleeExpr(line));
        }
        let bindings = Self::bind_parameters(&function.declaration.params, &arguments);
        let previous = self.env.current();
        self.env.push_closure(bindings, function.closure);
        let result = self.execute_list(&function.declaration.body, host, depth);
        self.env.set_current(previous);
        let flow = result?;
        if function.is_initializer {
            let this = "this".to_owned();
            match self.env.get_in(function.closure, &this) {
                Some(instance) => Ok(instance),
                None => Self::fail(RuntimeErr::UndefinedVariable(this, line)),
            }
        } else {
            match flow {
                ExecResult::Return(v) => Ok(v),
                ExecResult::Normal => Ok(LiteralExpr::Nil),
            }
        }
    }

    /// A property of an instance: the field, or else the method of the
    /// class bound to the instance.
    fn get_expr<H: Host>(&mut self, get: &GetExpr, host: &mut Recorded<H>, depth: u64) -> (r: Result<
        LiteralExpr,
        LoxError,
    >)
        requires
            old(self).well_formed(),
        ensures
            final(self).evolved_from(old(self)),
            continues(old(host).calls(), final(host).calls()),
            foretold(
                final(self).state(final(host).calls()),
                value_result(r),
                |script: Seq<HostCall>|
                    eval_expr(
                        old(self).state(old(host).calls()),
                        (Expr::Get(*get))@,
                        depth as nat,
                        script,
                    ),
            ),
        decreases depth, 0nat, get, 0nat,
    {
        reveal(eval_expr);
        let object = self.evaluate_at(&get.object, host, depth)?;
        self.property(object, &get.name, Ghost(host.calls()))
    }

    /// Sets a field of an instance, over any field of that name.
    fn set_expr<H: Host>(&mut self, set: &SetExpr, host: &mut Recorded<H>, depth: u64) -> (r: Result<
        LiteralExpr,
        LoxError,
    >)
        requires
            old(self).well_formed(),
        ensures
            final(self).evolved_from(old(self)),
            continues(old(host).calls(), final(host).calls()),
            foretold(
                final(self).state(final(host).calls()),
                value_result(r),
                |script: Seq<HostCall>|
                    eval_expr(
                        old(self).state(old(host).calls()),
                        (Expr::SetField(*set))@,
                        depth as nat,
                        script,
                    ),
            ),
        decreases depth, 0nat, set, 0nat,
    {
        reveal(eval_expr);
        let object = self.evaluate_at(&set.object, host, depth)?;
        let handle = match object {
            LiteralExpr::Instance(h) => h,
            _ => {
                return Self::fail(RuntimeErr::OnlyInstancesHaveProperties(set.name.line));
            },
        };
        let value = self.evaluate_at(&set.value, host, depth)?;
        self.set_field(handle, &set.name, value, Ghost(host.calls()))
    }

    /// Executes the statements of a list in order, up to the first that
    /// ends with a `return` or an error.
    #[verifier::loop_isolation(false)]
    fn execute_list<H: Host>(&mut self, stmts: &Vec<Stmt>, host: &mut Recorded<H>, depth: u64) -> (r:
        Result<ExecResult, LoxError>)
        requires
            old(self).well_formed(),
        ensures
            final(self).evolved_from(old(self)),
            continues(old(host).calls(), final(host).calls()),
            foretold(
                final(self).state(final(host).calls()),
                flow_result(r),
                |script: Seq<HostCall>|
                    exec_list(
                        old(self).state(old(host).calls()),
                        stmt_views(stmts),
                        0,
                        depth as nat,
                        script,
                    ),
            ),
        decreases depth, 2nat, stmts, 0nat,
    {
        reveal(exec_list);
        reveal(exec_stmt);
        let mut i: usize = 0;
        while i < stmts.len()
            invariant
                i <= stmts.len(),
                self.evolved_from(old(self)),
                continues(old(host).calls(), host.calls()),
                same_meaning(
                    host.calls(),
                    |script: Seq<HostCall>|
                        exec_list(
                            old(self).state(old(host).calls()),
                            stmt_views(stmts),
                            0,
                            depth as nat,
                            script,
                        ),
                    |script: Seq<HostCall>|
                        exec_list(
                            self.state(host.calls()),
                            stmt_views(stmts),
                            i as nat,
                            depth as nat,
                            script,
                        ),
                ),
            decreases stmts.len() - i,
        {
            reveal(exec_list);
            reveal(exec_stmt);
            match self.execute_at(&stmts[i], host, depth)? {
                ExecResult::Normal => {},
                returned => {
                    return Ok(returned);
                },
            }
            i += 1;
        }
        Ok(ExecResult::Normal)
    }

    /// Executes the statements of a block in order, up to the first that
    /// ends with a `return` or an error. A block of kind `Default` runs in
    /// a new scope under the current one, and the evaluator leaves it again
    /// however the block ends; a block of kind `Closure` runs in the
    /// current scope.
    pub fn execute_block<H: Host>(
        &mut self,
        stmts: &Vec<Stmt>,
        kind: BlockKind,
        host: &mut Recorded<H>,
        depth: u64,
    ) -> (r: Result<ExecResult, LoxError>)
        requires
            old(self).well_formed(),
        ensures
            final(self).evolved_from(old(self)),
            continues(old(host).calls(), final(host).calls()),
            kind == BlockKind::Default ==> foretold(
                final(self).state(final(host).calls()),
                flow_result(r),
                |script: Seq<HostCall>|
                    exec_block(
                        old(self).state(old(host).calls()),
                        stmt_views(stmts),
                        depth as nat,
                        script,
                    ),
            ),
            kind == BlockKind::Closure ==> foretold(
                final(self).state(final(host).calls()),
                flow_result(r),
                |script: Seq<HostCall>|
                    exec_list(
                        old(self).state(old(host).calls()),
                        stmt_views(stmts),
                        0,
                        depth as nat,
                        script,
                    ),
            ),
        decreases depth, 2nat, stmts, 1nat,
    {
        reveal(exec_block);
        reveal(exec_list);
        match kind {
            BlockKind::Default => {
                self.env.push_block();
                let result = self.execute_list(stmts, host, depth);
                self.env.pop();
                result
            },
            BlockKind::Closure => self.execute_list(stmts, host, depth),
        }
    }

    /// Executes `stmt` with calls nested at most `depth` deep.
    pub fn execute_at<H: Host>(&mut self, stmt: &Stmt, host: &mut Recorded<H>, depth: u64) -> (r:
        Result<ExecResult, LoxError>)
        requires
            old(self).well_formed(),
        ensures
            final(self).evolved_from(old(self)),
            continues(old(host).calls(), final(host).calls()),
            foretold(
                final(self).state(final(host).calls()),
                flow_result(r),
                |script: Seq<HostCall>|
                    exec_stmt(old(self).state(old(host).calls()), stmt@, depth as nat, script),
            ),
        decreases depth, 2nat, stmt, 0nat,
    {
        reveal(exec_stmt);
        reveal(exec_block);
        match stmt {
            Stmt::Expression(expr) => self.expr_statement(expr, host, depth),
            Stmt::Print(expr) => self.print_statement(expr, host, depth),
            Stmt::Var(var) => self.var_statement(var, host, depth),
            Stmt::Block(stmts) => self.execute_block(stmts, BlockKind::Default, host, depth),
            Stmt::If(branch) => self.if_statement(branch, host, depth),
            Stmt::While(looping) => self.while_statement(looping, host, depth),
            Stmt::Function(function) => {
                self.fun_statement(function, Ghost(host.calls()));
                Ok(ExecResult::Normal)
            },
            Stmt::Return(ret) => self.return_statement(ret, host, depth),
            Stmt::Class(class) => self.class_statement(class, Ghost(host.calls())),
        }
    }

    fn expr_statement<H: Host>(&mut self, expr: &Expr, host: &mut Recorded<H>, depth: u64) -> (r:
        Result<ExecResult, LoxError>)
        requires
            old(self).well_formed(),
        ensures
            final(self).evolved_from(old(self)),
            continues(old(host).calls(), final(host).calls()),
            foretold(
                final(self).state(final(host).calls()),
                flow_result(r),
                |script: Seq<HostCall>|
                    exec_stmt(
                        old(self).state(old(host).calls()),
                        StmtView::Expression(expr@),
                        depth as nat,
                        script,
                    ),
            ),
        decreases depth, 1nat, expr, 0nat,
    {
        reveal(exec_stmt);
        reveal(eval_expr);
        let _ = self.evaluate_at(expr, host, depth)?;
        Ok(ExecResult::Normal)
    }

    /// `print`: hands the text of the value to the host, for the standard
    /// output.
    fn print_statement<H: Host>(&mut self, expr: &Expr, host: &mut Recorded<H>, depth: u64) -> (r:
        Result<ExecResult, LoxError>)
        requires
            old(self).well_formed(),
        ensures
            final(self).evolved_from(old(self)),
            continues(old(host).calls(), final(host).calls()),
            foretold(
                final(self).state(final(host).calls()),
                flow_result(r),
                |script: Seq<HostCall>|
                    exec_stmt(
                        old(self).state(old(host).calls()),
                        StmtView::Print(expr@),
                        depth as nat,
                        script,
                    ),
            ),
        decreases depth, 1nat, expr, 0nat,
    {
        reveal(exec_stmt);
        reveal(eval_expr);
        let value = self.evaluate_at(expr, host, depth)?;
        self.print(&value, host);
        Ok(ExecResult::Normal)
    }

    fn var_statement<H: Host>(&mut self, var: &VarStmt, host: &mut Recorded<H>, depth: u64) -> (r:
        Result<ExecResult, LoxError>)
        requires
            old(self).well_formed(),
        ensures
            final(self).evolved_from(old(self)),
            continues(old(host).calls(), final(host).calls()),
            foretold(
                final(self).state(final(host).calls()),
                flow_result(r),
                |script: Seq<HostCall>|
                    exec_stmt(
                        old(self).state(old(host).calls()),
                        (Stmt::Var(*var))@,
                        depth as nat,
                        script,
                    ),
            ),
        decreases depth, 1nat, var, 0nat,
    {
        reveal(exec_stmt);
        reveal(eval_expr);
        let value = self.evaluate_at(&var.val, host, depth)?;
        self.env.define(var.name.lexeme.clone(), value);
        Ok(ExecResult::Normal)
    }

    fn if_statement<H: Host>(&mut self, branch: &IfStmt, host: &mut Recorded<H>, depth: u64) -> (r:
        Result<ExecResult, LoxError>)
        requires
            old(self).well_formed(),
        ensures
            final(self).evolved_from(old(self)),
            continues(old(host).calls(), final(host).calls()),
            foretold(
                final(self).state(final(host).calls()),
                flow_result(r),
                |script: Seq<HostCall>|
                    exec_stmt(
                        old(self).state(old(host).calls()),
                        (Stmt::If(*branch))@,
                        depth as nat,
                        script,
                    ),
            ),
        decreases depth, 2nat, branch, 0nat,
    {
        reveal(exec_stmt);
        reveal(eval_expr);
        let condition = self.evaluate_at(&branch.condition, host, depth)?;
        if is_truthy(&condition) {
            self.execute_at(&branch.then_b, host, depth)
        } else {
            self.execute_at(&branch.else_b, host, depth)
        }
    }

    /// `while`: the body as long as the condition is truthy; a `return` in
    /// the body ends the loop.
    #[verifier::loop_isolation(false)]
    fn while_statement<H: Host>(&mut self, looping: &WhileStmt, host: &mut Recorded<H>, depth: u64) -> (r:
        Result<ExecResult, LoxError>)
        requires
            old(self).well_formed(),
        ensures
            final(self).evolved_from(old(self)),
            continues(old(host).calls(), final(host).calls()),
            foretold(
                final(self).state(final(host).calls()),
                flow_result(r),
                |script: Seq<HostCall>|
                    exec_stmt(
                        old(self).state(old(host).calls()),
                        (Stmt::While(*looping))@,
                        depth as nat,
                        script,
                    ),
            ),
        decreases depth, 2nat, looping, 0nat,
    {
        reveal(exec_stmt);
        reveal(while_loop);
        reveal(eval_expr);
        let mut rounds: u64 = u64::MAX;
        while rounds > 0
            invariant
                self.evolved_from(old(self)),
                continues(old(host).calls(), host.calls()),
                same_meaning(
                    host.calls(),
                    |script: Seq<HostCall>|
                        while_loop(
                            old(self).state(old(host).calls()),
                            looping.condition@,
                            looping.body@,
                            round_limit(),
                            depth as nat,
                            script,
                        ),
                    |script: Seq<HostCall>|
                        while_loop(
                            self.state(host.calls()),
                            looping.condition@,
                            looping.body@,
                            rounds as nat,
                            depth as nat,
                            script,
                        ),
                ),
            decreases rounds,
        {
            reveal(while_loop);
            reveal(eval_expr);
            reveal(exec_stmt);
            let condition = self.evaluate_at(&looping.condition, host, depth)?;
            if !is_truthy(&condition) {
                return Ok(ExecResult::Normal);
            }
            match self.execute_at(&looping.body, host, depth)? {
                ExecResult::Normal => {},
                returned => {
                    return Ok(returned);
                },
            }
            rounds -= 1;
        }
        Self::fail(RuntimeErr::DepthLimitExceeded(0))
    }

    fn return_statement<H: Host>(&mut self, ret: &ReturnStmt, host: &mut Recorded<H>, depth: u64) -> (r:
        Result<ExecResult, LoxError>)
        requires
            old(self).well_formed(),
        ensures
            final(self).evolved_from(old(self)),
            continues(old(host).calls(), final(host).calls()),
            foretold(
                final(self).state(final(host).calls()),
                flow_result(r),
                |script: Seq<HostCall>|
                    exec_stmt(
                        old(self).state(old(host).calls()),
                        (Stmt::Return(*ret))@,
                        depth as nat,
                        script,
                    ),
            ),
        decreases depth, 1nat, ret, 0nat,
    {
        reveal(exec_stmt);
        reveal(eval_expr);
        let value = self.evaluate_at(&ret.value, host, depth)?;
        Ok(ExecResult::Return(value))
    }

    /// A class declaration: the superclass, which must be a class, then
    /// the class with its methods.
    fn class_statement(&mut self, class: &ClassStmt, Ghost(calls): Ghost<Seq<HostCall>>) -> (r:
        Result<ExecResult, LoxError>)
        requires
            old(self).well_formed(),
        ensures
            final(self).evolved_from(old(self)),
            forall|depth: nat, script: Seq<HostCall>|
                #[trigger] exec_stmt(old(self).state(calls), (Stmt::Class(*class))@, depth, script)
                    == (Outcome { state: final(self).state(calls), result: flow_result(r) }),
    {
        reveal(exec_stmt);
        let superclass = self.superclass(&class.superclass, Ghost(calls))?;
        self.declare_class(class, superclass, Ghost(calls));
        Ok(ExecResult::Normal)
    }

    /// Evaluates `expr`. However the host goes on from the calls made, the
    /// value and the state are those that the meaning of `expr` gives.
    pub fn evaluate<H: Host>(&mut self, expr: &Expr, host: &mut Recorded<H>) -> (r: Result<
        LiteralExpr,
        LoxError,
    >)
        requires
            old(self).well_formed(),
        ensures
            final(self).evolved_from(old(self)),
            continues(old(host).calls(), final(host).calls()),
            foretold(
                final(self).state(final(host).calls()),
                value_result(r),
                |script: Seq<HostCall>|
                    eval_expr(
                        old(self).state(old(host).calls()),
                        expr@,
                        old(self).max_depth as nat,
                        script,
                    ),
            ),
    {
        let depth = self.max_depth;
        self.evaluate_at(expr, host, depth)
    }

    /// Executes `stmt`. However the host goes on from the calls made, the
    /// outcome and the state are those that the meaning of `stmt` gives.
    pub fn execute<H: Host>(&mut self, stmt: &Stmt, host: &mut Recorded<H>) -> (r: Result<
        ExecResult,
        LoxError,
    >)
        requires
            old(self).well_formed(),
        ensures
            final(self).evolved_from(old(self)),
            continues(old(host).calls(), final(host).calls()),
            foretold(
                final(self).state(final(host).calls()),
                flow_result(r),
                |script: Seq<HostCall>|
                    exec_stmt(
                        old(self).state(old(host).calls()),
                        stmt@,
                        old(self).max_depth as nat,
                        script,
                    ),
            ),
    {
        let depth = self.max_depth;
        self.execute_at(stmt, host, depth)
    }

    /// Executes the statements of a program in order, up to the first
    /// error. What they declare stays with the evaluator.
    #[verifier::loop_isolation(false)]
    pub fn interpret<H: Host>(&mut self, stmts: &Vec<Stmt>, host: &mut Recorded<H>) -> (r: Result<
        (),
        LoxError,
    >)
        requires
            old(self).well_formed(),
        ensures
            final(self).evolved_from(old(self)),
            continues(old(host).calls(), final(host).calls()),
            foretold(
                final(self).state(final(host).calls()),
                unit_result(r),
                |script: Seq<HostCall>|
                    run_program(
                        old(self).state(old(host).calls()),
                        stmt_views(stmts),
                        0,
                        old(self).max_depth as nat,
                        script,
                    ),
            ),
    {
        reveal(exec_stmt);
        let depth = self.max_depth;
        let mut i: usize = 0;
        while i < stmts.len()
            invariant
                i <= stmts.len(),
                self.evolved_from(old(self)),
                continues(old(host).calls(), host.calls()),
                depth == self.max_depth,
                same_meaning(
                    host.calls(),
                    |script: Seq<HostCall>|
                        run_program(
                            old(self).state(old(host).calls()),
                            stmt_views(stmts),
                            0,
                            depth as nat,
                            script,
                        ),
                    |script: Seq<HostCall>|
                        run_program(
                            self.state(host.calls()),
                            stmt_views(stmts),
                            i as nat,
                            depth as nat,
                            script,
                        ),
                ),
            decreases stmts.len() - i,
        {
            reveal(exec_stmt);
            let _ = self.execute_at(&stmts[i], host, depth)?;
            i += 1;
        }
        Ok(())
    }
}

impl Default for Interpreter {
    fn default() -> (it: Self)
        ensures
            it.is_fresh(DEFAULT_DEPTH),
    {
        Interpreter::new()
    }
}

} // verus!
