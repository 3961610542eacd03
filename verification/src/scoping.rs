//! What the resolver makes of a program: for every variable, `this` and
//! `super`, the number of scopes between the use and the declaration, and
//! the static errors of the program.

use crate::ast::{ExprView, FunView, LiteralView, StmtView, nil_expr};
use crate::errors::ResolveErr;
use crate::token::TokenView;
use vstd::prelude::*;

verus! {

/// The kind of function whose body is being resolved.
#[derive(Clone, Copy, Debug, PartialEq, Eq, Structural)]
pub enum FunctionType {
    /// Outside of every function.
    Outside,
    Function,
    Method,
    Initializer,
}

/// The kind of class whose body is being resolved.
#[derive(Clone, Copy, Debug, PartialEq, Eq, Structural)]
pub enum ClassType {
    /// Outside of every class.
    Outside,
    Class,
    Subclass,
}

/// The state of the resolver: the stack of local scopes, innermost last,
/// each a map from a name to whether its initializer is done (a boolean
/// value); the function and the class around; and the errors so far.
pub struct ResolverView {
    pub scopes: Seq<Map<Seq<char>, LiteralView>>,
    pub function: FunctionType,
    pub class: ClassType,
    pub errors: Seq<ResolveErr>,
}

/// A resolved tree and the state of the resolver behind it.
pub struct Resolved<T> {
    pub tree: T,
    pub state: ResolverView,
}

pub open spec fn declared_only() -> LiteralView {
    LiteralView::Boolean(false)
}

pub open spec fn defined() -> LiteralView {
    LiteralView::Boolean(true)
}

/// The number of scopes between the innermost of the first `n` scopes and
/// the innermost of them that binds `name`; `None` where none does.
pub open spec fn depth_upto(scopes: Seq<Map<Seq<char>, LiteralView>>, n: nat, name: Seq<char>) -> Option<
    nat,
>
    decreases n,
{
    if n == 0 || n > scopes.len() {
        None
    } else if scopes[n - 1].contains_key(name) {
        Some(0)
    } else {
        match depth_upto(scopes, (n - 1) as nat, name) {
            Some(d) => Some(d + 1),
            None => None,
        }
    }
}

/// The depth of a use of `name`: the number of scopes to climb from the
/// innermost one to the one that binds `name`; `None` for a global.
pub open spec fn depth_of(scopes: Seq<Map<Seq<char>, LiteralView>>, name: Seq<char>) -> Option<nat> {
    depth_upto(scopes, scopes.len(), name)
}

impl ResolverView {
    pub open spec fn report(self, e: ResolveErr) -> ResolverView {
        ResolverView { errors: self.errors.push(e), ..self }
    }

    /// With `name` bound to `flag` in the innermost scope; unchanged where
    /// there is no local scope.
    pub open spec fn bind(self, name: Seq<char>, flag: LiteralView) -> ResolverView {
        if self.scopes.len() == 0 {
            self
        } else {
            ResolverView {
                scopes: self.scopes.update(
                    self.scopes.len() - 1,
                    self.scopes.last().insert(name, flag),
                ),
                ..self
            }
        }
    }

    /// Declares `name`: its initializer is not done. A second declaration
    /// in one local scope is an error.
    pub open spec fn declare(self, name: TokenView) -> ResolverView {
        if self.scopes.len() == 0 {
            self
        } else if self.scopes.last().contains_key(name.lexeme) {
            self.report(ResolveErr::VariablesWithSameName(name.line as usize)).bind(
                name.lexeme,
                declared_only(),
            )
        } else {
            self.bind(name.lexeme, declared_only())
        }
    }

    pub open spec fn define(self, name: Seq<char>) -> ResolverView {
        self.bind(name, defined())
    }

    pub open spec fn begin_scope(self) -> ResolverView {
        ResolverView { scopes: self.scopes.push(Map::empty()), ..self }
    }

    pub open spec fn end_scope(self) -> ResolverView {
        if self.scopes.len() == 0 {
            self
        } else {
            ResolverView { scopes: self.scopes.drop_last(), ..self }
        }
    }

    pub open spec fn in_function(self, function: FunctionType) -> ResolverView {
        ResolverView { function, ..self }
    }

    pub open spec fn in_class(self, class: ClassType) -> ResolverView {
        ResolverView { class, ..self }
    }

    /// Whether `name` is declared in the innermost scope and its
    /// initializer is not done.
    pub open spec fn in_own_initializer(self, name: Seq<char>) -> bool {
        self.scopes.len() > 0 && self.scopes.last().contains_key(name)
            && self.scopes.last()[name] == declared_only()
    }

    /// The state after a use of the variable `name`.
    pub open spec fn use_variable(self, name: TokenView) -> ResolverView {
        if self.in_own_initializer(name.lexeme) {
            self.report(ResolveErr::InvalidLocalVariable(name.line as usize))
        } else {
            self
        }
    }

    /// The state after a use of `this`.
    pub open spec fn use_this(self, keyword: TokenView) -> ResolverView {
        if self.class == ClassType::Outside {
            self.report(ResolveErr::ThisOutsideClass(keyword.line as usize))
        } else {
            self
        }
    }

    /// The state after a use of `super`.
    pub open spec fn use_super(self, keyword: TokenView) -> ResolverView {
        if self.class == ClassType::Outside {
            self.report(ResolveErr::SuperOutsideClass(keyword.line as usize))
        } else if self.class != ClassType::Subclass {
            self.report(ResolveErr::SuperWithoutSuperclass(keyword.line as usize))
        } else {
            self
        }
    }

    /// The state after a `return` with the value `value`.
    pub open spec fn use_return(self, keyword: TokenView, value: ExprView) -> ResolverView {
        let outside = if self.function == FunctionType::Outside {
            self.report(ResolveErr::TopLevelReturn(keyword.line as usize))
        } else {
            self
        };
        if value != nil_expr() && self.function == FunctionType::Initializer {
            outside.report(ResolveErr::ReturnFromInitializer(keyword.line as usize))
        } else {
            outside
        }
    }
}

/// The expressions `exprs` from the index `i` on, resolved in order after
/// the resolved expressions `done`.
#[verifier::opaque]
pub open spec fn resolve_exprs(exprs: Seq<ExprView>, i: nat, done: Seq<ExprView>, st: ResolverView) -> Resolved<
    Seq<ExprView>,
>
    decreases exprs, exprs.len() - i,
{
    if i >= exprs.len() {
        Resolved { tree: done, state: st }
    } else {
        let one = resolve_expr(exprs[i as int], st);
        resolve_exprs(exprs, i + 1, done.push(one.tree), one.state)
    }
}

/// The expression with the depth of every variable, `this` and `super` in
/// it, and the state of the resolver behind it.
#[verifier::opaque]
pub open spec fn resolve_expr(e: ExprView, st: ResolverView) -> Resolved<ExprView>
    decreases e, 0nat,
{
    match e {
        ExprView::Literal(_) => Resolved { tree: e, state: st },
        ExprView::Grouping { expression } => {
            let inner = resolve_expr(*expression, st);
            Resolved {
                tree: ExprView::Grouping { expression: Box::new(inner.tree) },
                state: inner.state,
            }
        },
        ExprView::Unary { operator, right } => {
            let r = resolve_expr(*right, st);
            Resolved { tree: ExprView::Unary { operator, right: Box::new(r.tree) }, state: r.state }
        },
        ExprView::Binary { left, operator, right } => {
            let l = resolve_expr(*left, st);
            let r = resolve_expr(*right, l.state);
            Resolved {
                tree: ExprView::Binary {
                    left: Box::new(l.tree),
                    operator,
                    right: Box::new(r.tree),
                },
                state: r.state,
            }
        },
        ExprView::Logical { left, operator, right } => {
            let l = resolve_expr(*left, st);
            let r = resolve_expr(*right, l.state);
            Resolved {
                tree: ExprView::Logical {
                    left: Box::new(l.tree),
                    operator,
                    right: Box::new(r.tree),
                },
                state: r.state,
            }
        },
        ExprView::Var { name, depth } => Resolved {
            tree: ExprView::Var { name, depth: depth_of(st.scopes, name.lexeme) },
            state: st.use_variable(name),
        },
        ExprView::Assign { name, value, depth } => {
            let v = resolve_expr(*value, st);
            Resolved {
                tree: ExprView::Assign {
                    name,
                    value: Box::new(v.tree),
                    depth: depth_of(v.state.scopes, name.lexeme),
                },
                state: v.state,
            }
        },
        ExprView::Call { callee, paren, args } => {
            let c = resolve_expr(*callee, st);
            let a = resolve_exprs(args, 0, Seq::empty(), c.state);
            Resolved {
                tree: ExprView::Call { callee: Box::new(c.tree), paren, args: a.tree },
                state: a.state,
            }
        },
        ExprView::Get { object, name } => {
            let o = resolve_expr(*object, st);
            Resolved { tree: ExprView::Get { object: Box::new(o.tree), name }, state: o.state }
        },
        ExprView::SetField { object, name, value } => {
            let v = resolve_expr(*value, st);
            let o = resolve_expr(*object, v.state);
            Resolved {
                tree: ExprView::SetField {
                    object: Box::new(o.tree),
                    name,
                    value: Box::new(v.tree),
                },
                state: o.state,
            }
        },
        ExprView::This { keyword, depth } => Resolved {
            tree: ExprView::This {
                keyword,
                depth: if st.class == ClassType::Outside {
                    None
                } else {
                    depth_of(st.scopes, keyword.lexeme)
                },
            },
            state: st.use_this(keyword),
        },
        ExprView::Super { keyword, method, depth } => Resolved {
            tree: ExprView::Super { keyword, method, depth: depth_of(st.scopes, keyword.lexeme) },
            state: st.use_super(keyword),
        },
    }
}

/// The state after the parameters `params` from the index `i` on are
/// declared and defined in order.
pub open spec fn declare_params(params: Seq<TokenView>, i: nat, st: ResolverView) -> ResolverView
    decreases params.len() - i,
{
    if i >= params.len() {
        st
    } else {
        declare_params(params, i + 1, st.declare(params[i as int]).define(params[i as int].lexeme))
    }
}

/// The statements `stmts` from the index `i` on, resolved in order after
/// the resolved statements `done`.
#[verifier::opaque]
pub open spec fn resolve_stmts(stmts: Seq<StmtView>, i: nat, done: Seq<StmtView>, st: ResolverView) -> Resolved<
    Seq<StmtView>,
>
    decreases stmts, stmts.len() - i,
{
    if i >= stmts.len() {
        Resolved { tree: done, state: st }
    } else {
        let one = resolve_stmt(stmts[i as int], st);
        resolve_stmts(stmts, i + 1, done.push(one.tree), one.state)
    }
}

/// The function `f`, resolved as a function of kind `kind`: its parameters
/// and its body share one new scope.
#[verifier::opaque]
pub open spec fn resolve_function(f: FunView, kind: FunctionType, st: ResolverView) -> Resolved<FunView>
    decreases f, 0nat,
{
    let inside = declare_params(f.params, 0, st.in_function(kind).begin_scope());
    let body = resolve_stmts(f.body, 0, Seq::empty(), inside);
    Resolved {
        tree: FunView { body: body.tree, ..f },
        state: body.state.end_scope().in_function(st.function),
    }
}

/// The methods `methods` from the index `i` on, resolved in order after
/// the resolved methods `done`; the method `init` is an initializer.
#[verifier::opaque]
pub open spec fn resolve_methods(methods: Seq<FunView>, i: nat, done: Seq<FunView>, st: ResolverView) -> Resolved<
    Seq<FunView>,
>
    decreases methods, methods.len() - i,
{
    if i >= methods.len() {
        Resolved { tree: done, state: st }
    } else {
        let kind = if methods[i as int].is_init {
            FunctionType::Initializer
        } else {
            FunctionType::Method
        };
        let one = resolve_function(methods[i as int], kind, st);
        resolve_methods(methods, i + 1, done.push(one.tree), one.state)
    }
}

/// The state in which the methods of a class are resolved: with a
/// superclass, a scope that defines `super`, and in any case a scope that
/// defines `this`.
pub open spec fn class_scopes(has_superclass: bool, st: ResolverView) -> ResolverView {
    let with_super = if has_superclass {
        st.begin_scope().define("super"@)
    } else {
        st
    };
    with_super.begin_scope().define("this"@)
}

/// The state behind the superclass of the class `name`: a class that
/// names itself is an error, and the superclass is a use of a variable.
pub open spec fn resolve_superclass(name: TokenView, superclass: Option<ExprView>, st: ResolverView) -> Resolved<
    Option<ExprView>,
> {
    match superclass {
        Some(ExprView::Var { name: parent, depth }) => {
            let checked = if parent.lexeme == name.lexeme {
                st.report(ResolveErr::SelfInheritance(parent.line as usize))
            } else {
                st
            };
            let used = resolve_expr(
                ExprView::Var { name: parent, depth },
                checked.in_class(ClassType::Subclass),
            );
            Resolved { tree: Some(used.tree), state: used.state }
        },
        _ => Resolved { tree: superclass, state: st },
    }
}

/// The statement with the depth of every variable, `this` and `super` in
/// it, and the state of the resolver behind it.
#[verifier::opaque]
pub open spec fn resolve_stmt(s: StmtView, st: ResolverView) -> Resolved<StmtView>
    decreases s, 0nat,
{
    match s {
        StmtView::Expression(e) => {
            let r = resolve_expr(e, st);
            Resolved { tree: StmtView::Expression(r.tree), state: r.state }
        },
        StmtView::Print(e) => {
            let r = resolve_expr(e, st);
            Resolved { tree: StmtView::Print(r.tree), state: r.state }
        },
        StmtView::Var { name, val } => {
            let v = resolve_expr(val, st.declare(name));
            Resolved {
                tree: StmtView::Var { name, val: v.tree },
                state: v.state.define(name.lexeme),
            }
        },
        StmtView::If { condition, then_b, else_b } => {
            let c = resolve_expr(condition, st);
            let t = resolve_stmt(*then_b, c.state);
            let e = resolve_stmt(*else_b, t.state);
            Resolved {
                tree: StmtView::If {
                    condition: c.tree,
                    then_b: Box::new(t.tree),
                    else_b: Box::new(e.tree),
                },
                state: e.state,
            }
        },
        StmtView::While { condition, body } => {
            let c = resolve_expr(condition, st);
            let b = resolve_stmt(*body, c.state);
            Resolved {
                tree: StmtView::While { condition: c.tree, body: Box::new(b.tree) },
                state: b.state,
            }
        },
        StmtView::Function(f) => {
            let r = resolve_function(
                f,
                FunctionType::Function,
                st.declare(f.name).define(f.name.lexeme),
            );
            Resolved { tree: StmtView::Function(r.tree), state: r.state }
        },
        StmtView::Block(stmts) => {
            let r = resolve_stmts(stmts, 0, Seq::empty(), st.begin_scope());
            Resolved { tree: StmtView::Block(r.tree), state: r.state.end_scope() }
        },
        StmtView::Return { keyword, value } => {
            let v = resolve_expr(value, st.use_return(keyword, value));
            Resolved { tree: StmtView::Return { keyword, value: v.tree }, state: v.state }
        },
        StmtView::Class { name, superclass, methods } => {
            let entered = st.in_class(ClassType::Class).declare(name).define(name.lexeme);
            let parent = resolve_superclass(name, superclass, entered);
            let inside = class_scopes(superclass is Some, parent.state);
            let m = resolve_methods(methods, 0, Seq::empty(), inside);
            let left = if superclass is Some {
                m.state.end_scope().end_scope()
            } else {
                m.state.end_scope()
            };
            Resolved {
                tree: StmtView::Class { name, superclass: parent.tree, methods: m.tree },
                state: left.in_class(st.class),
            }
        },
    }
}

/// The state of a resolver that has seen nothing.
pub open spec fn fresh() -> ResolverView {
    ResolverView {
        scopes: Seq::empty(),
        function: FunctionType::Outside,
        class: ClassType::Outside,
        errors: Seq::empty(),
    }
}

/// After resolution a variable is a global, or its depth counts the scopes
/// that do not bind its name between its use and the scope that does.
pub proof fn lemma_depth_finds_the_binding(
    scopes: Seq<Map<Seq<char>, LiteralView>>,
    n: nat,
    name: Seq<char>,
)
    requires
        n <= scopes.len(),
    ensures
        match depth_upto(scopes, n, name) {
            Some(d) => {
                &&& d < n
                &&& scopes[n - 1 - d].contains_key(name)
                &&& forall|j: int| 0 <= j < d ==> !(#[trigger] scopes[n - 1 - j]).contains_key(name)
            },
            None => forall|j: int| 0 <= j < n ==> !(#[trigger] scopes[j]).contains_key(name),
        },
    decreases n,
{
    if n > 0 && !scopes[n - 1].contains_key(name) {
        lemma_depth_finds_the_binding(scopes, (n - 1) as nat, name);
        match depth_upto(scopes, (n - 1) as nat, name) {
            Some(d0) => {
                let d = d0 + 1;
                assert forall|j: int| 0 <= j < d implies !(#[trigger] scopes[n - 1 - j]).contains_key(
                    name,
                ) by {
                    if j > 0 {
                        assert(!scopes[(n - 1) - 1 - (j - 1)].contains_key(name));
                    }
                }
            },
            None => {},
        }
    }
}


/// After resolution every use of a variable is a global, with no local
/// scope that binds its name, or has a depth `d`: the `d` innermost scopes
/// do not bind its name, and the scope `d` steps up does.
pub proof fn law_variable_depth(name: TokenView, depth: Option<nat>, st: ResolverView)
    ensures
        resolve_expr(ExprView::Var { name, depth }, st).tree matches ExprView::Var {
            name: resolved_name,
            depth: resolved,
        } && resolved_name == name && match resolved {
            None => forall|j: int|
                0 <= j < st.scopes.len() ==> !(#[trigger] st.scopes[j]).contains_key(name.lexeme),
            Some(d) => {
                &&& d < st.scopes.len()
                &&& st.scopes[st.scopes.len() - 1 - d].contains_key(name.lexeme)
                &&& forall|j: int|
                    0 <= j < d ==> !(#[trigger] st.scopes[st.scopes.len() - 1 - j]).contains_key(
                        name.lexeme,
                    )
            },
        },
{
    reveal(resolve_expr);
    lemma_depth_finds_the_binding(st.scopes, st.scopes.len(), name.lexeme);
}

/// A `return` with a value inside an initializer is a static error, and so
/// is every `return` outside of a function.
pub proof fn law_return_errors(keyword: TokenView, value: ExprView, st: ResolverView)
    ensures
        st.function == FunctionType::Initializer && value != nil_expr() ==> st.use_return(
            keyword,
            value,
        ).errors == st.errors.push(ResolveErr::ReturnFromInitializer(keyword.line as usize)),
        st.function == FunctionType::Outside && value == nil_expr() ==> st.use_return(
            keyword,
            value,
        ).errors == st.errors.push(ResolveErr::TopLevelReturn(keyword.line as usize)),
        st.function != FunctionType::Outside && (st.function != FunctionType::Initializer || value
            == nil_expr()) ==> st.use_return(keyword, value) == st,
{
}

/// A local variable that is read in its own initializer is a static error:
/// between its declaration and its definition every use of it is reported.
pub proof fn law_own_initializer(name: TokenView, st: ResolverView)
    requires
        st.scopes.len() > 0,
    ensures
        st.declare(name).use_variable(name).errors == st.declare(name).errors.push(
            ResolveErr::InvalidLocalVariable(name.line as usize),
        ),
        st.declare(name).define(name.lexeme).use_variable(name) == st.declare(name).define(
            name.lexeme,
        ),
{
}

} // verus!
