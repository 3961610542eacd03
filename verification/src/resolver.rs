//! The resolver: walks a parsed program, gives every variable, `this` and
//! `super` its depth, and reports what the language forbids.

use crate::ast::{
    AssignmentExpr, BinaryExpr, CallExpr, ClassStmt, Expr, ExprView, FunStmt, FunView, GetExpr,
    GroupingExpr, IfStmt, LiteralExpr, LiteralView, LogicalExpr, ReturnStmt, SetExpr, Stmt,
    StmtView, SuperExpr, ThisExpr, UnaryExpr, VarExpr, VarStmt, WhileStmt, depth_view,
    expr_views, fun_views, stmt_views, superclass_view,
};
use crate::env::{Binding, bindings_map, read_binding, write_binding};
use crate::errors::{LoxError, ResolveErr};
use crate::scoping::{
    ClassType, FunctionType, ResolverView, declare_params, depth_of, depth_upto, fresh,
    resolve_expr, resolve_exprs, resolve_function, resolve_methods, resolve_stmt, resolve_stmts,
    resolve_superclass,
};
use crate::token::{Token, token_views};
use std::rc::Rc;
use vstd::prelude::*;

verus! {

/// The resolver of one program.
pub struct Resolver {
    scopes: Vec<Vec<Binding>>,
    function: FunctionType,
    class: ClassType,
    errors: Vec<ResolveErr>,
}

pub open spec fn scope_maps(scopes: Seq<Vec<Binding>>) -> Seq<Map<Seq<char>, LiteralView>> {
    scopes.map_values(|b: Vec<Binding>| bindings_map(b@))
}

impl View for Resolver {
    type V = ResolverView;

    closed spec fn view(&self) -> ResolverView {
        ResolverView {
            scopes: scope_maps(self.scopes@),
            function: self.function,
            class: self.class,
            errors: self.errors@,
        }
    }
}

impl Resolver {
    pub fn new() -> (resolver: Self)
        ensures
            resolver@ == fresh(),
    {
        let resolver = Resolver {
            scopes: Vec::new(),
            function: FunctionType::Outside,
            class: ClassType::Outside,
            errors: Vec::new(),
        };
        assert(resolver@.scopes =~= Seq::<Map<Seq<char>, LiteralView>>::empty());
        resolver
    }

    fn report(&mut self, e: ResolveErr)
        ensures
            final(self)@ == old(self)@.report(e),
    {
        self.errors.push(e);
    }

    /// Binds `name` in the innermost scope to whether its initializer is
    /// done; nothing where there is no local scope.
    fn bind(&mut self, name: String, done: bool)
        ensures
            final(self)@ == old(self)@.bind(name@, LiteralView::Boolean(done)),
    {
        let n = self.scopes.len();
        if n > 0 {
            write_binding(&mut self.scopes[n - 1], name, LiteralExpr::Boolean(done));
            assert(self@.scopes =~= old(self)@.bind(name@, LiteralView::Boolean(done)).scopes);
        }
    }

    /// Declares `name` in the innermost scope; a second declaration there
    /// is reported.
    fn declare(&mut self, name: &Token)
        ensures
            final(self)@ == old(self)@.declare(name@),
    {
        let n = self.scopes.len();
        if n == 0 {
            return ;
        }
        match read_binding(&self.scopes[n - 1], &name.lexeme) {
            Some(_) => {
                self.report(ResolveErr::VariablesWithSameName(name.line));
            },
            None => {},
        }
        self.bind(name.lexeme.clone(), false);
    }

    fn define(&mut self, name: &Token)
        ensures
            final(self)@ == old(self)@.define(name.lexeme@),
    {
        self.bind(name.lexeme.clone(), true);
    }

    fn begin_scope(&mut self)
        ensures
            final(self)@ == old(self)@.begin_scope(),
    {
        let scope: Vec<Binding> = Vec::new();
        assert(bindings_map(scope@) =~= Map::<Seq<char>, LiteralView>::empty());
        self.scopes.push(scope);
        assert(self@.scopes =~= old(self)@.begin_scope().scopes);
    }

    fn end_scope(&mut self)
        ensures
            final(self)@ == old(self)@.end_scope(),
    {
        if self.scopes.len() > 0 {
            let _ = self.scopes.pop();
            assert(self@.scopes =~= old(self)@.end_scope().scopes);
        }
    }

    /// The depth of a use of `name`: the number of scopes to climb from the
    /// innermost one to the one that binds `name`; `None` for a global.
    fn resolve_local(&self, name: &String) -> (depth: Option<usize>)
        ensures
            depth_view(depth) == depth_of(self@.scopes, name@),
    {
        let n = self.scopes.len();
        let mut k = n;
        while k > 0
            invariant
                k <= n,
                n == self.scopes.len(),
                depth_of(self@.scopes, name@) == match depth_upto(
                    self@.scopes,
                    k as nat,
                    name@,
                ) {
                    Some(d) => Some((d + (n - k)) as nat),
                    None => None,
                },
            decreases k,
        {
            match read_binding(&self.scopes[k - 1], name) {
                Some(_) => {
                    return Some(n - k);
                },
                None => {},
            }
            k -= 1;
        }
        None
    }

    /// A use of a variable: its depth, and an error where a local variable
    /// is read in its own initializer.
    fn rs_var_expr(&mut self, var: &VarExpr) -> (r: VarExpr)
        ensures
            (Expr::Var(r))@ == resolve_expr((Expr::Var(*var))@, old(self)@).tree,
            final(self)@ == resolve_expr((Expr::Var(*var))@, old(self)@).state,
    {
        reveal(resolve_expr);
        let n = self.scopes.len();
        let depth = self.resolve_local(&var.name.lexeme);
        if n > 0 {
            match read_binding(&self.scopes[n - 1], &var.name.lexeme) {
                Some(LiteralExpr::Boolean(false)) => {
                    self.report(ResolveErr::InvalidLocalVariable(var.name.line));
                },
                _ => {},
            }
        }
        VarExpr { name: var.name.clone(), depth }
    }

    /// The arguments of a call, resolved in order.
    #[verifier::loop_isolation(false)]
    fn rs_exprs(&mut self, exprs: &Vec<Expr>) -> (r: Vec<Expr>)
        ensures
            expr_views(&r) == resolve_exprs(expr_views(exprs), 0, Seq::empty(), old(self)@).tree,
            final(self)@ == resolve_exprs(expr_views(exprs), 0, Seq::empty(), old(self)@).state,
        decreases exprs,
    {
        reveal(resolve_exprs);
        reveal(resolve_expr);
        let mut done: Vec<Expr> = Vec::new();
        assert(expr_views(&done) =~= Seq::<ExprView>::empty());
        let mut i: usize = 0;
        while i < exprs.len()
            invariant
                i <= exprs.len(),
                resolve_exprs(expr_views(exprs), i as nat, expr_views(&done), self@)
                    == resolve_exprs(expr_views(exprs), 0, Seq::empty(), old(self)@),
            decreases exprs.len() - i,
        {
            reveal(resolve_exprs);
            let one = self.rs_expression(&exprs[i]);
            let ghost pushed = expr_views(&done).push(one@);
            done.push(one);
            assert(expr_views(&done) =~= pushed);
            i += 1;
        }
        done
    }

    /// A parenthesized expression.
    fn rs_group_expr(&mut self, g: &GroupingExpr) -> (r: GroupingExpr)
        ensures
            (Expr::Grouping(r))@ == resolve_expr((Expr::Grouping(*g))@, old(self)@).tree,
            final(self)@ == resolve_expr((Expr::Grouping(*g))@, old(self)@).state,
        decreases g,
    {
        reveal(resolve_expr);
        let inner = self.rs_expression(&g.expression);
        GroupingExpr { expression: Box::new(inner) }
    }

    /// A unary expression.
    fn rs_unary_expr(&mut self, u: &UnaryExpr) -> (r: UnaryExpr)
        ensures
            (Expr::Unary(r))@ == resolve_expr((Expr::Unary(*u))@, old(self)@).tree,
            final(self)@ == resolve_expr((Expr::Unary(*u))@, old(self)@).state,
        decreases u,
    {
        reveal(resolve_expr);
        let right = self.rs_expression(&u.right);
        UnaryExpr { operator: u.operator.clone(), right: Box::new(right) }
    }

    /// A binary expression: the left operand, then the right one.
    fn rs_binary_expr(&mut self, b: &BinaryExpr) -> (r: BinaryExpr)
        ensures
            (Expr::Binary(r))@ == resolve_expr((Expr::Binary(*b))@, old(self)@).tree,
            final(self)@ == resolve_expr((Expr::Binary(*b))@, old(self)@).state,
        decreases b,
    {
        reveal(resolve_expr);
        let left = self.rs_expression(&b.left);
        let right = self.rs_expression(&b.right);
        BinaryExpr { left: Box::new(left), operator: b.operator.clone(), right: Box::new(right) }
    }

    /// A logical expression: the left operand, then the right one.
    fn rs_logic_expr(&mut self, b: &LogicalExpr) -> (r: LogicalExpr)
        ensures
            (Expr::Logical(r))@ == resolve_expr((Expr::Logical(*b))@, old(self)@).tree,
            final(self)@ == resolve_expr((Expr::Logical(*b))@, old(self)@).state,
        decreases b,
    {
        reveal(resolve_expr);
        let left = self.rs_expression(&b.left);
        let right = self.rs_expression(&b.right);
        LogicalExpr { left: Box::new(left), operator: b.operator.clone(), right: Box::new(right) }
    }

    /// An assignment: the value, then the depth of the variable.
    fn rs_assign_expr(&mut self, a: &AssignmentExpr) -> (r: AssignmentExpr)
        ensures
            (Expr::Assign(r))@ == resolve_expr((Expr::Assign(*a))@, old(self)@).tree,
            final(self)@ == resolve_expr((Expr::Assign(*a))@, old(self)@).state,
        decreases a,
    {
        reveal(resolve_expr);
        let value = self.rs_expression(&a.value);
        let depth = self.resolve_local(&a.name.lexeme);
        AssignmentExpr { name: a.name.clone(), value: Box::new(value), depth }
    }

    /// A call: the callee, then the arguments in order.
    fn rs_call_expr(&mut self, c: &CallExpr) -> (r: CallExpr)
        ensures
            (Expr::Call(r))@ == resolve_expr((Expr::Call(*c))@, old(self)@).tree,
            final(self)@ == resolve_expr((Expr::Call(*c))@, old(self)@).state,
        decreases c,
    {
        reveal(resolve_expr);
        reveal(resolve_exprs);
        let callee = self.rs_expression(&c.callee);
        let args = self.rs_exprs(&c.args);
        CallExpr { callee: Box::new(callee), paren: c.paren.clone(), args }
    }

    /// A property access.
    fn rs_get_expr(&mut self, g: &GetExpr) -> (r: GetExpr)
        ensures
            (Expr::Get(r))@ == resolve_expr((Expr::Get(*g))@, old(self)@).tree,
            final(self)@ == resolve_expr((Expr::Get(*g))@, old(self)@).state,
        decreases g,
    {
        reveal(resolve_expr);
        let object = self.rs_expression(&g.object);
        GetExpr { object: Box::new(object), name: g.name.clone() }
    }

    /// A property assignment: the value, then the object.
    fn rs_set_expr(&mut self, s: &SetExpr) -> (r: SetExpr)
        ensures
            (Expr::SetField(r))@ == resolve_expr((Expr::SetField(*s))@, old(self)@).tree,
            final(self)@ == resolve_expr((Expr::SetField(*s))@, old(self)@).state,
        decreases s,
    {
        reveal(resolve_expr);
        let value = self.rs_expression(&s.value);
        let object = self.rs_expression(&s.object);
        SetExpr { object: Box::new(object), name: s.name.clone(), value: Box::new(value) }
    }

    /// A use of `this`: an error outside of a class.
    fn rs_this_expr(&mut self, t: &ThisExpr) -> (r: ThisExpr)
        ensures
            (Expr::This(r))@ == resolve_expr((Expr::This(*t))@, old(self)@).tree,
            final(self)@ == resolve_expr((Expr::This(*t))@, old(self)@).state,
    {
        reveal(resolve_expr);
        if self.class == ClassType::Outside {
            self.report(ResolveErr::ThisOutsideClass(t.keyword.line));
            ThisExpr { keyword: t.keyword.clone(), depth: None }
        } else {
            let depth = self.resolve_local(&t.keyword.lexeme);
            ThisExpr { keyword: t.keyword.clone(), depth }
        }
    }

    /// A use of `super`: an error outside of a class and in a class without a superclass.
    fn rs_super_expr(&mut self, s: &SuperExpr) -> (r: SuperExpr)
        ensures
            (Expr::Super(r))@ == resolve_expr((Expr::Super(*s))@, old(self)@).tree,
            final(self)@ == resolve_expr((Expr::Super(*s))@, old(self)@).state,
    {
        reveal(resolve_expr);
        let depth = self.resolve_local(&s.keyword.lexeme);
        if self.class == ClassType::Outside {
            self.report(ResolveErr::SuperOutsideClass(s.keyword.line));
        } else if self.class != ClassType::Subclass {
            self.report(ResolveErr::SuperWithoutSuperclass(s.keyword.line));
        }
        SuperExpr { keyword: s.keyword.clone(), method: s.method.clone(), depth }
    }

    /// The expression with the depth of every variable, `this` and `super`
    /// in it.
    pub fn rs_expression(&mut self, e: &Expr) -> (r: Expr)
        ensures
            r@ == resolve_expr(e@, old(self)@).tree,
            final(self)@ == resolve_expr(e@, old(self)@).state,
        decreases e,
    {
        reveal(resolve_expr);
        match e {
            Expr::Literal(l) => Expr::Literal(l.clone()),
            Expr::Grouping(g) => Expr::Grouping(self.rs_group_expr(g)),
            Expr::Unary(u) => Expr::Unary(self.rs_unary_expr(u)),
            Expr::Binary(b) => Expr::Binary(self.rs_binary_expr(b)),
            Expr::Logical(b) => Expr::Logical(self.rs_logic_expr(b)),
            Expr::Var(v) => Expr::Var(self.rs_var_expr(v)),
            Expr::Assign(a) => Expr::Assign(self.rs_assign_expr(a)),
            Expr::Call(c) => Expr::Call(self.rs_call_expr(c)),
            Expr::Get(g) => Expr::Get(self.rs_get_expr(g)),
            Expr::SetField(s) => Expr::SetField(self.rs_set_expr(s)),
            Expr::This(t) => Expr::This(self.rs_this_expr(t)),
            Expr::Super(s) => Expr::Super(self.rs_super_expr(s)),
        }
    }

    /// The statements of a list, resolved in order.
    #[verifier::loop_isolation(false)]
    fn rs_stmts(&mut self, stmts: &Vec<Stmt>) -> (r: Vec<Stmt>)
        ensures
            stmt_views(&r) == resolve_stmts(stmt_views(stmts), 0, Seq::empty(), old(self)@).tree,
            final(self)@ == resolve_stmts(stmt_views(stmts), 0, Seq::empty(), old(self)@).state,
        decreases stmts, 0nat,
    {
        reveal(resolve_stmts);
        reveal(resolve_stmt);
        let mut done: Vec<Stmt> = Vec::new();
        assert(stmt_views(&done) =~= Seq::<StmtView>::empty());
        let mut i: usize = 0;
        while i < stmts.len()
            invariant
                i <= stmts.len(),
                resolve_stmts(stmt_views(stmts), i as nat, stmt_views(&done), self@)
                    == resolve_stmts(stmt_views(stmts), 0, Seq::empty(), old(self)@),
            decreases stmts.len() - i,
        {
            reveal(resolve_stmts);
            let one = self.resolve(&stmts[i]);
            let ghost pushed = stmt_views(&done).push(one@);
            done.push(one);
            assert(stmt_views(&done) =~= pushed);
            i += 1;
        }
        done
    }

    /// The parameters of a function, declared and defined in order.
    fn rs_params(&mut self, params: &Vec<Token>) -> (r: Vec<Token>)
        ensures
            token_views(r@) == token_views(params@),
            final(self)@ == declare_params(token_views(params@), 0, old(self)@),
    {
        let mut copy: Vec<Token> = Vec::new();
        let mut i: usize = 0;
        while i < params.len()
            invariant
                i <= params.len(),
                copy.len() == i,
                forall|j: int| 0 <= j < i ==> copy[j] == params[j],
                declare_params(token_views(params@), i as nat, self@) == declare_params(
                    token_views(params@),
                    0,
                    old(self)@,
                ),
            decreases params.len() - i,
        {
            self.declare(&params[i]);
            self.define(&params[i]);
            copy.push(params[i].clone());
            i += 1;
        }
        assert(token_views(copy@) =~= token_views(params@));
        copy
    }

    /// The function resolved as a function of kind `kind`: its parameters
    /// and its body share one new scope.
    fn rs_function(&mut self, f: &FunStmt, kind: FunctionType) -> (r: FunStmt)
        ensures
            r@ == resolve_function(f@, kind, old(self)@).tree,
            final(self)@ == resolve_function(f@, kind, old(self)@).state,
        decreases f, 0nat,
    {
        reveal(resolve_function);
        reveal(resolve_stmts);
        let enclosing = self.function;
        self.function = kind;
        self.begin_scope();
        let params = self.rs_params(&f.params);
        let body = self.rs_stmts(&f.body);
        self.end_scope();
        self.function = enclosing;
        FunStmt { is_init: f.is_init, name: f.name.clone(), params, body }
    }

    /// The methods of a class, resolved in order; `init` is resolved as an
    /// initializer.
    #[verifier::loop_isolation(false)]
    fn rs_methods(&mut self, methods: &Vec<Rc<FunStmt>>) -> (r: Vec<Rc<FunStmt>>)
        ensures
            fun_views(&r) == resolve_methods(fun_views(methods), 0, Seq::empty(), old(self)@).tree,
            final(self)@ == resolve_methods(fun_views(methods), 0, Seq::empty(), old(self)@).state,
        decreases methods, 0nat,
    {
        reveal(resolve_methods);
        reveal(resolve_function);
        let mut done: Vec<Rc<FunStmt>> = Vec::new();
        assert(fun_views(&done) =~= Seq::<FunView>::empty());
        let mut i: usize = 0;
        while i < methods.len()
            invariant
                i <= methods.len(),
                resolve_methods(fun_views(methods), i as nat, fun_views(&done), self@)
                    == resolve_methods(fun_views(methods), 0, Seq::empty(), old(self)@),
            decreases methods.len() - i,
        {
            reveal(resolve_methods);
            let kind = if methods[i].is_init {
                FunctionType::Initializer
            } else {
                FunctionType::Method
            };
            let one = self.rs_function(&methods[i], kind);
            let ghost pushed = fun_views(&done).push(one@);
            done.push(Rc::new(one));
            assert(fun_views(&done) =~= pushed);
            i += 1;
        }
        done
    }

    /// A variable declaration: declared before its initializer, defined
    /// behind it.
    fn rs_var_stmt(&mut self, var: &VarStmt) -> (r: VarStmt)
        ensures
            (Stmt::Var(r))@ == resolve_stmt((Stmt::Var(*var))@, old(self)@).tree,
            final(self)@ == resolve_stmt((Stmt::Var(*var))@, old(self)@).state,
    {
        reveal(resolve_stmt);
        self.declare(&var.name);
        let val = self.rs_expression(&var.val);
        self.define(&var.name);
        VarStmt { name: var.name.clone(), val }
    }

    #[verifier::rlimit(60)]
    fn rs_if_stmt(&mut self, branch: &IfStmt) -> (r: IfStmt)
        ensures
            (Stmt::If(r))@ == resolve_stmt((Stmt::If(*branch))@, old(self)@).tree,
            final(self)@ == resolve_stmt((Stmt::If(*branch))@, old(self)@).state,
        decreases branch, 0nat,
    {
        reveal(resolve_stmt);
        let condition = self.rs_expression(&branch.condition);
        let then_b = self.resolve(&branch.then_b);
        let else_b = self.resolve(&branch.else_b);
        IfStmt { condition, then_b: Box::new(then_b), else_b: Box::new(else_b) }
    }

    fn rs_while_stmt(&mut self, looping: &WhileStmt) -> (r: WhileStmt)
        ensures
            (Stmt::While(r))@ == resolve_stmt((Stmt::While(*looping))@, old(self)@).tree,
            final(self)@ == resolve_stmt((Stmt::While(*looping))@, old(self)@).state,
        decreases looping, 0nat,
    {
        reveal(resolve_stmt);
        let condition = self.rs_expression(&looping.condition);
        let body = self.resolve(&looping.body);
        WhileStmt { condition, body: Box::new(body) }
    }

    /// A function declaration: the name is defined before the body, so the
    /// function can call itself.
    fn rs_fun_stmt(&mut self, function: &Rc<FunStmt>) -> (r: Rc<FunStmt>)
        ensures
            (Stmt::Function(r))@ == resolve_stmt((Stmt::Function(*function))@, old(self)@).tree,
            final(self)@ == resolve_stmt((Stmt::Function(*function))@, old(self)@).state,
        decreases function, 1nat,
    {
        reveal(resolve_stmt);
        reveal(resolve_function);
        self.declare(&function.name);
        self.define(&function.name);
        Rc::new(self.rs_function(function, FunctionType::Function))
    }

    /// A block: its statements in a new scope.
    fn rs_block_stmt(&mut self, stmts: &Vec<Stmt>) -> (r: Vec<Stmt>)
        ensures
            (Stmt::Block(r))@ == resolve_stmt((Stmt::Block(*stmts))@, old(self)@).tree,
            final(self)@ == resolve_stmt((Stmt::Block(*stmts))@, old(self)@).state,
        decreases stmts, 1nat,
    {
        reveal(resolve_stmt);
        reveal(resolve_stmts);
        self.begin_scope();
        let done = self.rs_stmts(stmts);
        self.end_scope();
        done
    }

    /// A `return`: an error outside of every function, and with a value in
    /// an initializer.
    fn rs_return_stmt(&mut self, ret: &ReturnStmt) -> (r: ReturnStmt)
        ensures
            (Stmt::Return(r))@ == resolve_stmt((Stmt::Return(*ret))@, old(self)@).tree,
            final(self)@ == resolve_stmt((Stmt::Return(*ret))@, old(self)@).state,
    {
        reveal(resolve_stmt);
        let has_value = match &ret.value {
            Expr::Literal(LiteralExpr::Nil) => false,
            _ => true,
        };
        let function = self.function;
        if function == FunctionType::Outside {
            self.report(ResolveErr::TopLevelReturn(ret.keyword.line));
        }
        if has_value && function == FunctionType::Initializer {
            self.report(ResolveErr::ReturnFromInitializer(ret.keyword.line));
        }
        let value = self.rs_expression(&ret.value);
        ReturnStmt { keyword: ret.keyword.clone(), value }
    }

    /// The superclass of a class: a class that names itself is reported,
    /// and the superclass is a use of a variable.
    fn rs_superclass(&mut self, name: &Token, superclass: &Option<VarExpr>) -> (r: Option<VarExpr>)
        ensures
            superclass_view(r) == resolve_superclass(
                name@,
                superclass_view(*superclass),
                old(self)@,
            ).tree,
            final(self)@ == resolve_superclass(
                name@,
                superclass_view(*superclass),
                old(self)@,
            ).state,
    {
        reveal(resolve_expr);
        match superclass {
            Some(parent) => {
                if parent.name.lexeme == name.lexeme {
                    self.report(ResolveErr::SelfInheritance(parent.name.line));
                }
                self.class = ClassType::Subclass;
                Some(self.rs_var_expr(parent))
            },
            None => None,
        }
    }

    /// A class declaration: the methods are resolved in a scope that
    /// defines `this`, inside a scope that defines `super` where the class
    /// has a superclass.
    fn rs_class_stmt(&mut self, class: &ClassStmt) -> (r: ClassStmt)
        ensures
            (Stmt::Class(r))@ == resolve_stmt((Stmt::Class(*class))@, old(self)@).tree,
            final(self)@ == resolve_stmt((Stmt::Class(*class))@, old(self)@).state,
        decreases class, 0nat,
    {
        reveal(resolve_stmt);
        reveal(resolve_methods);
        let enclosing = self.class;
        self.class = ClassType::Class;
        self.declare(&class.name);
        self.define(&class.name);
        let superclass = self.rs_superclass(&class.name, &class.superclass);
        let has_superclass = class.superclass.is_some();
        if has_superclass {
            self.begin_scope();
            self.bind("super".to_owned(), true);
        }
        self.begin_scope();
        self.bind("this".to_owned(), true);
        let methods = self.rs_methods(&class.methods);
        self.end_scope();
        if has_superclass {
            self.end_scope();
        }
        self.class = enclosing;
        ClassStmt { name: class.name.clone(), superclass, methods }
    }

    /// The statement with the depth of every variable, `this` and `super`
    /// in it.
    pub fn resolve(&mut self, s: &Stmt) -> (r: Stmt)
        ensures
            r@ == resolve_stmt(s@, old(self)@).tree,
            final(self)@ == resolve_stmt(s@, old(self)@).state,
        decreases s, 0nat,
    {
        reveal(resolve_stmt);
        match s {
            Stmt::Expression(e) => Stmt::Expression(self.rs_expression(e)),
            Stmt::Print(e) => Stmt::Print(self.rs_expression(e)),
            Stmt::Var(var) => Stmt::Var(self.rs_var_stmt(var)),
            Stmt::If(branch) => Stmt::If(self.rs_if_stmt(branch)),
            Stmt::While(looping) => Stmt::While(self.rs_while_stmt(looping)),
            Stmt::Function(function) => Stmt::Function(self.rs_fun_stmt(function)),
            Stmt::Block(stmts) => Stmt::Block(self.rs_block_stmt(stmts)),
            Stmt::Return(ret) => Stmt::Return(self.rs_return_stmt(ret)),
            Stmt::Class(class) => Stmt::Class(self.rs_class_stmt(class)),
        }
    }

    /// Resolves the statements of a program in order. The result is the
    /// program with its depths; every error is reported in `errors`, and
    /// with an error reported the result is the first of them.
    pub fn resolve_stmts(&mut self, stmts: &Vec<Stmt>) -> (r: Result<Vec<Stmt>, LoxError>)
        ensures
            final(self)@ == resolve_stmts(stmt_views(stmts), 0, Seq::empty(), old(self)@).state,
            match r {
                Ok(resolved) => {
                    &&& final(self)@.errors.len() == 0
                    &&& stmt_views(&resolved) == resolve_stmts(
                        stmt_views(stmts),
                        0,
                        Seq::empty(),
                        old(self)@,
                    ).tree
                },
                Err(e) => {
                    &&& final(self)@.errors.len() > 0
                    &&& e == LoxError::Resolve(final(self)@.errors[0])
                },
            },
    {
        let resolved = self.rs_stmts(stmts);
        if self.errors.len() == 0 {
            Ok(resolved)
        } else {
            Err(LoxError::Resolve(self.errors[0]))
        }
    }

    /// The errors reported so far, oldest first.
    pub fn get_errors(&self) -> (errors: &Vec<ResolveErr>)
        ensures
            errors@ == self@.errors,
    {
        &self.errors
    }
}

} // verus!
