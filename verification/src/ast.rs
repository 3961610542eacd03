//! The abstract syntax tree: statements, expressions and literal values.

use crate::token::{Token, TokenView};
use std::rc::Rc;
use vstd::prelude::*;

verus! {

/// A literal of the source text, and every value of the running program.
/// A number is the bit pattern of an IEEE-754 double; a callable and an
/// instance are handles into the evaluator's tables.
#[derive(Debug, PartialEq)]
pub enum LiteralExpr {
    Nil,
    Boolean(bool),
    Number(u64),
    String(String),
    Call(usize),
    Instance(usize),
}

#[derive(Debug, PartialEq)]
pub enum Expr {
    Assign(AssignmentExpr),
    Binary(BinaryExpr),
    Logical(LogicalExpr),
    Grouping(GroupingExpr),
    Literal(LiteralExpr),
    Unary(UnaryExpr),
    This(ThisExpr),
    Var(VarExpr),
    Call(CallExpr),
    Get(GetExpr),
    SetField(SetExpr),
    Super(SuperExpr),
}

#[derive(Debug, PartialEq)]
pub struct AssignmentExpr {
    pub name: Token,
    pub value: Box<Expr>,
    /// The number of scopes between the use and the declaration; `None`
    /// for a global or before resolution.
    pub depth: Option<usize>,
}

#[derive(Debug, PartialEq)]
pub struct BinaryExpr {
    pub left: Box<Expr>,
    pub operator: Token,
    pub right: Box<Expr>,
}

#[derive(Debug, PartialEq)]
pub struct LogicalExpr {
    pub left: Box<Expr>,
    pub operator: Token,
    pub right: Box<Expr>,
}

#[derive(Debug, PartialEq)]
pub struct GroupingExpr {
    pub expression: Box<Expr>,
}

#[derive(Debug, PartialEq)]
pub struct UnaryExpr {
    pub operator: Token,
    pub right: Box<Expr>,
}

#[derive(Debug, PartialEq)]
pub struct ThisExpr {
    pub keyword: Token,
    pub depth: Option<usize>,
}

#[derive(Debug, PartialEq)]
pub struct VarExpr {
    pub name: Token,
    pub depth: Option<usize>,
}

#[derive(Debug, PartialEq)]
pub struct CallExpr {
    pub callee: Box<Expr>,
    pub paren: Token,
    pub args: Vec<Expr>,
}

#[derive(Debug, PartialEq)]
pub struct GetExpr {
    pub object: Box<Expr>,
    pub name: Token,
}

#[derive(Debug, PartialEq)]
pub struct SetExpr {
    pub object: Box<Expr>,
    pub name: Token,
    pub value: Box<Expr>,
}

#[derive(Debug, PartialEq)]
pub struct SuperExpr {
    pub keyword: Token,
    pub method: Token,
    pub depth: Option<usize>,
}

#[derive(Debug, PartialEq)]
pub enum Stmt {
    Expression(Expr),
    Print(Expr),
    Var(VarStmt),
    If(IfStmt),
    While(WhileStmt),
    Function(Rc<FunStmt>),
    Block(Vec<Stmt>),
    Return(ReturnStmt),
    Class(ClassStmt),
}

/// A variable declaration; without an initializer, `val` is the literal
/// `nil`.
#[derive(Debug, PartialEq)]
pub struct VarStmt {
    pub name: Token,
    pub val: Expr,
}

/// A conditional; without an `else`, `else_b` is the expression statement
/// of the literal `nil`.
#[derive(Debug, PartialEq)]
pub struct IfStmt {
    pub condition: Expr,
    pub then_b: Box<Stmt>,
    pub else_b: Box<Stmt>,
}

#[derive(Debug, PartialEq)]
pub struct WhileStmt {
    pub condition: Expr,
    pub body: Box<Stmt>,
}

/// A function or method declaration. `is_init` holds of the method `init`
/// of a class and of nothing else.
#[derive(Debug, PartialEq)]
pub struct FunStmt {
    pub is_init: bool,
    pub name: Token,
    pub params: Vec<Token>,
    pub body: Vec<Stmt>,
}

/// A `return`; without a value, `value` is the literal `nil`.
#[derive(Debug, PartialEq)]
pub struct ReturnStmt {
    pub keyword: Token,
    pub value: Expr,
}

#[derive(Debug, PartialEq)]
pub struct ClassStmt {
    pub name: Token,
    pub superclass: Option<VarExpr>,
    pub methods: Vec<Rc<FunStmt>>,
}

/// How the evaluator enters a block: with a scope of its own, or in the
/// scope that a call has made for it.
#[derive(Clone, Copy, Debug, PartialEq, Eq, Structural)]
pub enum BlockKind {
    Default,
    Closure,
}

pub enum LiteralView {
    Nil,
    Boolean(bool),
    Number(u64),
    String(Seq<char>),
    Call(nat),
    Instance(nat),
}

pub enum ExprView {
    Assign { name: TokenView, value: Box<ExprView>, depth: Option<nat> },
    Binary { left: Box<ExprView>, operator: TokenView, right: Box<ExprView> },
    Logical { left: Box<ExprView>, operator: TokenView, right: Box<ExprView> },
    Grouping { expression: Box<ExprView> },
    Literal(LiteralView),
    Unary { operator: TokenView, right: Box<ExprView> },
    This { keyword: TokenView, depth: Option<nat> },
    Var { name: TokenView, depth: Option<nat> },
    Call { callee: Box<ExprView>, paren: TokenView, args: Seq<ExprView> },
    Get { object: Box<ExprView>, name: TokenView },
    SetField { object: Box<ExprView>, name: TokenView, value: Box<ExprView> },
    Super { keyword: TokenView, method: TokenView, depth: Option<nat> },
}

pub enum StmtView {
    Expression(ExprView),
    Print(ExprView),
    Var { name: TokenView, val: ExprView },
    If { condition: ExprView, then_b: Box<StmtView>, else_b: Box<StmtView> },
    While { condition: ExprView, body: Box<StmtView> },
    Function(FunView),
    Block(Seq<StmtView>),
    Return { keyword: TokenView, value: ExprView },
    Class { name: TokenView, superclass: Option<ExprView>, methods: Seq<FunView> },
}

pub struct FunView {
    pub is_init: bool,
    pub name: TokenView,
    pub params: Seq<TokenView>,
    pub body: Seq<StmtView>,
}

pub open spec fn depth_view(depth: Option<usize>) -> Option<nat> {
    match depth {
        Some(d) => Some(d as nat),
        None => None,
    }
}

impl View for LiteralExpr {
    type V = LiteralView;

    open spec fn view(&self) -> LiteralView {
        match self {
            LiteralExpr::Nil => LiteralView::Nil,
            LiteralExpr::Boolean(b) => LiteralView::Boolean(*b),
            LiteralExpr::Number(n) => LiteralView::Number(*n),
            LiteralExpr::String(s) => LiteralView::String(s@),
            LiteralExpr::Call(h) => LiteralView::Call(*h as nat),
            LiteralExpr::Instance(h) => LiteralView::Instance(*h as nat),
        }
    }
}

impl Clone for LiteralExpr {
    fn clone(&self) -> (v: Self)
        ensures
            v == *self,
    {
        match self {
            LiteralExpr::Nil => LiteralExpr::Nil,
            LiteralExpr::Boolean(b) => LiteralExpr::Boolean(*b),
            LiteralExpr::Number(n) => LiteralExpr::Number(*n),
            LiteralExpr::String(s) => LiteralExpr::String(s.clone()),
            LiteralExpr::Call(h) => LiteralExpr::Call(*h),
            LiteralExpr::Instance(h) => LiteralExpr::Instance(*h),
        }
    }
}

/// The superclass of a class declaration as the variable that names it.
pub open spec fn superclass_view(superclass: Option<VarExpr>) -> Option<ExprView> {
    match superclass {
        Some(v) => Some(ExprView::Var { name: v.name@, depth: depth_view(v.depth) }),
        None => None,
    }
}

/// The views of the expressions of `exprs`, in order.
pub open spec fn expr_views(exprs: &Vec<Expr>) -> Seq<ExprView>
    decreases exprs,
{
    Seq::new(
        exprs.len() as nat,
        |i: int|
            if 0 <= i < exprs.len() {
                expr_view(&exprs[i])
            } else {
                arbitrary()
            },
    )
}

pub open spec fn expr_view(e: &Expr) -> ExprView
    decreases e,
{
    match e {
        Expr::Assign(a) => ExprView::Assign {
            name: a.name@,
            value: Box::new(expr_view(&a.value)),
            depth: depth_view(a.depth),
        },
        Expr::Binary(b) => ExprView::Binary {
            left: Box::new(expr_view(&b.left)),
            operator: b.operator@,
            right: Box::new(expr_view(&b.right)),
        },
        Expr::Logical(b) => ExprView::Logical {
            left: Box::new(expr_view(&b.left)),
            operator: b.operator@,
            right: Box::new(expr_view(&b.right)),
        },
        Expr::Grouping(g) => ExprView::Grouping { expression: Box::new(expr_view(&g.expression)) },
        Expr::Literal(l) => ExprView::Literal(l@),
        Expr::Unary(u) => ExprView::Unary {
            operator: u.operator@,
            right: Box::new(expr_view(&u.right)),
        },
        Expr::This(t) => ExprView::This { keyword: t.keyword@, depth: depth_view(t.depth) },
        Expr::Var(v) => ExprView::Var { name: v.name@, depth: depth_view(v.depth) },
        Expr::Call(c) => ExprView::Call {
            callee: Box::new(expr_view(&c.callee)),
            paren: c.paren@,
            args: expr_views(&c.args),
        },
        Expr::Get(g) => ExprView::Get { object: Box::new(expr_view(&g.object)), name: g.name@ },
        Expr::SetField(s) => ExprView::SetField {
            object: Box::new(expr_view(&s.object)),
            name: s.name@,
            value: Box::new(expr_view(&s.value)),
        },
        Expr::Super(s) => ExprView::Super {
            keyword: s.keyword@,
            method: s.method@,
            depth: depth_view(s.depth),
        },
    }
}

impl View for Expr {
    type V = ExprView;

    open spec fn view(&self) -> ExprView {
        expr_view(self)
    }
}

/// The views of the statements of `stmts`, in order.
pub open spec fn stmt_views(stmts: &Vec<Stmt>) -> Seq<StmtView>
    decreases stmts,
{
    Seq::new(
        stmts.len() as nat,
        |i: int|
            if 0 <= i < stmts.len() {
                stmt_view(&stmts[i])
            } else {
                arbitrary()
            },
    )
}

/// The views of the declarations of `funs`, in order.
pub open spec fn fun_views(funs: &Vec<Rc<FunStmt>>) -> Seq<FunView>
    decreases funs,
{
    Seq::new(
        funs.len() as nat,
        |i: int|
            if 0 <= i < funs.len() {
                fun_view(&funs[i])
            } else {
                arbitrary()
            },
    )
}

pub open spec fn fun_view(f: &FunStmt) -> FunView
    decreases f,
{
    FunView {
        is_init: f.is_init,
        name: f.name@,
        params: crate::token::token_views(f.params@),
        body: stmt_views(&f.body),
    }
}

pub open spec fn stmt_view(s: &Stmt) -> StmtView
    decreases s,
{
    match s {
        Stmt::Expression(e) => StmtView::Expression(e@),
        Stmt::Print(e) => StmtView::Print(e@),
        Stmt::Var(v) => StmtView::Var { name: v.name@, val: v.val@ },
        Stmt::If(i) => StmtView::If {
            condition: i.condition@,
            then_b: Box::new(stmt_view(&i.then_b)),
            else_b: Box::new(stmt_view(&i.else_b)),
        },
        Stmt::While(w) => StmtView::While { condition: w.condition@, body: Box::new(stmt_view(&w.body)) },
        Stmt::Function(f) => StmtView::Function(fun_view(f)),
        Stmt::Block(stmts) => StmtView::Block(stmt_views(stmts)),
        Stmt::Return(r) => StmtView::Return { keyword: r.keyword@, value: r.value@ },
        Stmt::Class(c) => StmtView::Class {
            name: c.name@,
            superclass: superclass_view(c.superclass),
            methods: fun_views(&c.methods),
        },
    }
}

impl View for Stmt {
    type V = StmtView;

    open spec fn view(&self) -> StmtView {
        stmt_view(self)
    }
}

impl View for FunStmt {
    type V = FunView;

    open spec fn view(&self) -> FunView {
        fun_view(self)
    }
}

/// The literal `nil` as an expression.
pub open spec fn nil_expr() -> ExprView {
    ExprView::Literal(LiteralView::Nil)
}

/// The expression statement of the literal `nil`, which stands for an
/// absent `else`.
pub open spec fn nil_stmt() -> StmtView {
    StmtView::Expression(nil_expr())
}


impl ReturnStmt {
    pub fn new(keyword: Token, value: Expr) -> (r: Self)
        ensures
            r.keyword == keyword,
            r.value == value,
    {
        Self { keyword, value }
    }
}

impl IfStmt {
    pub fn new(cond: Expr, then_b: Stmt, else_b: Stmt) -> (r: Self)
        ensures
            r.condition == cond,
            *r.then_b == then_b,
            *r.else_b == else_b,
    {
        Self { condition: cond, then_b: Box::new(then_b), else_b: Box::new(else_b) }
    }
}

impl VarStmt {
    pub fn new(name: Token, val: Expr) -> (r: Self)
        ensures
            r.name == name,
            r.val == val,
    {
        Self { name, val }
    }
}

impl WhileStmt {
    pub fn new(cond: Expr, body: Stmt) -> (r: Self)
        ensures
            r.condition == cond,
            *r.body == body,
    {
        Self { condition: cond, body: Box::new(body) }
    }
}

impl FunStmt {
    /// The declaration of a function; a method named `init` declared this
    /// way is no initializer.
    pub fn new(name: Token, params: Vec<Token>, body: Vec<Stmt>) -> (r: Self)
        ensures
            !r.is_init,
            r.name == name,
            r.params == params,
            r.body == body,
    {
        Self { is_init: false, name, params, body }
    }

    /// The number of parameters.
    pub fn arity(&self) -> (n: usize)
        ensures
            n == self.params.len(),
    {
        self.params.len()
    }
}

impl ClassStmt {
    pub fn new(name: Token, methods: Vec<Rc<FunStmt>>, superclass: Option<VarExpr>) -> (r: Self)
        ensures
            r.name == name,
            r.methods == methods,
            r.superclass == superclass,
    {
        Self { name, superclass, methods }
    }
}

impl CallExpr {
    pub fn new(callee: Expr, paren: Token, args: Vec<Expr>) -> (r: Self)
        ensures
            *r.callee == callee,
            r.paren == paren,
            r.args == args,
    {
        Self { callee: Box::new(callee), paren, args }
    }
}

impl AssignmentExpr {
    /// An assignment that is not resolved yet.
    pub fn new(name: Token, initializer: Expr) -> (r: Self)
        ensures
            r.name == name,
            *r.value == initializer,
            r.depth is None,
    {
        Self { name, value: Box::new(initializer), depth: None }
    }
}

impl VarExpr {
    /// A use of a variable that is not resolved yet.
    pub fn new(name: Token) -> (r: Self)
        ensures
            r.name == name,
            r.depth is None,
    {
        Self { name, depth: None }
    }
}

impl ThisExpr {
    pub fn new(keyword: Token) -> (r: Self)
        ensures
            r.keyword == keyword,
            r.depth is None,
    {
        Self { keyword, depth: None }
    }
}

impl SuperExpr {
    pub fn new(keyword: Token, method: Token) -> (r: Self)
        ensures
            r.keyword == keyword,
            r.method == method,
            r.depth is None,
    {
        Self { keyword, method, depth: None }
    }
}

impl GetExpr {
    pub fn new(object: Expr, name: Token) -> (r: Self)
        ensures
            *r.object == object,
            r.name == name,
    {
        Self { object: Box::new(object), name }
    }
}

impl SetExpr {
    pub fn new(object: Expr, name: Token, value: Expr) -> (r: Self)
        ensures
            *r.object == object,
            r.name == name,
            *r.value == value,
    {
        Self { object: Box::new(object), name, value: Box::new(value) }
    }
}

impl BinaryExpr {
    pub fn new(left: Expr, operator: Token, right: Expr) -> (r: Self)
        ensures
            *r.left == left,
            r.operator == operator,
            *r.right == right,
    {
        Self { left: Box::new(left), operator, right: Box::new(right) }
    }
}

impl LogicalExpr {
    pub fn new(left: Expr, operator: Token, right: Expr) -> (r: Self)
        ensures
            *r.left == left,
            r.operator == operator,
            *r.right == right,
    {
        Self { left: Box::new(left), operator, right: Box::new(right) }
    }
}

impl GroupingExpr {
    pub fn new(expression: Expr) -> (r: Self)
        ensures
            *r.expression == expression,
    {
        Self { expression: Box::new(expression) }
    }
}

impl UnaryExpr {
    pub fn new(operator: Token, right: Expr) -> (r: Self)
        ensures
            r.operator == operator,
            *r.right == right,
    {
        Self { operator, right: Box::new(right) }
    }
}

} // verus!
