//! The text of a syntax tree: source text that the parser reads back as
//! the same tree. The host writes out the numbers.

use crate::ast::{
    ClassStmt, Expr, ExprView, FunStmt, FunView, LiteralExpr, LiteralView, Stmt, StmtView,
    expr_views, fun_views, stmt_views, superclass_view,
};
use crate::host::{Host, HostCall, Recorded, continues};
use crate::semantics::text_reply;
use crate::token::{Token, TokenView, token_views};
use std::rc::Rc;
use vstd::prelude::*;
use vstd::string::StringExecFns;

verus! {

/// A text and the calls of the host behind it.
pub struct Printed {
    pub text: Seq<char>,
    pub calls: Seq<HostCall>,
}

/// `text` with no call of the host.
pub open spec fn plain(text: Seq<char>, calls: Seq<HostCall>) -> Printed {
    Printed { text, calls }
}

/// `p` behind `before`.
pub open spec fn prefixed(before: Seq<char>, p: Printed) -> Printed {
    Printed { text: before + p.text, calls: p.calls }
}

/// `p` before `after`.
pub open spec fn suffixed(p: Printed, after: Seq<char>) -> Printed {
    Printed { text: p.text + after, calls: p.calls }
}

/// `p` between `before` and `after`.
pub open spec fn wrapped(before: Seq<char>, p: Printed, after: Seq<char>) -> Printed {
    Printed { text: before + p.text + after, calls: p.calls }
}

/// The text of a literal: the host writes out a number, a string stands in
/// quotes, and a handle, which no source text denotes, is a placeholder.
pub open spec fn literal_source(v: LiteralView, calls: Seq<HostCall>, script: Seq<HostCall>) -> Printed {
    match v {
        LiteralView::Nil => plain("nil"@, calls),
        LiteralView::Boolean(b) => plain(
            if b {
                "true"@
            } else {
                "false"@
            },
            calls,
        ),
        LiteralView::Number(bits) => {
            let text = text_reply(script, calls.len());
            Printed { text, calls: calls.push(HostCall::FormatNumber { bits, text }) }
        },
        LiteralView::String(s) => plain("\""@ + s + "\""@, calls),
        LiteralView::Call(_) => plain("<fn>"@, calls),
        LiteralView::Instance(_) => plain("<instance>"@, calls),
    }
}

/// The texts of the expressions `exprs` from the index `i` on, behind
/// `done`, with a comma before each but the first of the list.
#[verifier::opaque]
pub open spec fn exprs_source(exprs: Seq<ExprView>, i: nat, done: Printed, script: Seq<HostCall>) -> Printed
    decreases exprs, exprs.len() - i,
{
    if i >= exprs.len() {
        done
    } else {
        let one = expr_source(exprs[i as int], done.calls, script);
        let joined = if i == 0 {
            done.text + one.text
        } else {
            done.text + ", "@ + one.text
        };
        exprs_source(exprs, i + 1, Printed { text: joined, calls: one.calls }, script)
    }
}

/// The text of an expression.
#[verifier::opaque]
pub open spec fn expr_source(e: ExprView, calls: Seq<HostCall>, script: Seq<HostCall>) -> Printed
    decreases e, 0nat,
{
    match e {
        ExprView::Literal(v) => literal_source(v, calls, script),
        ExprView::Grouping { expression } => wrapped(
            "("@,
            expr_source(*expression, calls, script),
            ")"@,
        ),
        ExprView::Unary { operator, right } => prefixed(
            operator.lexeme,
            expr_source(*right, calls, script),
        ),
        ExprView::Binary { left, operator, right } => {
            let l = expr_source(*left, calls, script);
            prefixed(
                l.text + " "@ + operator.lexeme + " "@,
                expr_source(*right, l.calls, script),
            )
        },
        ExprView::Logical { left, operator, right } => {
            let l = expr_source(*left, calls, script);
            prefixed(
                l.text + " "@ + operator.lexeme + " "@,
                expr_source(*right, l.calls, script),
            )
        },
        ExprView::Var { name, depth } => plain(name.lexeme, calls),
        ExprView::Assign { name, value, depth } => prefixed(
            name.lexeme + " = "@,
            expr_source(*value, calls, script),
        ),
        ExprView::Call { callee, paren, args } => {
            let c = expr_source(*callee, calls, script);
            suffixed(exprs_source(args, 0, plain(c.text + "("@, c.calls), script), ")"@)
        },
        ExprView::Get { object, name } => {
            let o = expr_source(*object, calls, script);
            Printed { text: o.text + "."@ + name.lexeme, calls: o.calls }
        },
        ExprView::SetField { object, name, value } => {
            let o = expr_source(*object, calls, script);
            prefixed(
                o.text + "."@ + name.lexeme + " = "@,
                expr_source(*value, o.calls, script),
            )
        },
        ExprView::This { keyword, depth } => plain(keyword.lexeme, calls),
        ExprView::Super { keyword, method, depth } => plain(
            keyword.lexeme + "."@ + method.lexeme,
            calls,
        ),
    }
}

/// The names of the first `n` parameters, with a comma between every two.
pub open spec fn params_source(params: Seq<TokenView>, n: nat) -> Seq<char>
    decreases n,
{
    if n == 0 || n > params.len() {
        Seq::empty()
    } else if n == 1 {
        params[0].lexeme
    } else {
        params_source(params, (n - 1) as nat) + ", "@ + params[n - 1].lexeme
    }
}

/// The texts of the statements `stmts` from the index `i` on, each behind
/// a space, behind `done`.
#[verifier::opaque]
pub open spec fn stmts_source(stmts: Seq<StmtView>, i: nat, done: Printed, script: Seq<HostCall>) -> Printed
    decreases stmts, stmts.len() - i,
{
    if i >= stmts.len() {
        done
    } else {
        let one = stmt_source(stmts[i as int], done.calls, script);
        stmts_source(
            stmts,
            i + 1,
            Printed { text: done.text + " "@ + one.text, calls: one.calls },
            script,
        )
    }
}

/// The text of a function without the keyword `fun`: its name, its
/// parameters and its body.
#[verifier::opaque]
pub open spec fn fun_source(f: FunView, calls: Seq<HostCall>, script: Seq<HostCall>) -> Printed
    decreases f, 0nat,
{
    suffixed(
        stmts_source(
            f.body,
            0,
            plain(f.name.lexeme + "("@ + params_source(f.params, f.params.len()) + ") {"@, calls),
            script,
        ),
        " }"@,
    )
}

/// The texts of the methods `methods` from the index `i` on, each behind a
/// space, behind `done`.
#[verifier::opaque]
pub open spec fn methods_source(methods: Seq<FunView>, i: nat, done: Printed, script: Seq<HostCall>) -> Printed
    decreases methods, methods.len() - i,
{
    if i >= methods.len() {
        done
    } else {
        let one = fun_source(methods[i as int], done.calls, script);
        methods_source(
            methods,
            i + 1,
            Printed { text: done.text + " "@ + one.text, calls: one.calls },
            script,
        )
    }
}

/// The head of a class declaration, up to the `{` of its body.
pub open spec fn class_head_source(name: TokenView, superclass: Option<ExprView>) -> Seq<char> {
    match superclass {
        Some(ExprView::Var { name: parent, depth }) => "class "@ + name.lexeme + " < "@
            + parent.lexeme + " {"@,
        _ => "class "@ + name.lexeme + " {"@,
    }
}

/// The text of a statement. An `if` is written with its `else`, a
/// variable with its initializer and a `return` with its value also where
/// the source left them out.
#[verifier::opaque]
pub open spec fn stmt_source(s: StmtView, calls: Seq<HostCall>, script: Seq<HostCall>) -> Printed
    decreases s, 0nat,
{
    match s {
        StmtView::Expression(e) => suffixed(expr_source(e, calls, script), ";"@),
        StmtView::Print(e) => wrapped("print "@, expr_source(e, calls, script), ";"@),
        StmtView::Var { name, val } => wrapped(
            "var "@ + name.lexeme + " = "@,
            expr_source(val, calls, script),
            ";"@,
        ),
        StmtView::If { condition, then_b, else_b } => {
            let c = expr_source(condition, calls, script);
            let t = stmt_source(*then_b, c.calls, script);
            prefixed(
                "if ("@ + c.text + ") "@ + t.text + " else "@,
                stmt_source(*else_b, t.calls, script),
            )
        },
        StmtView::While { condition, body } => {
            let c = expr_source(condition, calls, script);
            prefixed("while ("@ + c.text + ") "@, stmt_source(*body, c.calls, script))
        },
        StmtView::Function(f) => prefixed("fun "@, fun_source(f, calls, script)),
        StmtView::Block(stmts) => suffixed(
            stmts_source(stmts, 0, plain("{"@, calls), script),
            " }"@,
        ),
        StmtView::Return { keyword, value } => wrapped(
            "return "@,
            expr_source(value, calls, script),
            ";"@,
        ),
        StmtView::Class { name, superclass, methods } => suffixed(
            methods_source(methods, 0, plain(class_head_source(name, superclass), calls), script),
            " }"@,
        ),
    }
}

/// However the host goes on from the calls `after`, `meaning` is the text
/// `text` with the calls `after` behind it.
pub open spec fn printed(
    text: Seq<char>,
    after: Seq<HostCall>,
    meaning: spec_fn(Seq<HostCall>) -> Printed,
) -> bool {
    forall|later: Seq<HostCall>, script: Seq<HostCall>|
        #![trigger continues(later, script)]
        continues(after, later) && continues(later, script) ==> meaning(script) == (Printed {
            text,
            calls: after,
        })
}

/// However the host goes on from the calls `calls`, `whole` and `rest`
/// are the same text.
pub open spec fn same_text(
    calls: Seq<HostCall>,
    whole: spec_fn(Seq<HostCall>) -> Printed,
    rest: spec_fn(Seq<HostCall>) -> Printed,
) -> bool {
    forall|later: Seq<HostCall>, script: Seq<HostCall>|
        #![trigger continues(later, script)]
        continues(calls, later) && continues(later, script) ==> whole(script) == rest(script)
}

impl LiteralExpr {
    /// The text of the literal.
    pub fn print<H: Host>(&self, host: &mut Recorded<H>) -> (text: String)
        ensures
            continues(old(host).calls(), final(host).calls()),
            printed(
                text@,
                final(host).calls(),
                |script: Seq<HostCall>| literal_source(self@, old(host).calls(), script),
            ),
    {
        match self {
            LiteralExpr::Nil => "nil".to_owned(),
            LiteralExpr::Boolean(b) => if *b {
                "true".to_owned()
            } else {
                "false".to_owned()
            },
            LiteralExpr::Number(bits) => host.format_number(*bits),
            LiteralExpr::String(s) => {
                let mut text = "\"".to_owned();
                text.append(s.as_str());
                text.append("\"");
                text
            },
            LiteralExpr::Call(_) => "<fn>".to_owned(),
            LiteralExpr::Instance(_) => "<instance>".to_owned(),
        }
    }
}

/// The texts of the expressions of a list, behind `head`, with a comma
/// between every two.
#[verifier::loop_isolation(false)]
fn print_exprs<H: Host>(exprs: &Vec<Expr>, head: String, host: &mut Recorded<H>) -> (text: String)
    ensures
        continues(old(host).calls(), final(host).calls()),
        printed(
            text@,
            final(host).calls(),
            |script: Seq<HostCall>|
                exprs_source(expr_views(exprs), 0, plain(head@, old(host).calls()), script),
        ),
    decreases exprs, 0nat,
{
    reveal(exprs_source);
    let mut text = head;
    let mut i: usize = 0;
    while i < exprs.len()
        invariant
            i <= exprs.len(),
            continues(old(host).calls(), host.calls()),
            same_text(
                host.calls(),
                |script: Seq<HostCall>|
                    exprs_source(expr_views(exprs), 0, plain(head@, old(host).calls()), script),
                |script: Seq<HostCall>|
                    exprs_source(
                        expr_views(exprs),
                        i as nat,
                        Printed { text: text@, calls: host.calls() },
                        script,
                    ),
            ),
        decreases exprs.len() - i,
    {
        reveal(exprs_source);
        reveal(expr_source);
        let one = exprs[i].print(host);
        if i > 0 {
            text.append(", ");
        }
        text.append(one.as_str());
        i += 1;
    }
    text
}

impl Expr {
    /// The text of the expression: source text that the parser reads back
    /// as this expression.
    pub fn print<H: Host>(&self, host: &mut Recorded<H>) -> (text: String)
        ensures
            continues(old(host).calls(), final(host).calls()),
            printed(
                text@,
                final(host).calls(),
                |script: Seq<HostCall>| expr_source(self@, old(host).calls(), script),
            ),
        decreases self, 0nat,
    {
        reveal(expr_source);
        reveal(exprs_source);
        match self {
            Expr::Literal(v) => v.print(host),
            Expr::Grouping(g) => {
                let inner = g.expression.print(host);
                let mut text = "(".to_owned();
                text.append(inner.as_str());
                text.append(")");
                text
            },
            Expr::Unary(u) => {
                let right = u.right.print(host);
                let mut text = u.operator.lexeme.clone();
                text.append(right.as_str());
                text
            },
            Expr::Binary(b) => {
                let mut text = b.left.print(host);
                let right = b.right.print(host);
                text.append(" ");
                text.append(b.operator.lexeme.as_str());
                text.append(" ");
                text.append(right.as_str());
                text
            },
            Expr::Logical(b) => {
                let mut text = b.left.print(host);
                let right = b.right.print(host);
                text.append(" ");
                text.append(b.operator.lexeme.as_str());
                text.append(" ");
                text.append(right.as_str());
                text
            },
            Expr::Var(v) => v.name.lexeme.clone(),
            Expr::Assign(a) => {
                let value = a.value.print(host);
                let mut text = a.name.lexeme.clone();
                text.append(" = ");
                text.append(value.as_str());
                text
            },
            Expr::Call(c) => {
                let mut head = c.callee.print(host);
                head.append("(");
                let mut text = print_exprs(&c.args, head, host);
                text.append(")");
                text
            },
            Expr::Get(g) => {
                let mut text = g.object.print(host);
                text.append(".");
                text.append(g.name.lexeme.as_str());
                text
            },
            Expr::SetField(s) => {
                let mut text = s.object.print(host);
                let value = s.value.print(host);
                text.append(".");
                text.append(s.name.lexeme.as_str());
                text.append(" = ");
                text.append(value.as_str());
                text
            },
            Expr::This(t) => t.keyword.lexeme.clone(),
            Expr::Super(s) => {
                let mut text = s.keyword.lexeme.clone();
                text.append(".");
                text.append(s.method.lexeme.as_str());
                text
            },
        }
    }
}

/// The names of the parameters, with a comma between every two.
fn print_params(params: &Vec<Token>) -> (text: String)
    ensures
        text@ == params_source(token_views(params@), params.len() as nat),
{
    let mut text = String::new();
    let mut i: usize = 0;
    assert(text@ =~= params_source(token_views(params@), 0));
    while i < params.len()
        invariant
            i <= params.len(),
            text@ == params_source(token_views(params@), i as nat),
        decreases params.len() - i,
    {
        assert(token_views(params@)[i as int] == params[i as int]@);
        assert(token_views(params@)[0] == params[0]@);
        if i > 0 {
            text.append(", ");
        }
        text.append(params[i].lexeme.as_str());
        i += 1;
        assert(text@ =~= params_source(token_views(params@), i as nat));
    }
    text
}

/// The texts of the statements of a list, each behind a space, behind
/// `head`.
#[verifier::loop_isolation(false)]
fn print_stmts<H: Host>(stmts: &Vec<Stmt>, head: String, host: &mut Recorded<H>) -> (text: String)
    ensures
        continues(old(host).calls(), final(host).calls()),
        printed(
            text@,
            final(host).calls(),
            |script: Seq<HostCall>|
                stmts_source(stmt_views(stmts), 0, plain(head@, old(host).calls()), script),
        ),
    decreases stmts, 0nat,
{
    reveal(stmts_source);
    let mut text = head;
    let mut i: usize = 0;
    while i < stmts.len()
        invariant
            i <= stmts.len(),
            continues(old(host).calls(), host.calls()),
            same_text(
                host.calls(),
                |script: Seq<HostCall>|
                    stmts_source(stmt_views(stmts), 0, plain(head@, old(host).calls()), script),
                |script: Seq<HostCall>|
                    stmts_source(
                        stmt_views(stmts),
                        i as nat,
                        Printed { text: text@, calls: host.calls() },
                        script,
                    ),
            ),
        decreases stmts.len() - i,
    {
        reveal(stmts_source);
        reveal(stmt_source);
        let one = stmts[i].print(host);
        text.append(" ");
        text.append(one.as_str());
        i += 1;
    }
    text
}

/// The text of a function without the keyword `fun`.
fn print_fun<H: Host>(f: &FunStmt, host: &mut Recorded<H>) -> (text: String)
    ensures
        continues(old(host).calls(), final(host).calls()),
        printed(
            text@,
            final(host).calls(),
            |script: Seq<HostCall>| fun_source(f@, old(host).calls(), script),
        ),
    decreases f, 1nat,
{
    reveal(fun_source);
    reveal(stmts_source);
    let mut head = f.name.lexeme.clone();
    head.append("(");
    head.append(print_params(&f.params).as_str());
    head.append(") {");
    let mut text = print_stmts(&f.body, head, host);
    text.append(" }");
    text
}

/// The texts of the methods of a class, each behind a space, behind
/// `head`.
#[verifier::loop_isolation(false)]
fn print_methods<H: Host>(methods: &Vec<Rc<FunStmt>>, head: String, host: &mut Recorded<H>) -> (text:
    String)
    ensures
        continues(old(host).calls(), final(host).calls()),
        printed(
            text@,
            final(host).calls(),
            |script: Seq<HostCall>|
                methods_source(fun_views(methods), 0, plain(head@, old(host).calls()), script),
        ),
    decreases methods, 0nat,
{
    reveal(methods_source);
    let mut text = head;
    let mut i: usize = 0;
    while i < methods.len()
        invariant
            i <= methods.len(),
            continues(old(host).calls(), host.calls()),
            same_text(
                host.calls(),
                |script: Seq<HostCall>|
                    methods_source(fun_views(methods), 0, plain(head@, old(host).calls()), script),
                |script: Seq<HostCall>|
                    methods_source(
                        fun_views(methods),
                        i as nat,
                        Printed { text: text@, calls: host.calls() },
                        script,
                    ),
            ),
        decreases methods.len() - i,
    {
        reveal(methods_source);
        reveal(fun_source);
        let one = print_fun(&methods[i], host);
        text.append(" ");
        text.append(one.as_str());
        i += 1;
    }
    text
}

/// The head of a class declaration, up to the `{` of its body.
fn print_class_head(class: &ClassStmt) -> (text: String)
    ensures
        text@ == class_head_source(class.name@, superclass_view(class.superclass)),
{
    let mut text = "class ".to_owned();
    text.append(class.name.lexeme.as_str());
    match &class.superclass {
        Some(parent) => {
            text.append(" < ");
            text.append(parent.name.lexeme.as_str());
        },
        None => {},
    }
    text.append(" {");
    text
}

impl Stmt {
    /// The text of the statement: source text that the parser reads back
    /// as this statement.
    pub fn print<H: Host>(&self, host: &mut Recorded<H>) -> (text: String)
        ensures
            continues(old(host).calls(), final(host).calls()),
            printed(
                text@,
                final(host).calls(),
                |script: Seq<HostCall>| stmt_source(self@, old(host).calls(), script),
            ),
        decreases self, 0nat,
    {
        reveal(stmt_source);
        reveal(stmts_source);
        reveal(fun_source);
        reveal(methods_source);
        match self {
            Stmt::Expression(e) => {
                let mut text = e.print(host);
                text.append(";");
                text
            },
            Stmt::Print(e) => {
                let value = e.print(host);
                let mut text = "print ".to_owned();
                text.append(value.as_str());
                text.append(";");
                text
            },
            Stmt::Var(v) => {
                let value = v.val.print(host);
                let mut text = "var ".to_owned();
                text.append(v.name.lexeme.as_str());
                text.append(" = ");
                text.append(value.as_str());
                text.append(";");
                text
            },
            Stmt::If(branch) => {
                let condition = branch.condition.print(host);
                let then_b = branch.then_b.print(host);
                let else_b = branch.else_b.print(host);
                let mut text = "if (".to_owned();
                text.append(condition.as_str());
                text.append(") ");
                text.append(then_b.as_str());
                text.append(" else ");
                text.append(else_b.as_str());
                text
            },
            Stmt::While(looping) => {
                let condition = looping.condition.print(host);
                let body = looping.body.print(host);
                let mut text = "while (".to_owned();
                text.append(condition.as_str());
                text.append(") ");
                text.append(body.as_str());
                text
            },
            Stmt::Function(f) => {
                let function = print_fun(f, host);
                let mut text = "fun ".to_owned();
                text.append(function.as_str());
                text
            },
            Stmt::Block(stmts) => {
                let mut text = print_stmts(stmts, "{".to_owned(), host);
                text.append(" }");
                text
            },
            Stmt::Return(ret) => {
                let value = ret.value.print(host);
                let mut text = "return ".to_owned();
                text.append(value.as_str());
                text.append(";");
                text
            },
            Stmt::Class(class) => {
                let mut text = print_methods(&class.methods, print_class_head(class), host);
                text.append(" }");
                text
            },
        }
    }
}

} // verus!
