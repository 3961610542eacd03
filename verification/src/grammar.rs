//! The grammar of expressions, as functions from a token sequence and a
//! position to what the parser makes of the tokens from there on.

use crate::ast::{ExprView, FunView, LiteralView, StmtView, nil_expr, nil_stmt};
use crate::errors::ParseErr;
use crate::token::{TokenKind, TokenView};
use vstd::prelude::*;

verus! {

pub enum ParseErrView {
    ExpectedToken(Seq<char>, nat),
    UnexpectedEOF(nat),
    TooManyArguments(nat),
    TooManyParameters(nat),
    InvalidAssignment(nat),
}

impl View for ParseErr {
    type V = ParseErrView;

    open spec fn view(&self) -> ParseErrView {
        match self {
            ParseErr::ExpectedToken(msg, line) => ParseErrView::ExpectedToken(msg@, *line as nat),
            ParseErr::UnexpectedEOF(line) => ParseErrView::UnexpectedEOF(*line as nat),
            ParseErr::TooManyArguments(line) => ParseErrView::TooManyArguments(*line as nat),
            ParseErr::TooManyParameters(line) => ParseErrView::TooManyParameters(*line as nat),
            ParseErr::InvalidAssignment(line) => ParseErrView::InvalidAssignment(*line as nat),
        }
    }
}

pub open spec fn err_views(errors: Seq<ParseErr>) -> Seq<ParseErrView> {
    errors.map_values(|e: ParseErr| e@)
}

/// What a rule of the grammar makes of the tokens from a position on: how
/// many tokens it consumes, the errors reported up to its end (those
/// reported before it began come first), and the tree it builds or the
/// error it stops at.
pub struct Parsed<T> {
    pub consumed: nat,
    pub errors: Seq<ParseErrView>,
    pub result: Result<T, ParseErrView>,
}

/// A rule that consumes nothing, reports nothing and succeeds with `value`.
pub open spec fn done<T>(errors: Seq<ParseErrView>, value: T) -> Parsed<T> {
    Parsed { consumed: 0, errors, result: Ok(value) }
}

/// A rule that stops at `e` after `consumed` tokens.
pub open spec fn failed<T>(consumed: nat, errors: Seq<ParseErrView>, e: ParseErrView) -> Parsed<T> {
    Parsed { consumed, errors, result: Err(e) }
}

/// A rule that succeeds with `value` after `consumed` tokens.
pub open spec fn parsed<T>(consumed: nat, errors: Seq<ParseErrView>, value: T) -> Parsed<T> {
    Parsed { consumed, errors, result: Ok(value) }
}

/// `p`, after the `consumed` tokens that stand before it.
pub open spec fn after<T>(consumed: nat, p: Parsed<T>) -> Parsed<T> {
    Parsed { consumed: consumed + p.consumed, errors: p.errors, result: p.result }
}

/// The token that closes a token sequence which lacks its end-of-file
/// token: on the line of the last token.
pub open spec fn closing_token(ts: Seq<TokenView>) -> TokenView {
    TokenView {
        kind: TokenKind::EOF,
        text: Seq::empty(),
        bits: 0,
        lexeme: Seq::empty(),
        line: if ts.len() > 0 {
            ts.last().line
        } else {
            0
        },
    }
}

/// The token at `pos`; past the end, the closing token.
pub open spec fn peek_at(ts: Seq<TokenView>, pos: nat) -> TokenView {
    if pos < ts.len() {
        ts[pos as int]
    } else {
        closing_token(ts)
    }
}

pub open spec fn kind_at(ts: Seq<TokenView>, pos: nat) -> TokenKind {
    peek_at(ts, pos).kind
}

pub open spec fn line_at(ts: Seq<TokenView>, pos: nat) -> nat {
    peek_at(ts, pos).line
}

/// The number of tokens from `pos` to the end of the sequence.
pub open spec fn remaining(ts: Seq<TokenView>, pos: nat) -> nat {
    if pos <= ts.len() {
        (ts.len() - pos) as nat
    } else {
        0
    }
}

/// What `consume` reports where the token at `pos` is not of kind `kind`.
pub open spec fn expect(ts: Seq<TokenView>, pos: nat, kind: TokenKind, msg: Seq<char>) -> Option<
    ParseErrView,
> {
    if kind_at(ts, pos) == kind {
        None
    } else {
        Some(ParseErrView::ExpectedToken(msg, line_at(ts, pos)))
    }
}

/// The levels of binary operators, from the loosest to the tightest.
#[derive(Clone, Copy, Debug, PartialEq, Eq, Structural)]
pub enum Level {
    Or,
    And,
    Equality,
    Comparison,
    Term,
    Factor,
}

pub open spec fn level_rank(level: Level) -> nat {
    match level {
        Level::Or => 6,
        Level::And => 5,
        Level::Equality => 4,
        Level::Comparison => 3,
        Level::Term => 2,
        Level::Factor => 1,
    }
}

/// The next tighter level; `Factor` has none, its operands are unary.
pub open spec fn tighter(level: Level) -> Level {
    match level {
        Level::Or => Level::And,
        Level::And => Level::Equality,
        Level::Equality => Level::Comparison,
        Level::Comparison => Level::Term,
        Level::Term => Level::Factor,
        Level::Factor => Level::Factor,
    }
}

/// Whether `kind` is an operator of `level`.
pub open spec fn level_has(level: Level, kind: TokenKind) -> bool {
    match level {
        Level::Or => kind == TokenKind::Or,
        Level::And => kind == TokenKind::And,
        Level::Equality => kind == TokenKind::BangEqual || kind == TokenKind::EqualEqual,
        Level::Comparison => kind == TokenKind::Greater || kind == TokenKind::GreaterEqual || kind
            == TokenKind::Less || kind == TokenKind::LessEqual,
        Level::Term => kind == TokenKind::Minus || kind == TokenKind::Plus,
        Level::Factor => kind == TokenKind::Star || kind == TokenKind::Slash,
    }
}

/// The node for `left operator right` at `level`.
pub open spec fn join(level: Level, left: ExprView, operator: TokenView, right: ExprView) -> ExprView {
    match level {
        Level::Or | Level::And => ExprView::Logical {
            left: Box::new(left),
            operator,
            right: Box::new(right),
        },
        _ => ExprView::Binary { left: Box::new(left), operator, right: Box::new(right) },
    }
}

/// expression := assignment
#[verifier::opaque]
pub open spec fn expression(ts: Seq<TokenView>, pos: nat, errs: Seq<ParseErrView>) -> Parsed<ExprView>
    decreases remaining(ts, pos), 16nat,
{
    assignment(ts, pos, errs)
}

/// What an assignment makes of `target = value`, where `equals` is the
/// line of the `=`: a variable is assigned, a property is set, and any
/// other target is reported and kept as the expression.
pub open spec fn assign_to(
    target: ExprView,
    value: ExprView,
    equals: nat,
    errs: Seq<ParseErrView>,
) -> Parsed<ExprView> {
    match target {
        ExprView::Var { name, depth } => done(
            errs,
            ExprView::Assign { name, value: Box::new(value), depth: None },
        ),
        ExprView::Get { object, name } => done(
            errs,
            ExprView::SetField { object, name, value: Box::new(value) },
        ),
        _ => done(errs.push(ParseErrView::InvalidAssignment(equals)), target),
    }
}

/// assignment := (call ".")? IDENT "=" assignment | logic_or
#[verifier::opaque]
pub open spec fn assignment(ts: Seq<TokenView>, pos: nat, errs: Seq<ParseErrView>) -> Parsed<ExprView>
    decreases remaining(ts, pos), 15nat,
{
    let left = binary(ts, pos, Level::Or, errs);
    match left.result {
        Err(_) => left,
        Ok(target) => {
            let at: nat = pos + left.consumed;
            if kind_at(ts, at) == TokenKind::Equal && at < ts.len() {
                let right = assignment(ts, at + 1, left.errors);
                match right.result {
                    Err(e) => after(left.consumed + 1, right),
                    Ok(value) => after(
                        left.consumed + 1 + right.consumed,
                        assign_to(target, value, line_at(ts, at), right.errors),
                    ),
                }
            } else {
                left
            }
        },
    }
}

/// The operand of a binary operator of `level`.
#[verifier::opaque]
pub open spec fn operand(ts: Seq<TokenView>, pos: nat, level: Level, errs: Seq<ParseErrView>) -> Parsed<
    ExprView,
>
    decreases remaining(ts, pos), 2 * level_rank(level) + 1,
{
    if level == Level::Factor {
        unary(ts, pos, errs)
    } else {
        binary(ts, pos, tighter(level), errs)
    }
}

/// A chain of operands of `level`, joined to the left by the operators of
/// that level.
#[verifier::opaque]
pub open spec fn binary(ts: Seq<TokenView>, pos: nat, level: Level, errs: Seq<ParseErrView>) -> Parsed<
    ExprView,
>
    decreases remaining(ts, pos), 2 * level_rank(level) + 2,
{
    let first = operand(ts, pos, level, errs);
    match first.result {
        Err(_) => first,
        Ok(left) => after(
            first.consumed,
            binary_rest(ts, pos + first.consumed, level, left, first.errors),
        ),
    }
}

/// The rest of a chain of `level` whose operands so far make `left`.
#[verifier::opaque]
pub open spec fn binary_rest(
    ts: Seq<TokenView>,
    pos: nat,
    level: Level,
    left: ExprView,
    errs: Seq<ParseErrView>,
) -> Parsed<ExprView>
    decreases remaining(ts, pos), 0nat,
{
    if level_has(level, kind_at(ts, pos)) && pos < ts.len() {
        let right = operand(ts, pos + 1, level, errs);
        match right.result {
            Err(e) => after(1, right),
            Ok(r) => after(
                1 + right.consumed,
                binary_rest(
                    ts,
                    pos + 1 + right.consumed,
                    level,
                    join(level, left, ts[pos as int], r),
                    right.errors,
                ),
            ),
        }
    } else {
        done(errs, left)
    }
}

/// unary := ("!" | "-") unary | call
#[verifier::opaque]
pub open spec fn unary(ts: Seq<TokenView>, pos: nat, errs: Seq<ParseErrView>) -> Parsed<ExprView>
    decreases remaining(ts, pos), 2nat,
{
    if (kind_at(ts, pos) == TokenKind::Bang || kind_at(ts, pos) == TokenKind::Minus) && pos
        < ts.len() {
        let right = unary(ts, pos + 1, errs);
        match right.result {
            Err(e) => after(1, right),
            Ok(r) => parsed(
                1 + right.consumed,
                right.errors,
                ExprView::Unary { operator: ts[pos as int], right: Box::new(r) },
            ),
        }
    } else {
        call(ts, pos, errs)
    }
}

/// call := primary ( "(" args? ")" | "." IDENT )*
#[verifier::opaque]
pub open spec fn call(ts: Seq<TokenView>, pos: nat, errs: Seq<ParseErrView>) -> Parsed<ExprView>
    decreases remaining(ts, pos), 1nat,
{
    let first = primary(ts, pos, errs);
    match first.result {
        Err(_) => first,
        Ok(callee) => after(
            first.consumed,
            call_rest(ts, pos + first.consumed, callee, first.errors),
        ),
    }
}

/// The calls and property accesses that follow `callee`.
#[verifier::opaque]
pub open spec fn call_rest(
    ts: Seq<TokenView>,
    pos: nat,
    callee: ExprView,
    errs: Seq<ParseErrView>,
) -> Parsed<ExprView>
    decreases remaining(ts, pos), 0nat,
{
    if kind_at(ts, pos) == TokenKind::LeftParen && pos < ts.len() {
        let made = finish_call(ts, pos + 1, callee, errs);
        match made.result {
            Err(e) => after(1, made),
            Ok(c) => after(
                1 + made.consumed,
                call_rest(ts, pos + 1 + made.consumed, c, made.errors),
            ),
        }
    } else if kind_at(ts, pos) == TokenKind::Dot && pos < ts.len() {
        match expect(ts, pos + 1, TokenKind::Identifier, "Expect property name after '.'."@) {
            Some(e) => failed(1, errs, e),
            None => after(
                2,
                call_rest(
                    ts,
                    pos + 2,
                    ExprView::Get { object: Box::new(callee), name: peek_at(ts, pos + 1) },
                    errs,
                ),
            ),
        }
    } else {
        done(errs, callee)
    }
}

/// The arguments of a call from `pos` on, after the arguments `args`: a
/// call with more than 255 arguments is reported and parsed on.
#[verifier::opaque]
pub open spec fn arguments(
    ts: Seq<TokenView>,
    pos: nat,
    args: Seq<ExprView>,
    errs: Seq<ParseErrView>,
) -> Parsed<Seq<ExprView>>
    decreases remaining(ts, pos), 17nat,
{
    let reported = if args.len() >= 255 {
        errs.push(ParseErrView::TooManyArguments(line_at(ts, pos)))
    } else {
        errs
    };
    let arg = expression(ts, pos, reported);
    match arg.result {
        Err(e) => failed(arg.consumed, arg.errors, e),
        Ok(a) => {
            let at: nat = pos + arg.consumed;
            if kind_at(ts, at) == TokenKind::Comma && at < ts.len() {
                after(arg.consumed + 1, arguments(ts, at + 1, args.push(a), arg.errors))
            } else {
                parsed(arg.consumed, arg.errors, args.push(a))
            }
        },
    }
}

/// The call of `callee` whose `(` stands before `pos`.
#[verifier::opaque]
pub open spec fn finish_call(
    ts: Seq<TokenView>,
    pos: nat,
    callee: ExprView,
    errs: Seq<ParseErrView>,
) -> Parsed<ExprView>
    decreases remaining(ts, pos), 18nat,
{
    let args = if kind_at(ts, pos) == TokenKind::RightParen {
        done(errs, Seq::empty())
    } else {
        arguments(ts, pos, Seq::empty(), errs)
    };
    match args.result {
        Err(e) => failed(args.consumed, args.errors, e),
        Ok(list) => {
            let at: nat = pos + args.consumed;
            match expect(ts, at, TokenKind::RightParen, "Expected ')' after arguments."@) {
                Some(e) => failed(args.consumed, args.errors, e),
                None => parsed(
                    args.consumed + 1,
                    args.errors,
                    ExprView::Call { callee: Box::new(callee), paren: peek_at(ts, at), args: list },
                ),
            }
        },
    }
}

/// primary := "true" | "false" | "nil" | "this" | NUMBER | STRING
///          | "super" "." IDENT | IDENT | "(" expression ")"
#[verifier::opaque]
pub open spec fn primary(ts: Seq<TokenView>, pos: nat, errs: Seq<ParseErrView>) -> Parsed<ExprView>
    decreases remaining(ts, pos), 0nat,
{
    let token = peek_at(ts, pos);
    if pos >= ts.len() {
        failed(0, errs, ParseErrView::UnexpectedEOF(token.line))
    } else {
        match token.kind {
            TokenKind::False => parsed(1, errs, ExprView::Literal(LiteralView::Boolean(false))),
            TokenKind::True => parsed(1, errs, ExprView::Literal(LiteralView::Boolean(true))),
            TokenKind::Nil => parsed(1, errs, ExprView::Literal(LiteralView::Nil)),
            TokenKind::Number => parsed(1, errs, ExprView::Literal(LiteralView::Number(token.bits))),
            TokenKind::String => parsed(1, errs, ExprView::Literal(LiteralView::String(token.text))),
            TokenKind::LeftParen => {
                let inner = expression(ts, pos + 1, errs);
                match inner.result {
                    Err(e) => after(1, inner),
                    Ok(e) => match expect(
                        ts,
                        pos + 1 + inner.consumed,
                        TokenKind::RightParen,
                        "Expect ')' after expression."@,
                    ) {
                        Some(err) => failed(1 + inner.consumed, inner.errors, err),
                        None => parsed(
                            2 + inner.consumed,
                            inner.errors,
                            ExprView::Grouping { expression: Box::new(e) },
                        ),
                    },
                }
            },
            TokenKind::This => parsed(1, errs, ExprView::This { keyword: token, depth: None }),
            TokenKind::Super => match expect(
                ts,
                pos + 1,
                TokenKind::Dot,
                "Expect '.' after 'super'."@,
            ) {
                Some(e) => failed(1, errs, e),
                None => match expect(
                    ts,
                    pos + 2,
                    TokenKind::Identifier,
                    "Expect superclass method name."@,
                ) {
                    Some(e) => failed(2, errs, e),
                    None => parsed(
                        3,
                        errs,
                        ExprView::Super {
                            keyword: token,
                            method: peek_at(ts, pos + 2),
                            depth: None,
                        },
                    ),
                },
            },
            TokenKind::Identifier => parsed(1, errs, ExprView::Var { name: token, depth: None }),
            _ => failed(0, errs, ParseErrView::UnexpectedEOF(token.line)),
        }
    }
}


/// `p`, which stopped at an error, as the outcome of a rule that builds
/// something else.
pub open spec fn fail_as<T, U>(p: Parsed<T>) -> Parsed<U> {
    Parsed { consumed: p.consumed, errors: p.errors, result: Err(p.result->Err_0) }
}

/// Whether a statement may start with a token of kind `kind`, so that the
/// parser resumes there after an error.
pub open spec fn starts_statement(kind: TokenKind) -> bool {
    kind == TokenKind::Class || kind == TokenKind::Fun || kind == TokenKind::Var || kind
        == TokenKind::For || kind == TokenKind::If || kind == TokenKind::While || kind
        == TokenKind::Print || kind == TokenKind::Return
}

/// The number of tokens from `pos` on that synchronization discards after
/// the first: up to the end, to behind a semicolon, or to a token that
/// starts a statement.
pub open spec fn sync_rest(ts: Seq<TokenView>, pos: nat) -> nat
    decreases remaining(ts, pos),
{
    if pos >= ts.len() || kind_at(ts, pos) == TokenKind::EOF {
        0
    } else if pos > 0 && kind_at(ts, (pos - 1) as nat) == TokenKind::Semicolon {
        0
    } else if starts_statement(kind_at(ts, pos)) {
        0
    } else {
        1 + sync_rest(ts, pos + 1)
    }
}

/// The number of tokens from `pos` on that synchronization discards.
pub open spec fn sync_len(ts: Seq<TokenView>, pos: nat) -> nat {
    if pos >= ts.len() || kind_at(ts, pos) == TokenKind::EOF {
        0
    } else {
        1 + sync_rest(ts, pos + 1)
    }
}

/// The statement that `make` builds of an expression and the `;` behind
/// it; `msg` is reported where the `;` is missing.
pub open spec fn closed_by_semicolon(
    ts: Seq<TokenView>,
    pos: nat,
    value: Parsed<ExprView>,
    msg: Seq<char>,
    make: spec_fn(ExprView) -> StmtView,
) -> Parsed<StmtView> {
    match value.result {
        Err(_) => fail_as(value),
        Ok(v) => match expect(ts, pos + value.consumed, TokenKind::Semicolon, msg) {
            Some(e) => failed(value.consumed, value.errors, e),
            None => parsed(value.consumed + 1, value.errors, make(v)),
        },
    }
}

/// printStmt := "print" expression ";", from behind the keyword.
#[verifier::opaque]
pub open spec fn print_stmt(ts: Seq<TokenView>, pos: nat, errs: Seq<ParseErrView>) -> Parsed<StmtView> {
    closed_by_semicolon(
        ts,
        pos,
        expression(ts, pos, errs),
        "Expected ';' after value."@,
        |v: ExprView| StmtView::Print(v),
    )
}

/// exprStmt := expression ";"
#[verifier::opaque]
pub open spec fn expr_stmt(ts: Seq<TokenView>, pos: nat, errs: Seq<ParseErrView>) -> Parsed<StmtView> {
    closed_by_semicolon(
        ts,
        pos,
        expression(ts, pos, errs),
        "Expected ';' after expression."@,
        |v: ExprView| StmtView::Expression(v),
    )
}

/// returnStmt := "return" expression? ";", from behind the keyword.
#[verifier::opaque]
pub open spec fn return_stmt(ts: Seq<TokenView>, pos: nat, errs: Seq<ParseErrView>) -> Parsed<StmtView> {
    let keyword = peek_at(ts, (pos - 1) as nat);
    let value = if kind_at(ts, pos) == TokenKind::Semicolon {
        done(errs, nil_expr())
    } else {
        expression(ts, pos, errs)
    };
    closed_by_semicolon(
        ts,
        pos,
        value,
        "Expect ';' after return value."@,
        |v: ExprView| StmtView::Return { keyword, value: v },
    )
}

/// varDecl := "var" IDENT ("=" expression)? ";", from behind the keyword.
#[verifier::opaque]
pub open spec fn var_dec(ts: Seq<TokenView>, pos: nat, errs: Seq<ParseErrView>) -> Parsed<StmtView> {
    match expect(ts, pos, TokenKind::Identifier, "Expected a variable name"@) {
        Some(e) => failed(0, errs, e),
        None => {
            let name = peek_at(ts, pos);
            let init = if kind_at(ts, pos + 1) == TokenKind::Equal {
                after(2, expression(ts, pos + 2, errs))
            } else {
                parsed(1, errs, nil_expr())
            };
            closed_by_semicolon(
                ts,
                pos,
                init,
                "Expect ';' after variable declaration."@,
                |v: ExprView| StmtView::Var { name, val: v },
            )
        },
    }
}

/// The parameters of a function from `pos` on, after the parameters
/// `params`: a function with more than 255 parameters is reported and
/// parsed on.
#[verifier::opaque]
pub open spec fn parameters(
    ts: Seq<TokenView>,
    pos: nat,
    params: Seq<TokenView>,
    errs: Seq<ParseErrView>,
) -> Parsed<Seq<TokenView>>
    decreases remaining(ts, pos),
{
    let reported = if params.len() >= 255 {
        errs.push(ParseErrView::TooManyParameters(line_at(ts, pos)))
    } else {
        errs
    };
    match expect(ts, pos, TokenKind::Identifier, "Expect parameter name."@) {
        Some(e) => failed(0, reported, e),
        None => {
            let longer = params.push(peek_at(ts, pos));
            if kind_at(ts, pos + 1) == TokenKind::Comma {
                after(2, parameters(ts, pos + 2, longer, reported))
            } else {
                parsed(1, reported, longer)
            }
        },
    }
}

/// The first clause of a `for`, with its `;`: nothing, a variable
/// declaration or an expression statement.
#[verifier::opaque]
pub open spec fn for_initializer(ts: Seq<TokenView>, pos: nat, errs: Seq<ParseErrView>) -> Parsed<
    Option<StmtView>,
> {
    if kind_at(ts, pos) == TokenKind::Semicolon {
        parsed(1, errs, None)
    } else {
        let init = if kind_at(ts, pos) == TokenKind::Var {
            after(1, var_dec(ts, pos + 1, errs))
        } else {
            expr_stmt(ts, pos, errs)
        };
        match init.result {
            Err(_) => fail_as(init),
            Ok(s) => parsed(init.consumed, init.errors, Some(s)),
        }
    }
}

/// The second clause of a `for`, with its `;`: an absent condition is
/// `true`.
#[verifier::opaque]
pub open spec fn for_condition(ts: Seq<TokenView>, pos: nat, errs: Seq<ParseErrView>) -> Parsed<
    ExprView,
> {
    let cond = if kind_at(ts, pos) == TokenKind::Semicolon {
        done(errs, ExprView::Literal(LiteralView::Boolean(true)))
    } else {
        expression(ts, pos, errs)
    };
    match cond.result {
        Err(_) => cond,
        Ok(c) => match expect(
            ts,
            pos + cond.consumed,
            TokenKind::Semicolon,
            "Expect ';' after a loop condition."@,
        ) {
            Some(e) => failed(cond.consumed, cond.errors, e),
            None => parsed(cond.consumed + 1, cond.errors, c),
        },
    }
}

/// The third clause of a `for`, with the `)`.
#[verifier::opaque]
pub open spec fn for_increment(ts: Seq<TokenView>, pos: nat, errs: Seq<ParseErrView>) -> Parsed<
    Option<ExprView>,
> {
    if kind_at(ts, pos) == TokenKind::RightParen {
        parsed(1, errs, None)
    } else {
        let incr = expression(ts, pos, errs);
        match incr.result {
            Err(_) => fail_as(incr),
            Ok(i) => match expect(
                ts,
                pos + incr.consumed,
                TokenKind::RightParen,
                "Expect ')' after for clauses."@,
            ) {
                Some(e) => failed(incr.consumed, incr.errors, e),
                None => parsed(incr.consumed + 1, incr.errors, Some(i)),
            },
        }
    }
}

/// The loop that `for (init; cond; incr) body` stands for:
/// `{ init; while (cond) { body; incr; } }`, without the block around a
/// clause that is absent.
pub open spec fn desugar_for(
    init: Option<StmtView>,
    cond: ExprView,
    incr: Option<ExprView>,
    body: StmtView,
) -> StmtView {
    let inner = match incr {
        Some(i) => StmtView::Block(seq![body, StmtView::Expression(i)]),
        None => body,
    };
    let looping = StmtView::While { condition: cond, body: Box::new(inner) };
    match init {
        Some(s) => StmtView::Block(seq![s, looping]),
        None => looping,
    }
}

/// statement := exprStmt | printStmt | block | ifStmt | whileStmt
///            | forStmt | returnStmt
#[verifier::opaque]
pub open spec fn statement(ts: Seq<TokenView>, pos: nat, errs: Seq<ParseErrView>) -> Parsed<StmtView>
    decreases remaining(ts, pos), 0nat,
{
    match kind_at(ts, pos) {
        TokenKind::Print => after(1, print_stmt(ts, pos + 1, errs)),
        TokenKind::Return => after(1, return_stmt(ts, pos + 1, errs)),
        TokenKind::LeftBrace => {
            let inner = block(ts, pos + 1, errs);
            match inner.result {
                Err(_) => after(1, fail_as(inner)),
                Ok(stmts) => parsed(1 + inner.consumed, inner.errors, StmtView::Block(stmts)),
            }
        },
        TokenKind::If => after(1, if_stmt(ts, pos + 1, errs)),
        TokenKind::While => after(1, while_stmt(ts, pos + 1, errs)),
        TokenKind::For => after(1, for_stmt(ts, pos + 1, errs)),
        _ => expr_stmt(ts, pos, errs),
    }
}

/// The condition of an `if` or a `while` in its parentheses; `open` and
/// `close` are reported where a parenthesis is missing.
#[verifier::opaque]
pub open spec fn condition(
    ts: Seq<TokenView>,
    pos: nat,
    errs: Seq<ParseErrView>,
    open: Seq<char>,
    close: Seq<char>,
) -> Parsed<ExprView> {
    match expect(ts, pos, TokenKind::LeftParen, open) {
        Some(e) => failed(0, errs, e),
        None => {
            let cond = expression(ts, pos + 1, errs);
            match cond.result {
                Err(_) => after(1, cond),
                Ok(c) => match expect(ts, pos + 1 + cond.consumed, TokenKind::RightParen, close) {
                    Some(e) => failed(1 + cond.consumed, cond.errors, e),
                    None => parsed(2 + cond.consumed, cond.errors, c),
                },
            }
        },
    }
}

/// ifStmt := "if" "(" expression ")" statement ("else" statement)?, from
/// behind the keyword.
#[verifier::opaque]
pub open spec fn if_stmt(ts: Seq<TokenView>, pos: nat, errs: Seq<ParseErrView>) -> Parsed<StmtView>
    decreases remaining(ts, pos), 0nat,
{
    let cond = condition(
        ts,
        pos,
        errs,
        "Expect '(' after 'if'."@,
        "Expect ')' after if condition."@,
    );
    match cond.result {
        Err(_) => fail_as(cond),
        Ok(c) => {
            if cond.consumed >= 2 && pos < ts.len() {
                let then_b = statement(ts, pos + cond.consumed, cond.errors);
                match then_b.result {
                    Err(_) => after(cond.consumed, then_b),
                    Ok(t) => {
                        let at: nat = pos + cond.consumed + then_b.consumed;
                        if kind_at(ts, at) == TokenKind::Else {
                            let else_b = statement(ts, at + 1, then_b.errors);
                            match else_b.result {
                                Err(_) => after(cond.consumed + then_b.consumed + 1, else_b),
                                Ok(e) => parsed(
                                    cond.consumed + then_b.consumed + 1 + else_b.consumed,
                                    else_b.errors,
                                    StmtView::If {
                                        condition: c,
                                        then_b: Box::new(t),
                                        else_b: Box::new(e),
                                    },
                                ),
                            }
                        } else {
                            parsed(
                                cond.consumed + then_b.consumed,
                                then_b.errors,
                                StmtView::If {
                                    condition: c,
                                    then_b: Box::new(t),
                                    else_b: Box::new(nil_stmt()),
                                },
                            )
                        }
                    },
                }
            } else {
                fail_as(cond)
            }
        },
    }
}

/// whileStmt := "while" "(" expression ")" statement, from behind the
/// keyword.
#[verifier::opaque]
pub open spec fn while_stmt(ts: Seq<TokenView>, pos: nat, errs: Seq<ParseErrView>) -> Parsed<StmtView>
    decreases remaining(ts, pos), 0nat,
{
    let cond = condition(
        ts,
        pos,
        errs,
        "Expect '(' after 'while'."@,
        "Expect ')' after condition."@,
    );
    match cond.result {
        Err(_) => fail_as(cond),
        Ok(c) => {
            if cond.consumed >= 2 && pos < ts.len() {
                let body = statement(ts, pos + cond.consumed, cond.errors);
                match body.result {
                    Err(_) => after(cond.consumed, body),
                    Ok(b) => parsed(
                        cond.consumed + body.consumed,
                        body.errors,
                        StmtView::While { condition: c, body: Box::new(b) },
                    ),
                }
            } else {
                fail_as(cond)
            }
        },
    }
}

/// The three clauses of a `for` in their parentheses.
pub struct ForClauses {
    pub init: Option<StmtView>,
    pub cond: ExprView,
    pub incr: Option<ExprView>,
}

#[verifier::opaque]
pub open spec fn for_clauses(ts: Seq<TokenView>, pos: nat, errs: Seq<ParseErrView>) -> Parsed<
    ForClauses,
> {
    match expect(ts, pos, TokenKind::LeftParen, "Expect '(' after 'for'."@) {
        Some(e) => failed(0, errs, e),
        None => {
            let init = for_initializer(ts, pos + 1, errs);
            match init.result {
                Err(_) => after(1, fail_as(init)),
                Ok(i) => {
                    let cond = for_condition(ts, pos + 1 + init.consumed, init.errors);
                    match cond.result {
                        Err(_) => after(1 + init.consumed, fail_as(cond)),
                        Ok(c) => {
                            let incr = for_increment(
                                ts,
                                pos + 1 + init.consumed + cond.consumed,
                                cond.errors,
                            );
                            match incr.result {
                                Err(_) => after(1 + init.consumed + cond.consumed, fail_as(incr)),
                                Ok(n) => parsed(
                                    1 + init.consumed + cond.consumed + incr.consumed,
                                    incr.errors,
                                    ForClauses { init: i, cond: c, incr: n },
                                ),
                            }
                        },
                    }
                },
            }
        },
    }
}

/// forStmt := "for" "(" (varDecl | exprStmt | ";") expression? ";"
///            expression? ")" statement, from behind the keyword.
#[verifier::opaque]
pub open spec fn for_stmt(ts: Seq<TokenView>, pos: nat, errs: Seq<ParseErrView>) -> Parsed<StmtView>
    decreases remaining(ts, pos), 0nat,
{
    let clauses = for_clauses(ts, pos, errs);
    match clauses.result {
        Err(_) => fail_as(clauses),
        Ok(c) => {
            if clauses.consumed >= 1 && pos < ts.len() {
                let body = statement(ts, pos + clauses.consumed, clauses.errors);
                match body.result {
                    Err(_) => after(clauses.consumed, body),
                    Ok(b) => parsed(
                        clauses.consumed + body.consumed,
                        body.errors,
                        desugar_for(c.init, c.cond, c.incr, b),
                    ),
                }
            } else {
                fail_as(clauses)
            }
        },
    }
}

/// The declarations of a block from `pos` on, after the statements
/// `stmts`, up to the `}` or the end. A declaration that consumed nothing
/// would end the list; there is none (see `lemma_declaration_advances`).
#[verifier::opaque]
pub open spec fn block_items(
    ts: Seq<TokenView>,
    pos: nat,
    stmts: Seq<StmtView>,
    errs: Seq<ParseErrView>,
) -> Parsed<Seq<StmtView>>
    decreases remaining(ts, pos), 3nat,
{
    if kind_at(ts, pos) == TokenKind::RightBrace || kind_at(ts, pos) == TokenKind::EOF {
        done(errs, stmts)
    } else {
        let d = declaration(ts, pos, errs);
        let longer = match d.result {
            Ok(Some(s)) => stmts.push(s),
            _ => stmts,
        };
        if d.consumed == 0 {
            parsed(0, d.errors, longer)
        } else {
            after(d.consumed, block_items(ts, pos + d.consumed, longer, d.errors))
        }
    }
}

/// block := "{" declaration* "}", from behind the `{`.
#[verifier::opaque]
pub open spec fn block(ts: Seq<TokenView>, pos: nat, errs: Seq<ParseErrView>) -> Parsed<
    Seq<StmtView>,
>
    decreases remaining(ts, pos), 4nat,
{
    let items = block_items(ts, pos, Seq::empty(), errs);
    match items.result {
        Err(_) => items,
        Ok(stmts) => match expect(
            ts,
            pos + items.consumed,
            TokenKind::RightBrace,
            "Expected '}' after block."@,
        ) {
            Some(e) => failed(items.consumed, items.errors, e),
            None => parsed(items.consumed + 1, items.errors, stmts),
        },
    }
}

/// The name and the parameters of a function, up to the `{` of its body.
pub struct FunHead {
    pub name: TokenView,
    pub params: Seq<TokenView>,
}

#[verifier::opaque]
pub open spec fn function_head(
    ts: Seq<TokenView>,
    pos: nat,
    is_method: bool,
    errs: Seq<ParseErrView>,
) -> Parsed<FunHead> {
    let wanted = if is_method {
        "Expect method name."@
    } else {
        "Expect function name."@
    };
    match expect(ts, pos, TokenKind::Identifier, wanted) {
        Some(e) => failed(0, errs, e),
        None => match expect(ts, pos + 1, TokenKind::LeftParen, "Expect '(' after function name."@) {
            Some(e) => failed(1, errs, e),
            None => {
                let params = if kind_at(ts, pos + 2) == TokenKind::RightParen {
                    done(errs, Seq::empty())
                } else {
                    parameters(ts, pos + 2, Seq::empty(), errs)
                };
                match params.result {
                    Err(_) => after(2, fail_as(params)),
                    Ok(list) => match expect(
                        ts,
                        pos + 2 + params.consumed,
                        TokenKind::RightParen,
                        "Expect ')' after parameters."@,
                    ) {
                        Some(e) => failed(2 + params.consumed, params.errors, e),
                        None => match expect(
                            ts,
                            pos + 3 + params.consumed,
                            TokenKind::LeftBrace,
                            "Expect '{' before function body."@,
                        ) {
                            Some(e) => failed(3 + params.consumed, params.errors, e),
                            None => parsed(
                                4 + params.consumed,
                                params.errors,
                                FunHead { name: peek_at(ts, pos), params: list },
                            ),
                        },
                    },
                }
            },
        },
    }
}

/// funDecl := IDENT "(" params? ")" block. A method named `init` is an
/// initializer.
#[verifier::opaque]
pub open spec fn function(
    ts: Seq<TokenView>,
    pos: nat,
    is_method: bool,
    errs: Seq<ParseErrView>,
) -> Parsed<FunView>
    decreases remaining(ts, pos), 0nat,
{
    let head = function_head(ts, pos, is_method, errs);
    match head.result {
        Err(_) => fail_as(head),
        Ok(h) => {
            if head.consumed >= 4 && pos < ts.len() {
                let body = block(ts, pos + head.consumed, head.errors);
                match body.result {
                    Err(_) => after(head.consumed, fail_as(body)),
                    Ok(stmts) => parsed(
                        head.consumed + body.consumed,
                        body.errors,
                        FunView {
                            is_init: is_method && h.name.lexeme == "init"@,
                            name: h.name,
                            params: h.params,
                            body: stmts,
                        },
                    ),
                }
            } else {
                fail_as(head)
            }
        },
    }
}

/// The methods of a class from `pos` on, after the methods `methods`, up
/// to the `}` or the end.
#[verifier::opaque]
pub open spec fn methods(
    ts: Seq<TokenView>,
    pos: nat,
    methods: Seq<FunView>,
    errs: Seq<ParseErrView>,
) -> Parsed<Seq<FunView>>
    decreases remaining(ts, pos), 1nat,
{
    if kind_at(ts, pos) == TokenKind::RightBrace || kind_at(ts, pos) == TokenKind::EOF {
        done(errs, methods)
    } else {
        let m = function(ts, pos, true, errs);
        match m.result {
            Err(_) => fail_as(m),
            Ok(f) => {
                if m.consumed == 0 {
                    parsed(0, m.errors, methods.push(f))
                } else {
                    after(m.consumed, self::methods(ts, pos + m.consumed, methods.push(f), m.errors))
                }
            },
        }
    }
}

/// The name of a class and its superclass, up to the `{` of its body.
pub struct ClassHead {
    pub name: TokenView,
    pub superclass: Option<ExprView>,
}

#[verifier::opaque]
pub open spec fn class_head(ts: Seq<TokenView>, pos: nat, errs: Seq<ParseErrView>) -> Parsed<ClassHead> {
    match expect(ts, pos, TokenKind::Identifier, "Expect class name."@) {
        Some(e) => failed(0, errs, e),
        None => {
            let name = peek_at(ts, pos);
            let parent: Parsed<Option<ExprView>> = if kind_at(ts, pos + 1) == TokenKind::Less {
                match expect(ts, pos + 2, TokenKind::Identifier, "Expect superclass name."@) {
                    Some(e) => failed(2, errs, e),
                    None => parsed(
                        3,
                        errs,
                        Some(ExprView::Var { name: peek_at(ts, pos + 2), depth: None }),
                    ),
                }
            } else {
                parsed(1, errs, None)
            };
            match parent.result {
                Err(_) => fail_as(parent),
                Ok(superclass) => match expect(
                    ts,
                    pos + parent.consumed,
                    TokenKind::LeftBrace,
                    "Expect '{' before class body."@,
                ) {
                    Some(e) => failed(parent.consumed, errs, e),
                    None => parsed(parent.consumed + 1, errs, ClassHead { name, superclass }),
                },
            }
        },
    }
}

/// classDecl := "class" IDENT ("<" IDENT)? "{" funDecl* "}", from behind
/// the keyword.
#[verifier::opaque]
pub open spec fn class_declaration(ts: Seq<TokenView>, pos: nat, errs: Seq<ParseErrView>) -> Parsed<
    StmtView,
>
    decreases remaining(ts, pos), 2nat,
{
    let head = class_head(ts, pos, errs);
    match head.result {
        Err(_) => fail_as(head),
        Ok(h) => {
            if head.consumed >= 2 && pos < ts.len() {
                let body = methods(ts, pos + head.consumed, Seq::empty(), head.errors);
                match body.result {
                    Err(_) => after(head.consumed, fail_as(body)),
                    Ok(list) => match expect(
                        ts,
                        pos + head.consumed + body.consumed,
                        TokenKind::RightBrace,
                        "Expect '}' after class body."@,
                    ) {
                        Some(e) => failed(head.consumed + body.consumed, body.errors, e),
                        None => parsed(
                            head.consumed + body.consumed + 1,
                            body.errors,
                            StmtView::Class { name: h.name, superclass: h.superclass, methods: list },
                        ),
                    },
                }
            } else {
                fail_as(head)
            }
        },
    }
}

/// The rule that a declaration starts with at `pos`.
#[verifier::opaque]
pub open spec fn declared(ts: Seq<TokenView>, pos: nat, errs: Seq<ParseErrView>) -> Parsed<StmtView>
    decreases remaining(ts, pos), 1nat,
{
    match kind_at(ts, pos) {
        TokenKind::Class => after(1, class_declaration(ts, pos + 1, errs)),
        TokenKind::Fun => {
            let f = function(ts, pos + 1, false, errs);
            match f.result {
                Err(_) => after(1, fail_as(f)),
                Ok(fun) => parsed(1 + f.consumed, f.errors, StmtView::Function(fun)),
            }
        },
        TokenKind::Var => after(1, var_dec(ts, pos + 1, errs)),
        _ => statement(ts, pos, errs),
    }
}

/// declaration := classDecl | funDecl | varDecl | statement. An error is
/// reported, and the parser goes on behind the tokens that synchronization
/// discards; the declaration is then absent.
#[verifier::opaque]
pub open spec fn declaration(ts: Seq<TokenView>, pos: nat, errs: Seq<ParseErrView>) -> Parsed<
    Option<StmtView>,
>
    decreases remaining(ts, pos), 2nat,
{
    let inner = declared(ts, pos, errs);
    match inner.result {
        Ok(s) => parsed(inner.consumed, inner.errors, Some(s)),
        Err(e) => parsed(
            inner.consumed + sync_len(ts, pos + inner.consumed),
            inner.errors.push(e),
            None,
        ),
    }
}

/// The declarations of a program from `pos` on, after the statements
/// `stmts`, up to the end of the tokens.
#[verifier::opaque]
pub open spec fn program(
    ts: Seq<TokenView>,
    pos: nat,
    stmts: Seq<StmtView>,
    errs: Seq<ParseErrView>,
) -> Parsed<Seq<StmtView>>
    decreases remaining(ts, pos),
{
    if kind_at(ts, pos) == TokenKind::EOF {
        done(errs, stmts)
    } else {
        let d = declaration(ts, pos, errs);
        let longer = match d.result {
            Ok(Some(s)) => stmts.push(s),
            _ => stmts,
        };
        if d.consumed == 0 {
            parsed(0, d.errors, longer)
        } else {
            after(d.consumed, program(ts, pos + d.consumed, longer, d.errors))
        }
    }
}

/// program := declaration* EOF
pub open spec fn parse_spec(ts: Seq<TokenView>) -> Parsed<Seq<StmtView>> {
    program(ts, 0, Seq::empty(), Seq::empty())
}

/// A declaration that does not start at the end of the tokens consumes at
/// least one token.
pub proof fn lemma_declaration_advances(ts: Seq<TokenView>, pos: nat, errs: Seq<ParseErrView>)
    requires
        kind_at(ts, pos) != TokenKind::EOF,
    ensures
        declaration(ts, pos, errs).consumed >= 1,
        declaration(ts, pos, errs).result is Ok,
{
    reveal(declaration);
    reveal(declared);
    reveal(statement);
    reveal(expr_stmt);
    let inner = declared(ts, pos, errs);
    if inner.result is Ok && inner.consumed == 0 {
        let s = statement(ts, pos, errs);
        assert(inner == s);
        assert(s == expr_stmt(ts, pos, errs));
    }
}

} // verus!
