//! The recursive-descent parser: tokens to statements.

use crate::ast::{
    AssignmentExpr, BinaryExpr, CallExpr, ClassStmt, Expr, ExprView, FunStmt, FunView, GetExpr,
    GroupingExpr, IfStmt, LiteralExpr, LogicalExpr, ReturnStmt, SetExpr, Stmt, StmtView,
    SuperExpr, ThisExpr, UnaryExpr, VarExpr, VarStmt, WhileStmt, expr_views, fun_views,
    nil_stmt, stmt_views,
};
use crate::errors::{LoxError, ParseErr};
use crate::grammar::{
    Level, ParseErrView, Parsed, after, arguments, assign_to, assignment, binary, binary_rest,
    block, block_items, call, call_rest, class_declaration, closing_token, declaration,
    condition, declared, desugar_for, err_views, expect, expr_stmt, expression, finish_call,
    for_clauses, for_condition, function_head, class_head, FunHead,
    for_increment, for_initializer, for_stmt, function, if_stmt, join, kind_at, level_has,
    level_rank, lemma_declaration_advances, methods, operand, parameters, peek_at,
    primary, print_stmt, program, remaining, return_stmt, starts_statement, statement,
    sync_len, sync_rest, tighter, unary, var_dec, while_stmt,
};
use crate::token::{Token, TokenKind, TokenType, TokenView, token_views};
use std::rc::Rc;
use vstd::prelude::*;

verus! {

/// The view of what a rule that builds an expression returns.
pub open spec fn expr_result(r: Result<Expr, ParseErr>) -> Result<ExprView, ParseErrView> {
    match r {
        Ok(e) => Ok(e@),
        Err(e) => Err(e@),
    }
}

/// The view of what a rule that builds a list of expressions returns.
pub open spec fn exprs_result(r: Result<Vec<Expr>, ParseErr>) -> Result<
    Seq<ExprView>,
    ParseErrView,
> {
    match r {
        Ok(list) => Ok(expr_views(&list)),
        Err(e) => Err(e@),
    }
}

/// The view of what a rule that builds a statement returns.
pub open spec fn stmt_result(r: Result<Stmt, ParseErr>) -> Result<StmtView, ParseErrView> {
    match r {
        Ok(s) => Ok(s@),
        Err(e) => Err(e@),
    }
}

/// The view of what a rule that builds a list of statements returns.
pub open spec fn stmts_result(r: Result<Vec<Stmt>, ParseErr>) -> Result<
    Seq<StmtView>,
    ParseErrView,
> {
    match r {
        Ok(list) => Ok(stmt_views(&list)),
        Err(e) => Err(e@),
    }
}

/// The view of what a rule that builds a function returns.
pub open spec fn fun_result(r: Result<FunStmt, ParseErr>) -> Result<FunView, ParseErrView> {
    match r {
        Ok(f) => Ok(f@),
        Err(e) => Err(e@),
    }
}

/// The view of what a rule that builds a list of methods returns.
pub open spec fn funs_result(r: Result<Vec<Rc<FunStmt>>, ParseErr>) -> Result<
    Seq<FunView>,
    ParseErrView,
> {
    match r {
        Ok(list) => Ok(fun_views(&list)),
        Err(e) => Err(e@),
    }
}

/// The view of what a rule that builds a list of tokens returns.
pub open spec fn tokens_result(r: Result<Vec<Token>, ParseErr>) -> Result<
    Seq<TokenView>,
    ParseErrView,
> {
    match r {
        Ok(list) => Ok(token_views(list@)),
        Err(e) => Err(e@),
    }
}

pub open spec fn opt_stmt_view(s: Option<Stmt>) -> Option<StmtView> {
    match s {
        Some(s) => Some(s@),
        None => None,
    }
}

pub open spec fn opt_expr_view(e: Option<Expr>) -> Option<ExprView> {
    match e {
        Some(e) => Some(e@),
        None => None,
    }
}

pub open spec fn opt_stmt_result(r: Result<Option<Stmt>, ParseErr>) -> Result<
    Option<StmtView>,
    ParseErrView,
> {
    match r {
        Ok(s) => Ok(opt_stmt_view(s)),
        Err(e) => Err(e@),
    }
}

pub open spec fn opt_expr_result(r: Result<Option<Expr>, ParseErr>) -> Result<
    Option<ExprView>,
    ParseErrView,
> {
    match r {
        Ok(e) => Ok(opt_expr_view(e)),
        Err(e) => Err(e@),
    }
}

/// A parser over one token sequence.
pub struct Parser {
    tokens: Vec<Token>,
    current: usize,
    errors: Vec<ParseErr>,
    closing: Token,
}

impl Parser {
    /// The tokens that the parser reads.
    pub closed spec fn tokens(&self) -> Seq<TokenView> {
        token_views(self.tokens@)
    }

    /// The position of the next token to read.
    pub closed spec fn position(&self) -> nat {
        self.current as nat
    }

    /// The errors reported so far, oldest first.
    pub closed spec fn errors(&self) -> Seq<ParseErrView> {
        err_views(self.errors@)
    }

    pub closed spec fn well_formed(&self) -> bool {
        &&& self.current <= self.tokens.len()
        &&& self.closing@ == closing_token(token_views(self.tokens@))
    }

    /// The number of tokens that the parser has not read.
    pub open spec fn left(&self) -> nat {
        remaining(self.tokens(), self.position())
    }

    /// The parser has moved on from `before` by `consumed` tokens.
    pub closed spec fn follows(&self, before: &Parser, consumed: nat) -> bool {
        &&& self.well_formed()
        &&& self.tokens == before.tokens
        &&& self.closing == before.closing
        &&& self.current == before.current + consumed
    }

    /// The parser has done from `before` what `rule` says, with the result
    /// `result`.
    pub open spec fn did<T>(
        &self,
        before: &Parser,
        rule: Parsed<T>,
        result: Result<T, ParseErrView>,
    ) -> bool {
        self.follows(before, rule.consumed) && self.errors() == rule.errors && result
            == rule.result
    }

    pub fn new(tokens: Vec<Token>) -> (parser: Self)
        ensures
            parser.well_formed(),
            parser.tokens() == token_views(tokens@),
            parser.position() == 0,
            parser.errors() == Seq::<ParseErrView>::empty(),
    {
        let line = if tokens.len() > 0 {
            tokens[tokens.len() - 1].line
        } else {
            0
        };
        let closing = Token::new(TokenType::EOF, String::new(), line);
        let parser = Parser { tokens, current: 0, errors: Vec::new(), closing };
        assert(err_views(parser.errors@) =~= Seq::<ParseErrView>::empty());
        parser
    }

    /// The token at the parser's position; past the end, the closing token.
    fn peek(&self) -> (t: &Token)
        requires
            self.well_formed(),
        ensures
            t@ == peek_at(self.tokens(), self.position()),
    {
        if self.current < self.tokens.len() {
            &self.tokens[self.current]
        } else {
            &self.closing
        }
    }

    /// Whether the token at the parser's position is of kind `kind`.
    fn check(&self, kind: TokenKind) -> (r: bool)
        requires
            self.well_formed(),
        ensures
            r == (kind_at(self.tokens(), self.position()) == kind),
    {
        self.peek().kind() == kind
    }

    fn is_at_end(&self) -> (r: bool)
        requires
            self.well_formed(),
        ensures
            r == (kind_at(self.tokens(), self.position()) == TokenKind::EOF),
    {
        self.check(TokenKind::EOF)
    }

    /// Moves past the token at the parser's position and returns it.
    fn advance(&mut self) -> (t: Token)
        requires
            old(self).well_formed(),
            old(self).position() < old(self).tokens().len(),
        ensures
            final(self).follows(old(self), 1),
            final(self).errors() == old(self).errors(),
            t@ == peek_at(old(self).tokens(), old(self).position()),
    {
        let t = self.tokens[self.current].clone();
        self.current += 1;
        t
    }

    /// Moves past the token at the parser's position if it is of kind
    /// `kind`.
    fn match_token(&mut self, kind: TokenKind) -> (r: bool)
        requires
            old(self).well_formed(),
            kind != TokenKind::EOF,
        ensures
            r == (kind_at(old(self).tokens(), old(self).position()) == kind),
            final(self).follows(
                old(self),
                if r {
                    1nat
                } else {
                    0nat
                },
            ),
            final(self).errors() == old(self).errors(),
    {
        if self.check(kind) {
            self.current += 1;
            true
        } else {
            false
        }
    }

    /// The token at the parser's position if it is of kind `kind`; else the
    /// error with the message `error` and the line of that token.
    fn consume(&mut self, kind: TokenKind, error: &str) -> (r: Result<Token, ParseErr>)
        requires
            old(self).well_formed(),
            kind != TokenKind::EOF,
        ensures
            final(self).errors() == old(self).errors(),
            match expect(old(self).tokens(), old(self).position(), kind, error@) {
                None => r is Ok && r->Ok_0@ == peek_at(old(self).tokens(), old(self).position())
                    && final(self).follows(old(self), 1),
                Some(e) => r is Err && r->Err_0@ == e && final(self).follows(old(self), 0),
            },
    {
        if self.check(kind) {
            Ok(self.advance())
        } else {
            Err(ParseErr::ExpectedToken(error.to_owned(), self.peek().line))
        }
    }

    /// Reports `e` and goes on.
    fn report(&mut self, e: ParseErr)
        requires
            old(self).well_formed(),
        ensures
            final(self).follows(old(self), 0),
            final(self).errors() == old(self).errors().push(e@),
    {
        self.errors.push(e);
        assert(err_views(self.errors@) =~= err_views(old(self).errors@).push(e@));
    }

    fn tighter(level: Level) -> (l: Level)
        ensures
            l == tighter(level),
    {
        match level {
            Level::Or => Level::And,
            Level::And => Level::Equality,
            Level::Equality => Level::Comparison,
            Level::Comparison => Level::Term,
            Level::Term => Level::Factor,
            Level::Factor => Level::Factor,
        }
    }

    fn level_has(level: Level, kind: TokenKind) -> (r: bool)
        ensures
            r == level_has(level, kind),
    {
        match level {
            Level::Or => kind == TokenKind::Or,
            Level::And => kind == TokenKind::And,
            Level::Equality => kind == TokenKind::BangEqual || kind == TokenKind::EqualEqual,
            Level::Comparison => kind == TokenKind::Greater || kind == TokenKind::GreaterEqual
                || kind == TokenKind::Less || kind == TokenKind::LessEqual,
            Level::Term => kind == TokenKind::Minus || kind == TokenKind::Plus,
            Level::Factor => kind == TokenKind::Star || kind == TokenKind::Slash,
        }
    }

    fn join(level: Level, left: Expr, operator: Token, right: Expr) -> (e: Expr)
        ensures
            e@ == join(level, left@, operator@, right@),
    {
        match level {
            Level::Or | Level::And => Expr::Logical(
                LogicalExpr { left: Box::new(left), operator, right: Box::new(right) },
            ),
            _ => Expr::Binary(BinaryExpr { left: Box::new(left), operator, right: Box::new(right) }),
        }
    }

    /// expression := assignment
    pub fn expression(&mut self) -> (r: Result<Expr, ParseErr>)
        requires
            old(self).well_formed(),
        ensures
            final(self).well_formed(),
            final(self).tokens() == old(self).tokens(),
            final(self).position() == old(self).position() + expression(
                old(self).tokens(),
                old(self).position(),
                old(self).errors(),
            ).consumed,
            final(self).did(
                old(self),
                expression(old(self).tokens(), old(self).position(), old(self).errors()),
                expr_result(r),
            ),
        decreases old(self).left(), 18nat,
    {
        reveal(expression);
        reveal(assignment);
        self.assignment()
    }

    /// What an assignment makes of `target = value`, where `equals` is the
    /// line of the `=`.
    fn assign_to(&mut self, target: Expr, value: Expr, equals: usize) -> (r: Expr)
        requires
            old(self).well_formed(),
        ensures
            final(self).did(
                old(self),
                assign_to(target@, value@, equals as nat, old(self).errors()),
                Ok(r@),
            ),
    {
        match target {
            Expr::Var(v) => Expr::Assign(
                AssignmentExpr { name: v.name, value: Box::new(value), depth: None },
            ),
            Expr::Get(g) => Expr::SetField(
                SetExpr { object: g.object, name: g.name, value: Box::new(value) },
            ),
            other => {
                self.report(ParseErr::InvalidAssignment(equals));
                other
            },
        }
    }

    /// assignment := (call ".")? IDENT "=" assignment | logic_or
    fn assignment(&mut self) -> (r: Result<Expr, ParseErr>)
        requires
            old(self).well_formed(),
        ensures
            final(self).did(
                old(self),
                assignment(old(self).tokens(), old(self).position(), old(self).errors()),
                expr_result(r),
            ),
        decreases old(self).left(), 17nat,
    {
        reveal(assignment);
        reveal(binary);
        let target = self.logic_or()?;
        if !self.check(TokenKind::Equal) {
            return Ok(target);
        }
        let equals = self.advance();
        let value = self.assignment()?;
        Ok(self.assign_to(target, value, equals.line))
    }

    fn logic_or(&mut self) -> (r: Result<Expr, ParseErr>)
        requires
            old(self).well_formed(),
        ensures
            final(self).did(
                old(self),
                binary(old(self).tokens(), old(self).position(), Level::Or, old(self).errors()),
                expr_result(r),
            ),
        decreases old(self).left(), 15nat,
    {
        self.binary(Level::Or)
    }

    /// The operand of a binary operator of `level`.
    fn operand(&mut self, level: Level) -> (r: Result<Expr, ParseErr>)
        requires
            old(self).well_formed(),
        ensures
            final(self).did(
                old(self),
                operand(old(self).tokens(), old(self).position(), level, old(self).errors()),
                expr_result(r),
            ),
        decreases old(self).left(), 2 * level_rank(level) + 1,
    {
        reveal(operand);
        reveal(unary);
        reveal(binary);
        match level {
            Level::Factor => self.unary(),
            _ => self.binary(Self::tighter(level)),
        }
    }

    /// A chain of operands of `level`, joined to the left.
    fn binary(&mut self, level: Level) -> (r: Result<Expr, ParseErr>)
        requires
            old(self).well_formed(),
        ensures
            final(self).did(
                old(self),
                binary(old(self).tokens(), old(self).position(), level, old(self).errors()),
                expr_result(r),
            ),
        decreases old(self).left(), 2 * level_rank(level) + 2,
    {
        reveal(binary);
        reveal(operand);
        reveal(binary_rest);
        let left = self.operand(level)?;
        self.binary_rest(level, left)
    }

    /// The rest of a chain of `level` whose operands so far make `left`.
    fn binary_rest(&mut self, level: Level, left: Expr) -> (r: Result<Expr, ParseErr>)
        requires
            old(self).well_formed(),
        ensures
            final(self).did(
                old(self),
                binary_rest(
                    old(self).tokens(),
                    old(self).position(),
                    level,
                    left@,
                    old(self).errors(),
                ),
                expr_result(r),
            ),
        decreases old(self).left(), 0nat,
    {
        reveal(binary_rest);
        reveal(operand);
        if Self::level_has(level, self.peek().kind()) && self.current < self.tokens.len() {
            let operator = self.advance();
            let right = self.operand(level)?;
            self.binary_rest(level, Self::join(level, left, operator, right))
        } else {
            Ok(left)
        }
    }

    /// unary := ("!" | "-") unary | call
    fn unary(&mut self) -> (r: Result<Expr, ParseErr>)
        requires
            old(self).well_formed(),
        ensures
            final(self).did(
                old(self),
                unary(old(self).tokens(), old(self).position(), old(self).errors()),
                expr_result(r),
            ),
        decreases old(self).left(), 2nat,
    {
        reveal(unary);
        reveal(call);
        if (self.check(TokenKind::Bang) || self.check(TokenKind::Minus)) && self.current
            < self.tokens.len() {
            let operator = self.advance();
            let right = self.unary()?;
            Ok(Expr::Unary(UnaryExpr { operator, right: Box::new(right) }))
        } else {
            self.call()
        }
    }

    /// call := primary ( "(" args? ")" | "." IDENT )*
    fn call(&mut self) -> (r: Result<Expr, ParseErr>)
        requires
            old(self).well_formed(),
        ensures
            final(self).did(
                old(self),
                call(old(self).tokens(), old(self).position(), old(self).errors()),
                expr_result(r),
            ),
        decreases old(self).left(), 1nat,
    {
        reveal(call);
        reveal(primary);
        reveal(call_rest);
        let callee = self.primary()?;
        self.call_rest(callee)
    }

    /// The calls and property accesses that follow `callee`.
    fn call_rest(&mut self, callee: Expr) -> (r: Result<Expr, ParseErr>)
        requires
            old(self).well_formed(),
        ensures
            final(self).did(
                old(self),
                call_rest(old(self).tokens(), old(self).position(), callee@, old(self).errors()),
                expr_result(r),
            ),
        decreases old(self).left(), 0nat,
    {
        reveal(call_rest);
        reveal(finish_call);
        if self.check(TokenKind::LeftParen) && self.current < self.tokens.len() {
            let _ = self.advance();
            let made = self.finish_call(callee)?;
            self.call_rest(made)
        } else if self.check(TokenKind::Dot) && self.current < self.tokens.len() {
            let _ = self.advance();
            let name = self.consume(TokenKind::Identifier, "Expect property name after '.'.")?;
            self.call_rest(Expr::Get(GetExpr { object: Box::new(callee), name }))
        } else {
            Ok(callee)
        }
    }

    /// The arguments of a call, after the arguments `args`.
    fn arguments(&mut self, args: Vec<Expr>) -> (r: Result<Vec<Expr>, ParseErr>)
        requires
            old(self).well_formed(),
        ensures
            final(self).did(
                old(self),
                arguments(
                    old(self).tokens(),
                    old(self).position(),
                    expr_views(&args),
                    old(self).errors(),
                ),
                exprs_result(r),
            ),
        decreases old(self).left(), 19nat,
    {
        reveal(arguments);
        reveal(expression);
        let mut args = args;
        if args.len() >= 255 {
            let line = self.peek().line;
            self.report(ParseErr::TooManyArguments(line));
        }
        let arg = self.expression()?;
        let ghost pushed = expr_views(&args).push(arg@);
        args.push(arg);
        assert(expr_views(&args) =~= pushed);
        if self.check(TokenKind::Comma) && self.current < self.tokens.len() {
            let _ = self.advance();
            self.arguments(args)
        } else {
            Ok(args)
        }
    }

    /// The call of `callee` whose `(` the parser has read.
    fn finish_call(&mut self, callee: Expr) -> (r: Result<Expr, ParseErr>)
        requires
            old(self).well_formed(),
        ensures
            final(self).did(
                old(self),
                finish_call(old(self).tokens(), old(self).position(), callee@, old(self).errors()),
                expr_result(r),
            ),
        decreases old(self).left(), 20nat,
    {
        reveal(finish_call);
        reveal(arguments);
        let empty: Vec<Expr> = Vec::new();
        assert(expr_views(&empty) =~= Seq::<ExprView>::empty());
        let args = if self.check(TokenKind::RightParen) {
            empty
        } else {
            self.arguments(empty)?
        };
        let paren = self.consume(TokenKind::RightParen, "Expected ')' after arguments.")?;
        Ok(Expr::Call(CallExpr { callee: Box::new(callee), paren, args }))
    }

    /// primary := "true" | "false" | "nil" | "this" | NUMBER | STRING
    ///          | "super" "." IDENT | IDENT | "(" expression ")"
    fn primary(&mut self) -> (r: Result<Expr, ParseErr>)
        requires
            old(self).well_formed(),
        ensures
            final(self).did(
                old(self),
                primary(old(self).tokens(), old(self).position(), old(self).errors()),
                expr_result(r),
            ),
        decreases old(self).left(), 0nat,
    {
        reveal(primary);
        reveal(expression);
        let kind = self.peek().kind();
        let line = self.peek().line;
        if self.current >= self.tokens.len() {
            return Err(ParseErr::UnexpectedEOF(line));
        }
        match kind {
            TokenKind::False => {
                let _ = self.advance();
                Ok(Expr::Literal(LiteralExpr::Boolean(false)))
            },
            TokenKind::True => {
                let _ = self.advance();
                Ok(Expr::Literal(LiteralExpr::Boolean(true)))
            },
            TokenKind::Nil => {
                let _ = self.advance();
                Ok(Expr::Literal(LiteralExpr::Nil))
            },
            TokenKind::Number => {
                let token = self.advance();
                match token.type_ {
                    TokenType::Number(bits) => Ok(Expr::Literal(LiteralExpr::Number(bits))),
                    _ => Ok(Expr::Literal(LiteralExpr::Nil)),
                }
            },
            TokenKind::String => {
                let token = self.advance();
                match token.type_ {
                    TokenType::String(text) => Ok(Expr::Literal(LiteralExpr::String(text))),
                    _ => Ok(Expr::Literal(LiteralExpr::Nil)),
                }
            },
            TokenKind::LeftParen => {
                let _ = self.advance();
                let inner = self.expression()?;
                let _ = self.consume(TokenKind::RightParen, "Expect ')' after expression.")?;
                Ok(Expr::Grouping(GroupingExpr { expression: Box::new(inner) }))
            },
            TokenKind::This => {
                let keyword = self.advance();
                Ok(Expr::This(ThisExpr { keyword, depth: None }))
            },
            TokenKind::Super => {
                let keyword = self.advance();
                let _ = self.consume(TokenKind::Dot, "Expect '.' after 'super'.")?;
                let method = self.consume(
                    TokenKind::Identifier,
                    "Expect superclass method name.",
                )?;
                Ok(Expr::Super(SuperExpr { keyword, method, depth: None }))
            },
            TokenKind::Identifier => {
                let name = self.advance();
                Ok(Expr::Var(VarExpr { name, depth: None }))
            },
            _ => Err(ParseErr::UnexpectedEOF(line)),
        }
    }

    /// The token before the parser's position.
    fn previous(&self) -> (t: &Token)
        requires
            self.well_formed(),
            self.position() >= 1,
        ensures
            t@ == peek_at(self.tokens(), (self.position() - 1) as nat),
    {
        &self.tokens[self.current - 1]
    }

    fn starts_statement(kind: TokenKind) -> (r: bool)
        ensures
            r == starts_statement(kind),
    {
        kind == TokenKind::Class || kind == TokenKind::Fun || kind == TokenKind::Var || kind
            == TokenKind::For || kind == TokenKind::If || kind == TokenKind::While || kind
            == TokenKind::Print || kind == TokenKind::Return
    }

    /// Discards tokens up to the end, to behind a semicolon, or to a token
    /// that starts a statement.
    fn synchronize(&mut self)
        requires
            old(self).well_formed(),
        ensures
            final(self).follows(old(self), sync_len(old(self).tokens(), old(self).position())),
            final(self).errors() == old(self).errors(),
    {
        if self.current >= self.tokens.len() || self.is_at_end() {
            return ;
        }
        self.current += 1;
        while self.current < self.tokens.len() && !self.is_at_end() && !(self.previous().kind()
            == TokenKind::Semicolon) && !Self::starts_statement(self.peek().kind())
            invariant
                self.well_formed(),
                self.tokens == old(self).tokens,
                self.closing == old(self).closing,
                self.errors == old(self).errors,
                self.current >= 1,
                old(self).current + sync_len(old(self).tokens(), old(self).position())
                    == self.current + sync_rest(self.tokens(), self.position()),
            decreases self.tokens.len() - self.current,
        {
            self.current += 1;
        }
    }

    /// printStmt := "print" expression ";", from behind the keyword.
    fn print_stmt(&mut self) -> (r: Result<Stmt, ParseErr>)
        requires
            old(self).well_formed(),
        ensures
            final(self).did(
                old(self),
                print_stmt(old(self).tokens(), old(self).position(), old(self).errors()),
                stmt_result(r),
            ),
    {
        reveal(print_stmt);
        let value = self.expression()?;
        let _ = self.consume(TokenKind::Semicolon, "Expected ';' after value.")?;
        Ok(Stmt::Print(value))
    }

    /// exprStmt := expression ";"
    fn expr_stmt(&mut self) -> (r: Result<Stmt, ParseErr>)
        requires
            old(self).well_formed(),
        ensures
            final(self).did(
                old(self),
                expr_stmt(old(self).tokens(), old(self).position(), old(self).errors()),
                stmt_result(r),
            ),
    {
        reveal(expr_stmt);
        let value = self.expression()?;
        let _ = self.consume(TokenKind::Semicolon, "Expected ';' after expression.")?;
        Ok(Stmt::Expression(value))
    }

    /// returnStmt := "return" expression? ";", from behind the keyword.
    fn return_stmt(&mut self) -> (r: Result<Stmt, ParseErr>)
        requires
            old(self).well_formed(),
            old(self).position() >= 1,
        ensures
            final(self).did(
                old(self),
                return_stmt(old(self).tokens(), old(self).position(), old(self).errors()),
                stmt_result(r),
            ),
    {
        reveal(return_stmt);
        let keyword = self.previous().clone();
        let value = if self.check(TokenKind::Semicolon) {
            Expr::Literal(LiteralExpr::Nil)
        } else {
            self.expression()?
        };
        let _ = self.consume(TokenKind::Semicolon, "Expect ';' after return value.")?;
        Ok(Stmt::Return(ReturnStmt { keyword, value }))
    }

    /// varDecl := "var" IDENT ("=" expression)? ";", from behind the
    /// keyword.
    fn var_dec(&mut self) -> (r: Result<Stmt, ParseErr>)
        requires
            old(self).well_formed(),
        ensures
            final(self).did(
                old(self),
                var_dec(old(self).tokens(), old(self).position(), old(self).errors()),
                stmt_result(r),
            ),
    {
        reveal(var_dec);
        let name = self.consume(TokenKind::Identifier, "Expected a variable name")?;
        let val = if self.match_token(TokenKind::Equal) {
            self.expression()?
        } else {
            Expr::Literal(LiteralExpr::Nil)
        };
        let _ = self.consume(TokenKind::Semicolon, "Expect ';' after variable declaration.")?;
        Ok(Stmt::Var(VarStmt { name, val }))
    }

    /// The parameters of a function, after the parameters `params`.
    fn parameters(&mut self, params: Vec<Token>) -> (r: Result<Vec<Token>, ParseErr>)
        requires
            old(self).well_formed(),
        ensures
            final(self).did(
                old(self),
                parameters(
                    old(self).tokens(),
                    old(self).position(),
                    token_views(params@),
                    old(self).errors(),
                ),
                tokens_result(r),
            ),
        decreases old(self).left(),
    {
        reveal(parameters);
        let mut params = params;
        if params.len() >= 255 {
            let line = self.peek().line;
            self.report(ParseErr::TooManyParameters(line));
        }
        let name = self.consume(TokenKind::Identifier, "Expect parameter name.")?;
        let ghost pushed = token_views(params@).push(name@);
        params.push(name);
        assert(token_views(params@) =~= pushed);
        if self.match_token(TokenKind::Comma) {
            self.parameters(params)
        } else {
            Ok(params)
        }
    }

    /// The first clause of a `for`, with its `;`.
    fn for_initializer(&mut self) -> (r: Result<Option<Stmt>, ParseErr>)
        requires
            old(self).well_formed(),
        ensures
            final(self).did(
                old(self),
                for_initializer(old(self).tokens(), old(self).position(), old(self).errors()),
                opt_stmt_result(r),
            ),
    {
        reveal(for_initializer);
        if self.match_token(TokenKind::Semicolon) {
            Ok(None)
        } else if self.match_token(TokenKind::Var) {
            Ok(Some(self.var_dec()?))
        } else {
            Ok(Some(self.expr_stmt()?))
        }
    }

    /// The second clause of a `for`, with its `;`.
    fn for_condition(&mut self) -> (r: Result<Expr, ParseErr>)
        requires
            old(self).well_formed(),
        ensures
            final(self).did(
                old(self),
                for_condition(old(self).tokens(), old(self).position(), old(self).errors()),
                expr_result(r),
            ),
    {
        reveal(for_condition);
        let condition = if self.check(TokenKind::Semicolon) {
            Expr::Literal(LiteralExpr::Boolean(true))
        } else {
            self.expression()?
        };
        let _ = self.consume(TokenKind::Semicolon, "Expect ';' after a loop condition.")?;
        Ok(condition)
    }

    /// The third clause of a `for`, with the `)`.
    fn for_increment(&mut self) -> (r: Result<Option<Expr>, ParseErr>)
        requires
            old(self).well_formed(),
        ensures
            final(self).did(
                old(self),
                for_increment(old(self).tokens(), old(self).position(), old(self).errors()),
                opt_expr_result(r),
            ),
    {
        reveal(for_increment);
        if self.match_token(TokenKind::RightParen) {
            Ok(None)
        } else {
            let increment = self.expression()?;
            let _ = self.consume(TokenKind::RightParen, "Expect ')' after for clauses.")?;
            Ok(Some(increment))
        }
    }

    /// The block of the two statements `first` and `second`.
    fn pair(first: Stmt, second: Stmt) -> (s: Stmt)
        ensures
            s@ == StmtView::Block(seq![first@, second@]),
    {
        let ghost both = seq![first@, second@];
        let mut stmts: Vec<Stmt> = Vec::new();
        stmts.push(first);
        stmts.push(second);
        assert(stmt_views(&stmts) =~= both);
        Stmt::Block(stmts)
    }

    /// The loop that `for (init; cond; incr) body` stands for.
    fn desugar_for(init: Option<Stmt>, cond: Expr, incr: Option<Expr>, body: Stmt) -> (s: Stmt)
        ensures
            s@ == desugar_for(opt_stmt_view(init), cond@, opt_expr_view(incr), body@),
    {
        let inner = match incr {
            Some(i) => Self::pair(body, Stmt::Expression(i)),
            None => body,
        };
        let looping = Stmt::While(WhileStmt { condition: cond, body: Box::new(inner) });
        match init {
            Some(s) => Self::pair(s, looping),
            None => looping,
        }
    }

    /// The condition of an `if` or a `while` in its parentheses.
    fn condition(&mut self, open: &str, close: &str) -> (r: Result<Expr, ParseErr>)
        requires
            old(self).well_formed(),
        ensures
            final(self).did(
                old(self),
                condition(
                    old(self).tokens(),
                    old(self).position(),
                    old(self).errors(),
                    open@,
                    close@,
                ),
                expr_result(r),
            ),
    {
        reveal(condition);
        let _ = self.consume(TokenKind::LeftParen, open)?;
        let condition = self.expression()?;
        let _ = self.consume(TokenKind::RightParen, close)?;
        Ok(condition)
    }

    /// The name and the parameters of a function, up to the `{` of its
    /// body.
    fn function_head(&mut self, is_method: bool) -> (r: Result<(Token, Vec<Token>), ParseErr>)
        requires
            old(self).well_formed(),
        ensures
            final(self).did(
                old(self),
                function_head(
                    old(self).tokens(),
                    old(self).position(),
                    is_method,
                    old(self).errors(),
                ),
                match r {
                    Ok(head) => Ok(FunHead { name: head.0@, params: token_views(head.1@) }),
                    Err(e) => Err(e@),
                },
            ),
    {
        reveal(function_head);
        let wanted = if is_method {
            "Expect method name."
        } else {
            "Expect function name."
        };
        let name = self.consume(TokenKind::Identifier, wanted)?;
        let _ = self.consume(TokenKind::LeftParen, "Expect '(' after function name.")?;
        let none: Vec<Token> = Vec::new();
        assert(token_views(none@) =~= Seq::<TokenView>::empty());
        let params = if self.check(TokenKind::RightParen) {
            none
        } else {
            self.parameters(none)?
        };
        let _ = self.consume(TokenKind::RightParen, "Expect ')' after parameters.")?;
        let _ = self.consume(TokenKind::LeftBrace, "Expect '{' before function body.")?;
        Ok((name, params))
    }

    /// statement := exprStmt | printStmt | block | ifStmt | whileStmt
    ///            | forStmt | returnStmt
    fn statement(&mut self) -> (r: Result<Stmt, ParseErr>)
        requires
            old(self).well_formed(),
        ensures
            final(self).did(
                old(self),
                statement(old(self).tokens(), old(self).position(), old(self).errors()),
                stmt_result(r),
            ),
        decreases old(self).left(), 0nat,
    {
        reveal(statement);
        reveal(block);
        reveal(if_stmt);
        reveal(while_stmt);
        reveal(for_stmt);
        match self.peek().kind() {
            TokenKind::Print => {
                let _ = self.advance();
                self.print_stmt()
            },
            TokenKind::Return => {
                let _ = self.advance();
                self.return_stmt()
            },
            TokenKind::LeftBrace => {
                let _ = self.advance();
                Ok(Stmt::Block(self.block_stmt()?))
            },
            TokenKind::If => {
                let _ = self.advance();
                self.if_stmt()
            },
            TokenKind::While => {
                let _ = self.advance();
                self.while_stmt()
            },
            TokenKind::For => {
                let _ = self.advance();
                self.for_stmt()
            },
            _ => self.expr_stmt(),
        }
    }

    /// The expression statement of the literal `nil`.
    fn nil_statement() -> (s: Stmt)
        ensures
            s@ == nil_stmt(),
    {
        Stmt::Expression(Expr::Literal(LiteralExpr::Nil))
    }

    /// ifStmt := "if" "(" expression ")" statement ("else" statement)?,
    /// from behind the keyword.
    fn if_stmt(&mut self) -> (r: Result<Stmt, ParseErr>)
        requires
            old(self).well_formed(),
        ensures
            final(self).did(
                old(self),
                if_stmt(old(self).tokens(), old(self).position(), old(self).errors()),
                stmt_result(r),
            ),
        decreases old(self).left(), 0nat,
    {
        reveal(if_stmt);
        reveal(statement);
        reveal(condition);
        let condition = self.condition("Expect '(' after 'if'.", "Expect ')' after if condition.")?;
        let then_b = self.statement()?;
        let else_b = if self.match_token(TokenKind::Else) {
            self.statement()?
        } else {
            Self::nil_statement()
        };
        Ok(Stmt::If(IfStmt { condition, then_b: Box::new(then_b), else_b: Box::new(else_b) }))
    }

    /// whileStmt := "while" "(" expression ")" statement, from behind the
    /// keyword.
    fn while_stmt(&mut self) -> (r: Result<Stmt, ParseErr>)
        requires
            old(self).well_formed(),
        ensures
            final(self).did(
                old(self),
                while_stmt(old(self).tokens(), old(self).position(), old(self).errors()),
                stmt_result(r),
            ),
        decreases old(self).left(), 0nat,
    {
        reveal(while_stmt);
        reveal(statement);
        reveal(condition);
        let condition = self.condition("Expect '(' after 'while'.", "Expect ')' after condition.")?;
        let body = self.statement()?;
        Ok(Stmt::While(WhileStmt { condition, body: Box::new(body) }))
    }

    /// forStmt := "for" "(" (varDecl | exprStmt | ";") expression? ";"
    ///            expression? ")" statement, from behind the keyword. The
    /// statement is the loop that the `for` stands for.
    fn for_stmt(&mut self) -> (r: Result<Stmt, ParseErr>)
        requires
            old(self).well_formed(),
        ensures
            final(self).did(
                old(self),
                for_stmt(old(self).tokens(), old(self).position(), old(self).errors()),
                stmt_result(r),
            ),
        decreases old(self).left(), 0nat,
    {
        reveal(for_stmt);
        reveal(for_clauses);
        reveal(statement);
        let _ = self.consume(TokenKind::LeftParen, "Expect '(' after 'for'.")?;
        let initializer = self.for_initializer()?;
        let condition = self.for_condition()?;
        let increment = self.for_increment()?;
        let body = self.statement()?;
        Ok(Self::desugar_for(initializer, condition, increment, body))
    }

    /// The declarations of a block, after the statements `stmts`, up to
    /// the `}` or the end.
    fn block_items(&mut self, stmts: Vec<Stmt>) -> (r: Vec<Stmt>)
        requires
            old(self).well_formed(),
        ensures
            final(self).did(
                old(self),
                block_items(
                    old(self).tokens(),
                    old(self).position(),
                    stmt_views(&stmts),
                    old(self).errors(),
                ),
                Ok(stmt_views(&r)),
            ),
        decreases old(self).left(), 3nat,
    {
        reveal(block_items);
        reveal(declaration);
        if self.check(TokenKind::RightBrace) || self.is_at_end() {
            return stmts;
        }
        proof {
            lemma_declaration_advances(self.tokens(), self.position(), self.errors());
        }
        let mut stmts = stmts;
        match self.declaration() {
            Some(s) => {
                let ghost pushed = stmt_views(&stmts).push(s@);
                stmts.push(s);
                assert(stmt_views(&stmts) =~= pushed);
            },
            None => {},
        }
        self.block_items(stmts)
    }

    /// block := "{" declaration* "}", from behind the `{`.
    fn block_stmt(&mut self) -> (r: Result<Vec<Stmt>, ParseErr>)
        requires
            old(self).well_formed(),
        ensures
            final(self).did(
                old(self),
                block(old(self).tokens(), old(self).position(), old(self).errors()),
                stmts_result(r),
            ),
        decreases old(self).left(), 4nat,
    {
        reveal(block);
        reveal(block_items);
        let empty: Vec<Stmt> = Vec::new();
        assert(stmt_views(&empty) =~= Seq::<StmtView>::empty());
        let stmts = self.block_items(empty);
        let _ = self.consume(TokenKind::RightBrace, "Expected '}' after block.")?;
        Ok(stmts)
    }

    /// funDecl := IDENT "(" params? ")" block. A method named `init` is an
    /// initializer.
    fn function(&mut self, is_method: bool) -> (r: Result<FunStmt, ParseErr>)
        requires
            old(self).well_formed(),
        ensures
            final(self).did(
                old(self),
                function(old(self).tokens(), old(self).position(), is_method, old(self).errors()),
                fun_result(r),
            ),
        decreases old(self).left(), 0nat,
    {
        reveal(function);
        reveal(block);
        reveal(function_head);
        let (name, params) = self.function_head(is_method)?;
        let body = self.block_stmt()?;
        let init = "init".to_owned();
        let is_init = is_method && name.lexeme == init;
        Ok(FunStmt { is_init, name, params, body })
    }

    /// The methods of a class, after the methods `list`, up to the `}` or
    /// the end.
    fn methods(&mut self, list: Vec<Rc<FunStmt>>) -> (r: Result<Vec<Rc<FunStmt>>, ParseErr>)
        requires
            old(self).well_formed(),
        ensures
            final(self).did(
                old(self),
                methods(
                    old(self).tokens(),
                    old(self).position(),
                    fun_views(&list),
                    old(self).errors(),
                ),
                funs_result(r),
            ),
        decreases old(self).left(), 1nat,
    {
        reveal(methods);
        reveal(function);
        if self.check(TokenKind::RightBrace) || self.is_at_end() {
            return Ok(list);
        }
        let mut list = list;
        let method = self.function(true)?;
        let ghost pushed = fun_views(&list).push(method@);
        list.push(Rc::new(method));
        assert(fun_views(&list) =~= pushed);
        self.methods(list)
    }

    /// classDecl := "class" IDENT ("<" IDENT)? "{" funDecl* "}", from
    /// behind the keyword.
    #[verifier::rlimit(40)]
    fn class_declaration(&mut self) -> (r: Result<Stmt, ParseErr>)
        requires
            old(self).well_formed(),
        ensures
            final(self).did(
                old(self),
                class_declaration(old(self).tokens(), old(self).position(), old(self).errors()),
                stmt_result(r),
            ),
        decreases old(self).left(), 2nat,
    {
        reveal(class_declaration);
        reveal(class_head);
        reveal(methods);
        let name = self.consume(TokenKind::Identifier, "Expect class name.")?;
        let superclass = if self.match_token(TokenKind::Less) {
            let parent = self.consume(TokenKind::Identifier, "Expect superclass name.")?;
            Some(VarExpr { name: parent, depth: None })
        } else {
            None
        };
        let _ = self.consume(TokenKind::LeftBrace, "Expect '{' before class body.")?;
        let none: Vec<Rc<FunStmt>> = Vec::new();
        assert(fun_views(&none) =~= Seq::<FunView>::empty());
        let methods = self.methods(none)?;
        let _ = self.consume(TokenKind::RightBrace, "Expect '}' after class body.")?;
        Ok(Stmt::Class(ClassStmt { name, superclass, methods }))
    }

    /// The rule that a declaration starts with.
    fn declared(&mut self) -> (r: Result<Stmt, ParseErr>)
        requires
            old(self).well_formed(),
        ensures
            final(self).did(
                old(self),
                declared(old(self).tokens(), old(self).position(), old(self).errors()),
                stmt_result(r),
            ),
        decreases old(self).left(), 1nat,
    {
        reveal(declared);
        reveal(class_declaration);
        reveal(function);
        reveal(statement);
        match self.peek().kind() {
            TokenKind::Class => {
                let _ = self.advance();
                self.class_declaration()
            },
            TokenKind::Fun => {
                let _ = self.advance();
                Ok(Stmt::Function(Rc::new(self.function(false)?)))
            },
            TokenKind::Var => {
                let _ = self.advance();
                self.var_dec()
            },
            _ => self.statement(),
        }
    }

    /// declaration := classDecl | funDecl | varDecl | statement. An error
    /// is reported, and the parser goes on behind the tokens that
    /// synchronization discards.
    fn declaration(&mut self) -> (r: Option<Stmt>)
        requires
            old(self).well_formed(),
        ensures
            final(self).did(
                old(self),
                declaration(old(self).tokens(), old(self).position(), old(self).errors()),
                Ok(opt_stmt_view(r)),
            ),
        decreases old(self).left(), 2nat,
    {
        reveal(declaration);
        reveal(declared);
        match self.declared() {
            Ok(s) => Some(s),
            Err(e) => {
                self.report(e);
                self.synchronize();
                None
            },
        }
    }

    /// Parses the tokens from the parser's position to their end. The
    /// statements are those of the grammar; every error is reported in
    /// `errors`, and with an error reported the result is the first of
    /// them.
    pub fn parse(&mut self) -> (r: Result<Vec<Stmt>, LoxError>)
        requires
            old(self).well_formed(),
        ensures
            final(self).well_formed(),
            final(self).tokens() == old(self).tokens(),
            final(self).position() == old(self).position() + program(
                old(self).tokens(),
                old(self).position(),
                Seq::empty(),
                old(self).errors(),
            ).consumed,
            final(self).follows(
                old(self),
                program(
                    old(self).tokens(),
                    old(self).position(),
                    Seq::empty(),
                    old(self).errors(),
                ).consumed,
            ),
            final(self).errors() == program(
                old(self).tokens(),
                old(self).position(),
                Seq::empty(),
                old(self).errors(),
            ).errors,
            match r {
                Ok(stmts) => final(self).errors().len() == 0 && Ok::<Seq<StmtView>, ParseErrView>(
                    stmt_views(&stmts),
                ) == program(
                    old(self).tokens(),
                    old(self).position(),
                    Seq::empty(),
                    old(self).errors(),
                ).result,
                Err(LoxError::Parse(e)) => {
                    &&& final(self).errors().len() > 0
                    &&& e@ == final(self).errors()[0]
                },
                Err(_) => false,
            },
    {
        reveal(program);
        reveal(declaration);
        let ghost ts = self.tokens();
        let ghost start = self.position();
        let ghost total = program(ts, start, Seq::empty(), self.errors());
        let mut stmts: Vec<Stmt> = Vec::new();
        assert(stmt_views(&stmts) =~= Seq::<StmtView>::empty());
        while !self.is_at_end()
            invariant
                self.follows(old(self), (self.position() - start) as nat),
                self.position() >= start,
                ts == old(self).tokens(),
                start == old(self).position(),
                after(
                    (self.position() - start) as nat,
                    program(ts, self.position(), stmt_views(&stmts), self.errors()),
                ) == total,
            decreases self.left(),
        {
            reveal(program);
            proof {
                lemma_declaration_advances(ts, self.position(), self.errors());
            }
            match self.declaration() {
                Some(s) => {
                    let ghost pushed = stmt_views(&stmts).push(s@);
                    stmts.push(s);
                    assert(stmt_views(&stmts) =~= pushed);
                },
                None => {},
            }
        }
        if self.errors.len() == 0 {
            Ok(stmts)
        } else {
            Err(LoxError::Parse(self.errors[0].clone()))
        }
    }

    /// The errors reported so far, oldest first.
    pub fn get_errors(&self) -> (errors: &Vec<ParseErr>)
        ensures
            err_views(errors@) == self.errors(),
    {
        &self.errors
    }
}

} // verus!
