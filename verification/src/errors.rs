//! The error model: one enum per phase, each error with the source line
//! where it is known.

use crate::alert::{Alert, AlertType};
use crate::grammar::ParseErrView;
use crate::text::{char_text, decimal, decimal_text, join};
use vstd::prelude::*;
use vstd::string::StringExecFns;

verus! {

/// The diagnostic of an error of the phase `phase` on line `line`.
pub open spec fn located_text(phase: Seq<char>, line: nat, msg: Seq<char>) -> Seq<char> {
    phase + " | [line "@ + decimal_text(line) + "] "@ + msg
}

/// `before`, `name` in quotes, and `after`.
pub open spec fn quoted_text(before: Seq<char>, name: Seq<char>, after: Seq<char>) -> Seq<char> {
    before + "'"@ + name + "'"@ + after
}

fn located(phase: &str, line: usize, msg: &str) -> (s: String)
    ensures
        s@ == located_text(phase@, line as nat, msg@),
{
    let mut s = phase.to_owned();
    s.append(" | [line ");
    s.append(decimal(line).as_str());
    s.append("] ");
    s.append(msg);
    s
}

fn quoted(before: &str, name: &str, after: &str) -> (s: String)
    ensures
        s@ == quoted_text(before@, name@, after@),
{
    let mut s = before.to_owned();
    s.append("'");
    s.append(name);
    s.append("'");
    s.append(after);
    s
}

/// Errors of the scanner. Scanning goes on after each of them.
#[derive(Clone, Copy, Debug, PartialEq, Eq, Structural)]
pub enum ScanErr {
    /// A character that starts no lexeme, and its line.
    UnexpectedChar(char, usize),
    /// A string or a block comment that is still open at the end of the
    /// source, and the line on which it began.
    UnterminatedString(usize),
}

/// Errors of the parser, each with the line of the offending token.
#[derive(Debug, PartialEq)]
pub enum ParseErr {
    /// A token that the grammar asks for is missing; the message names it.
    ExpectedToken(String, usize),
    /// No expression can start at this token.
    UnexpectedEOF(usize),
    /// A call with more than 255 arguments.
    TooManyArguments(usize),
    /// A function with more than 255 parameters.
    TooManyParameters(usize),
    /// The left side of `=` is neither a variable nor a property.
    InvalidAssignment(usize),
}

/// Errors of the resolver, each with the line of the offending token.
#[derive(Clone, Copy, Debug, PartialEq, Eq, Structural)]
pub enum ResolveErr {
    /// A local variable is read in its own initializer.
    InvalidLocalVariable(usize),
    /// A name is declared twice in one local scope.
    VariablesWithSameName(usize),
    /// `return` outside of any function.
    TopLevelReturn(usize),
    /// `return` with a value inside an initializer.
    ReturnFromInitializer(usize),
    /// `this` outside of a class.
    ThisOutsideClass(usize),
    /// `super` outside of a class.
    SuperOutsideClass(usize),
    /// `super` in a class that has no superclass.
    SuperWithoutSuperclass(usize),
    /// A class that names itself as its superclass.
    SelfInheritance(usize),
}

/// Errors of the evaluator, each with the line of the token at which the
/// evaluation stopped.
#[derive(Debug, PartialEq)]
pub enum RuntimeErr {
    /// An arithmetic or ordering operand is no number.
    OperandMustBeNumber(usize),
    /// The operands of `+` are neither two numbers nor two strings.
    InvalidOperandTypes(usize),
    DivisionByZero(usize),
    /// A variable that was never defined: its name.
    UndefinedVariable(String, usize),
    /// A property that the instance and its class lack: its name.
    UndefinedProperty(String, usize),
    /// A property is read or written on a value that is no instance.
    OnlyInstancesHaveProperties(usize),
    /// The callee is neither a function nor a class.
    InvalidCalleeExpr(usize),
    /// The arity of the callee and the number of arguments given.
    ArgumentCountMismatch(usize, usize, usize),
    /// The superclass expression of a class is no class.
    SuperclassMustBeClass(usize),
    /// Calls and loops are nested deeper than the evaluator's limit.
    DepthLimitExceeded(usize),
}

/// Errors of the surroundings of the interpreter.
#[derive(Debug, PartialEq)]
pub enum IoErr {
    FileNotFound(String),
    FailedToCreateFile(String),
    InvalidFileExtension,
    ASTSyntaxInvalid,
}

/// Any error of a run.
#[derive(Debug, PartialEq)]
pub enum LoxError {
    Scan(ScanErr),
    Parse(ParseErr),
    Resolve(ResolveErr),
    Runtime(RuntimeErr),
    Io(IoErr),
}

impl ScanErr {
    pub open spec fn spec_ln(&self) -> usize {
        match self {
            ScanErr::UnexpectedChar(_, line) => *line,
            ScanErr::UnterminatedString(line) => *line,
        }
    }

    /// The line of the error.
    pub fn ln(&self) -> (line: usize)
        ensures
            line == self.spec_ln(),
    {
        match self {
            ScanErr::UnexpectedChar(_, line) => *line,
            ScanErr::UnterminatedString(line) => *line,
        }
    }

    pub fn to_err(self) -> (e: LoxError)
        ensures
            e == LoxError::Scan(self),
    {
        LoxError::Scan(self)
    }
}

impl ParseErr {
    pub open spec fn spec_ln(&self) -> usize {
        match self {
            ParseErr::ExpectedToken(_, line) => *line,
            ParseErr::UnexpectedEOF(line) => *line,
            ParseErr::TooManyArguments(line) => *line,
            ParseErr::TooManyParameters(line) => *line,
            ParseErr::InvalidAssignment(line) => *line,
        }
    }

    /// The line of the error.
    pub fn ln(&self) -> (line: Option<usize>)
        ensures
            line == Some(self.spec_ln()),
    {
        match self {
            ParseErr::ExpectedToken(_, line) => Some(*line),
            ParseErr::UnexpectedEOF(line) => Some(*line),
            ParseErr::TooManyArguments(line) => Some(*line),
            ParseErr::TooManyParameters(line) => Some(*line),
            ParseErr::InvalidAssignment(line) => Some(*line),
        }
    }

    pub fn to_err(self) -> (e: LoxError)
        ensures
            e == LoxError::Parse(self),
    {
        LoxError::Parse(self)
    }
}

impl Clone for ParseErr {
    fn clone(&self) -> (e: Self)
        ensures
            e == *self,
    {
        match self {
            ParseErr::ExpectedToken(msg, line) => ParseErr::ExpectedToken(msg.clone(), *line),
            ParseErr::UnexpectedEOF(line) => ParseErr::UnexpectedEOF(*line),
            ParseErr::TooManyArguments(line) => ParseErr::TooManyArguments(*line),
            ParseErr::TooManyParameters(line) => ParseErr::TooManyParameters(*line),
            ParseErr::InvalidAssignment(line) => ParseErr::InvalidAssignment(*line),
        }
    }
}

impl ResolveErr {
    pub open spec fn spec_ln(&self) -> usize {
        match self {
            ResolveErr::InvalidLocalVariable(line) => *line,
            ResolveErr::VariablesWithSameName(line) => *line,
            ResolveErr::TopLevelReturn(line) => *line,
            ResolveErr::ReturnFromInitializer(line) => *line,
            ResolveErr::ThisOutsideClass(line) => *line,
            ResolveErr::SuperOutsideClass(line) => *line,
            ResolveErr::SuperWithoutSuperclass(line) => *line,
            ResolveErr::SelfInheritance(line) => *line,
        }
    }

    /// The line of the error.
    pub fn ln(&self) -> (line: usize)
        ensures
            line == self.spec_ln(),
    {
        match self {
            ResolveErr::InvalidLocalVariable(line) => *line,
            ResolveErr::VariablesWithSameName(line) => *line,
            ResolveErr::TopLevelReturn(line) => *line,
            ResolveErr::ReturnFromInitializer(line) => *line,
            ResolveErr::ThisOutsideClass(line) => *line,
            ResolveErr::SuperOutsideClass(line) => *line,
            ResolveErr::SuperWithoutSuperclass(line) => *line,
            ResolveErr::SelfInheritance(line) => *line,
        }
    }

    pub fn to_err(self) -> (e: LoxError)
        ensures
            e == LoxError::Resolve(self),
    {
        LoxError::Resolve(self)
    }
}

impl RuntimeErr {
    pub open spec fn spec_ln(&self) -> usize {
        match self {
            RuntimeErr::OperandMustBeNumber(line) => *line,
            RuntimeErr::InvalidOperandTypes(line) => *line,
            RuntimeErr::DivisionByZero(line) => *line,
            RuntimeErr::UndefinedVariable(_, line) => *line,
            RuntimeErr::UndefinedProperty(_, line) => *line,
            RuntimeErr::OnlyInstancesHaveProperties(line) => *line,
            RuntimeErr::InvalidCalleeExpr(line) => *line,
            RuntimeErr::ArgumentCountMismatch(_, _, line) => *line,
            RuntimeErr::SuperclassMustBeClass(line) => *line,
            RuntimeErr::DepthLimitExceeded(line) => *line,
        }
    }

    /// The line of the error.
    pub fn ln(&self) -> (line: usize)
        ensures
            line == self.spec_ln(),
    {
        match self {
            RuntimeErr::OperandMustBeNumber(line) => *line,
            RuntimeErr::InvalidOperandTypes(line) => *line,
            RuntimeErr::DivisionByZero(line) => *line,
            RuntimeErr::UndefinedVariable(_, line) => *line,
            RuntimeErr::UndefinedProperty(_, line) => *line,
            RuntimeErr::OnlyInstancesHaveProperties(line) => *line,
            RuntimeErr::InvalidCalleeExpr(line) => *line,
            RuntimeErr::ArgumentCountMismatch(_, _, line) => *line,
            RuntimeErr::SuperclassMustBeClass(line) => *line,
            RuntimeErr::DepthLimitExceeded(line) => *line,
        }
    }

    pub fn to_err(self) -> (e: LoxError)
        ensures
            e == LoxError::Runtime(self),
    {
        LoxError::Runtime(self)
    }
}

impl IoErr {
    pub fn to_err(self) -> (e: LoxError)
        ensures
            e == LoxError::Io(self),
    {
        LoxError::Io(self)
    }
}


impl ScanErr {
    pub open spec fn message_text(&self) -> Seq<char> {
        match self {
            ScanErr::UnexpectedChar(c, _) => quoted_text("Unexpected character "@, seq![*c], "."@),
            ScanErr::UnterminatedString(_) => "Unterminated string."@,
        }
    }

    /// What went wrong, in words.
    pub fn message(&self) -> (s: String)
        ensures
            s@ == self.message_text(),
    {
        match self {
            ScanErr::UnexpectedChar(c, _) => quoted(
                "Unexpected character ",
                char_text(*c).as_str(),
                ".",
            ),
            ScanErr::UnterminatedString(_) => "Unterminated string.".to_owned(),
        }
    }

    /// The diagnostic: the phase, the line and the message.
    pub fn get_msg(&self) -> (s: String)
        ensures
            s@ == located_text("SCAN"@, self.spec_ln() as nat, self.message_text()),
    {
        located("SCAN", self.ln(), self.message().as_str())
    }
}

impl ParseErr {
    pub open spec fn message_text(&self) -> Seq<char> {
        match self {
            ParseErr::ExpectedToken(msg, _) => msg@,
            ParseErr::UnexpectedEOF(_) => "Unexpected end of input."@,
            ParseErr::TooManyArguments(_) => "Can't have more than 255 arguments."@,
            ParseErr::TooManyParameters(_) => "Can't have more than 255 parameters."@,
            ParseErr::InvalidAssignment(_) => "Invalid assignment target."@,
        }
    }

    /// What went wrong, in words: for a missing token, the message of the
    /// rule that asked for it, as it is.
    pub fn message(&self) -> (s: String)
        ensures
            s@ == self.message_text(),
    {
        match self {
            ParseErr::ExpectedToken(msg, _) => msg.clone(),
            ParseErr::UnexpectedEOF(_) => "Unexpected end of input.".to_owned(),
            ParseErr::TooManyArguments(_) => "Can't have more than 255 arguments.".to_owned(),
            ParseErr::TooManyParameters(_) => "Can't have more than 255 parameters.".to_owned(),
            ParseErr::InvalidAssignment(_) => "Invalid assignment target.".to_owned(),
        }
    }

    /// The diagnostic: the phase, the line and the message.
    pub fn get_msg(&self) -> (s: String)
        ensures
            s@ == located_text("PARSE"@, self.spec_ln() as nat, self.message_text()),
    {
        let line = match self.ln() {
            Some(line) => line,
            None => 0,
        };
        located("PARSE", line, self.message().as_str())
    }
}

impl ResolveErr {
    pub open spec fn message_text(&self) -> Seq<char> {
        match self {
            ResolveErr::InvalidLocalVariable(_) => "Can't read local variable in its own initializer."@,
            ResolveErr::VariablesWithSameName(_) => "Already a variable with this name in this scope."@,
            ResolveErr::TopLevelReturn(_) => "Can't return from top-level code."@,
            ResolveErr::ReturnFromInitializer(_) => "Can't return a value from an initializer."@,
            ResolveErr::ThisOutsideClass(_) => "Can't use 'this' outside of a class."@,
            ResolveErr::SuperOutsideClass(_) => "Can't use 'super' outside of a class."@,
            ResolveErr::SuperWithoutSuperclass(_) => "Can't use 'super' in a class with no superclass."@,
            ResolveErr::SelfInheritance(_) => "A class can't inherit from itself."@,
        }
    }

    /// What went wrong, in words.
    pub fn message(&self) -> (s: String)
        ensures
            s@ == self.message_text(),
    {
        match self {
            ResolveErr::InvalidLocalVariable(_) => "Can't read local variable in its own initializer.".to_owned(),
            ResolveErr::VariablesWithSameName(_) => "Already a variable with this name in this scope.".to_owned(),
            ResolveErr::TopLevelReturn(_) => "Can't return from top-level code.".to_owned(),
            ResolveErr::ReturnFromInitializer(_) => "Can't return a value from an initializer.".to_owned(),
            ResolveErr::ThisOutsideClass(_) => "Can't use 'this' outside of a class.".to_owned(),
            ResolveErr::SuperOutsideClass(_) => "Can't use 'super' outside of a class.".to_owned(),
            ResolveErr::SuperWithoutSuperclass(_) => "Can't use 'super' in a class with no superclass.".to_owned(),
            ResolveErr::SelfInheritance(_) => "A class can't inherit from itself.".to_owned(),
        }
    }

    /// The diagnostic: the phase, the line and the message.
    pub fn get_msg(&self) -> (s: String)
        ensures
            s@ == located_text("RESOLVE"@, self.spec_ln() as nat, self.message_text()),
    {
        located("RESOLVE", self.ln(), self.message().as_str())
    }
}

/// The message for a call with `got` arguments of a callable that takes
/// `expected`.
pub open spec fn arity_text(expected: nat, got: nat) -> Seq<char> {
    "Expected "@ + decimal_text(expected) + " arguments but got "@ + decimal_text(got) + "."@
}

impl RuntimeErr {
    pub open spec fn message_text(&self) -> Seq<char> {
        match self {
            RuntimeErr::OperandMustBeNumber(_) => "Operand must be a number."@,
            RuntimeErr::InvalidOperandTypes(_) => "Operands must be two numbers or two strings."@,
            RuntimeErr::DivisionByZero(_) => "Division by zero."@,
            RuntimeErr::UndefinedVariable(name, _) => quoted_text("Undefined variable "@, name@, "."@),
            RuntimeErr::UndefinedProperty(name, _) => quoted_text("Undefined property "@, name@, "."@),
            RuntimeErr::OnlyInstancesHaveProperties(_) => "Only instances have properties."@,
            RuntimeErr::InvalidCalleeExpr(_) => "Can only call functions and classes."@,
            RuntimeErr::ArgumentCountMismatch(expected, got, _) => arity_text(
                *expected as nat,
                *got as nat,
            ),
            RuntimeErr::SuperclassMustBeClass(_) => "Superclass must be a class."@,
            RuntimeErr::DepthLimitExceeded(_) => "Calls or loops are nested too deep."@,
        }
    }

    /// What went wrong, in words.
    pub fn message(&self) -> (s: String)
        ensures
            s@ == self.message_text(),
    {
        match self {
            RuntimeErr::OperandMustBeNumber(_) => "Operand must be a number.".to_owned(),
            RuntimeErr::InvalidOperandTypes(_) => "Operands must be two numbers or two strings.".to_owned(),
            RuntimeErr::DivisionByZero(_) => "Division by zero.".to_owned(),
            RuntimeErr::UndefinedVariable(name, _) => quoted("Undefined variable ", name.as_str(), "."),
            RuntimeErr::UndefinedProperty(name, _) => quoted("Undefined property ", name.as_str(), "."),
            RuntimeErr::OnlyInstancesHaveProperties(_) => "Only instances have properties.".to_owned(),
            RuntimeErr::InvalidCalleeExpr(_) => "Can only call functions and classes.".to_owned(),
            RuntimeErr::ArgumentCountMismatch(expected, got, _) => {
                let mut s = "Expected ".to_owned();
                s.append(decimal(*expected).as_str());
                s.append(" arguments but got ");
                s.append(decimal(*got).as_str());
                s.append(".");
                s
            },
            RuntimeErr::SuperclassMustBeClass(_) => "Superclass must be a class.".to_owned(),
            RuntimeErr::DepthLimitExceeded(_) => "Calls or loops are nested too deep.".to_owned(),
        }
    }

    /// The diagnostic: the phase, the line and the message.
    pub fn get_msg(&self) -> (s: String)
        ensures
            s@ == located_text("RUNTIME"@, self.spec_ln() as nat, self.message_text()),
    {
        located("RUNTIME", self.ln(), self.message().as_str())
    }
}

impl IoErr {
    pub open spec fn message_text(&self) -> Seq<char> {
        match self {
            IoErr::FileNotFound(path) => quoted_text("File not found in path: "@, path@, ""@),
            IoErr::FailedToCreateFile(path) => quoted_text(
                "Failed to create file in path: "@,
                path@,
                ""@,
            ),
            IoErr::InvalidFileExtension => "Invalid file extension, expected '.lox' extension"@,
            IoErr::ASTSyntaxInvalid => "Syntax invalid in AST tool"@,
        }
    }

    /// What went wrong, in words.
    pub fn message(&self) -> (s: String)
        ensures
            s@ == self.message_text(),
    {
        match self {
            IoErr::FileNotFound(path) => quoted("File not found in path: ", path.as_str(), ""),
            IoErr::FailedToCreateFile(path) => quoted(
                "Failed to create file in path: ",
                path.as_str(),
                "",
            ),
            IoErr::InvalidFileExtension => "Invalid file extension, expected '.lox' extension".to_owned(),
            IoErr::ASTSyntaxInvalid => "Syntax invalid in AST tool".to_owned(),
        }
    }

    /// The diagnostic: the phase and the message.
    pub fn get_msg(&self) -> (s: String)
        ensures
            s@ == "SYS | "@ + self.message_text(),
    {
        join("SYS | ", self.message().as_str())
    }
}

impl LoxError {
    /// The diagnostic of the error: its phase, its line where it has one,
    /// and its message.
    pub open spec fn diagnostic(&self) -> Seq<char> {
        match self {
            LoxError::Scan(e) => located_text("SCAN"@, e.spec_ln() as nat, e.message_text()),
            LoxError::Parse(e) => located_text("PARSE"@, e.spec_ln() as nat, e.message_text()),
            LoxError::Resolve(e) => located_text("RESOLVE"@, e.spec_ln() as nat, e.message_text()),
            LoxError::Runtime(e) => located_text("RUNTIME"@, e.spec_ln() as nat, e.message_text()),
            LoxError::Io(e) => "SYS | "@ + e.message_text(),
        }
    }

    pub fn get_msg(&self) -> (s: String)
        ensures
            s@ == self.diagnostic(),
    {
        match self {
            LoxError::Scan(e) => e.get_msg(),
            LoxError::Parse(e) => e.get_msg(),
            LoxError::Resolve(e) => e.get_msg(),
            LoxError::Runtime(e) => e.get_msg(),
            LoxError::Io(e) => e.get_msg(),
        }
    }

    /// The alert that reports the error: an error alert with the
    /// diagnostic.
    pub fn report(self) -> (alert: Alert)
        ensures
            alert.is(AlertType::Error, self.diagnostic()),
    {
        Alert::error(self.get_msg())
    }

    /// The exit code of a run that ended with this error: 70 for an error
    /// of the evaluation, 1 for every other.
    pub fn exit_code(&self) -> (code: i32)
        ensures
            code == if self is Runtime {
                70i32
            } else {
                1i32
            },
    {
        match self {
            LoxError::Runtime(_) => 70,
            _ => 1,
        }
    }
}


pub enum RuntimeErrView {
    OperandMustBeNumber(nat),
    InvalidOperandTypes(nat),
    DivisionByZero(nat),
    UndefinedVariable(Seq<char>, nat),
    UndefinedProperty(Seq<char>, nat),
    OnlyInstancesHaveProperties(nat),
    InvalidCalleeExpr(nat),
    ArgumentCountMismatch(nat, nat, nat),
    SuperclassMustBeClass(nat),
    DepthLimitExceeded(nat),
}

impl View for RuntimeErr {
    type V = RuntimeErrView;

    open spec fn view(&self) -> RuntimeErrView {
        match self {
            RuntimeErr::OperandMustBeNumber(line) => RuntimeErrView::OperandMustBeNumber(*line as nat),
            RuntimeErr::InvalidOperandTypes(line) => RuntimeErrView::InvalidOperandTypes(*line as nat),
            RuntimeErr::DivisionByZero(line) => RuntimeErrView::DivisionByZero(*line as nat),
            RuntimeErr::UndefinedVariable(name, line) => RuntimeErrView::UndefinedVariable(
                name@,
                *line as nat,
            ),
            RuntimeErr::UndefinedProperty(name, line) => RuntimeErrView::UndefinedProperty(
                name@,
                *line as nat,
            ),
            RuntimeErr::OnlyInstancesHaveProperties(line) => RuntimeErrView::OnlyInstancesHaveProperties(
                *line as nat,
            ),
            RuntimeErr::InvalidCalleeExpr(line) => RuntimeErrView::InvalidCalleeExpr(*line as nat),
            RuntimeErr::ArgumentCountMismatch(expected, got, line) => RuntimeErrView::ArgumentCountMismatch(
                *expected as nat,
                *got as nat,
                *line as nat,
            ),
            RuntimeErr::SuperclassMustBeClass(line) => RuntimeErrView::SuperclassMustBeClass(
                *line as nat,
            ),
            RuntimeErr::DepthLimitExceeded(line) => RuntimeErrView::DepthLimitExceeded(*line as nat),
        }
    }
}

pub enum IoErrView {
    FileNotFound(Seq<char>),
    FailedToCreateFile(Seq<char>),
    InvalidFileExtension,
    ASTSyntaxInvalid,
}

impl View for IoErr {
    type V = IoErrView;

    open spec fn view(&self) -> IoErrView {
        match self {
            IoErr::FileNotFound(path) => IoErrView::FileNotFound(path@),
            IoErr::FailedToCreateFile(path) => IoErrView::FailedToCreateFile(path@),
            IoErr::InvalidFileExtension => IoErrView::InvalidFileExtension,
            IoErr::ASTSyntaxInvalid => IoErrView::ASTSyntaxInvalid,
        }
    }
}

pub enum LoxErrorView {
    Scan(ScanErr),
    Parse(ParseErrView),
    Resolve(ResolveErr),
    Runtime(RuntimeErrView),
    Io(IoErrView),
}

impl View for LoxError {
    type V = LoxErrorView;

    open spec fn view(&self) -> LoxErrorView {
        match self {
            LoxError::Scan(e) => LoxErrorView::Scan(*e),
            LoxError::Parse(e) => LoxErrorView::Parse(e@),
            LoxError::Resolve(e) => LoxErrorView::Resolve(*e),
            LoxError::Runtime(e) => LoxErrorView::Runtime(e@),
            LoxError::Io(e) => LoxErrorView::Io(e@),
        }
    }
}

} // verus!
