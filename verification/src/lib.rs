//! A tree-walking interpreter for the Lox language: scanner, parser,
//! resolver, environment arena and evaluator.

pub mod alert;
pub mod ast;
pub mod callable;
pub mod cli;
pub mod env;
pub mod errors;
pub mod grammar;
pub mod host;
pub mod interpreter;
pub mod parser;
pub mod printer;
pub mod resolver;
pub mod rle;
pub mod run;
pub mod scanner;
pub mod scoping;
pub mod semantics;
pub mod text;
pub mod token;
pub mod tools;
pub mod value;
