//! A run: source text through the scanner, the parser, the resolver and the
//! evaluator. An evaluator outlives its runs, so what one run declares is
//! there in the next.

use crate::errors::{IoErr, LoxError, LoxErrorView};
use crate::grammar::parse_spec;
use crate::host::{Host, HostCall, Recorded, continues};
use crate::interpreter::{Interpreter, foretold, unit_result};
use crate::parser::Parser;
use crate::resolver::Resolver;
use crate::scanner::{Scanner, all_without_bits, number_calls, scan_spec, without_bits};
use crate::scoping::{fresh, resolve_stmts};
use crate::semantics::{Outcome, State, number_reply, run_program};
use crate::token::{Token, TokenKind, TokenView, token_views};
use vstd::prelude::*;

verus! {

/// What a run shows besides the output of the program.
pub struct RunOptsCommand {
    pub debug: bool,
    pub show_ast: bool,
    pub show_tokens: bool,
}

impl Default for RunOptsCommand {
    fn default() -> (opts: Self)
        ensures
            !opts.debug && !opts.show_ast && !opts.show_tokens,
    {
        RunOptsCommand { debug: false, show_ast: false, show_tokens: false }
    }
}

impl RunOptsCommand {
    /// Whether the run lists its tokens: where it is asked to, and in debug
    /// mode where neither listing is asked for.
    pub fn lists_tokens(&self) -> (r: bool)
        ensures
            r == (self.show_tokens || (self.debug && !self.show_ast)),
    {
        self.show_tokens || (self.debug && !self.show_ast)
    }

    /// Whether the run lists its syntax tree: where it is asked to, and in
    /// debug mode where neither listing is asked for.
    pub fn lists_ast(&self) -> (r: bool)
        ensures
            r == (self.show_ast || (self.debug && !self.show_tokens)),
    {
        self.show_ast || (self.debug && !self.show_tokens)
    }
}

/// Whether `path` ends in `.lox`.
pub open spec fn has_lox_extension(path: Seq<char>) -> bool {
    path.len() >= 4 && path.subrange(path.len() - 4, path.len() as int) == ".lox"@
}

/// The path of a source file: it must end in `.lox`.
pub fn handle_path_format(path: &str) -> (r: Result<String, LoxError>)
    ensures
        has_lox_extension(path@) ==> r is Ok && r->Ok_0@ == path@,
        !has_lox_extension(path@) ==> r == Err::<String, LoxError>(
            LoxError::Io(IoErr::InvalidFileExtension),
        ),
{
    let n = path.unicode_len();
    if n < 4 {
        return Err(LoxError::Io(IoErr::InvalidFileExtension));
    }
    let ending = path.substring_char(n - 4, n).to_owned();
    let wanted = ".lox".to_owned();
    if ending == wanted {
        Ok(path.to_owned())
    } else {
        Err(LoxError::Io(IoErr::InvalidFileExtension))
    }
}

/// The tokens `tokens` with the numbers that the host reads for them: the
/// call behind the first `k` of the script answers for the first number
/// token, the next call for the next, and so on.
pub open spec fn with_numbers(tokens: Seq<TokenView>, script: Seq<HostCall>, k: nat) -> Seq<TokenView>
    decreases tokens.len(),
{
    if tokens.len() == 0 {
        Seq::empty()
    } else {
        let before = with_numbers(tokens.drop_last(), script, k);
        let t = tokens.last();
        if t.kind == TokenKind::Number {
            before.push(
                TokenView {
                    bits: number_reply(script, k + number_calls(tokens.drop_last()).len()),
                    ..t
                },
            )
        } else {
            before.push(t)
        }
    }
}

/// What a run of the program of `tokens` does in the state `s`: nothing
/// but fail with the first error of the parser, or else with the first of
/// the resolver, where there is one; else what the resolved program does.
pub open spec fn tokens_meaning(s: State, tokens: Seq<TokenView>, depth: nat, script: Seq<HostCall>) -> Outcome<
    (),
> {
    let parsed = parse_spec(tokens);
    if parsed.errors.len() > 0 {
        Outcome { state: s, result: Err(LoxErrorView::Parse(parsed.errors[0])) }
    } else {
        let resolved = resolve_stmts(parsed.result->Ok_0, 0, Seq::empty(), fresh());
        if resolved.state.errors.len() > 0 {
            Outcome { state: s, result: Err(LoxErrorView::Resolve(resolved.state.errors[0])) }
        } else {
            run_program(s, resolved.tree, 0, depth, script)
        }
    }
}

/// What a run of the source text `source` does in the state `s`: the host
/// reads the numbers of the tokens; then the run fails with the first
/// error of the scanner, where there is one, or does what its tokens mean.
pub open spec fn source_meaning(s: State, source: Seq<char>, depth: nat, script: Seq<HostCall>) -> Outcome<
    (),
> {
    let scanned = scan_spec(source);
    let tokens = with_numbers(scanned.tokens, script, s.calls.len());
    let read = State { calls: s.calls + number_calls(tokens), ..s };
    if scanned.errors.len() > 0 {
        Outcome { state: read, result: Err(LoxErrorView::Scan(scanned.errors[0])) }
    } else {
        tokens_meaning(read, tokens, depth, script)
    }
}

/// The calls that read the numbers of tokens are as many as the number
/// tokens, whatever numbers the tokens carry.
pub proof fn lemma_number_calls_count(tokens: Seq<TokenView>)
    ensures
        number_calls(all_without_bits(tokens)).len() == number_calls(tokens).len(),
        number_calls(tokens).len() <= tokens.len(),
    decreases tokens.len(),
{
    if tokens.len() > 0 {
        lemma_number_calls_count(tokens.drop_last());
        assert(all_without_bits(tokens).drop_last() =~= all_without_bits(tokens.drop_last()));
    }
}

/// Only number tokens carry a number.
pub open spec fn numbers_on_number_tokens(tokens: Seq<TokenView>) -> bool {
    forall|i: int|
        0 <= i < tokens.len() && (#[trigger] tokens[i]).kind != TokenKind::Number ==> tokens[i].bits
            == 0
}

/// Tokens whose numbers the host has read are the tokens of the scanner
/// with the numbers of every script that goes on from those calls.
pub proof fn lemma_numbers_from_script(tokens: Seq<TokenView>, before: Seq<HostCall>, script: Seq<HostCall>)
    requires
        numbers_on_number_tokens(tokens),
        continues(before + number_calls(tokens), script),
    ensures
        with_numbers(all_without_bits(tokens), script, before.len()) == tokens,
    decreases tokens.len(),
{
    let plain = all_without_bits(tokens);
    if tokens.len() == 0 {
        assert(with_numbers(plain, script, before.len()) =~= tokens);
    } else {
        let init = tokens.drop_last();
        let t = tokens.last();
        assert(plain.drop_last() =~= all_without_bits(init));
        assert(plain.last() == without_bits(t));
        let made = before + number_calls(tokens);
        let earlier = before + number_calls(init);
        assert(continues(earlier, script)) by {
            assert(earlier.len() <= made.len());
            assert forall|i: int| 0 <= i < earlier.len() implies #[trigger] script[i]
                == earlier[i] by {
                assert(script[i] == made[i]);
            }
        }
        lemma_numbers_from_script(init, before, script);
        lemma_number_calls_count(init);
        if t.kind == TokenKind::Number {
            let at = before.len() + number_calls(init).len();
            assert(made[at as int] == HostCall::ParseNumber { text: t.lexeme, bits: t.bits });
            assert(script[at as int] == made[at as int]);
            assert(number_reply(script, at as nat) == t.bits);
            assert(with_numbers(plain, script, before.len()) =~= tokens);
        } else {
            assert(without_bits(t) == t);
            assert(with_numbers(plain, script, before.len()) =~= tokens);
        }
    }
}

/// Runs the program of `tokens`: parses it, resolves it and, where neither
/// reported an error, executes it. With a static error nothing is
/// executed, and the result is the first error of the parser or else the
/// first of the resolver.
pub fn run<H: Host>(tokens: Vec<Token>, interpreter: &mut Interpreter, host: &mut Recorded<H>) -> (r:
    Result<(), LoxError>)
    requires
        old(interpreter).well_formed(),
    ensures
        final(interpreter).evolved_from(old(interpreter)),
        continues(old(host).calls(), final(host).calls()),
        foretold(
            final(interpreter).state(final(host).calls()),
            unit_result(r),
            |script: Seq<HostCall>|
                tokens_meaning(
                    old(interpreter).state(old(host).calls()),
                    token_views(tokens@),
                    old(interpreter).max_depth as nat,
                    script,
                ),
        ),
        parse_spec(token_views(tokens@)).errors.len() > 0 ==> {
            &&& *final(interpreter) == *old(interpreter)
            &&& final(host).calls() == old(host).calls()
            &&& r matches Err(LoxError::Parse(e)) && e@ == parse_spec(token_views(tokens@)).errors[0]
        },
        parse_spec(token_views(tokens@)).errors.len() == 0 && resolve_stmts(
            parse_spec(token_views(tokens@)).result->Ok_0,
            0,
            Seq::empty(),
            fresh(),
        ).state.errors.len() > 0 ==> {
            &&& *final(interpreter) == *old(interpreter)
            &&& final(host).calls() == old(host).calls()
            &&& r == Err::<(), LoxError>(
                LoxError::Resolve(
                    resolve_stmts(
                        parse_spec(token_views(tokens@)).result->Ok_0,
                        0,
                        Seq::empty(),
                        fresh(),
                    ).state.errors[0],
                ),
            )
        },
{
    let mut parser = Parser::new(tokens);
    let statements = match parser.parse() {
        Ok(statements) => statements,
        Err(e) => {
            return Err(e);
        },
    };
    let mut resolver = Resolver::new();
    let resolved = match resolver.resolve_stmts(&statements) {
        Ok(resolved) => resolved,
        Err(e) => {
            return Err(e);
        },
    };
    interpreter.interpret(&resolved, host)
}

/// Runs the source text `source`: scans it and, where the scanner reported
/// no error, runs its tokens. With a scan error nothing is parsed or
/// executed, and the result is the first of them.
pub fn handle_run_command<H: Host>(
    source: String,
    interpreter: &mut Interpreter,
    host: &mut Recorded<H>,
) -> (r: Result<(), LoxError>)
    requires
        old(interpreter).well_formed(),
        source@.len() < usize::MAX,
    ensures
        final(interpreter).evolved_from(old(interpreter)),
        continues(old(host).calls(), final(host).calls()),
        foretold(
            final(interpreter).state(final(host).calls()),
            unit_result(r),
            |script: Seq<HostCall>|
                source_meaning(
                    old(interpreter).state(old(host).calls()),
                    source@,
                    old(interpreter).max_depth as nat,
                    script,
                ),
        ),
        scan_spec(source@).errors.len() > 0 ==> {
            &&& *final(interpreter) == *old(interpreter)
            &&& r == Err::<(), LoxError>(LoxError::Scan(scan_spec(source@).errors[0]))
        },
        r is Ok ==> scan_spec(source@).errors.len() == 0,
{
    let ghost before = host.calls();
    let ghost entry = interpreter.state(before);
    let ghost depth = interpreter.max_depth as nat;
    let ghost text = source@;
    let mut scanner = Scanner::new(source);
    let _ = scanner.scan_tokens(host);
    let ghost read = scanner.tokens();
    let ghost read_calls = host.calls();
    proof {
        assert(read.skip(0) =~= read);
        scanner.lemma_tokens_carry_numbers();
    }
    if scanner.get_errors().len() > 0 {
        let e = scanner.get_errors()[0];
        proof {
            assert(scanner.errors() =~= scan_spec(text).errors);
            assert forall|later: Seq<HostCall>, script: Seq<HostCall>|
                #![trigger continues(later, script)]
                continues(read_calls, later) && continues(later, script) implies source_meaning(
                entry,
                text,
                depth,
                script,
            ) == (Outcome {
                state: interpreter.state(read_calls),
                result: Err::<(), LoxErrorView>(LoxErrorView::Scan(e)),
            }) by {
                assert(continues(read_calls, script));
                lemma_numbers_from_script(read, before, script);
            }
        }
        return Err(LoxError::Scan(e));
    }
    let tokens = scanner.into_tokens();
    let r = run(tokens, interpreter, host);
    proof {
        assert(scan_spec(text).errors.len() == 0);
        assert forall|later: Seq<HostCall>, script: Seq<HostCall>|
            #![trigger continues(later, script)]
            continues(host.calls(), later) && continues(later, script) implies source_meaning(
            entry,
            text,
            depth,
            script,
        ) == (Outcome { state: interpreter.state(host.calls()), result: unit_result(r) }) by {
            assert(continues(read_calls, script));
            lemma_numbers_from_script(read, before, script);
        }
    }
    r
}

} // verus!
