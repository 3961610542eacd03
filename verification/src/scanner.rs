//! The scanner: source text to tokens, each with the line on which it began.

use crate::errors::ScanErr;
use crate::host::{Host, HostCall, Recorded};
use crate::text::text_between;
use crate::token::{Token, TokenKind, TokenType, TokenView, token_views};
use vstd::prelude::*;
use vstd::std_specs::iter::IteratorSpec;

verus! {

/// The sets of characters that a lexeme runs through.
#[derive(Clone, Copy, Debug, PartialEq, Eq, Structural)]
pub enum CharClass {
    Digit,
    AlphaNumeric,
    NotNewline,
    NotQuote,
}

pub open spec fn is_digit(c: char) -> bool {
    '0' <= c && c <= '9'
}

/// An ASCII letter or the underscore.
pub open spec fn is_alpha(c: char) -> bool {
    ('a' <= c && c <= 'z') || ('A' <= c && c <= 'Z') || c == '_'
}

pub open spec fn in_class(c: char, class: CharClass) -> bool {
    match class {
        CharClass::Digit => is_digit(c),
        CharClass::AlphaNumeric => is_alpha(c) || is_digit(c),
        CharClass::NotNewline => c != '\n',
        CharClass::NotQuote => c != '"',
    }
}

/// The number of characters from `from` on that are all in `class`.
pub open spec fn run_len(src: Seq<char>, from: int, class: CharClass) -> nat
    decreases src.len() - from,
{
    if 0 <= from < src.len() && in_class(src[from], class) {
        1 + run_len(src, from + 1, class)
    } else {
        0
    }
}

/// The number of characters from `from` on that stand before the first
/// `*/`, or before the end of the source where there is none.
pub open spec fn comment_len(src: Seq<char>, from: int) -> nat
    decreases src.len() - from,
{
    if from < 0 || from >= src.len() {
        0
    } else if from + 1 < src.len() && src[from] == '*' && src[from + 1] == '/' {
        0
    } else {
        1 + comment_len(src, from + 1)
    }
}

/// The number of line terminators in `src` from `from` up to `to`.
pub open spec fn newlines(src: Seq<char>, from: int, to: int) -> nat
    decreases to - from,
{
    if 0 <= from < to <= src.len() {
        newlines(src, from, to - 1) + if src[to - 1] == '\n' {
            1nat
        } else {
            0nat
        }
    } else {
        0
    }
}

/// The kind of the identifier `text`: that of the keyword it spells, or
/// `Identifier`.
pub open spec fn keyword_kind(text: Seq<char>) -> TokenKind {
    if text == "and"@ {
        TokenKind::And
    } else if text == "class"@ {
        TokenKind::Class
    } else if text == "else"@ {
        TokenKind::Else
    } else if text == "false"@ {
        TokenKind::False
    } else if text == "for"@ {
        TokenKind::For
    } else if text == "fun"@ {
        TokenKind::Fun
    } else if text == "if"@ {
        TokenKind::If
    } else if text == "nil"@ {
        TokenKind::Nil
    } else if text == "or"@ {
        TokenKind::Or
    } else if text == "print"@ {
        TokenKind::Print
    } else if text == "return"@ {
        TokenKind::Return
    } else if text == "super"@ {
        TokenKind::Super
    } else if text == "this"@ {
        TokenKind::This
    } else if text == "true"@ {
        TokenKind::True
    } else if text == "var"@ {
        TokenKind::Var
    } else if text == "while"@ {
        TokenKind::While
    } else {
        TokenKind::Identifier
    }
}

/// What one step of the scanner found.
#[derive(Clone, Copy, Debug, PartialEq, Eq, Structural)]
pub enum Lexed {
    /// A token of this kind.
    Token(TokenKind),
    /// White space or a comment.
    Skip,
    Error(ScanErr),
}

/// One step of the scanner: where the next step begins, the line there, and
/// what stood in between.
pub struct LexStep {
    pub next: int,
    pub line: nat,
    pub item: Lexed,
}

/// The step for a lexeme of one character, or of two where `second` follows.
pub open spec fn one_or_two(
    src: Seq<char>,
    pos: int,
    line: nat,
    second: char,
    two: TokenKind,
    one: TokenKind,
) -> LexStep {
    if pos + 1 < src.len() && src[pos + 1] == second {
        LexStep { next: pos + 2, line, item: Lexed::Token(two) }
    } else {
        LexStep { next: pos + 1, line, item: Lexed::Token(one) }
    }
}

pub open spec fn single(pos: int, line: nat, kind: TokenKind) -> LexStep {
    LexStep { next: pos + 1, line, item: Lexed::Token(kind) }
}

/// The step at a `/`: a line comment, a block comment or the operator.
pub open spec fn slash_step(src: Seq<char>, pos: int, line: nat) -> LexStep {
    if pos + 1 < src.len() && src[pos + 1] == '/' {
        LexStep {
            next: pos + 2 + run_len(src, pos + 2, CharClass::NotNewline),
            line,
            item: Lexed::Skip,
        }
    } else if pos + 1 < src.len() && src[pos + 1] == '*' {
        let close = pos + 2 + comment_len(src, pos + 2);
        if close < src.len() {
            LexStep { next: close + 2, line: line + newlines(src, pos, close), item: Lexed::Skip }
        } else {
            LexStep {
                next: src.len() as int,
                line: line + newlines(src, pos, src.len() as int),
                item: Lexed::Error(ScanErr::UnterminatedString(line as usize)),
            }
        }
    } else {
        single(pos, line, TokenKind::Slash)
    }
}

/// The step at a `"`: the string up to the closing quote.
pub open spec fn string_step(src: Seq<char>, pos: int, line: nat) -> LexStep {
    let close = pos + 1 + run_len(src, pos + 1, CharClass::NotQuote);
    if close < src.len() {
        LexStep {
            next: close + 1,
            line: line + newlines(src, pos, close),
            item: Lexed::Token(TokenKind::String),
        }
    } else {
        LexStep {
            next: src.len() as int,
            line: line + newlines(src, pos, src.len() as int),
            item: Lexed::Error(ScanErr::UnterminatedString(line as usize)),
        }
    }
}

/// The step at a digit: digits, then a point and digits where a digit
/// follows the point.
pub open spec fn number_step(src: Seq<char>, pos: int, line: nat) -> LexStep {
    let whole = pos + 1 + run_len(src, pos + 1, CharClass::Digit);
    if whole + 1 < src.len() && src[whole] == '.' && is_digit(src[whole + 1]) {
        LexStep {
            next: whole + 1 + run_len(src, whole + 1, CharClass::Digit),
            line,
            item: Lexed::Token(TokenKind::Number),
        }
    } else {
        LexStep { next: whole, line, item: Lexed::Token(TokenKind::Number) }
    }
}

/// The step at a letter or an underscore: an identifier or a keyword.
pub open spec fn identifier_step(src: Seq<char>, pos: int, line: nat) -> LexStep {
    let end = pos + 1 + run_len(src, pos + 1, CharClass::AlphaNumeric);
    LexStep { next: end, line, item: Lexed::Token(keyword_kind(src.subrange(pos, end))) }
}

/// The step of the scanner at `pos`, on line `line`.
pub open spec fn lex_step(src: Seq<char>, pos: int, line: nat) -> LexStep
    recommends
        0 <= pos < src.len(),
{
    let c = src[pos];
    if c == '(' {
        single(pos, line, TokenKind::LeftParen)
    } else if c == ')' {
        single(pos, line, TokenKind::RightParen)
    } else if c == '{' {
        single(pos, line, TokenKind::LeftBrace)
    } else if c == '}' {
        single(pos, line, TokenKind::RightBrace)
    } else if c == ',' {
        single(pos, line, TokenKind::Comma)
    } else if c == '.' {
        single(pos, line, TokenKind::Dot)
    } else if c == '-' {
        single(pos, line, TokenKind::Minus)
    } else if c == '+' {
        single(pos, line, TokenKind::Plus)
    } else if c == ';' {
        single(pos, line, TokenKind::Semicolon)
    } else if c == '*' {
        single(pos, line, TokenKind::Star)
    } else if c == '!' {
        one_or_two(src, pos, line, '=', TokenKind::BangEqual, TokenKind::Bang)
    } else if c == '=' {
        one_or_two(src, pos, line, '=', TokenKind::EqualEqual, TokenKind::Equal)
    } else if c == '<' {
        one_or_two(src, pos, line, '=', TokenKind::LessEqual, TokenKind::Less)
    } else if c == '>' {
        one_or_two(src, pos, line, '=', TokenKind::GreaterEqual, TokenKind::Greater)
    } else if c == '/' {
        slash_step(src, pos, line)
    } else if c == ' ' || c == '\r' || c == '\t' {
        LexStep { next: pos + 1, line, item: Lexed::Skip }
    } else if c == '\n' {
        LexStep { next: pos + 1, line: line + 1, item: Lexed::Skip }
    } else if c == '"' {
        string_step(src, pos, line)
    } else if is_digit(c) {
        number_step(src, pos, line)
    } else if is_alpha(c) {
        identifier_step(src, pos, line)
    } else {
        LexStep { next: pos + 1, line, item: Lexed::Error(ScanErr::UnexpectedChar(c, line as usize)) }
    }
}

/// A run of characters ends within the source.
pub proof fn lemma_run_len_bound(src: Seq<char>, from: int, class: CharClass)
    requires
        0 <= from <= src.len(),
    ensures
        from + run_len(src, from, class) <= src.len(),
        from + run_len(src, from, class) < src.len() ==> !in_class(
            src[from + run_len(src, from, class)],
            class,
        ),
    decreases src.len() - from,
{
    if from < src.len() && in_class(src[from], class) {
        lemma_run_len_bound(src, from + 1, class);
    }
}

/// The inside of a block comment ends within the source, at `*/` where it
/// ends before the last character.
pub proof fn lemma_comment_len_bound(src: Seq<char>, from: int)
    requires
        0 <= from <= src.len(),
    ensures
        from + comment_len(src, from) <= src.len(),
        from + comment_len(src, from) < src.len() ==> from + comment_len(src, from) + 1
            < src.len(),
    decreases src.len() - from,
{
    if from < src.len() && !(from + 1 < src.len() && src[from] == '*' && src[from + 1] == '/') {
        lemma_comment_len_bound(src, from + 1);
    }
}

/// There are no more line terminators than characters.
pub proof fn lemma_newlines_bound(src: Seq<char>, from: int, to: int)
    ensures
        newlines(src, from, to) <= if from <= to {
            to - from
        } else {
            0
        },
    decreases to - from,
{
    if 0 <= from < to <= src.len() {
        lemma_newlines_bound(src, from, to - 1);
    }
}

/// Every step of the scanner consumes at least one character and ends
/// within the source.
pub proof fn lemma_step_advances(src: Seq<char>, pos: int, line: nat)
    requires
        0 <= pos < src.len(),
    ensures
        pos < lex_step(src, pos, line).next <= src.len(),
        lex_step(src, pos, line).line <= line + (lex_step(src, pos, line).next - pos),
{
    let c = src[pos];
    let step = lex_step(src, pos, line);
    lemma_newlines_bound(src, pos, step.next);
    lemma_newlines_bound(src, pos, step.next - 1);
    lemma_newlines_bound(src, pos, step.next - 2);
    if c == '/' {
        if pos + 1 < src.len() && src[pos + 1] == '/' {
            lemma_run_len_bound(src, pos + 2, CharClass::NotNewline);
        } else if pos + 1 < src.len() && src[pos + 1] == '*' {
            lemma_comment_len_bound(src, pos + 2);
        }
    } else if c == '"' {
        lemma_run_len_bound(src, pos + 1, CharClass::NotQuote);
    } else if is_digit(c) {
        lemma_run_len_bound(src, pos + 1, CharClass::Digit);
        let whole = pos + 1 + run_len(src, pos + 1, CharClass::Digit);
        if whole + 1 < src.len() {
            lemma_run_len_bound(src, whole + 1, CharClass::Digit);
        }
    } else if is_alpha(c) {
        lemma_run_len_bound(src, pos + 1, CharClass::AlphaNumeric);
    }
}

#[via_fn]
proof fn scan_from_decreases(src: Seq<char>, pos: int, line: nat) {
    if 0 <= pos < src.len() {
        lemma_step_advances(src, pos, line);
    }
}

/// The token of kind `kind` that spans `src` from `start` up to `end` and
/// began on `line`, before the host has read its number.
pub open spec fn token_at(src: Seq<char>, start: int, end: int, kind: TokenKind, line: nat) -> TokenView {
    TokenView {
        kind,
        text: if kind == TokenKind::String {
            src.subrange(start + 1, end - 1)
        } else {
            Seq::empty()
        },
        bits: 0,
        lexeme: src.subrange(start, end),
        line,
    }
}

pub open spec fn eof_token(line: nat) -> TokenView {
    TokenView { kind: TokenKind::EOF, text: Seq::empty(), bits: 0, lexeme: Seq::empty(), line }
}

/// The tokens and the errors of a scan.
pub struct Scanned {
    pub tokens: Seq<TokenView>,
    pub errors: Seq<ScanErr>,
}

/// The scan of `src` from `pos` on, where `pos` is on line `line`: the
/// tokens in order, closed by the end-of-file token, and the errors in
/// order.
pub open spec fn scan_from(src: Seq<char>, pos: int, line: nat) -> Scanned
    decreases src.len() - pos,
    via scan_from_decreases
{
    if pos < 0 || pos >= src.len() {
        Scanned { tokens: seq![eof_token(line)], errors: Seq::empty() }
    } else {
        let step = lex_step(src, pos, line);
        let rest = scan_from(src, step.next, step.line);
        match step.item {
            Lexed::Token(kind) => Scanned {
                tokens: seq![token_at(src, pos, step.next, kind, line)] + rest.tokens,
                errors: rest.errors,
            },
            Lexed::Skip => rest,
            Lexed::Error(e) => Scanned { tokens: rest.tokens, errors: seq![e] + rest.errors },
        }
    }
}

/// The scan of a whole source text.
pub open spec fn scan_spec(src: Seq<char>) -> Scanned {
    scan_from(src, 0, 1)
}

/// A token without the number that the host read for it.
pub open spec fn without_bits(t: TokenView) -> TokenView {
    TokenView { bits: 0, ..t }
}

pub open spec fn all_without_bits(tokens: Seq<TokenView>) -> Seq<TokenView> {
    tokens.map_values(|t: TokenView| without_bits(t))
}

/// The calls of the host that read the numbers of `tokens`: one for each
/// number token, in order, with its lexeme and the bit pattern it carries.
pub open spec fn number_calls(tokens: Seq<TokenView>) -> Seq<HostCall>
    decreases tokens.len(),
{
    if tokens.len() == 0 {
        Seq::empty()
    } else {
        let before = number_calls(tokens.drop_last());
        let t = tokens.last();
        if t.kind == TokenKind::Number {
            before.push(HostCall::ParseNumber { text: t.lexeme, bits: t.bits })
        } else {
            before
        }
    }
}


/// One step of the scanner, as the scanner computes it.
pub struct Step {
    pub next: usize,
    pub line: usize,
    pub item: Lexed,
}

impl Step {
    /// This step is `step`.
    pub open spec fn is(&self, step: LexStep) -> bool {
        self.next == step.next && self.line == step.line && self.item == step.item
    }
}

/// The characters of `s`, in order.
pub fn chars_of(s: &str) -> (v: Vec<char>)
    ensures
        v@ == s@,
{
    broadcast use vstd::string::group_string_axioms;

    let mut v: Vec<char> = Vec::new();
    let mut it = s.chars();
    assert(v@ + it.remaining() =~= s@);
    loop
        invariant
            it.obeys_prophetic_iter_laws(),
            it.decrease() is Some,
            v@ + it.remaining() == s@,
        ensures
            v@ == s@,
        decreases it.decrease()->0,
    {
        let ghost before = it.remaining();
        match it.next() {
            Some(c) => {
                v.push(c);
                assert(v@ + it.remaining() =~= s@);
            },
            None => {
                assert(v@ + before =~= v@);
                break ;
            },
        }
    }
    v
}

/// The scanner of one source text.
pub struct Scanner {
    chars: Vec<char>,
    tokens: Vec<Token>,
    errors: Vec<ScanErr>,
    start: usize,
    current: usize,
    line: usize,
}

impl Scanner {
    /// The source text.
    pub closed spec fn source(&self) -> Seq<char> {
        self.chars@
    }

    /// The tokens found so far.
    pub closed spec fn tokens(&self) -> Seq<TokenView> {
        token_views(self.tokens@)
    }

    /// The errors found so far.
    pub closed spec fn errors(&self) -> Seq<ScanErr> {
        self.errors@
    }

    /// The position of the next character to scan.
    pub closed spec fn position(&self) -> int {
        self.current as int
    }

    /// The line of the next character to scan.
    pub closed spec fn line(&self) -> nat {
        self.line as nat
    }

    /// The scanner's fields agree with each other.
    pub closed spec fn well_formed(&self) -> bool {
        &&& self.chars.len() < usize::MAX
        &&& self.start <= self.current <= self.chars.len()
        &&& 1 <= self.line <= self.current + 1
    }

    pub fn new(source: String) -> (scanner: Self)
        requires
            source@.len() < usize::MAX,
        ensures
            scanner.well_formed(),
            scanner.source() == source@,
            scanner.tokens() == Seq::<TokenView>::empty(),
            scanner.errors() == Seq::<ScanErr>::empty(),
            scanner.position() == 0,
            scanner.line() == 1,
    {
        let chars = chars_of(source.as_str());
        let scanner = Scanner {
            chars,
            tokens: Vec::new(),
            errors: Vec::new(),
            start: 0,
            current: 0,
            line: 1,
        };
        assert(token_views(scanner.tokens@) =~= Seq::<TokenView>::empty());
        scanner
    }

    fn is_digit(c: char) -> (r: bool)
        ensures
            r == is_digit(c),
    {
        c >= '0' && c <= '9'
    }

    fn is_alpha(c: char) -> (r: bool)
        ensures
            r == is_alpha(c),
    {
        (c >= 'a' && c <= 'z') || (c >= 'A' && c <= 'Z') || c == '_'
    }

    fn in_class(c: char, class: CharClass) -> (r: bool)
        ensures
            r == in_class(c, class),
    {
        match class {
            CharClass::Digit => Self::is_digit(c),
            CharClass::AlphaNumeric => Self::is_alpha(c) || Self::is_digit(c),
            CharClass::NotNewline => c != '\n',
            CharClass::NotQuote => c != '"',
        }
    }

    /// The character at `pos`, or the null character past the end.
    fn peek(src: &Vec<char>, pos: usize) -> (c: char)
        ensures
            c == if pos < src.len() {
                src[pos as int]
            } else {
                '\0'
            },
    {
        if pos < src.len() {
            src[pos]
        } else {
            '\0'
        }
    }

    /// The character after the one at `pos`, or the null character.
    fn peek_next(src: &Vec<char>, pos: usize) -> (c: char)
        ensures
            c == if pos + 1 < src.len() {
                src[pos + 1]
            } else {
                '\0'
            },
    {
        if pos < src.len() && pos + 1 < src.len() {
            src[pos + 1]
        } else {
            '\0'
        }
    }

    /// Whether the character at `pos` is `expected`.
    fn match_char(src: &Vec<char>, pos: usize, expected: char) -> (found: bool)
        ensures
            found == (pos < src.len() && src[pos as int] == expected),
    {
        pos < src.len() && src[pos] == expected
    }

    /// Where the run of characters of `class` that starts at `from` ends.
    fn advance(src: &Vec<char>, from: usize, class: CharClass) -> (end: usize)
        requires
            from <= src.len(),
        ensures
            end == from + run_len(src@, from as int, class),
            end <= src.len(),
    {
        let mut end = from;
        while end < src.len() && Self::in_class(src[end], class)
            invariant
                from <= end <= src.len(),
                from + run_len(src@, from as int, class) == end + run_len(src@, end as int, class),
            decreases src.len() - end,
        {
            end += 1;
        }
        end
    }

    /// Where the inside of the block comment that starts at `from` ends.
    fn comment_end(src: &Vec<char>, from: usize) -> (end: usize)
        requires
            from <= src.len(),
        ensures
            end == from + comment_len(src@, from as int),
            end <= src.len(),
    {
        let mut end = from;
        while end < src.len() && !(src[end] == '*' && Self::peek_next(src, end) == '/')
            invariant
                from <= end <= src.len(),
                from + comment_len(src@, from as int) == end + comment_len(src@, end as int),
            decreases src.len() - end,
        {
            end += 1;
        }
        end
    }

    /// The line reached from `line` by the characters from `from` up to `to`.
    fn count_lines(src: &Vec<char>, from: usize, to: usize, line: usize) -> (reached: usize)
        requires
            from <= to <= src.len(),
            line + (to - from) <= usize::MAX,
        ensures
            reached == line + newlines(src@, from as int, to as int),
            reached <= line + (to - from),
    {
        let mut reached = line;
        let mut i = from;
        while i < to
            invariant
                from <= i <= to <= src.len(),
                reached == line + newlines(src@, from as int, i as int),
                reached <= line + (i - from),
                line + (to - from) <= usize::MAX,
            decreases to - i,
        {
            if src[i] == '\n' {
                reached += 1;
            }
            i += 1;
        }
        reached
    }

    /// Whether the characters of `src` from `start` up to `end` spell `word`.
    fn spells(src: &Vec<char>, start: usize, end: usize, word: &str) -> (r: bool)
        requires
            start <= end <= src.len(),
        ensures
            r == (src@.subrange(start as int, end as int) == word@),
    {
        let n = word.unicode_len();
        if end - start != n {
            return false;
        }
        let mut i: usize = 0;
        while i < n
            invariant
                i <= n,
                n == word@.len(),
                n == end - start,
                start <= end <= src.len(),
                forall|j: int| 0 <= j < i ==> src@[start + j] == word@[j],
            decreases n - i,
        {
            if src[start + i] != word.get_char(i) {
                assert(src@.subrange(start as int, end as int)[i as int] != word@[i as int]);
                return false;
            }
            i += 1;
        }
        assert(src@.subrange(start as int, end as int) =~= word@);
        true
    }

    /// The kind of the identifier that `src` holds from `start` up to `end`.
    fn keywords(src: &Vec<char>, start: usize, end: usize) -> (kind: TokenKind)
        requires
            start <= end <= src.len(),
        ensures
            kind == keyword_kind(src@.subrange(start as int, end as int)),
    {
        if Self::spells(src, start, end, "and") {
            TokenKind::And
        } else if Self::spells(src, start, end, "class") {
            TokenKind::Class
        } else if Self::spells(src, start, end, "else") {
            TokenKind::Else
        } else if Self::spells(src, start, end, "false") {
            TokenKind::False
        } else if Self::spells(src, start, end, "for") {
            TokenKind::For
        } else if Self::spells(src, start, end, "fun") {
            TokenKind::Fun
        } else if Self::spells(src, start, end, "if") {
            TokenKind::If
        } else if Self::spells(src, start, end, "nil") {
            TokenKind::Nil
        } else if Self::spells(src, start, end, "or") {
            TokenKind::Or
        } else if Self::spells(src, start, end, "print") {
            TokenKind::Print
        } else if Self::spells(src, start, end, "return") {
            TokenKind::Return
        } else if Self::spells(src, start, end, "super") {
            TokenKind::Super
        } else if Self::spells(src, start, end, "this") {
            TokenKind::This
        } else if Self::spells(src, start, end, "true") {
            TokenKind::True
        } else if Self::spells(src, start, end, "var") {
            TokenKind::Var
        } else if Self::spells(src, start, end, "while") {
            TokenKind::While
        } else {
            TokenKind::Identifier
        }
    }

    /// The step at a `/`.
    fn slash(src: &Vec<char>, pos: usize, line: usize) -> (step: Step)
        requires
            pos < src.len() < usize::MAX,
            line <= pos + 1,
        ensures
            step.is(slash_step(src@, pos as int, line as nat)),
    {
        proof {
            lemma_step_advances(src@, pos as int, line as nat);
        }
        if Self::match_char(src, pos + 1, '/') {
            let end = Self::advance(src, pos + 2, CharClass::NotNewline);
            Step { next: end, line, item: Lexed::Skip }
        } else if Self::match_char(src, pos + 1, '*') {
            let close = Self::comment_end(src, pos + 2);
            proof {
                lemma_comment_len_bound(src@, pos + 2);
            }
            if close < src.len() {
                let reached = Self::count_lines(src, pos, close, line);
                Step { next: close + 2, line: reached, item: Lexed::Skip }
            } else {
                let reached = Self::count_lines(src, pos, src.len(), line);
                Step {
                    next: src.len(),
                    line: reached,
                    item: Lexed::Error(ScanErr::UnterminatedString(line)),
                }
            }
        } else {
            Step { next: pos + 1, line, item: Lexed::Token(TokenKind::Slash) }
        }
    }

    /// The step at a `"`.
    fn string(src: &Vec<char>, pos: usize, line: usize) -> (step: Step)
        requires
            pos < src.len() < usize::MAX,
            line <= pos + 1,
        ensures
            step.is(string_step(src@, pos as int, line as nat)),
    {
        let close = Self::advance(src, pos + 1, CharClass::NotQuote);
        if close < src.len() {
            let reached = Self::count_lines(src, pos, close, line);
            Step { next: close + 1, line: reached, item: Lexed::Token(TokenKind::String) }
        } else {
            let reached = Self::count_lines(src, pos, src.len(), line);
            Step {
                next: src.len(),
                line: reached,
                item: Lexed::Error(ScanErr::UnterminatedString(line)),
            }
        }
    }

    /// The step at a digit.
    fn number(src: &Vec<char>, pos: usize, line: usize) -> (step: Step)
        requires
            pos < src.len() < usize::MAX,
        ensures
            step.is(number_step(src@, pos as int, line as nat)),
    {
        let whole = Self::advance(src, pos + 1, CharClass::Digit);
        if Self::peek(src, whole) == '.' && whole + 1 < src.len() && Self::is_digit(
            src[whole + 1],
        ) {
            let end = Self::advance(src, whole + 1, CharClass::Digit);
            Step { next: end, line, item: Lexed::Token(TokenKind::Number) }
        } else {
            Step { next: whole, line, item: Lexed::Token(TokenKind::Number) }
        }
    }

    /// The step at a letter or an underscore.
    fn identifier(src: &Vec<char>, pos: usize, line: usize) -> (step: Step)
        requires
            pos < src.len() < usize::MAX,
        ensures
            step.is(identifier_step(src@, pos as int, line as nat)),
    {
        let end = Self::advance(src, pos + 1, CharClass::AlphaNumeric);
        let kind = Self::keywords(src, pos, end);
        Step { next: end, line, item: Lexed::Token(kind) }
    }

    /// The step for a lexeme of one character, or of two where `second`
    /// follows.
    fn pair(
        src: &Vec<char>,
        pos: usize,
        line: usize,
        second: char,
        two: TokenKind,
        one: TokenKind,
    ) -> (step: Step)
        requires
            pos < src.len() < usize::MAX,
        ensures
            step.is(one_or_two(src@, pos as int, line as nat, second, two, one)),
    {
        if Self::match_char(src, pos + 1, second) {
            Step { next: pos + 2, line, item: Lexed::Token(two) }
        } else {
            Step { next: pos + 1, line, item: Lexed::Token(one) }
        }
    }

    /// The step of the scanner at `pos`, on line `line`.
    pub fn lex(src: &Vec<char>, pos: usize, line: usize) -> (step: Step)
        requires
            pos < src.len() < usize::MAX,
            line <= pos + 1,
        ensures
            step.is(lex_step(src@, pos as int, line as nat)),
            pos < step.next <= src.len(),
            step.line <= step.next + 1,
    {
        proof {
            lemma_step_advances(src@, pos as int, line as nat);
        }
        let c = src[pos];
        let one = Step { next: pos + 1, line, item: Lexed::Skip };
        if c == '(' {
            Step { item: Lexed::Token(TokenKind::LeftParen), ..one }
        } else if c == ')' {
            Step { item: Lexed::Token(TokenKind::RightParen), ..one }
        } else if c == '{' {
            Step { item: Lexed::Token(TokenKind::LeftBrace), ..one }
        } else if c == '}' {
            Step { item: Lexed::Token(TokenKind::RightBrace), ..one }
        } else if c == ',' {
            Step { item: Lexed::Token(TokenKind::Comma), ..one }
        } else if c == '.' {
            Step { item: Lexed::Token(TokenKind::Dot), ..one }
        } else if c == '-' {
            Step { item: Lexed::Token(TokenKind::Minus), ..one }
        } else if c == '+' {
            Step { item: Lexed::Token(TokenKind::Plus), ..one }
        } else if c == ';' {
            Step { item: Lexed::Token(TokenKind::Semicolon), ..one }
        } else if c == '*' {
            Step { item: Lexed::Token(TokenKind::Star), ..one }
        } else if c == '!' {
            Self::pair(src, pos, line, '=', TokenKind::BangEqual, TokenKind::Bang)
        } else if c == '=' {
            Self::pair(src, pos, line, '=', TokenKind::EqualEqual, TokenKind::Equal)
        } else if c == '<' {
            Self::pair(src, pos, line, '=', TokenKind::LessEqual, TokenKind::Less)
        } else if c == '>' {
            Self::pair(src, pos, line, '=', TokenKind::GreaterEqual, TokenKind::Greater)
        } else if c == '/' {
            Self::slash(src, pos, line)
        } else if c == ' ' || c == '\r' || c == '\t' {
            one
        } else if c == '\n' {
            Step { line: line + 1, ..one }
        } else if c == '"' {
            Self::string(src, pos, line)
        } else if Self::is_digit(c) {
            Self::number(src, pos, line)
        } else if Self::is_alpha(c) {
            Self::identifier(src, pos, line)
        } else {
            Step { item: Lexed::Error(ScanErr::UnexpectedChar(c, line)), ..one }
        }
    }

    /// Adds the token of kind `kind` that ends before `end`; the host reads
    /// the number of a number token from its lexeme.
    fn add_token<H: Host>(&mut self, kind: TokenKind, end: usize, host: &mut Recorded<H>)
        requires
            old(self).well_formed(),
            old(self).current < end <= old(self).chars.len(),
            old(self).start == old(self).current,
            kind == TokenKind::String ==> old(self).current + 2 <= end,
        ensures
            final(self).chars == old(self).chars,
            final(self).errors == old(self).errors,
            final(self).start == old(self).start,
            final(self).current == old(self).current,
            final(self).line == old(self).line,
            final(self).tokens@.len() == old(self).tokens@.len() + 1,
            final(self).tokens@.drop_last() == old(self).tokens@,
            without_bits(final(self).tokens@.last()@) == token_at(
                old(self).chars@,
                old(self).current as int,
                end as int,
                kind,
                old(self).line as nat,
            ),
            final(host).calls() == old(host).calls() + number_calls(
                seq![final(self).tokens@.last()@],
            ),
    {
        let lexeme = text_between(&self.chars, self.start, end);
        let type_ = match kind {
            TokenKind::String => TokenType::String(
                text_between(&self.chars, self.start + 1, end - 1),
            ),
            TokenKind::Number => TokenType::Number(host.parse_number(lexeme.as_str())),
            _ => TokenType::plain(kind),
        };
        let token = Token::new(type_, lexeme, self.line);
        proof {
            let one = seq![token@];
            assert(one.drop_last() =~= Seq::<TokenView>::empty());
            assert(number_calls(one.drop_last()) =~= Seq::<HostCall>::empty());
            assert(old(host).calls() + Seq::<HostCall>::empty() =~= old(host).calls());
            assert(old(host).calls() + Seq::<HostCall>::empty().push(
                HostCall::ParseNumber { text: token@.lexeme, bits: token@.bits },
            ) =~= old(host).calls().push(
                HostCall::ParseNumber { text: token@.lexeme, bits: token@.bits },
            ));
        }
        self.tokens.push(token);
        assert(self.tokens@.drop_last() =~= old(self).tokens@);
    }

    /// Scans one lexeme: adds its token or its error, if it has one, and
    /// moves behind it.
    pub fn scan_token<H: Host>(&mut self, host: &mut Recorded<H>)
        requires
            old(self).well_formed(),
            old(self).position() < old(self).source().len(),
        ensures
            final(self).well_formed(),
            final(self).source() == old(self).source(),
            final(self).position() == lex_step(
                old(self).source(),
                old(self).position(),
                old(self).line(),
            ).next,
            final(self).line() == lex_step(
                old(self).source(),
                old(self).position(),
                old(self).line(),
            ).line,
            match lex_step(old(self).source(), old(self).position(), old(self).line()).item {
                Lexed::Token(kind) => {
                    &&& final(self).errors() == old(self).errors()
                    &&& final(self).tokens().len() == old(self).tokens().len() + 1
                    &&& final(self).tokens().drop_last() == old(self).tokens()
                    &&& without_bits(final(self).tokens().last()) == token_at(
                        old(self).source(),
                        old(self).position(),
                        final(self).position(),
                        kind,
                        old(self).line(),
                    )
                    &&& final(host).calls() == old(host).calls() + number_calls(
                        seq![final(self).tokens().last()],
                    )
                },
                Lexed::Skip => {
                    &&& final(self).errors() == old(self).errors()
                    &&& final(self).tokens() == old(self).tokens()
                    &&& final(host).calls() == old(host).calls()
                },
                Lexed::Error(e) => {
                    &&& final(self).errors() == old(self).errors().push(e)
                    &&& final(self).tokens() == old(self).tokens()
                    &&& final(host).calls() == old(host).calls()
                },
            },
    {
        self.start = self.current;
        let step = Self::lex(&self.chars, self.current, self.line);
        proof {
            lemma_run_len_bound(self.chars@, self.current + 1, CharClass::NotQuote);
        }
        match step.item {
            Lexed::Token(kind) => {
                self.add_token(kind, step.next, host);
                proof {
                    assert(token_views(self.tokens@).drop_last() =~= token_views(
                        old(self).tokens@,
                    ));
                }
            },
            Lexed::Skip => {},
            Lexed::Error(e) => {
                self.errors.push(e);
            },
        }
        self.current = step.next;
        self.line = step.line;
    }

    /// Scans the rest of the source and closes the tokens with the
    /// end-of-file token. The tokens and the errors are those of the
    /// grammar of lexemes; the host is asked once for each number token, in
    /// order, with the token's lexeme, and the token carries the answer.
    pub fn scan_tokens<H: Host>(&mut self, host: &mut Recorded<H>) -> (tokens: &Vec<Token>)
        requires
            old(self).well_formed(),
        ensures
            final(self).well_formed(),
            token_views(tokens@) == final(self).tokens(),
            final(self).source() == old(self).source(),
            final(self).position() == final(self).source().len(),
            final(self).tokens().len() >= old(self).tokens().len(),
            final(self).tokens().subrange(0, old(self).tokens().len() as int) == old(
                self,
            ).tokens(),
            all_without_bits(
                final(self).tokens().skip(old(self).tokens().len() as int),
            ) == scan_from(old(self).source(), old(self).position(), old(self).line()).tokens,
            final(self).errors() == old(self).errors() + scan_from(
                old(self).source(),
                old(self).position(),
                old(self).line(),
            ).errors,
            final(host).calls() == old(host).calls() + number_calls(
                final(self).tokens().skip(old(self).tokens().len() as int),
            ),
    {
        let ghost src = self.chars@;
        let ghost before = token_views(self.tokens@);
        let ghost all = scan_from(src, self.current as int, self.line as nat);
        let ghost added: Seq<TokenView> = Seq::empty();
        proof {
            assert(before + added =~= before);
            assert(all_without_bits(added) + all.tokens =~= all.tokens);
            assert(old(self).errors@ + all.errors =~= self.errors@ + all.errors);
            assert(old(host).calls() + number_calls(added) =~= host.calls());
        }
        while self.current < self.chars.len()
            invariant
                self.well_formed(),
                self.chars@ == src,
                token_views(self.tokens@) == before + added,
                all_without_bits(added) + scan_from(
                    src,
                    self.current as int,
                    self.line as nat,
                ).tokens == all.tokens,
                self.errors@ + scan_from(src, self.current as int, self.line as nat).errors
                    == old(self).errors@ + all.errors,
                host.calls() == old(host).calls() + number_calls(added),
            decreases self.chars.len() - self.current,
        {
            let ghost pos = self.current as int;
            let ghost line = self.line as nat;
            let ghost step = lex_step(src, pos, line);
            let ghost rest = scan_from(src, step.next, step.line);
            let ghost errors_before = self.errors@;
            self.scan_token(host);
            proof {
                match step.item {
                    Lexed::Token(kind) => {
                        let t = token_views(self.tokens@).last();
                        let longer = added.push(t);
                        assert(token_views(self.tokens@) =~= (before + added).push(t));
                        assert((before + added).push(t) =~= before + longer);
                        assert(all_without_bits(longer) =~= all_without_bits(added).push(
                            without_bits(t),
                        ));
                        assert(all_without_bits(longer) + rest.tokens =~= all_without_bits(added)
                            + (seq![without_bits(t)] + rest.tokens));
                        assert(longer.drop_last() =~= added);
                        assert(seq![t].drop_last() =~= Seq::<TokenView>::empty());
                        assert(number_calls(Seq::<TokenView>::empty()) =~= Seq::<HostCall>::empty());
                        assert(seq![t].last() == t && longer.last() == t);
                        assert(number_calls(longer) =~= number_calls(added) + number_calls(
                            seq![t],
                        ));
                        assert(host.calls() =~= old(host).calls() + number_calls(longer));
                        added = longer;
                    },
                    Lexed::Skip => {},
                    Lexed::Error(e) => {
                        assert(self.errors@ + rest.errors =~= errors_before + (seq![e]
                            + rest.errors));
                    },
                }
            }
        }
        let eof = Token::new(TokenType::EOF, String::new(), self.line);
        proof {
            let t = eof@;
            let longer = added.push(t);
            assert(scan_from(src, self.current as int, self.line as nat).tokens =~= seq![
                eof_token(self.line as nat),
            ]);
            assert(without_bits(t) == eof_token(self.line as nat));
            assert(all_without_bits(longer) =~= all_without_bits(added) + seq![without_bits(t)]);
            assert(longer.drop_last() =~= added);
            assert(number_calls(longer) == number_calls(added));
            assert(self.errors@ + Seq::<ScanErr>::empty() =~= self.errors@);
            assert((before + added).push(t) =~= before + longer);
            assert((before + longer).skip(before.len() as int) =~= longer);
            assert((before + longer).subrange(0, before.len() as int) =~= before);
            added = longer;
        }
        self.tokens.push(eof);
        assert(token_views(self.tokens@) =~= before + added);
        &self.tokens
    }

    /// Scans `source` from its beginning to its end.
    pub fn scan_from<H: Host>(source: String, host: &mut Recorded<H>) -> (tokens: Vec<Token>)
        requires
            source@.len() < usize::MAX,
        ensures
            all_without_bits(token_views(tokens@)) == scan_spec(source@).tokens,
            final(host).calls() == old(host).calls() + number_calls(token_views(tokens@)),
    {
        let mut scanner = Scanner::new(source);
        let _ = scanner.scan_tokens(host);
        proof {
            assert(scanner.tokens().skip(0) =~= scanner.tokens());
        }
        scanner.tokens
    }

    /// Only the number tokens of the scanner carry a number.
    pub proof fn lemma_tokens_carry_numbers(&self)
        ensures
            forall|i: int|
                0 <= i < self.tokens().len() && (#[trigger] self.tokens()[i]).kind
                    != TokenKind::Number ==> self.tokens()[i].bits == 0,
    {
    }

    /// Hands the tokens out.
    pub fn into_tokens(self) -> (tokens: Vec<Token>)
        ensures
            token_views(tokens@) == self.tokens(),
    {
        self.tokens
    }

    /// The errors found so far, oldest first.
    pub fn get_errors(&self) -> (errors: &Vec<ScanErr>)
        ensures
            errors@ == self.errors(),
    {
        &self.errors
    }

    /// The tokens found so far.
    pub fn get_tokens(&self) -> (tokens: &Vec<Token>)
        ensures
            token_views(tokens@) == self.tokens(),
    {
        &self.tokens
    }
}

} // verus!
