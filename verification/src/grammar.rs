//! The lexical grammar, as mathematics: character classes, the reserved
//! words, what one scanning step does at a position, and what a whole run
//! of steps produces.

use vstd::prelude::*;
use crate::token::TokenView;
use crate::token_type::TokenType;

verus! {

/// Whether Unicode gives a character the Alphabetic property, as
/// `char::is_alphabetic` reports it.
pub uninterp spec fn unicode_alphabetic(c: char) -> bool;

/// The two ways a scan can fail.
#[derive(Debug, Clone, Copy, PartialEq, Eq, Structural)]
pub enum ErrorKind {
    /// A character that starts no token.
    UnexpectedCharacter,
    /// A string literal whose closing quote never comes.
    UnterminatedString,
}

/// The human-readable message of each failure.
pub open spec fn message(kind: ErrorKind) -> Seq<char> {
    match kind {
        ErrorKind::UnexpectedCharacter => "Unexpected character"@,
        ErrorKind::UnterminatedString => "Unterminated string."@,
    }
}

/// A decimal digit, `0` to `9`.
pub open spec fn is_digit(c: char) -> bool {
    '0' <= c && c <= '9'
}

/// A character within ASCII.
pub open spec fn is_ascii(c: char) -> bool {
    c <= '\x7f'
}

/// A letter: one of the ASCII letters, or a character beyond ASCII that
/// Unicode classifies as alphabetic.
pub open spec fn is_letter(c: char) -> bool {
    ||| ('a' <= c && c <= 'z')
    ||| ('A' <= c && c <= 'Z')
    ||| (!is_ascii(c) && unicode_alphabetic(c))
}

/// A character that may begin an identifier or reserved word.
pub open spec fn is_word_start(c: char) -> bool {
    is_letter(c) || c == '_'
}

/// A character that may continue an identifier or reserved word.
pub open spec fn is_word_char(c: char) -> bool {
    is_word_start(c) || is_digit(c)
}

/// The reserved word spelled by `text`, if it is one. Matching is exact and
/// case-sensitive.
pub open spec fn keyword(text: Seq<char>) -> Option<TokenType> {
    if text == "and"@ {
        Some(TokenType::And)
    } else if text == "class"@ {
        Some(TokenType::Class)
    } else if text == "else"@ {
        Some(TokenType::Else)
    } else if text == "false"@ {
        Some(TokenType::False)
    } else if text == "for"@ {
        Some(TokenType::For)
    } else if text == "fun"@ {
        Some(TokenType::Fun)
    } else if text == "if"@ {
        Some(TokenType::If)
    } else if text == "nil"@ {
        Some(TokenType::Nil)
    } else if text == "or"@ {
        Some(TokenType::Or)
    } else if text == "print"@ {
        Some(TokenType::Print)
    } else if text == "return"@ {
        Some(TokenType::Return)
    } else if text == "super"@ {
        Some(TokenType::Super)
    } else if text == "this"@ {
        Some(TokenType::This)
    } else if text == "true"@ {
        Some(TokenType::True)
    } else if text == "var"@ {
        Some(TokenType::Var)
    } else if text == "while"@ {
        Some(TokenType::While)
    } else {
        None
    }
}

/// The category of a word: its reserved kind, or `Identifier`.
pub open spec fn word_kind(text: Seq<char>) -> TokenType {
    match keyword(text) {
        Some(kind) => kind,
        None => TokenType::Identifier,
    }
}

/// The punctuation that always stands alone.
pub open spec fn punctuation(c: char) -> Option<TokenType> {
    if c == '(' {
        Some(TokenType::LeftParen)
    } else if c == ')' {
        Some(TokenType::RightParen)
    } else if c == '{' {
        Some(TokenType::LeftBrace)
    } else if c == '}' {
        Some(TokenType::RightBrace)
    } else if c == ',' {
        Some(TokenType::Comma)
    } else if c == '.' {
        Some(TokenType::Dot)
    } else if c == '-' {
        Some(TokenType::Minus)
    } else if c == '+' {
        Some(TokenType::Plus)
    } else if c == ';' {
        Some(TokenType::Semicolon)
    } else if c == '*' {
        Some(TokenType::Star)
    } else {
        None
    }
}

/// The operators that an `=` directly behind them lengthens: the kind of
/// `c` alone, or of `c` with the `=` where `lengthened` is set.
pub open spec fn operator(c: char, lengthened: bool) -> Option<TokenType> {
    if c == '!' {
        Some(if lengthened { TokenType::BangEqual } else { TokenType::Bang })
    } else if c == '=' {
        Some(if lengthened { TokenType::EqualEqual } else { TokenType::Equal })
    } else if c == '<' {
        Some(if lengthened { TokenType::LesserEqual } else { TokenType::Lesser })
    } else if c == '>' {
        Some(if lengthened { TokenType::GreaterEqual } else { TokenType::Greater })
    } else {
        None
    }
}

/// Blank characters other than the newline.
pub open spec fn is_blank(c: char) -> bool {
    c == ' ' || c == '\r' || c == '\t'
}

/// The kinds of character runs that the scanner consumes greedily.
pub enum CharClass {
    /// Decimal digits.
    Digit,
    /// The body of an identifier or reserved word.
    Word,
    /// Everything up to the end of the line.
    CommentBody,
    /// Everything up to the next double quote.
    StringBody,
}

/// Whether `c` belongs to a run of class `class`.
pub open spec fn in_class(class: CharClass, c: char) -> bool {
    match class {
        CharClass::Digit => is_digit(c),
        CharClass::Word => is_word_char(c),
        CharClass::CommentBody => c != '\n',
        CharClass::StringBody => c != '"',
    }
}

/// Where the maximal run of `class` characters that begins at `pos` ends:
/// the first position from `pos` on that holds no such character, or the end
/// of the text.
pub open spec fn run_end(src: Seq<char>, pos: int, class: CharClass) -> int
    decreases src.len() - pos,
{
    if 0 <= pos < src.len() && in_class(class, src[pos]) {
        run_end(src, pos + 1, class)
    } else {
        pos
    }
}

/// The number of newline characters in `src[from..to)`.
pub open spec fn newlines(src: Seq<char>, from: int, to: int) -> nat
    decreases to - from,
{
    if from >= to {
        0
    } else {
        newlines(src, from, to - 1) + if src[to - 1] == '\n' {
            1nat
        } else {
            0nat
        }
    }
}

/// What one scanning step does.
pub enum Step {
    /// Text was consumed and no token made: blanks, a newline, a comment.
    Skip { next: int, line: nat },
    /// A token was made from `src[pos..next)`.
    Emit { token: TokenView, next: int, line: nat },
    /// The scan fails, with the cursor left at `at`.
    Fail { kind: ErrorKind, line: nat, at: int },
}

/// A token without payload made from `src[pos..end)`.
pub open spec fn plain(src: Seq<char>, kind: TokenType, pos: int, end: int, line: nat) -> Step {
    Step::Emit {
        token: TokenView { kind, lexeme: src.subrange(pos, end), literal: Seq::empty(), line },
        next: end,
        line,
    }
}

/// The step at an opening quote at `pos`: the literal runs to the next
/// quote, may span lines, and is not closed if the text ends first. The
/// payload is the raw text between the quotes.
pub open spec fn string_step(src: Seq<char>, pos: int, line: nat) -> Step {
    let close = run_end(src, pos + 1, CharClass::StringBody);
    let last_line = line + newlines(src, pos + 1, close);
    if close >= src.len() {
        Step::Fail { kind: ErrorKind::UnterminatedString, line: last_line, at: close }
    } else {
        Step::Emit {
            token: TokenView {
                kind: TokenType::String,
                lexeme: src.subrange(pos, close + 1),
                literal: src.subrange(pos + 1, close),
                line,
            },
            next: close + 1,
            line: last_line,
        }
    }
}

/// Where the number that begins at `pos` ends: after its digits, and after a
/// fraction if a `.` with a digit behind it follows them.
pub open spec fn number_end(src: Seq<char>, pos: int) -> int {
    let whole = run_end(src, pos + 1, CharClass::Digit);
    if whole + 1 < src.len() && src[whole] == '.' && is_digit(src[whole + 1]) {
        run_end(src, whole + 1, CharClass::Digit)
    } else {
        whole
    }
}

/// The step at a digit at `pos`. The payload is the number's text.
pub open spec fn number_step(src: Seq<char>, pos: int, line: nat) -> Step {
    let end = number_end(src, pos);
    Step::Emit {
        token: TokenView {
            kind: TokenType::Number,
            lexeme: src.subrange(pos, end),
            literal: src.subrange(pos, end),
            line,
        },
        next: end,
        line,
    }
}

/// The step at the first character of a word at `pos`.
pub open spec fn word_step(src: Seq<char>, pos: int, line: nat) -> Step {
    let end = run_end(src, pos + 1, CharClass::Word);
    plain(src, word_kind(src.subrange(pos, end)), pos, end, line)
}

/// The step at a `/` at `pos`: a comment to the end of the line if a second
/// `/` follows, else the division operator.
pub open spec fn slash_step(src: Seq<char>, pos: int, line: nat) -> Step {
    if pos + 1 < src.len() && src[pos + 1] == '/' {
        Step::Skip { next: run_end(src, pos + 2, CharClass::CommentBody), line }
    } else {
        plain(src, TokenType::Slash, pos, pos + 1, line)
    }
}

/// What the scanner does at position `pos` of `src`, a position inside the
/// text, when `line` is the current line.
pub open spec fn step(src: Seq<char>, pos: int, line: nat) -> Step {
    let c = src[pos];
    if punctuation(c) is Some {
        plain(src, punctuation(c)->0, pos, pos + 1, line)
    } else if operator(c, false) is Some {
        if pos + 1 < src.len() && src[pos + 1] == '=' {
            plain(src, operator(c, true)->0, pos, pos + 2, line)
        } else {
            plain(src, operator(c, false)->0, pos, pos + 1, line)
        }
    } else if c == '/' {
        slash_step(src, pos, line)
    } else if is_blank(c) {
        Step::Skip { next: pos + 1, line }
    } else if c == '\n' {
        Step::Skip { next: pos + 1, line: line + 1 }
    } else if c == '"' {
        string_step(src, pos, line)
    } else if is_digit(c) {
        number_step(src, pos, line)
    } else if is_word_start(c) {
        word_step(src, pos, line)
    } else {
        Step::Fail { kind: ErrorKind::UnexpectedCharacter, line, at: pos + 1 }
    }
}

/// What a run of steps leaves behind.
pub struct Run {
    /// The tokens made, in order.
    pub tokens: Seq<TokenView>,
    /// For each token, the half-open range of the text it was made from.
    pub spans: Seq<(int, int)>,
    /// The failure that ended the run, if one did.
    pub error: Option<ErrorKind>,
    /// Where the last step began.
    pub start: int,
    /// Where the cursor stands.
    pub end: int,
    /// The current line.
    pub line: nat,
}

/// A run that has `head`, made from `span`, before all that `rest` made.
pub open spec fn after_token(head: TokenView, span: (int, int), rest: Run) -> Run {
    Run { tokens: seq![head] + rest.tokens, spans: seq![span] + rest.spans, ..rest }
}

/// A maximal run lies within the text, does not go backwards, and ends at
/// the end of the text or before a character that is not of its class.
pub proof fn lemma_run_end_bounds(src: Seq<char>, pos: int, class: CharClass)
    requires
        0 <= pos <= src.len(),
    ensures
        pos <= run_end(src, pos, class) <= src.len(),
        run_end(src, pos, class) < src.len() ==> !in_class(
            class,
            src[run_end(src, pos, class)],
        ),
    decreases src.len() - pos,
{
    if pos < src.len() && in_class(class, src[pos]) {
        lemma_run_end_bounds(src, pos + 1, class);
    }
}

/// Where a step leaves the cursor.
pub open spec fn reached(s: Step) -> int {
    match s {
        Step::Skip { next, .. } => next,
        Step::Emit { next, .. } => next,
        Step::Fail { at, .. } => at,
    }
}

/// Every step consumes at least one character and stays within the text.
pub proof fn lemma_step_advances(src: Seq<char>, pos: int, line: nat)
    requires
        0 <= pos < src.len(),
    ensures
        pos < reached(step(src, pos, line)) <= src.len(),
{
    lemma_run_end_bounds(src, pos + 1, CharClass::StringBody);
    lemma_run_end_bounds(src, pos + 1, CharClass::Digit);
    lemma_run_end_bounds(src, pos + 1, CharClass::Word);
    let whole = run_end(src, pos + 1, CharClass::Digit);
    if whole + 1 < src.len() {
        lemma_run_end_bounds(src, whole + 1, CharClass::Digit);
    }
    if pos + 1 < src.len() {
        lemma_run_end_bounds(src, pos + 2, CharClass::CommentBody);
    }
}

/// The run that begins with the cursor at `pos` on line `line`, the step
/// before it having begun at `start`: steps are taken until the text is
/// exhausted or one fails.
pub open spec fn run_from(src: Seq<char>, start: int, pos: int, line: nat) -> Run
    decreases src.len() - pos,
    via run_from_decreases
{
    if 0 <= pos < src.len() {
        match step(src, pos, line) {
            Step::Skip { next, line: next_line } => run_from(src, pos, next, next_line),
            Step::Emit { token, next, line: next_line } => after_token(
                token,
                (pos, next),
                run_from(src, pos, next, next_line),
            ),
            Step::Fail { kind, line: last_line, at } => Run {
                tokens: Seq::empty(),
                spans: Seq::empty(),
                error: Some(kind),
                start: pos,
                end: at,
                line: last_line,
            },
        }
    } else {
        Run { tokens: Seq::empty(), spans: Seq::empty(), error: None, start, end: pos, line }
    }
}

#[via_fn]
proof fn run_from_decreases(src: Seq<char>, start: int, pos: int, line: nat) {
    if 0 <= pos < src.len() {
        lemma_step_advances(src, pos, line);
    }
}

/// The token that ends every successful scan.
pub open spec fn eof_token(line: nat) -> TokenView {
    TokenView { kind: TokenType::EOF, lexeme: Seq::empty(), literal: Seq::empty(), line }
}

/// What scanning a whole text yields: its tokens and a final end-of-input
/// token, or the line and kind of the first failure.
pub open spec fn scan(src: Seq<char>) -> Result<Seq<TokenView>, (nat, ErrorKind)> {
    let run = run_from(src, 0, 0, 1);
    match run.error {
        None => Ok(run.tokens.push(eof_token(run.line))),
        Some(kind) => Err((run.line, kind)),
    }
}

} // verus!
