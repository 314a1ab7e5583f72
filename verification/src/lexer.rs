//! The scanner: a cursor over the source text that makes tokens, one step at
//! a time, and stops at the first malformed construct.

use vstd::prelude::*;
use vstd::string::StringExecFns;
use crate::chars::{chars_of, is_decimal_digit, is_identifier_char, is_identifier_first_char, spells, text_of};
use crate::grammar::{
    eof_token, keyword, message, newlines, number_step, reached, run_end, run_from, step,
    string_step, word_step, CharClass, ErrorKind, Run, Step,
};
use crate::token::{copy_tokens, token_views, Token, TokenView};
use crate::token_type::TokenType;

verus! {

/// The reserved word that `chars[from..to)` spells, if it is one.
pub fn lookup_keyword(chars: &Vec<char>, from: usize, to: usize) -> (kind: Option<TokenType>)
    requires
        from <= to <= chars.len(),
    ensures
        kind == keyword(chars@.subrange(from as int, to as int)),
{
    if spells(chars, from, to, "and") {
        Some(TokenType::And)
    } else if spells(chars, from, to, "class") {
        Some(TokenType::Class)
    } else if spells(chars, from, to, "else") {
        Some(TokenType::Else)
    } else if spells(chars, from, to, "false") {
        Some(TokenType::False)
    } else if spells(chars, from, to, "for") {
        Some(TokenType::For)
    } else if spells(chars, from, to, "fun") {
        Some(TokenType::Fun)
    } else if spells(chars, from, to, "if") {
        Some(TokenType::If)
    } else if spells(chars, from, to, "nil") {
        Some(TokenType::Nil)
    } else if spells(chars, from, to, "or") {
        Some(TokenType::Or)
    } else if spells(chars, from, to, "print") {
        Some(TokenType::Print)
    } else if spells(chars, from, to, "return") {
        Some(TokenType::Return)
    } else if spells(chars, from, to, "super") {
        Some(TokenType::Super)
    } else if spells(chars, from, to, "this") {
        Some(TokenType::This)
    } else if spells(chars, from, to, "true") {
        Some(TokenType::True)
    } else if spells(chars, from, to, "var") {
        Some(TokenType::Var)
    } else if spells(chars, from, to, "while") {
        Some(TokenType::While)
    } else {
        None
    }
}

/// The text of a failure's message.
pub fn message_text(kind: ErrorKind) -> (text: String)
    ensures
        text@ == message(kind),
{
    match kind {
        ErrorKind::UnexpectedCharacter => String::from_str("Unexpected character"),
        ErrorKind::UnterminatedString => String::from_str("Unterminated string."),
    }
}

/// A scanner over one source text.
pub struct Lexer {
    source: Vec<char>,
    tokens: Vec<Token>,
    start: usize,
    current: usize,
    line: usize,
}

/// Whether going from `pre` to `post` with result `r` is the step `s`.
spec fn performs(pre: Lexer, post: Lexer, r: Result<(), (usize, String)>, s: Step) -> bool {
    &&& post.source == pre.source
    &&& post.start == pre.start
    &&& post.current == reached(s)
    &&& match s {
        Step::Skip { next, line } => {
            &&& r is Ok
            &&& post.line == line
            &&& post.tokens == pre.tokens
        },
        Step::Emit { token, next, line } => {
            &&& r is Ok
            &&& post.line == line
            &&& token_views(post.tokens@) == token_views(pre.tokens@).push(token)
        },
        Step::Fail { kind, line, at } => {
            &&& r matches Err(e) && e.0 == line && e.1@ == message(kind)
            &&& post.line == line
            &&& post.tokens == pre.tokens
        },
    }
}

/// Whether `post` and `r` are what scanning to the end leaves of `pre`: the
/// pending run was taken. If it did not fail, its tokens and one end-of-input
/// token on the last line stand behind those made before, and `r` holds a
/// copy of the whole list. If it failed, its tokens up to the failure stand
/// behind those made before, and `r` holds the failure's line and message.
pub open spec fn scanned(pre: Lexer, post: Lexer, r: Result<Vec<Token>, (usize, String)>) -> bool {
    let run = pre.pending();
    &&& post.wf()
    &&& post.text() == pre.text()
    &&& post.lexeme_start() == run.start
    &&& post.cursor() == run.end
    &&& post.current_line() == run.line
    &&& match run.error {
        None => {
            &&& post.emitted() == (pre.emitted() + run.tokens).push(eof_token(run.line))
            &&& r matches Ok(tokens) && token_views(tokens@) == post.emitted()
        },
        Some(kind) => {
            &&& post.emitted() == pre.emitted() + run.tokens
            &&& r matches Err(e) && e.0 == run.line && e.1@ == message(kind)
        },
    }
}

impl Lexer {
    /// The text being scanned.
    pub closed spec fn text(&self) -> Seq<char> {
        self.source@
    }

    /// The tokens made so far.
    pub closed spec fn emitted(&self) -> Seq<TokenView> {
        token_views(self.tokens@)
    }

    /// Where the lexeme under construction begins.
    pub closed spec fn lexeme_start(&self) -> int {
        self.start as int
    }

    /// Where the cursor stands.
    pub closed spec fn cursor(&self) -> int {
        self.current as int
    }

    /// The 1-based line the cursor is on.
    pub closed spec fn current_line(&self) -> nat {
        self.line as nat
    }

    /// The cursor pair lies within the text, in order, and the line counter
    /// has room for every newline still ahead.
    pub closed spec fn wf(&self) -> bool {
        &&& self.start <= self.current <= self.source.len()
        &&& self.line + (self.source.len() - self.current) <= usize::MAX
    }

    /// The cursor pair of a well-formed scanner lies within its text, in
    /// order.
    pub proof fn law_cursor_within_text(&self)
        requires
            self.wf(),
        ensures
            0 <= self.lexeme_start() <= self.cursor() <= self.text().len(),
    {
    }

    /// A scanner that has not begun: at the beginning of `src`, on line 1,
    /// with no token made.
    pub open spec fn is_fresh(&self, src: Seq<char>) -> bool {
        &&& self.wf()
        &&& self.text() == src
        &&& self.emitted() == Seq::<TokenView>::empty()
        &&& self.lexeme_start() == 0
        &&& self.cursor() == 0
        &&& self.current_line() == 1
    }

    /// What is still to be scanned: the run from the cursor on.
    pub open spec fn pending(&self) -> Run {
        run_from(self.text(), self.lexeme_start(), self.cursor(), self.current_line())
    }

    /// A scanner at the beginning of `source`, on line 1, with no token made.
    /// The text must be shorter than `usize::MAX` characters, so that the
    /// line counter cannot overflow.
    pub fn new(source: &str) -> (lexer: Self)
        requires
            source@.len() < usize::MAX,
        ensures
            lexer.is_fresh(source@),
    {
        let lexer = Self { source: chars_of(source), tokens: Vec::new(), start: 0, current: 0, line: 1 };
        assert(token_views(lexer.tokens@) =~= Seq::<TokenView>::empty());
        lexer
    }

    /// Scans from the cursor to the end of the text, or to the first
    /// failure. On success the tokens made, with one end-of-input token
    /// behind them, are added to those made before, and a copy of the whole
    /// list is returned. On failure the line and message of the failure are
    /// returned; the tokens made before it stay in the scanner.
    pub fn scan_tokens(&mut self) -> (r: Result<Vec<Token>, (usize, String)>)
        requires
            old(self).wf(),
        ensures
            scanned(*old(self), *final(self), r),
    {
        let ghost whole = run_from(
            self.source@,
            self.start as int,
            self.current as int,
            self.line as nat,
        );
        let ghost before = token_views(self.tokens@);
        while !self.is_at_end()
            invariant
                self.wf(),
                self.source == old(self).source,
                before == token_views(old(self).tokens@),
                whole == run_from(
                    old(self).source@,
                    old(self).start as int,
                    old(self).current as int,
                    old(self).line as nat,
                ),
                ({
                    let rest = run_from(
                        self.source@,
                        self.start as int,
                        self.current as int,
                        self.line as nat,
                    );
                    &&& token_views(self.tokens@) + rest.tokens == before + whole.tokens
                    &&& rest.error == whole.error
                    &&& rest.start == whole.start
                    &&& rest.end == whole.end
                    &&& rest.line == whole.line
                }),
            decreases self.source.len() - self.current,
        {
            self.start = self.current;
            let ghost made = token_views(self.tokens@);
            let ghost here = step(self.source@, self.current as int, self.line as nat);
            let ghost pos = self.current as int;
            let ghost line_before = self.line;
            match self.scan_token() {
                Ok(()) => {
                    proof {
                        let rest = run_from(
                            self.source@,
                            self.start as int,
                            self.current as int,
                            self.line as nat,
                        );
                        match here {
                            Step::Emit { token, next, line } => {
                                assert(made.push(token) + rest.tokens =~= made + (seq![token]
                                    + rest.tokens));
                            },
                            _ => {},
                        }
                    }
                },
                Err(e) => {
                    proof {
                        let rest = run_from(self.source@, pos, pos, line_before as nat);
                        assert(here is Fail);
                        assert(rest.tokens =~= Seq::<TokenView>::empty());
                        assert(made + rest.tokens =~= made);
                        assert(rest.error == whole.error);
                    }
                    return Err(e);
                },
            }
        }
        let eof = Token::new(TokenType::EOF, String::new(), String::new(), self.line);
        self.tokens.push(eof);
        proof {
            assert(token_views(self.tokens@) =~= (before + whole.tokens).push(
                eof_token(whole.line),
            ));
        }
        Ok(copy_tokens(&self.tokens))
    }

    /// Takes the step that the character at the cursor calls for.
    fn scan_token(&mut self) -> (r: Result<(), (usize, String)>)
        requires
            old(self).wf(),
            old(self).start == old(self).current,
            old(self).current < old(self).source.len(),
        ensures
            final(self).wf(),
            old(self).start < final(self).current,
            performs(
                *old(self),
                *final(self),
                r,
                step(old(self).source@, old(self).current as int, old(self).line as nat),
            ),
    {
        let c = self.advance();
        match c {
            '(' => self.add_token(TokenType::LeftParen),
            ')' => self.add_token(TokenType::RightParen),
            '{' => self.add_token(TokenType::LeftBrace),
            '}' => self.add_token(TokenType::RightBrace),
            ',' => self.add_token(TokenType::Comma),
            '.' => self.add_token(TokenType::Dot),
            '-' => self.add_token(TokenType::Minus),
            '+' => self.add_token(TokenType::Plus),
            ';' => self.add_token(TokenType::Semicolon),
            '*' => self.add_token(TokenType::Star),
            '!' => {
                let is_ok = self.is_next('=');
                self.add_token(if is_ok { TokenType::BangEqual } else { TokenType::Bang })
            },
            '=' => {
                let is_ok = self.is_next('=');
                self.add_token(if is_ok { TokenType::EqualEqual } else { TokenType::Equal })
            },
            '<' => {
                let is_ok = self.is_next('=');
                self.add_token(if is_ok { TokenType::LesserEqual } else { TokenType::Lesser })
            },
            '>' => {
                let is_ok = self.is_next('=');
                self.add_token(if is_ok { TokenType::GreaterEqual } else { TokenType::Greater })
            },
            '/' => {
                let is_ok = self.is_next('/');
                if is_ok {
                    while self.peek() != '\n' && !self.is_at_end()
                        invariant
                            self.wf(),
                            self.source == old(self).source,
                            self.tokens == old(self).tokens,
                            self.start == old(self).start,
                            self.line == old(self).line,
                            self.start + 2 <= self.current,
                            run_end(self.source@, self.current as int, CharClass::CommentBody)
                                == run_end(
                                self.source@,
                                self.start + 2,
                                CharClass::CommentBody,
                            ),
                        decreases self.source.len() - self.current,
                    {
                        self.advance();
                    }
                } else {
                    self.add_token(TokenType::Slash)
                }
            },
            ' ' | '\r' | '\t' => {
                // Blanks separate tokens and make none.
            },
            '\n' => {
                self.line += 1;
            },
            '"' => {
                return self.scan_string();
            },
            _ => {
                if is_decimal_digit(c) {
                    return self.scan_number();
                } else if is_identifier_first_char(c) {
                    return self.scan_identifier();
                } else {
                    return Err((self.line, message_text(ErrorKind::UnexpectedCharacter)));
                }
            },
        }
        Ok(())
    }

    /// Consumes the character at the cursor.
    fn advance(&mut self) -> (c: char)
        requires
            old(self).current < old(self).source.len(),
        ensures
            c == old(self).source@[old(self).current as int],
            *final(self) == (Lexer { current: (old(self).current + 1) as usize, ..*old(self) }),
    {
        let current = self.current;
        self.current += 1;
        self.source[current]
    }

    /// The character at the cursor, or NUL at the end of the text.
    fn peek(&self) -> (c: char)
        ensures
            c == if self.current < self.source.len() {
                self.source@[self.current as int]
            } else {
                '\0'
            },
    {
        if self.is_at_end() {
            '\0'
        } else {
            self.source[self.current]
        }
    }

    /// The character behind the one at the cursor, or NUL where the text
    /// ends before it.
    fn peek_next(&self) -> (c: char)
        ensures
            c == if self.current + 1 < self.source.len() {
                self.source@[self.current + 1]
            } else {
                '\0'
            },
    {
        if self.is_at_end() || self.source.len() - self.current <= 1 {
            '\0'
        } else {
            self.source[self.current + 1]
        }
    }

    /// Makes a token without payload from the lexeme under construction.
    fn add_token(&mut self, token_type: TokenType)
        requires
            old(self).start <= old(self).current <= old(self).source.len(),
        ensures
            *final(self) == (Lexer { tokens: final(self).tokens, ..*old(self) }),
            token_views(final(self).tokens@) == token_views(old(self).tokens@).push(
                TokenView {
                    kind: token_type,
                    lexeme: old(self).source@.subrange(
                        old(self).start as int,
                        old(self).current as int,
                    ),
                    literal: Seq::empty(),
                    line: old(self).line as nat,
                },
            ),
    {
        let line = self.line;
        self.add_token_with_literal(token_type, String::new(), line);
    }

    /// Makes a token from the lexeme under construction, with the given
    /// payload, that began on `line`.
    fn add_token_with_literal(&mut self, token_type: TokenType, literal: String, line: usize)
        requires
            old(self).start <= old(self).current <= old(self).source.len(),
        ensures
            *final(self) == (Lexer { tokens: final(self).tokens, ..*old(self) }),
            token_views(final(self).tokens@) == token_views(old(self).tokens@).push(
                TokenView {
                    kind: token_type,
                    lexeme: old(self).source@.subrange(
                        old(self).start as int,
                        old(self).current as int,
                    ),
                    literal: literal@,
                    line: line as nat,
                },
            ),
    {
        let text = text_of(&self.source, self.start, self.current);
        let token = Token::new(token_type, text, literal, line);
        self.tokens.push(token);
        assert(token_views(self.tokens@) =~= token_views(old(self).tokens@).push(token@));
    }

    /// Whether the cursor has passed the last character.
    fn is_at_end(&self) -> (b: bool)
        ensures
            b == (self.current >= self.source.len()),
    {
        self.current >= self.source.len()
    }

    /// Consumes the character at the cursor if it is `expected`, and says
    /// whether it did.
    fn is_next(&mut self, expected: char) -> (b: bool)
        ensures
            b == (old(self).current < old(self).source.len() && old(self).source@[old(
                self,
            ).current as int] == expected),
            *final(self) == if b {
                Lexer { current: (old(self).current + 1) as usize, ..*old(self) }
            } else {
                *old(self)
            },
    {
        if self.is_at_end() {
            return false;
        }
        if self.source[self.current] != expected {
            false
        } else {
            self.current += 1;
            true
        }
    }

    /// Scans a string literal whose opening quote was just consumed.
    fn scan_string(&mut self) -> (r: Result<(), (usize, String)>)
        requires
            old(self).wf(),
            old(self).current == old(self).start + 1,
        ensures
            final(self).wf(),
            old(self).start < final(self).current,
            performs(
                *old(self),
                *final(self),
                r,
                string_step(old(self).source@, old(self).start as int, old(self).line as nat),
            ),
    {
        let first_line = self.line;
        while self.peek() != '"' && !self.is_at_end()
            invariant
                self.wf(),
                self.source == old(self).source,
                self.tokens == old(self).tokens,
                self.start == old(self).start,
                self.start + 1 <= self.current,
                first_line == old(self).line,
                self.line == first_line + newlines(
                    self.source@,
                    self.start + 1,
                    self.current as int,
                ),
                run_end(self.source@, self.current as int, CharClass::StringBody) == run_end(
                    self.source@,
                    self.start + 1,
                    CharClass::StringBody,
                ),
            decreases self.source.len() - self.current,
        {
            if self.peek() == '\n' {
                self.line += 1;
            }
            self.advance();
        }

        if self.is_at_end() {
            return Err((self.line, message_text(ErrorKind::UnterminatedString)));
        }
        self.advance();
        let text = text_of(&self.source, self.start + 1, self.current - 1);
        self.add_token_with_literal(TokenType::String, text, first_line);
        Ok(())
    }

    /// Scans a number whose first digit was just consumed.
    fn scan_number(&mut self) -> (r: Result<(), (usize, String)>)
        requires
            old(self).wf(),
            old(self).current == old(self).start + 1,
        ensures
            final(self).wf(),
            old(self).start < final(self).current,
            performs(
                *old(self),
                *final(self),
                r,
                number_step(old(self).source@, old(self).start as int, old(self).line as nat),
            ),
    {
        while is_decimal_digit(self.peek())
            invariant
                self.wf(),
                *self == (Lexer { current: self.current, ..*old(self) }),
                self.start + 1 <= self.current,
                run_end(self.source@, self.current as int, CharClass::Digit) == run_end(
                    self.source@,
                    self.start + 1,
                    CharClass::Digit,
                ),
            decreases self.source.len() - self.current,
        {
            self.advance();
        }

        if self.peek() == '.' && is_decimal_digit(self.peek_next()) {
            // The point belongs to the number only with a digit behind it.
            self.advance();
            let ghost point = self.current as int;
            while is_decimal_digit(self.peek())
                invariant
                    self.wf(),
                    *self == (Lexer { current: self.current, ..*old(self) }),
                    point <= self.current,
                    self.start + 1 <= self.current,
                    run_end(self.source@, self.current as int, CharClass::Digit) == run_end(
                        self.source@,
                        point,
                        CharClass::Digit,
                    ),
                decreases self.source.len() - self.current,
            {
                self.advance();
            }
        }
        let text = text_of(&self.source, self.start, self.current);
        let line = self.line;
        self.add_token_with_literal(TokenType::Number, text, line);
        Ok(())
    }

    /// Scans an identifier or reserved word whose first character was just
    /// consumed.
    fn scan_identifier(&mut self) -> (r: Result<(), (usize, String)>)
        requires
            old(self).wf(),
            old(self).current == old(self).start + 1,
        ensures
            final(self).wf(),
            old(self).start < final(self).current,
            performs(
                *old(self),
                *final(self),
                r,
                word_step(old(self).source@, old(self).start as int, old(self).line as nat),
            ),
    {
        while !self.is_at_end() && is_identifier_char(self.peek())
            invariant
                self.wf(),
                *self == (Lexer { current: self.current, ..*old(self) }),
                self.start + 1 <= self.current,
                run_end(self.source@, self.current as int, CharClass::Word) == run_end(
                    self.source@,
                    self.start + 1,
                    CharClass::Word,
                ),
            decreases self.source.len() - self.current,
        {
            self.advance();
        }
        let token_type = match lookup_keyword(&self.source, self.start, self.current) {
            Some(token_type) => token_type,
            None => TokenType::Identifier,
        };
        self.add_token(token_type);
        Ok(())
    }
}

} // verus!
