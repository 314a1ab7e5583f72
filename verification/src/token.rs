//! Tokens: the values a scan produces.

use vstd::prelude::*;
use vstd::string::StringExecFns;
use crate::token_type::{kind_name, TokenType};

verus! {

/// What a token is, as plain mathematical data.
pub struct TokenView {
    pub kind: TokenType,
    pub lexeme: Seq<char>,
    pub literal: Seq<char>,
    pub line: nat,
}

/// One lexical unit: its category, the exact text that produced it, the
/// payload of a string or number literal (empty otherwise), and the 1-based
/// line of its first character.
#[derive(Debug)]
pub struct Token {
    pub token_type: TokenType,
    pub lexeme: String,
    pub literal: String,
    pub line: usize,
}

impl View for Token {
    type V = TokenView;

    open spec fn view(&self) -> TokenView {
        TokenView {
            kind: self.token_type,
            lexeme: self.lexeme@,
            literal: self.literal@,
            line: self.line as nat,
        }
    }
}

/// The views of a sequence of tokens, in order.
pub open spec fn token_views(tokens: Seq<Token>) -> Seq<TokenView> {
    tokens.map_values(|t: Token| t@)
}

/// The diagnostic rendering of a token: category, lexeme and literal,
/// separated by single spaces.
pub open spec fn rendering(t: TokenView) -> Seq<char> {
    kind_name(t.kind) + " "@ + t.lexeme + " "@ + t.literal
}

impl Token {
    pub fn new(token_type: TokenType, lexeme: String, literal: String, line: usize) -> (t: Self)
        ensures
            t.token_type == token_type,
            t.lexeme == lexeme,
            t.literal == literal,
            t.line == line,
    {
        Self { token_type, lexeme, literal, line }
    }

    pub fn to_string(&self) -> (s: String)
        ensures
            s@ == rendering(self@),
    {
        let mut s = String::from_str(self.token_type.name());
        s.append(" ");
        s.append(self.lexeme.as_str());
        s.append(" ");
        s.append(self.literal.as_str());
        s
    }
}

impl Clone for Token {
    fn clone(&self) -> (t: Self)
        ensures
            t == *self,
    {
        Token {
            token_type: self.token_type,
            lexeme: self.lexeme.clone(),
            literal: self.literal.clone(),
            line: self.line,
        }
    }
}

/// An independent copy of a token list.
pub fn copy_tokens(tokens: &Vec<Token>) -> (copy: Vec<Token>)
    ensures
        copy@ == tokens@,
{
    let mut copy: Vec<Token> = Vec::new();
    let mut i: usize = 0;
    while i < tokens.len()
        invariant
            i <= tokens.len(),
            copy@ == tokens@.subrange(0, i as int),
        decreases tokens.len() - i,
    {
        copy.push(tokens[i].clone());
        assert(copy@ =~= tokens@.subrange(0, i + 1));
        i += 1;
    }
    assert(copy@ =~= tokens@);
    copy
}

} // verus!
