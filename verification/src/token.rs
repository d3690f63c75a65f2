//! The concrete spanned token the tokenizer emits, and the scalar parsers
//! that consume it from a cursor.

use vstd::prelude::*;
use crate::lexer::{CustomMatch, Lexer, LexerError};
use crate::parser::{Error, Parse, Parser};
use crate::span::{Span, Spanned};

verus! {

/// One token: the index and name of the lexing directive that produced it,
/// and the raw matched text with its span.
#[derive(Debug)]
pub struct Token {
    pub kind: u64,
    pub name: String,
    pub raw: String,
    pub span: Span,
}

impl Clone for Token {
    fn clone(&self) -> (r: Token)
        ensures
            r == *self,
    {
        Token {
            kind: self.kind,
            name: self.name.clone(),
            raw: self.raw.clone(),
            span: self.span.clone(),
        }
    }
}

impl Token {
    pub fn raw(&self) -> (r: &String)
        ensures
            *r == self.raw,
    {
        &self.raw
    }

    pub fn name(&self) -> (r: &String)
        ensures
            *r == self.name,
    {
        &self.name
    }
}

impl Spanned for Token {
    open spec fn spec_span(&self) -> Span {
        self.span
    }

    fn span(&self) -> (r: &Span) {
        &self.span
    }
}

/// The loosest scalar parser: consumes the next token whatever it is, and
/// fails only at the end of the sequence.
impl Parse<Token> for Token {
    type M = Token;

    open spec fn model(&self) -> Token {
        *self
    }

    open spec fn spec_parse(tokens: Seq<Token>, offset: int) -> Option<(Token, int)> {
        if 0 <= offset < tokens.len() {
            Some((tokens[offset], offset + 1))
        } else {
            None
        }
    }

    fn parse(ts: &mut Parser<Token>) -> (r: Result<Self, Error>) {
        match ts.get_next_token() {
            Some(t) => Ok(t.clone()),
            None => Error::new("Expected a token".to_owned(), None),
        }
    }
}

/// The scalar parser for one directive's tokens: `Kind::<K>` consumes the
/// next token exactly when directive number `K` produced it.
#[derive(Debug)]
pub struct Kind<const K: u64> {
    pub token: Token,
}

impl<const K: u64> Parse<Token> for Kind<K> {
    type M = Token;

    open spec fn model(&self) -> Token {
        self.token
    }

    open spec fn spec_parse(tokens: Seq<Token>, offset: int) -> Option<(Token, int)> {
        if 0 <= offset < tokens.len() && tokens[offset].kind == K {
            Some((tokens[offset], offset + 1))
        } else {
            None
        }
    }

    fn parse(ts: &mut Parser<Token>) -> (r: Result<Self, Error>) {
        match ts.get_next_token() {
            Some(t) => {
                if t.kind == K {
                    Ok(Kind { token: t.clone() })
                } else {
                    let sp = t.span().clone();
                    Error::new("Unexpected token".to_owned(), Some(sp))
                }
            },
            None => Error::new("Expected a token".to_owned(), None),
        }
    }
}

/// The capability of reading the next typed token out of a lexer; the
/// grammar layer implements it for its own token types.
pub trait Tokenize where Self: Sized {
    fn tokenize<M: CustomMatch>(lexer: &mut Lexer<M>) -> (r: Result<Option<Self>, LexerError>)
        requires
            old(lexer).wf(),
        ensures
            final(lexer).wf(),
    ;
}

impl Tokenize for Token {
    fn tokenize<M: CustomMatch>(lexer: &mut Lexer<M>) -> Result<Option<Token>, LexerError> {
        lexer.read_next_token()
    }
}

} // verus!
