//! The token-stream cursor: rollback-safe, speculative consumption of an
//! immutable, shared token sequence, and the `Parse` capability that grammar
//! types implement.

use vstd::prelude::*;
use crate::span::{Span, Spanned};
use std::rc::Rc;

verus! {

/// A parse or lexing failure: a message and, when known, the location it
/// arose at.
#[derive(Debug)]
pub struct Error {
    message: String,
    span: Option<Span>,
}

impl Error {
    pub closed spec fn spec_message(&self) -> Seq<char> {
        self.message@
    }

    pub closed spec fn spec_span(&self) -> Option<Span> {
        self.span
    }

    /// Builds a failure, already wrapped as the `Err` a parse returns.
    pub fn new<T>(message: String, span: Option<Span>) -> (r: Result<T, Error>)
        ensures
            r matches Err(e) && e.spec_message() == message@ && e.spec_span() == span,
    {
        Err(Error { message, span })
    }

    pub fn message(&self) -> (r: &str)
        ensures
            r@ == self.spec_message(),
    {
        self.message.as_str()
    }

    pub fn span(&self) -> (r: &Option<Span>)
        ensures
            *r == self.spec_span(),
    {
        &self.span
    }

    /// The rendered diagnostic: the message, then the start location when a
    /// span is known.
    pub fn to_display_string(&self) -> (r: String)
        ensures
            r@ == self.spec_message() + match self.spec_span() {
                Some(s) => Span::spec_render(s.spec_file(), s.spec_start()),
                None => Seq::<char>::empty(),
            },
    {
        let mut r = self.message.clone();
        match &self.span {
            Some(s) => {
                let loc = s.to_string_start();
                r.append(loc.as_str());
            },
            None => {
                proof {
                    assert(r@ =~= r@ + Seq::<char>::empty());
                }
            },
        }
        r
    }
}

/// Relies on Rc::clone: the clone points at the same allocation, so it equals
/// the original.
#[verifier::external_body]
fn rc_clone<T>(rc: &Rc<T>) -> (r: Rc<T>)
    ensures
        r == *rc,
{
    Rc::clone(rc)
}

/// Relies on Rc's Deref implementation: a shared reference to the inner value.
#[verifier::external_body]
fn rc_deref<T>(rc: &Rc<T>) -> (r: &T)
    ensures
        *r == **rc,
{
    &**rc
}

/// A read cursor over an immutable, shared token sequence. Cloning shares the
/// sequence and copies the offset, so trial parses are cheap.
pub struct Parser<Token> {
    tokens: Rc<Vec<Token>>,
    offset: usize,
}

impl<Token> Parser<Token> {
    /// The token sequence the cursor reads.
    pub closed spec fn tokens(&self) -> Seq<Token> {
        self.tokens@
    }

    /// The cursor's position in the sequence.
    pub closed spec fn offset(&self) -> int {
        self.offset as int
    }

    /// The cursor never points past the end of the sequence.
    pub open spec fn wf(&self) -> bool {
        0 <= self.offset() <= self.tokens().len()
    }

    /// The cursor's position, as a value.
    pub fn current_offset(&self) -> (r: usize)
        ensures
            r as int == self.offset(),
    {
        self.offset
    }
}

impl<Token> Clone for Parser<Token> {
    fn clone(&self) -> (r: Self)
        ensures
            r.tokens() == self.tokens(),
            r.offset() == self.offset(),
    {
        Parser { tokens: rc_clone(&self.tokens), offset: self.offset }
    }
}

/// The capability of being parsed from a cursor. `spec_parse` pins the
/// behaviour down: from a token sequence and an offset it gives either the
/// model of the parsed value and the offset after it, or `None` for failure.
/// The exec `parse` must agree with it exactly on success; on failure it may
/// leave the cursor anywhere at or after the start, because `Parser::parse`
/// restores the offset for it.
pub trait Parse<Token> where Self: Sized {
    /// The mathematical value a parsed result is judged by.
    type M;

    /// How a concrete result maps to its model.
    spec fn model(&self) -> Self::M;

    spec fn spec_parse(tokens: Seq<Token>, offset: int) -> Option<(Self::M, int)>;

    fn parse(ts: &mut Parser<Token>) -> (r: Result<Self, Error>)
        requires
            old(ts).wf(),
        ensures
            final(ts).wf(),
            final(ts).tokens() == old(ts).tokens(),
            old(ts).offset() <= final(ts).offset(),
            match Self::spec_parse(old(ts).tokens(), old(ts).offset()) {
                Some(v_end) => r matches Ok(v) && v.model() == v_end.0 && final(ts).offset() == v_end.1,
                None => r is Err,
            },
    ;
}

impl<Token: Spanned> Parser<Token> {
    pub fn new(tokens: Rc<Vec<Token>>) -> (r: Self)
        ensures
            r.tokens() == tokens@,
            r.offset() == 0,
            r.wf(),
    {
        Parser { tokens, offset: 0 }
    }

    /// The single rollback primitive: attempt to build a `P` at the current
    /// offset. On success the offset is left where `P` advanced it; on
    /// failure it is restored, so a failed attempt is a no-op on the cursor.
    pub fn parse<P: Parse<Token>>(&mut self) -> (r: Result<P, Error>)
        requires
            old(self).wf(),
        ensures
            final(self).wf(),
            final(self).tokens() == old(self).tokens(),
            old(self).offset() <= final(self).offset(),
            match P::spec_parse(old(self).tokens(), old(self).offset()) {
                Some(v_end) => r matches Ok(v) && v.model() == v_end.0 && final(self).offset() == v_end.1,
                None => r is Err && final(self).offset() == old(self).offset(),
            },
    {
        let offset = self.offset;
        let r = P::parse(self);
        if r.is_err() {
            self.offset = offset;
        }
        r
    }

    /// Like `parse`, but additionally requires the whole sequence to be
    /// consumed: a partial parse is turned into a failure located at the
    /// first unconsumed token, and rolled back.
    pub fn parse_to_eof<P: Parse<Token>>(&mut self) -> (r: Result<P, Error>)
        requires
            old(self).wf(),
        ensures
            final(self).wf(),
            final(self).tokens() == old(self).tokens(),
            match P::spec_parse(old(self).tokens(), old(self).offset()) {
                Some(v_end) => if v_end.1 == old(self).tokens().len() {
                    r matches Ok(v) && v.model() == v_end.0 && final(self).offset() == v_end.1
                } else {
                    &&& r matches Err(e) && e.spec_message() == "Expected EOF"@
                        && e.spec_span() == Some(old(self).tokens()[v_end.1].spec_span())
                    &&& final(self).offset() == old(self).offset()
                },
                None => r is Err && final(self).offset() == old(self).offset(),
            },
    {
        let offset = self.offset;
        let r = P::parse(self);
        let r = if self.offset < rc_deref(&self.tokens).len() {
            let sp = rc_deref(&self.tokens)[self.offset].span().clone();
            Error::new("Expected EOF".to_owned(), Some(sp))
        } else {
            r
        };
        if r.is_err() {
            self.offset = offset;
        }
        r
    }

    /// Lookahead: reports whether a `P` parses here, and always restores the
    /// offset, success or failure.
    pub fn peek<P: Parse<Token>>(&mut self) -> (r: bool)
        requires
            old(self).wf(),
        ensures
            final(self).wf(),
            final(self).tokens() == old(self).tokens(),
            final(self).offset() == old(self).offset(),
            r == P::spec_parse(old(self).tokens(), old(self).offset()) is Some,
    {
        let offset = self.offset;
        let r = P::parse(self);
        self.offset = offset;
        r.is_ok()
    }

    /// The terminal primitive scalar parsers build on: the only operation
    /// that unconditionally advances the offset, by one; `None`, without
    /// advancing, once the sequence is exhausted.
    pub fn get_next_token(&mut self) -> (r: Option<&Token>)
        requires
            old(self).wf(),
        ensures
            final(self).wf(),
            final(self).tokens() == old(self).tokens(),
            old(self).offset() < old(self).tokens().len() ==> (r matches Some(t)
                && *t == old(self).tokens()[old(self).offset()]
                && final(self).offset() == old(self).offset() + 1),
            old(self).offset() >= old(self).tokens().len() ==> r is None
                && final(self).offset() == old(self).offset(),
    {
        let v = rc_deref(&self.tokens);
        if self.offset < v.len() {
            let i = self.offset;
            self.offset = self.offset + 1;
            Some(&v[i])
        } else {
            None
        }
    }
}

} // verus!
