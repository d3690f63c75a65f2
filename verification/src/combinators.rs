//! Generic combinators over the `Parse` capability: the zero-or-more
//! sequence, the optional value, and fixed-arity tuples. Each is built only
//! from `Parser::parse`, so each inherits its rollback discipline.

use vstd::prelude::*;
use crate::parser::{Error, Parse, Parser};
use crate::span::Spanned;
use std::rc::Rc;
use std::sync::Arc;

verus! {

/// Shared-ownership pass-through: parses a `T` and wraps it; a failure
/// propagates unchanged.
impl<Token: Spanned, T: Parse<Token>> Parse<Token> for Rc<T> {
    type M = T::M;

    open spec fn model(&self) -> T::M {
        (**self).model()
    }

    open spec fn spec_parse(tokens: Seq<Token>, offset: int) -> Option<(T::M, int)> {
        T::spec_parse(tokens, offset)
    }

    fn parse(ts: &mut Parser<Token>) -> (r: Result<Self, Error>) {
        Ok(Rc::new(ts.parse()?))
    }
}

/// Like the `Rc` pass-through, for ownership shared across threads.
impl<Token: Spanned, T: Parse<Token>> Parse<Token> for Arc<T> {
    type M = T::M;

    open spec fn model(&self) -> T::M {
        (**self).model()
    }

    open spec fn spec_parse(tokens: Seq<Token>, offset: int) -> Option<(T::M, int)> {
        T::spec_parse(tokens, offset)
    }

    fn parse(ts: &mut Parser<Token>) -> (r: Result<Self, Error>) {
        Ok(Arc::new(ts.parse()?))
    }
}

/// The run of consecutive successful `T` parses from `offset`: the collected
/// models and the offset after the run. The run ends at the first failure; a
/// degenerate success that consumes nothing also ends it, since collecting it
/// once more would never stop.
pub open spec fn spec_parse_star<Token, T: Parse<Token>>(tokens: Seq<Token>, offset: int) -> (Seq<T::M>, int)
    decreases tokens.len() - offset when 0 <= offset <= tokens.len()
{
    match T::spec_parse(tokens, offset) {
        Some(v_end) => if offset < v_end.1 <= tokens.len() {
            let rest = spec_parse_star::<Token, T>(tokens, v_end.1);
            (seq![v_end.0] + rest.0, rest.1)
        } else {
            (Seq::empty(), offset)
        },
        None => (Seq::empty(), offset),
    }
}

/// The greedy Kleene-star combinator: collects `T`s until one fails, absorbs
/// that failure, and always succeeds.
impl<Token: Spanned, T: Parse<Token>> Parse<Token> for Vec<T> {
    type M = Seq<T::M>;

    open spec fn model(&self) -> Seq<T::M> {
        self@.map_values(|t: T| t.model())
    }

    open spec fn spec_parse(tokens: Seq<Token>, offset: int) -> Option<(Seq<T::M>, int)> {
        if 0 <= offset <= tokens.len() {
            Some(spec_parse_star::<Token, T>(tokens, offset))
        } else {
            None
        }
    }

    fn parse(ts: &mut Parser<Token>) -> (r: Result<Self, Error>) {
        let ghost tokens = ts.tokens();
        let ghost offset0 = ts.offset();
        let mut v: Vec<T> = Vec::new();
        loop
            invariant
                ts.wf(),
                ts.tokens() == tokens,
                0 <= offset0 <= ts.offset() <= tokens.len(),
                spec_parse_star::<Token, T>(tokens, offset0) == ({
                    let rest = spec_parse_star::<Token, T>(tokens, ts.offset());
                    (v@.map_values(|t: T| t.model()) + rest.0, rest.1)
                }),
            ensures
                ts.wf(),
                ts.tokens() == tokens,
                0 <= offset0 <= ts.offset() <= tokens.len(),
                spec_parse_star::<Token, T>(tokens, offset0)
                    == (v@.map_values(|t: T| t.model()), ts.offset()),
            decreases tokens.len() - ts.offset(),
        {
            let before = ts.current_offset();
            let ghost cur = ts.offset();
            let ghost old_v = v@;
            match ts.parse::<T>() {
                Ok(t) => {
                    if ts.current_offset() == before {
                        // a success that consumes nothing would repeat forever;
                        // the run ends here
                        proof {
                            assert(spec_parse_star::<Token, T>(tokens, cur)
                                == (Seq::<T::M>::empty(), cur));
                            assert(v@.map_values(|t: T| t.model()) + Seq::<T::M>::empty()
                                =~= v@.map_values(|t: T| t.model()));
                        }
                        break;
                    }
                    v.push(t);
                    proof {
                        let f = |t: T| t.model();
                        assert(v@.map_values(f) =~= old_v.map_values(f).push(t.model()));
                        let v_end = T::spec_parse(tokens, cur).unwrap();
                        // the element advanced: unfold the run at `cur`
                        let rest = spec_parse_star::<Token, T>(tokens, v_end.1);
                        assert(spec_parse_star::<Token, T>(tokens, cur)
                            == (seq![v_end.0] + rest.0, rest.1));
                        assert(old_v.map_values(f) + (seq![v_end.0] + rest.0)
                            =~= v@.map_values(f) + rest.0);
                    }
                },
                Err(_) => {
                    proof {
                        assert(spec_parse_star::<Token, T>(tokens, ts.offset())
                            == (Seq::<T::M>::empty(), ts.offset()));
                        assert(v@.map_values(|t: T| t.model()) + Seq::<T::M>::empty()
                            =~= v@.map_values(|t: T| t.model()));
                    }
                    break;
                },
            }
        }
        Ok(v)
    }
}

/// The optional combinator: a failure of the element is absorbed and reported
/// as absence; this combinator itself always succeeds.
impl<Token: Spanned, T: Parse<Token>> Parse<Token> for Option<T> {
    type M = Option<T::M>;

    open spec fn model(&self) -> Option<T::M> {
        match self {
            Some(t) => Some(t.model()),
            None => None,
        }
    }

    open spec fn spec_parse(tokens: Seq<Token>, offset: int) -> Option<(Option<T::M>, int)> {
        match T::spec_parse(tokens, offset) {
            Some(v_end) => Some((Some(v_end.0), v_end.1)),
            None => Some((None, offset)),
        }
    }

    fn parse(ts: &mut Parser<Token>) -> (r: Result<Self, Error>) {
        match ts.parse::<T>() {
            Ok(t) => Ok(Some(t)),
            Err(_) => Ok(None),
        }
    }
}

/// Sequence totality: parsing a `Vec<T>` never fails, the offset it reaches
/// never recedes or overruns, and the run is maximal: at the offset where it
/// stops, the element type cannot parse and advance any further.
pub proof fn lemma_sequence_total<Token: Spanned, T: Parse<Token>>(tokens: Seq<Token>, offset: int)
    requires
        0 <= offset <= tokens.len(),
    ensures
        <Vec<T> as Parse<Token>>::spec_parse(tokens, offset) matches Some(r) && {
            &&& offset <= r.1 <= tokens.len()
            &&& match T::spec_parse(tokens, r.1) {
                Some(v_end) => !(r.1 < v_end.1 <= tokens.len()),
                None => true,
            }
        },
    decreases tokens.len() - offset,
{
    match T::spec_parse(tokens, offset) {
        Some(v_end) => {
            if offset < v_end.1 <= tokens.len() {
                lemma_sequence_total::<Token, T>(tokens, v_end.1);
            }
        },
        None => {},
    }
}

/// Optional totality: parsing an `Option<T>` never fails; it yields absence
/// exactly when `T` itself would fail, in which case the offset is unmoved,
/// and otherwise yields exactly what `T` yields.
pub proof fn lemma_optional_total<Token: Spanned, T: Parse<Token>>(tokens: Seq<Token>, offset: int)
    ensures
        <Option<T> as Parse<Token>>::spec_parse(tokens, offset) matches Some(r) && {
            &&& r.0 is None <==> T::spec_parse(tokens, offset) is None
            &&& match T::spec_parse(tokens, offset) {
                Some(v_end) => r.0 == Some(v_end.0) && r.1 == v_end.1,
                None => r.1 == offset,
            }
        },
{
}

impl<Token: Spanned, T0: Parse<Token>> Parse<Token> for (T0,) {
    type M = (T0::M,);

    open spec fn model(&self) -> (T0::M,) {
        (self.0.model(),)
    }

    open spec fn spec_parse(tokens: Seq<Token>, offset: int) -> Option<((T0::M,), int)> {
        match T0::spec_parse(tokens, offset) {
            None => None,
            Some(r0) =>
            Some(((r0.0,), r0.1)),
        }
    }

    fn parse(ts: &mut Parser<Token>) -> (r: Result<Self, Error>) {
        Ok((
            ts.parse()?,
        ))
    }
}

impl<Token: Spanned, T0: Parse<Token>, T1: Parse<Token>> Parse<Token> for (T0, T1) {
    type M = (T0::M, T1::M);

    open spec fn model(&self) -> (T0::M, T1::M) {
        (self.0.model(), self.1.model())
    }

    open spec fn spec_parse(tokens: Seq<Token>, offset: int) -> Option<((T0::M, T1::M), int)> {
        match T0::spec_parse(tokens, offset) {
            None => None,
            Some(r0) =>
            match T1::spec_parse(tokens, r0.1) {
                None => None,
                Some(r1) =>
                Some(((r0.0, r1.0), r1.1)),
            },
        }
    }

    fn parse(ts: &mut Parser<Token>) -> (r: Result<Self, Error>) {
        Ok((
            ts.parse()?,
            ts.parse()?,
        ))
    }
}

impl<Token: Spanned, T0: Parse<Token>, T1: Parse<Token>, T2: Parse<Token>> Parse<Token> for (T0, T1, T2) {
    type M = (T0::M, T1::M, T2::M);

    open spec fn model(&self) -> (T0::M, T1::M, T2::M) {
        (self.0.model(), self.1.model(), self.2.model())
    }

    open spec fn spec_parse(tokens: Seq<Token>, offset: int) -> Option<((T0::M, T1::M, T2::M), int)> {
        match T0::spec_parse(tokens, offset) {
            None => None,
            Some(r0) =>
            match T1::spec_parse(tokens, r0.1) {
                None => None,
                Some(r1) =>
                match T2::spec_parse(tokens, r1.1) {
                    None => None,
                    Some(r2) =>
                    Some(((r0.0, r1.0, r2.0), r2.1)),
                },
            },
        }
    }

    fn parse(ts: &mut Parser<Token>) -> (r: Result<Self, Error>) {
        Ok((
            ts.parse()?,
            ts.parse()?,
            ts.parse()?,
        ))
    }
}

impl<Token: Spanned, T0: Parse<Token>, T1: Parse<Token>, T2: Parse<Token>, T3: Parse<Token>> Parse<Token> for (T0, T1, T2, T3) {
    type M = (T0::M, T1::M, T2::M, T3::M);

    open spec fn model(&self) -> (T0::M, T1::M, T2::M, T3::M) {
        (self.0.model(), self.1.model(), self.2.model(), self.3.model())
    }

    open spec fn spec_parse(tokens: Seq<Token>, offset: int) -> Option<((T0::M, T1::M, T2::M, T3::M), int)> {
        match T0::spec_parse(tokens, offset) {
            None => None,
            Some(r0) =>
            match T1::spec_parse(tokens, r0.1) {
                None => None,
                Some(r1) =>
                match T2::spec_parse(tokens, r1.1) {
                    None => None,
                    Some(r2) =>
                    match T3::spec_parse(tokens, r2.1) {
                        None => None,
                        Some(r3) =>
                        Some(((r0.0, r1.0, r2.0, r3.0), r3.1)),
                    },
                },
            },
        }
    }

    fn parse(ts: &mut Parser<Token>) -> (r: Result<Self, Error>) {
        Ok((
            ts.parse()?,
            ts.parse()?,
            ts.parse()?,
            ts.parse()?,
        ))
    }
}

impl<Token: Spanned, T0: Parse<Token>, T1: Parse<Token>, T2: Parse<Token>, T3: Parse<Token>, T4: Parse<Token>> Parse<Token> for (T0, T1, T2, T3, T4) {
    type M = (T0::M, T1::M, T2::M, T3::M, T4::M);

    open spec fn model(&self) -> (T0::M, T1::M, T2::M, T3::M, T4::M) {
        (self.0.model(), self.1.model(), self.2.model(), self.3.model(), self.4.model())
    }

    open spec fn spec_parse(tokens: Seq<Token>, offset: int) -> Option<((T0::M, T1::M, T2::M, T3::M, T4::M), int)> {
        match T0::spec_parse(tokens, offset) {
            None => None,
            Some(r0) =>
            match T1::spec_parse(tokens, r0.1) {
                None => None,
                Some(r1) =>
                match T2::spec_parse(tokens, r1.1) {
                    None => None,
                    Some(r2) =>
                    match T3::spec_parse(tokens, r2.1) {
                        None => None,
                        Some(r3) =>
                        match T4::spec_parse(tokens, r3.1) {
                            None => None,
                            Some(r4) =>
                            Some(((r0.0, r1.0, r2.0, r3.0, r4.0), r4.1)),
                        },
                    },
                },
            },
        }
    }

    fn parse(ts: &mut Parser<Token>) -> (r: Result<Self, Error>) {
        Ok((
            ts.parse()?,
            ts.parse()?,
            ts.parse()?,
            ts.parse()?,
            ts.parse()?,
        ))
    }
}

impl<Token: Spanned, T0: Parse<Token>, T1: Parse<Token>, T2: Parse<Token>, T3: Parse<Token>, T4: Parse<Token>, T5: Parse<Token>> Parse<Token> for (T0, T1, T2, T3, T4, T5) {
    type M = (T0::M, T1::M, T2::M, T3::M, T4::M, T5::M);

    open spec fn model(&self) -> (T0::M, T1::M, T2::M, T3::M, T4::M, T5::M) {
        (self.0.model(), self.1.model(), self.2.model(), self.3.model(), self.4.model(), self.5.model())
    }

    open spec fn spec_parse(tokens: Seq<Token>, offset: int) -> Option<((T0::M, T1::M, T2::M, T3::M, T4::M, T5::M), int)> {
        match T0::spec_parse(tokens, offset) {
            None => None,
            Some(r0) =>
            match T1::spec_parse(tokens, r0.1) {
                None => None,
                Some(r1) =>
                match T2::spec_parse(tokens, r1.1) {
                    None => None,
                    Some(r2) =>
                    match T3::spec_parse(tokens, r2.1) {
                        None => None,
                        Some(r3) =>
                        match T4::spec_parse(tokens, r3.1) {
                            None => None,
                            Some(r4) =>
                            match T5::spec_parse(tokens, r4.1) {
                                None => None,
                                Some(r5) =>
                                Some(((r0.0, r1.0, r2.0, r3.0, r4.0, r5.0), r5.1)),
                            },
                        },
                    },
                },
            },
        }
    }

    fn parse(ts: &mut Parser<Token>) -> (r: Result<Self, Error>) {
        Ok((
            ts.parse()?,
            ts.parse()?,
            ts.parse()?,
            ts.parse()?,
            ts.parse()?,
            ts.parse()?,
        ))
    }
}

impl<Token: Spanned, T0: Parse<Token>, T1: Parse<Token>, T2: Parse<Token>, T3: Parse<Token>, T4: Parse<Token>, T5: Parse<Token>, T6: Parse<Token>> Parse<Token> for (T0, T1, T2, T3, T4, T5, T6) {
    type M = (T0::M, T1::M, T2::M, T3::M, T4::M, T5::M, T6::M);

    open spec fn model(&self) -> (T0::M, T1::M, T2::M, T3::M, T4::M, T5::M, T6::M) {
        (self.0.model(), self.1.model(), self.2.model(), self.3.model(), self.4.model(), self.5.model(), self.6.model())
    }

    open spec fn spec_parse(tokens: Seq<Token>, offset: int) -> Option<((T0::M, T1::M, T2::M, T3::M, T4::M, T5::M, T6::M), int)> {
        match T0::spec_parse(tokens, offset) {
            None => None,
            Some(r0) =>
            match T1::spec_parse(tokens, r0.1) {
                None => None,
                Some(r1) =>
                match T2::spec_parse(tokens, r1.1) {
                    None => None,
                    Some(r2) =>
                    match T3::spec_parse(tokens, r2.1) {
                        None => None,
                        Some(r3) =>
                        match T4::spec_parse(tokens, r3.1) {
                            None => None,
                            Some(r4) =>
                            match T5::spec_parse(tokens, r4.1) {
                                None => None,
                                Some(r5) =>
                                match T6::spec_parse(tokens, r5.1) {
                                    None => None,
                                    Some(r6) =>
                                    Some(((r0.0, r1.0, r2.0, r3.0, r4.0, r5.0, r6.0), r6.1)),
                                },
                            },
                        },
                    },
                },
            },
        }
    }

    fn parse(ts: &mut Parser<Token>) -> (r: Result<Self, Error>) {
        Ok((
            ts.parse()?,
            ts.parse()?,
            ts.parse()?,
            ts.parse()?,
            ts.parse()?,
            ts.parse()?,
            ts.parse()?,
        ))
    }
}

impl<Token: Spanned, T0: Parse<Token>, T1: Parse<Token>, T2: Parse<Token>, T3: Parse<Token>, T4: Parse<Token>, T5: Parse<Token>, T6: Parse<Token>, T7: Parse<Token>> Parse<Token> for (T0, T1, T2, T3, T4, T5, T6, T7) {
    type M = (T0::M, T1::M, T2::M, T3::M, T4::M, T5::M, T6::M, T7::M);

    open spec fn model(&self) -> (T0::M, T1::M, T2::M, T3::M, T4::M, T5::M, T6::M, T7::M) {
        (self.0.model(), self.1.model(), self.2.model(), self.3.model(), self.4.model(), self.5.model(), self.6.model(), self.7.model())
    }

    open spec fn spec_parse(tokens: Seq<Token>, offset: int) -> Option<((T0::M, T1::M, T2::M, T3::M, T4::M, T5::M, T6::M, T7::M), int)> {
        match T0::spec_parse(tokens, offset) {
            None => None,
            Some(r0) =>
            match T1::spec_parse(tokens, r0.1) {
                None => None,
                Some(r1) =>
                match T2::spec_parse(tokens, r1.1) {
                    None => None,
                    Some(r2) =>
                    match T3::spec_parse(tokens, r2.1) {
                        None => None,
                        Some(r3) =>
                        match T4::spec_parse(tokens, r3.1) {
                            None => None,
                            Some(r4) =>
                            match T5::spec_parse(tokens, r4.1) {
                                None => None,
                                Some(r5) =>
                                match T6::spec_parse(tokens, r5.1) {
                                    None => None,
                                    Some(r6) =>
                                    match T7::spec_parse(tokens, r6.1) {
                                        None => None,
                                        Some(r7) =>
                                        Some(((r0.0, r1.0, r2.0, r3.0, r4.0, r5.0, r6.0, r7.0), r7.1)),
                                    },
                                },
                            },
                        },
                    },
                },
            },
        }
    }

    fn parse(ts: &mut Parser<Token>) -> (r: Result<Self, Error>) {
        Ok((
            ts.parse()?,
            ts.parse()?,
            ts.parse()?,
            ts.parse()?,
            ts.parse()?,
            ts.parse()?,
            ts.parse()?,
            ts.parse()?,
        ))
    }
}

impl<Token: Spanned, T0: Parse<Token>, T1: Parse<Token>, T2: Parse<Token>, T3: Parse<Token>, T4: Parse<Token>, T5: Parse<Token>, T6: Parse<Token>, T7: Parse<Token>, T8: Parse<Token>> Parse<Token> for (T0, T1, T2, T3, T4, T5, T6, T7, T8) {
    type M = (T0::M, T1::M, T2::M, T3::M, T4::M, T5::M, T6::M, T7::M, T8::M);

    open spec fn model(&self) -> (T0::M, T1::M, T2::M, T3::M, T4::M, T5::M, T6::M, T7::M, T8::M) {
        (self.0.model(), self.1.model(), self.2.model(), self.3.model(), self.4.model(), self.5.model(), self.6.model(), self.7.model(), self.8.model())
    }

    open spec fn spec_parse(tokens: Seq<Token>, offset: int) -> Option<((T0::M, T1::M, T2::M, T3::M, T4::M, T5::M, T6::M, T7::M, T8::M), int)> {
        match T0::spec_parse(tokens, offset) {
            None => None,
            Some(r0) =>
            match T1::spec_parse(tokens, r0.1) {
                None => None,
                Some(r1) =>
                match T2::spec_parse(tokens, r1.1) {
                    None => None,
                    Some(r2) =>
                    match T3::spec_parse(tokens, r2.1) {
                        None => None,
                        Some(r3) =>
                        match T4::spec_parse(tokens, r3.1) {
                            None => None,
                            Some(r4) =>
                            match T5::spec_parse(tokens, r4.1) {
                                None => None,
                                Some(r5) =>
                                match T6::spec_parse(tokens, r5.1) {
                                    None => None,
                                    Some(r6) =>
                                    match T7::spec_parse(tokens, r6.1) {
                                        None => None,
                                        Some(r7) =>
                                        match T8::spec_parse(tokens, r7.1) {
                                            None => None,
                                            Some(r8) =>
                                            Some(((r0.0, r1.0, r2.0, r3.0, r4.0, r5.0, r6.0, r7.0, r8.0), r8.1)),
                                        },
                                    },
                                },
                            },
                        },
                    },
                },
            },
        }
    }

    fn parse(ts: &mut Parser<Token>) -> (r: Result<Self, Error>) {
        Ok((
            ts.parse()?,
            ts.parse()?,
            ts.parse()?,
            ts.parse()?,
            ts.parse()?,
            ts.parse()?,
            ts.parse()?,
            ts.parse()?,
            ts.parse()?,
        ))
    }
}

impl<Token: Spanned, T0: Parse<Token>, T1: Parse<Token>, T2: Parse<Token>, T3: Parse<Token>, T4: Parse<Token>, T5: Parse<Token>, T6: Parse<Token>, T7: Parse<Token>, T8: Parse<Token>, T9: Parse<Token>> Parse<Token> for (T0, T1, T2, T3, T4, T5, T6, T7, T8, T9) {
    type M = (T0::M, T1::M, T2::M, T3::M, T4::M, T5::M, T6::M, T7::M, T8::M, T9::M);

    open spec fn model(&self) -> (T0::M, T1::M, T2::M, T3::M, T4::M, T5::M, T6::M, T7::M, T8::M, T9::M) {
        (self.0.model(), self.1.model(), self.2.model(), self.3.model(), self.4.model(), self.5.model(), self.6.model(), self.7.model(), self.8.model(), self.9.model())
    }

    open spec fn spec_parse(tokens: Seq<Token>, offset: int) -> Option<((T0::M, T1::M, T2::M, T3::M, T4::M, T5::M, T6::M, T7::M, T8::M, T9::M), int)> {
        match T0::spec_parse(tokens, offset) {
            None => None,
            Some(r0) =>
            match T1::spec_parse(tokens, r0.1) {
                None => None,
                Some(r1) =>
                match T2::spec_parse(tokens, r1.1) {
                    None => None,
                    Some(r2) =>
                    match T3::spec_parse(tokens, r2.1) {
                        None => None,
                        Some(r3) =>
                        match T4::spec_parse(tokens, r3.1) {
                            None => None,
                            Some(r4) =>
                            match T5::spec_parse(tokens, r4.1) {
                                None => None,
                                Some(r5) =>
                                match T6::spec_parse(tokens, r5.1) {
                                    None => None,
                                    Some(r6) =>
                                    match T7::spec_parse(tokens, r6.1) {
                                        None => None,
                                        Some(r7) =>
                                        match T8::spec_parse(tokens, r7.1) {
                                            None => None,
                                            Some(r8) =>
                                            match T9::spec_parse(tokens, r8.1) {
                                                None => None,
                                                Some(r9) =>
                                                Some(((r0.0, r1.0, r2.0, r3.0, r4.0, r5.0, r6.0, r7.0, r8.0, r9.0), r9.1)),
                                            },
                                        },
                                    },
                                },
                            },
                        },
                    },
                },
            },
        }
    }

    fn parse(ts: &mut Parser<Token>) -> (r: Result<Self, Error>) {
        Ok((
            ts.parse()?,
            ts.parse()?,
            ts.parse()?,
            ts.parse()?,
            ts.parse()?,
            ts.parse()?,
            ts.parse()?,
            ts.parse()?,
            ts.parse()?,
            ts.parse()?,
        ))
    }
}

impl<Token: Spanned, T0: Parse<Token>, T1: Parse<Token>, T2: Parse<Token>, T3: Parse<Token>, T4: Parse<Token>, T5: Parse<Token>, T6: Parse<Token>, T7: Parse<Token>, T8: Parse<Token>, T9: Parse<Token>, T10: Parse<Token>> Parse<Token> for (T0, T1, T2, T3, T4, T5, T6, T7, T8, T9, T10) {
    type M = (T0::M, T1::M, T2::M, T3::M, T4::M, T5::M, T6::M, T7::M, T8::M, T9::M, T10::M);

    open spec fn model(&self) -> (T0::M, T1::M, T2::M, T3::M, T4::M, T5::M, T6::M, T7::M, T8::M, T9::M, T10::M) {
        (self.0.model(), self.1.model(), self.2.model(), self.3.model(), self.4.model(), self.5.model(), self.6.model(), self.7.model(), self.8.model(), self.9.model(), self.10.model())
    }

    open spec fn spec_parse(tokens: Seq<Token>, offset: int) -> Option<((T0::M, T1::M, T2::M, T3::M, T4::M, T5::M, T6::M, T7::M, T8::M, T9::M, T10::M), int)> {
        match T0::spec_parse(tokens, offset) {
            None => None,
            Some(r0) =>
            match T1::spec_parse(tokens, r0.1) {
                None => None,
                Some(r1) =>
                match T2::spec_parse(tokens, r1.1) {
                    None => None,
                    Some(r2) =>
                    match T3::spec_parse(tokens, r2.1) {
                        None => None,
                        Some(r3) =>
                        match T4::spec_parse(tokens, r3.1) {
                            None => None,
                            Some(r4) =>
                            match T5::spec_parse(tokens, r4.1) {
                                None => None,
                                Some(r5) =>
                                match T6::spec_parse(tokens, r5.1) {
                                    None => None,
                                    Some(r6) =>
                                    match T7::spec_parse(tokens, r6.1) {
                                        None => None,
                                        Some(r7) =>
                                        match T8::spec_parse(tokens, r7.1) {
                                            None => None,
                                            Some(r8) =>
                                            match T9::spec_parse(tokens, r8.1) {
                                                None => None,
                                                Some(r9) =>
                                                match T10::spec_parse(tokens, r9.1) {
                                                    None => None,
                                                    Some(r10) =>
                                                    Some(((r0.0, r1.0, r2.0, r3.0, r4.0, r5.0, r6.0, r7.0, r8.0, r9.0, r10.0), r10.1)),
                                                },
                                            },
                                        },
                                    },
                                },
                            },
                        },
                    },
                },
            },
        }
    }

    fn parse(ts: &mut Parser<Token>) -> (r: Result<Self, Error>) {
        Ok((
            ts.parse()?,
            ts.parse()?,
            ts.parse()?,
            ts.parse()?,
            ts.parse()?,
            ts.parse()?,
            ts.parse()?,
            ts.parse()?,
            ts.parse()?,
            ts.parse()?,
            ts.parse()?,
        ))
    }
}

/// Tuple atomicity, in its two-component form: when the first component
/// parses and the second fails at the offset the first one reached, the pair
/// itself fails, so `Parser::parse` leaves the cursor exactly where it was
/// before the attempt.
pub proof fn lemma_tuple_all_or_nothing<Token: Spanned, A: Parse<Token>, B: Parse<Token>>(
    tokens: Seq<Token>,
    offset: int,
)
    requires
        A::spec_parse(tokens, offset) matches Some(a_end) && B::spec_parse(tokens, a_end.1) is None,
    ensures
        <(A, B) as Parse<Token>>::spec_parse(tokens, offset) is None,
{
}

} // verus!
