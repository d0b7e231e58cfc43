//! A tagged union of two independently-typed successful outcomes.
//!
//! `XOR<A, B>` holds either a value of type `A` (the `This` variant) or a
//! value of type `B` (the `That` variant) — never both, never neither.
//! Unlike `Option` (presence or absence) or `Result` (success or failure),
//! both variants are valid, meaningful outcomes with no implied preference
//! or error semantics.

use vstd::prelude::*;
use vstd::string::StringExecFns;

pub use crate::XOR::That;
pub use crate::XOR::This;

verus! {

/// Exactly one of two possible successful values, of potentially different
/// types: `This` holds an `A`, `That` holds a `B`.
#[derive(Debug, Clone, PartialEq, Eq, Structural)]
pub enum XOR<A, B> {
    This(A),
    That(B),
}

impl<A, B> XOR<A, B> {
    /// True iff the active variant is `This`.
    pub fn is_this(&self) -> (r: bool)
        ensures
            r == (self is This),
    {
        matches!(self, XOR::This(_))
    }

    /// True iff the active variant is `That`; complementary to `is_this`.
    pub fn is_that(&self) -> (r: bool)
        ensures
            r == (self is That),
    {
        matches!(self, XOR::That(_))
    }

    /// Consumes the value; yields the contained `A` if `This` is active,
    /// and `None` otherwise. Absence is the signalled outcome for the
    /// wrong-variant case, not an error.
    pub fn this(self) -> (r: Option<A>)
        ensures
            self is This ==> r == Some(self->This_0),
            self is That ==> r is None,
    {
        if let XOR::This(data) = self {
            return Some(data);
        }
        None
    }

    /// Consumes the value; yields the contained `B` if `That` is active,
    /// and `None` otherwise.
    pub fn that(self) -> (r: Option<B>)
        ensures
            self is That ==> r == Some(self->That_0),
            self is This ==> r is None,
    {
        if let XOR::That(data) = self {
            return Some(data);
        }
        None
    }

    /// If `This` is active, applies `hook` to the contained value and wraps
    /// the result as the new `This`; if `That` is active, returns a new
    /// instance whose `That` holds a duplicate of the original `B` value.
    /// `hook` is invoked at most once, and never when `That` is active.
    pub fn map_this<Hook, NewThis>(&self, hook: Hook) -> (r: XOR<NewThis, B>) where
        Hook: FnOnce(&A) -> NewThis,
        B: Clone,

        requires
            self is This ==> call_requires(hook, (&self->This_0,)),
        ensures
            r is This <==> self is This,
            self is This ==> call_ensures(hook, (&self->This_0,), r->This_0),
            self is That ==> vstd::pervasive::cloned(self->That_0, r->That_0),
    {
        match self {
            XOR::This(data) => XOR::This(hook(data)),
            XOR::That(data) => {
                let data: B = data.clone();
                XOR::That(data)
            },
        }
    }

    /// If `That` is active, applies `hook` to the contained value and wraps
    /// the result as the new `That`; if `This` is active, returns a new
    /// instance whose `This` holds a duplicate of the original `A` value.
    /// `hook` is invoked at most once, and never when `This` is active.
    pub fn map_that<Hook, NewThat>(&self, hook: Hook) -> (r: XOR<A, NewThat>) where
        Hook: FnOnce(&B) -> NewThat,
        A: Clone,

        requires
            self is That ==> call_requires(hook, (&self->That_0,)),
        ensures
            r is That <==> self is That,
            self is That ==> call_ensures(hook, (&self->That_0,), r->That_0),
            self is This ==> vstd::pervasive::cloned(self->This_0, r->This_0),
    {
        match self {
            XOR::This(data) => {
                let data: A = data.clone();
                XOR::This(data)
            },
            XOR::That(data) => XOR::That(hook(data)),
        }
    }

    /// A borrowing view over the active variant: the same variant, holding
    /// a reference into the original instead of the value itself.
    pub fn as_ref(&self) -> (r: XOR<&A, &B>)
        ensures
            r is This <==> self is This,
            self is This ==> *r->This_0 == self->This_0,
            self is That ==> *r->That_0 == self->That_0,
    {
        match self {
            XOR::This(data) => XOR::This(data),
            XOR::That(data) => XOR::That(data),
        }
    }

    /// Consumes the value and yields the contained `A`. The `That` variant
    /// is a contract violation by the caller, ruled out by `requires`:
    /// callers must check `is_this` first or prefer `this`.
    pub fn unwrap_this(self) -> (r: A)
        requires
            self is This,
        ensures
            r == self->This_0,
    {
        if let XOR::This(data) = self {
            return data;
        }
        vstd::pervasive::unreached()
    }

    /// Consumes the value and yields the contained `B`; the `This` variant
    /// is ruled out by `requires`.
    pub fn unwrap_that(self) -> (r: B)
        requires
            self is That,
        ensures
            r == self->That_0,
    {
        if let XOR::That(data) = self {
            return data;
        }
        vstd::pervasive::unreached()
    }
}

impl<A: core::fmt::Display, B: core::fmt::Display> XOR<A, B> {
    /// The human-readable rendering: `This(<value>)` or `That(<value>)`,
    /// using the contained value's own rendering. Purely presentational.
    pub fn render(&self) -> (r: String)
        ensures
            self is This ==> (exists|inner: Seq<char>| r@ == "This("@ + inner + ")"@),
            self is That ==> (exists|inner: Seq<char>| r@ == "That("@ + inner + ")"@),
    {
        match self {
            XOR::This(data) => {
                let inner = display_text(data);
                let mut s = String::from_str("This(");
                s.append(inner.as_str());
                s.append(")");
                proof {
                    assert("This("@ + inner@ + ")"@ == s@);
                }
                s
            },
            XOR::That(data) => {
                let inner = display_text(data);
                let mut s = String::from_str("That(");
                s.append(inner.as_str());
                s.append(")");
                proof {
                    assert("That("@ + inner@ + ")"@ == s@);
                }
                s
            },
        }
    }
}

/// A value built with `This` is the `This` variant and never the `That`
/// variant, whatever it holds; `is_this` and `is_that` answer accordingly.
pub proof fn lemma_this_discriminates<A, B>(v: A)
    ensures
        (XOR::<A, B>::This(v)) is This,
        !((XOR::<A, B>::This(v)) is That),
{
}

/// A value built with `That` is the `That` variant and never the `This`
/// variant, whatever it holds; `is_that` and `is_this` answer accordingly.
pub proof fn lemma_that_discriminates<A, B>(v: B)
    ensures
        (XOR::<A, B>::That(v)) is That,
        !((XOR::<A, B>::That(v)) is This),
{
}

/// Exactly one variant is active at any time: `is_this` and `is_that`
/// never agree on one value.
pub proof fn lemma_variants_exclusive<A, B>(x: XOR<A, B>)
    ensures
        (x is This) != (x is That),
{
}

/// Equality on the type is reflexive.
pub proof fn lemma_eq_reflexive<A, B>(x: XOR<A, B>)
    ensures
        x == x,
{
}

/// Equality on the type is symmetric.
pub proof fn lemma_eq_symmetric<A, B>(x: XOR<A, B>, y: XOR<A, B>)
    ensures
        (x == y) == (y == x),
{
}

/// Equality discriminates the variants: over a single contained type, the
/// two variants never compare equal, even when the contained values do.
pub proof fn lemma_eq_discriminates_variants<A>(v: A, w: A)
    ensures
        XOR::<A, A>::This(v) != XOR::<A, A>::That(w),
{
}

/// Mapping identity: when the transform returns its argument unchanged and
/// duplication of `B` is exact, `map_this` yields a value equal to the
/// original, for both variants. The first three premises are exactly what
/// `map_this` ensures of its result.
pub proof fn lemma_map_this_identity<A, B: Clone, Hook: FnOnce(&A) -> A>(
    x: XOR<A, B>,
    hook: Hook,
    r: XOR<A, B>,
)
    requires
        r is This <==> x is This,
        x is This ==> call_ensures(hook, (&x->This_0,), r->This_0),
        x is That ==> vstd::pervasive::cloned(x->That_0, r->That_0),
        forall|a: &A, out: A| call_ensures(hook, (a,), out) ==> out == *a,
        forall|b: &B, out: B| call_ensures(B::clone, (b,), out) ==> out == *b,
    ensures
        r == x,
{
}

/// Relies on `alloc::format!` with the `{}` specifier: it renders `v` by
/// `v`'s own `core::fmt::Display` implementation. Nothing is assumed of
/// the text an arbitrary `Display` implementation writes.
#[verifier::external_body]
fn display_text<T: core::fmt::Display>(v: &T) -> String {
    format!("{}", v)
}

} // verus!
