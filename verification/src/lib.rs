//! Apply functions in method-position.
//!
//! Much functionality in Rust is provided by methods, but some operations are
//! only available as standalone functions, such as `std::sync::Arc::new`.
//! Using them in the middle of a method chain forces a value to be bound to a
//! name, even when no good name exists.
//!
//! The [`Apply`] trait provides an `apply` method, injected into every type by
//! a blanket implementation, which calls a given single-argument function with
//! the receiver as its argument and returns whatever the function returns.
//! A standalone function can thereby be called in method-position:
//!
//! ```ignore
//! fetch_user()?
//!     .apply(Arc::new)
//!     .apply(Ok)
//! ```
//!
//! The operation consumes its receiver, so move-only values pass through a
//! chain without being duplicated, and it adds nothing of its own: the result
//! is exactly what the function returns, and any failure the function signals
//! propagates unchanged.

use vstd::prelude::*;

verus! {

/// The mathematical meaning of `apply`: applying the function `f` to the
/// value `v` yields `f(v)`, nothing more and nothing less.
pub open spec fn spec_apply<T, U>(v: T, f: spec_fn(T) -> U) -> U {
    f(v)
}

/// Composition of two mathematical functions: `spec_compose(f, g)` maps each
/// `x` to `g(f(x))`.
pub open spec fn spec_compose<A, B, C>(f: spec_fn(A) -> B, g: spec_fn(B) -> C) -> spec_fn(
    A,
) -> C {
    |x: A| g(f(x))
}

/// Apply functions in method-position.
///
/// The blanket implementation makes `apply` available on every sized type
/// without a per-type declaration. The method consumes its receiver and hands
/// it to the supplied function; the contract states that the function may be
/// called on the receiver, and that the result is one the function itself
/// could have returned for that receiver.
pub trait Apply {
    /// Apply a given function in method-position.
    fn apply<F, U>(self, f: F) -> (r: U) where F: FnOnce(Self) -> U, Self: Sized
        requires
            call_requires(f, (self,)),
        ensures
            call_ensures(f, (self,), r),
    ;
}

impl<T> Apply for T {
    fn apply<F, U>(self, f: F) -> (r: U) where F: FnOnce(Self) -> U, Self: Sized
        ensures
            call_ensures(f, (self,), r),
    {
        f(self)
    }
}

/// Referential transparency: when `f` is pure, in that every value it may
/// return on an input `x` equals `m(x)` for a single mathematical function
/// `m`, then any result of `v.apply(f)` is exactly the mathematical
/// application `spec_apply(v, m)`, that is, `m(v)`.
pub proof fn lemma_apply_is_application<T, U, F: FnOnce(T) -> U>(
    f: F,
    v: T,
    r: U,
    m: spec_fn(T) -> U,
)
    requires
        forall|x: T, y: U| call_ensures(f, (x,), y) ==> y == m(x),
        call_ensures(f, (v,), r),
    ensures
        r == spec_apply(v, m),
{
}

/// Error transparency: when `f` fails exactly on the inputs satisfying
/// `fails`, and on such an input `x` every result equals `Err(err(x))`, then
/// `v.apply(f)` fails under exactly the same condition and with exactly the
/// same payload, and succeeds otherwise.
pub proof fn lemma_apply_error_transparency<T, U, E, F: FnOnce(T) -> Result<U, E>>(
    f: F,
    v: T,
    r: Result<U, E>,
    fails: spec_fn(T) -> bool,
    err: spec_fn(T) -> E,
)
    requires
        forall|x: T, y: Result<U, E>| call_ensures(f, (x,), y) ==> (y is Err <==> fails(x)),
        forall|x: T, y: Result<U, E>|
            call_ensures(f, (x,), y) && fails(x) ==> y == Result::<U, E>::Err(err(x)),
        call_ensures(f, (v,), r),
    ensures
        r is Err <==> fails(v),
        fails(v) ==> r == Result::<U, E>::Err(err(v)),
{
}

/// Chaining associativity, stated over the mathematical model: applying `f`
/// and then `g` is the same as applying their composition once.
pub proof fn lemma_chain_associativity<A, B, C>(v: A, f: spec_fn(A) -> B, g: spec_fn(B) -> C)
    ensures
        spec_apply(spec_apply(v, f), g) == spec_apply(v, spec_compose(f, g)),
{
}

/// Chaining associativity at the call site: when `f` and `g` are pure, with
/// mathematical meanings `fm` and `gm`, the result of `v.apply(f).apply(g)`
/// equals the single application of the composition `spec_compose(fm, gm)`
/// to `v`. Here `mid` is the result of the first call and `r` of the second.
pub proof fn lemma_chained_apply_is_compose<A, B, C, F: FnOnce(A) -> B, G: FnOnce(B) -> C>(
    f: F,
    g: G,
    v: A,
    mid: B,
    r: C,
    fm: spec_fn(A) -> B,
    gm: spec_fn(B) -> C,
)
    requires
        forall|x: A, y: B| call_ensures(f, (x,), y) ==> y == fm(x),
        forall|x: B, y: C| call_ensures(g, (x,), y) ==> y == gm(x),
        call_ensures(f, (v,), mid),
        call_ensures(g, (mid,), r),
    ensures
        r == spec_apply(v, spec_compose(fm, gm)),
{
}

} // verus!
