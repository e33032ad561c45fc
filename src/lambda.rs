use vstd::prelude::*;

verus! {

/// The body of an abstraction, as an explicit function value: it maps a
/// representation of the bound variable to a representation of the result.
pub trait Fun<D, C> {
    spec fn spec_apply(&self, x: D) -> C;

    fn apply(&self, x: D) -> (r: C)
        ensures
            r == self.spec_apply(x),
    ;
}

/// The body `x → x`.
pub struct Identity;

impl<T> Fun<T, T> for Identity {
    open spec fn spec_apply(&self, x: T) -> T {
        x
    }

    fn apply(&self, x: T) -> (r: T) {
        x
    }
}

/// An interpretation of the lambda calculus, for abstractions from terms
/// represented as `A` to terms represented as `B` with bodies of type `F`.
/// `Repr` is what such an abstraction becomes.
pub trait Form<A, B, F: Fun<A, B>> {
    type Repr;

    /// Whether `lam` can take this body.
    spec fn lam_ok(f: F) -> bool;

    spec fn spec_lam(f: F) -> Self::Repr;

    /// Whether `appl` can take these operands.
    spec fn appl_ok(f: Self::Repr, x: A) -> bool;

    spec fn spec_appl(f: Self::Repr, x: A) -> B;

    /// The abstraction with body `f`.
    fn lam(f: F) -> (r: Self::Repr)
        requires
            Self::lam_ok(f),
        ensures
            r == Self::spec_lam(f),
    ;

    /// The application of `f` to `x`.
    fn appl(f: Self::Repr, x: A) -> (r: B)
        requires
            Self::appl_ok(f, x),
        ensures
            r == Self::spec_appl(f, x),
    ;
}

/// Runs terms: an abstraction is its body, an application calls it.
pub struct Eval;

impl<A, B, F: Fun<A, B>> Form<A, B, F> for Eval {
    type Repr = F;

    open spec fn lam_ok(f: F) -> bool {
        true
    }

    open spec fn spec_lam(f: F) -> F {
        f
    }

    open spec fn appl_ok(f: F, x: A) -> bool {
        true
    }

    open spec fn spec_appl(f: F, x: A) -> B {
        f.spec_apply(x)
    }

    fn lam(f: F) -> (r: F) {
        f
    }

    fn appl(f: F, x: A) -> (r: B) {
        f.apply(x)
    }
}

/// Measures terms: every term is represented by a count. A variable counts
/// `0`; an abstraction counts its body, with `0` for the bound variable,
/// plus one; an application counts both parts plus one.
pub struct Length;

impl<F: Fun<u64, u64>> Form<u64, u64, F> for Length {
    type Repr = u64;

    open spec fn lam_ok(f: F) -> bool {
        f.spec_apply(0) < u64::MAX
    }

    open spec fn spec_lam(f: F) -> u64 {
        (f.spec_apply(0) + 1) as u64
    }

    open spec fn appl_ok(f: u64, x: u64) -> bool {
        f + x + 1 <= u64::MAX
    }

    open spec fn spec_appl(f: u64, x: u64) -> u64 {
        (f + x + 1) as u64
    }

    fn lam(f: F) -> (r: u64) {
        f.apply(0) + 1
    }

    fn appl(f: u64, x: u64) -> (r: u64) {
        f + x + 1
    }
}

/// What the abstraction `x → x` over terms represented as `U` becomes
/// under `S`.
pub type IdRepr<S, U> = <S as Form<U, U, Identity>>::Repr;

/// The identity applied to the identity, `(x → x) (x → x)`, built once for
/// any interpretation `S` whose terms of the base type are represented as
/// `U`. The first abstraction ranges over abstractions of the second kind.
pub fn test_expr<S, U>() -> (r: IdRepr<S, U>) where
    S: Form<U, U, Identity> + Form<IdRepr<S, U>, IdRepr<S, U>, Identity>,

    requires
        <S as Form<U, U, Identity>>::lam_ok(Identity),
        <S as Form<IdRepr<S, U>, IdRepr<S, U>, Identity>>::lam_ok(Identity),
        <S as Form<IdRepr<S, U>, IdRepr<S, U>, Identity>>::appl_ok(
            <S as Form<IdRepr<S, U>, IdRepr<S, U>, Identity>>::spec_lam(Identity),
            <S as Form<U, U, Identity>>::spec_lam(Identity),
        ),
    ensures
        r == <S as Form<IdRepr<S, U>, IdRepr<S, U>, Identity>>::spec_appl(
            <S as Form<IdRepr<S, U>, IdRepr<S, U>, Identity>>::spec_lam(Identity),
            <S as Form<U, U, Identity>>::spec_lam(Identity),
        ),
{
    let id = <S as Form<IdRepr<S, U>, IdRepr<S, U>, Identity>>::lam(Identity);
    let id_ = <S as Form<U, U, Identity>>::lam(Identity);
    <S as Form<IdRepr<S, U>, IdRepr<S, U>, Identity>>::appl(id, id_)
}

} // verus!
