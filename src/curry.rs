use vstd::prelude::*;

use crate::compose::ComposableFn;

verus! {

/// A two-argument function turned into a chain of one-argument steps. Supplying the first
/// argument gives a [`Partial`]; supplying the second to that gives the result.
pub struct Curried<F> {
    pub func: F,
}

/// A two-argument function together with its first argument, awaiting the second. It can be
/// completed any number of times, each time with another second argument.
pub struct Partial<'a, F, A> {
    pub func: &'a F,
    pub first: A,
}

/// Curries the two-argument function `func`; nothing is checked and nothing can fail.
pub fn curry<A, B, R, F: Fn(A, B) -> R>(func: F) -> (r: Curried<F>)
    ensures
        r.func == func,
{
    Curried { func }
}

impl<F> Curried<F> {
    /// Supplies the first argument.
    pub fn apply<'a, A>(&'a self, first: A) -> (r: Partial<'a, F, A>)
        ensures
            *r.func == self.func,
            r.first == first,
    {
        Partial { func: &self.func, first }
    }
}

impl<'a, F, A: Copy> Partial<'a, F, A> {
    /// Supplies the second argument and runs the function on both, in declared order.
    pub fn apply<B, R>(&self, second: B) -> (r: R)
        where
            F: Fn(A, B) -> R,
        requires
            self.func.requires((self.first, second)),
        ensures
            self.func.ensures((self.first, second), r),
    {
        (self.func)(self.first, second)
    }

    /// Turns the remaining step into a wrapper that can be chained like any other; the wrapper
    /// accepts and gives what completing this partial application would.
    pub fn into_composable<B, R>(self) -> (r: ComposableFn<impl Fn(B) -> R + 'a>)
        where
            F: Fn(A, B) -> R,
            A: 'a,
        ensures
            forall|b: B| self.func.requires((self.first, b)) ==> #[trigger] r.func.requires((b,)),
            forall|b: B, y: R| #[trigger] r.func.ensures((b,), y) ==> self.func.ensures((self.first, b), y),
    {
        let func = self.func;
        let first = self.first;
        let func_spec: Ghost<F> = Ghost(*func);
        let first_spec: Ghost<A> = Ghost(first);
        let rest = move |b: B| -> (y: R)
            requires
                func_spec@.requires((first_spec@, b)),
            ensures
                func_spec@.ensures((first_spec@, b), y),
            {
                func(first, b)
            };
        ComposableFn::new(rest)
    }
}

/// Currying keeps the function's meaning: where `f` gives exactly `r` on `(a, b)`, completing the
/// chain of `curry(f)` with `a` and then `b` is allowed and every result it may give is `r`.
pub proof fn lemma_curry_applies<A, B, R, F: Fn(A, B) -> R>(f: F, a: A, b: B, r: R)
    requires
        f.requires((a, b)),
        forall|y: R| #[trigger] f.ensures((a, b), y) <==> y == r,
    ensures
        ({
            let p = Partial { func: &Curried { func: f }.func, first: a };
            &&& p.func.requires((p.first, b))
            &&& forall|y: R| p.func.ensures((p.first, b), y) ==> y == r
        }),
{
}

/// Currying keeps the meaning of a three-argument function: where `f` gives exactly `r` on
/// `(a, b, c)`, completing the chain of `curry3(f)` with `a`, `b` and `c` in turn is allowed and
/// every result it may give is `r`.
pub proof fn lemma_curry3_applies<A, B, C, R, F: Fn(A, B, C) -> R>(f: F, a: A, b: B, c: C, r: R)
    requires
        f.requires((a, b, c)),
        forall|y: R| #[trigger] f.ensures((a, b, c), y) <==> y == r,
    ensures
        ({
            let p = Partial3Second { func: &Curried3 { func: f }.func, first: a, second: b };
            &&& p.func.requires((p.first, p.second, c))
            &&& forall|y: R| p.func.ensures((p.first, p.second, c), y) ==> y == r
        }),
{
}

/// A partial application of `f` to `a` can be completed twice, with `b1` and with `b2`: where
/// `f` gives exactly `r1` on `(a, b1)` and exactly `r2` on `(a, b2)`, the one partial value
/// completes to `r1` and to `r2`, each untouched by the other.
pub proof fn lemma_partial_reusable<A, B, R, F: Fn(A, B) -> R>(f: F, a: A, b1: B, b2: B, r1: R, r2: R)
    requires
        f.requires((a, b1)),
        forall|y: R| #[trigger] f.ensures((a, b1), y) <==> y == r1,
        f.requires((a, b2)),
        forall|y: R| #[trigger] f.ensures((a, b2), y) <==> y == r2,
    ensures
        ({
            let p = Partial { func: &Curried { func: f }.func, first: a };
            &&& p.func.requires((p.first, b1))
            &&& forall|y: R| p.func.ensures((p.first, b1), y) ==> y == r1
            &&& p.func.requires((p.first, b2))
            &&& forall|y: R| p.func.ensures((p.first, b2), y) ==> y == r2
        }),
{
}

/// A three-argument function turned into a chain of one-argument steps.
pub struct Curried3<F> {
    pub func: F,
}

/// A three-argument function together with its first argument, awaiting the second.
pub struct Partial3<'a, F, A> {
    pub func: &'a F,
    pub first: A,
}

/// A three-argument function together with its first two arguments, awaiting the third.
pub struct Partial3Second<'a, F, A, B> {
    pub func: &'a F,
    pub first: A,
    pub second: B,
}

/// Curries the three-argument function `func`; nothing is checked and nothing can fail.
pub fn curry3<A, B, C, R, F: Fn(A, B, C) -> R>(func: F) -> (r: Curried3<F>)
    ensures
        r.func == func,
{
    Curried3 { func }
}

impl<F> Curried3<F> {
    /// Supplies the first argument.
    pub fn apply<'a, A>(&'a self, first: A) -> (r: Partial3<'a, F, A>)
        ensures
            *r.func == self.func,
            r.first == first,
    {
        Partial3 { func: &self.func, first }
    }
}

impl<'a, F, A: Copy> Partial3<'a, F, A> {
    /// Supplies the second argument; the first stays as it was, so this step can be reused.
    pub fn apply<B>(&self, second: B) -> (r: Partial3Second<'a, F, A, B>)
        ensures
            r.func == self.func,
            r.first == self.first,
            r.second == second,
    {
        Partial3Second { func: self.func, first: self.first, second }
    }
}

impl<'a, F, A: Copy, B: Copy> Partial3Second<'a, F, A, B> {
    /// Supplies the third argument and runs the function on all three, in declared order.
    pub fn apply<C, R>(&self, third: C) -> (r: R)
        where
            F: Fn(A, B, C) -> R,
        requires
            self.func.requires((self.first, self.second, third)),
        ensures
            self.func.ensures((self.first, self.second, third), r),
    {
        (self.func)(self.first, self.second, third)
    }
}

} // verus!
