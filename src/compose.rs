use vstd::prelude::*;

verus! {

/// Whether running `f` and then `g` on `x` is allowed: `f` accepts `x`, and `g` accepts every
/// output that `f` may give on `x`.
pub open spec fn chain_accepts<T, U, V, F: Fn(T) -> U, G: Fn(U) -> V>(f: F, g: G, x: T) -> bool {
    &&& f.requires((x,))
    &&& forall|u: U| #[trigger] f.ensures((x,), u) ==> g.requires((u,))
}

/// Whether `v` is an output of running `f` and then `g` on `x`: some output `u` of `f` on `x`
/// is an input on which `g` may give `v`.
pub open spec fn chain_yields<T, U, V, F: Fn(T) -> U, G: Fn(U) -> V>(
    f: F,
    g: G,
    x: T,
    v: V,
) -> bool {
    exists|u: U| #[trigger] f.ensures((x,), u) && g.ensures((u,), v)
}

/// A wrapped unary transformation that can be invoked any number of times and chained with
/// another wrapper into a pipeline.
pub struct ComposableFn<F> {
    pub func: F,
}

impl<F> ComposableFn<F> {
    /// Wraps `func`; nothing is checked and nothing can fail.
    pub fn new(func: F) -> (r: Self)
        ensures
            r.func == func,
    {
        ComposableFn { func }
    }

    /// Applies the wrapped transformation to `x`; the result is an output of the
    /// transformation on `x`, and the wrapper is left as it was.
    pub fn call<T, U>(&self, x: T) -> (r: U)
        where
            F: Fn(T) -> U,
        requires
            self.func.requires((x,)),
        ensures
            self.func.ensures((x,), r),
    {
        (self.func)(x)
    }

    /// Applies the wrapped transformation to `x` through a unique borrow, which it leaves
    /// unchanged.
    pub fn call_mut<T, U>(&mut self, x: T) -> (r: U)
        where
            F: Fn(T) -> U,
        requires
            old(self).func.requires((x,)),
        ensures
            final(self).func == old(self).func,
            old(self).func.ensures((x,), r),
    {
        (self.func)(x)
    }

    /// Applies the wrapped transformation to `x`, consuming the wrapper.
    pub fn call_once<T, U>(self, x: T) -> (r: U)
        where
            F: Fn(T) -> U,
        requires
            self.func.requires((x,)),
        ensures
            self.func.ensures((x,), r),
    {
        (self.func)(x)
    }

    /// Chains `self` with `rhs`, consuming both: the new wrapper runs `self` first and hands its
    /// output to `rhs`. Nothing runs until the new wrapper is invoked.
    pub fn shr<T, U, V, G>(self, rhs: ComposableFn<G>) -> (r: ComposableFn<impl Fn(T) -> V>)
        where
            F: Fn(T) -> U,
            G: Fn(U) -> V,
        ensures
            forall|x: T|
                chain_accepts(self.func, rhs.func, x) ==> #[trigger] r.func.requires((x,)),
            forall|x: T, v: V|
                #[trigger] r.func.ensures((x,), v) ==> chain_yields(self.func, rhs.func, x, v),
    {
        let first = self.func;
        let second = rhs.func;
        let first_spec: Ghost<F> = Ghost(first);
        let second_spec: Ghost<G> = Ghost(second);
        let chained = move |x: T| -> (v: V)
            requires
                chain_accepts(first_spec@, second_spec@, x),
            ensures
                chain_yields(first_spec@, second_spec@, x, v),
            {
                let u = first(x);
                second(u)
            };
        ComposableFn { func: chained }
    }
}

/// Wrapping is transparent: a wrapper built from `f` accepts exactly the inputs `f` accepts and
/// may give on each exactly the outputs `f` may give.
pub proof fn lemma_wrap_transparent<T, U, F: Fn(T) -> U>(f: F, x: T, y: U)
    ensures
        (ComposableFn { func: f }).func.requires((x,)) <==> f.requires((x,)),
        (ComposableFn { func: f }).func.ensures((x,), y) <==> f.ensures((x,), y),
{
}

/// Chaining `f` with `g` computes `g(f(x))`: where `f` gives exactly `u` on `x` and `g` gives
/// exactly `v` on `u`, the chain accepts `x` and every output it may give is `v`.
pub proof fn lemma_then_applies_in_order<T, U, V, F: Fn(T) -> U, G: Fn(U) -> V>(
    f: F,
    g: G,
    x: T,
    u: U,
    v: V,
)
    requires
        f.requires((x,)),
        forall|y: U| #[trigger] f.ensures((x,), y) <==> y == u,
        g.requires((u,)),
        forall|w: V| #[trigger] g.ensures((u,), w) <==> w == v,
    ensures
        chain_accepts(f, g, x),
        chain_yields(f, g, x, v),
        forall|w: V| chain_yields(f, g, x, w) ==> w == v,
{
    assert(f.ensures((x,), u));
    assert(g.ensures((u,), v));
}

/// Composition is associative: chaining `f` with `g` and then with `h` accepts the same inputs
/// and may give the same outputs as chaining `f` with the chain of `g` and `h`.
pub proof fn lemma_then_associative<T, U, V, W, F, G, H>(f: F, g: G, h: H, x: T, w: W)
    where
        F: Fn(T) -> U,
        G: Fn(U) -> V,
        H: Fn(V) -> W,
    ensures
        (chain_accepts(f, g, x) && forall|v: V| chain_yields(f, g, x, v) ==> #[trigger] h.requires((v,)))
            <==> (f.requires((x,)) && forall|u: U| #[trigger] f.ensures((x,), u) ==> chain_accepts(g, h, u)),
        (exists|v: V| chain_yields(f, g, x, v) && #[trigger] h.ensures((v,), w))
            <==> (exists|u: U| #[trigger] f.ensures((x,), u) && chain_yields(g, h, u, w)),
{
    if f.requires((x,)) && forall|u: U| #[trigger] f.ensures((x,), u) ==> chain_accepts(g, h, u) {
        assert forall|v: V| chain_yields(f, g, x, v) implies #[trigger] h.requires((v,)) by {
            let u = choose|u: U| #[trigger] f.ensures((x,), u) && g.ensures((u,), v);
            assert(chain_accepts(g, h, u));
        }
    }
    if chain_accepts(f, g, x) && forall|v: V| chain_yields(f, g, x, v) ==> #[trigger] h.requires((v,)) {
        assert forall|u: U| #[trigger] f.ensures((x,), u) implies chain_accepts(g, h, u) by {
            assert forall|v: V| #[trigger] g.ensures((u,), v) implies h.requires((v,)) by {
                assert(chain_yields(f, g, x, v));
            }
        }
    }
}

} // verus!
