//! Composition of unary transformations and currying of multi-argument functions.
//!
//! A transformation is modelled by the two relations Verus keeps for every function value:
//! `f.requires((x,))`, the inputs it accepts, and `f.ensures((x,), y)`, the outputs it may give.
//! Composition and currying are stated over those relations.

mod compose;
mod curry;

pub use compose::{
    chain_accepts, chain_yields, lemma_then_applies_in_order, lemma_then_associative,
    lemma_wrap_transparent, ComposableFn,
};
pub use curry::{
    curry, curry3, lemma_curry3_applies, lemma_curry_applies, lemma_partial_reusable, Curried, Curried3, Partial,
    Partial3, Partial3Second,
};
