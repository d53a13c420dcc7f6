//! The mathematical model of an expression tree: what a forward and a
//! backward pass compute, stated once for every shape of tree.

use vstd::prelude::*;
use crate::scalar::Scalar;

verus! {

/// An expression tree as a value: its shape, the leaf values, and the values
/// that each composite node remembers from its latest forward pass.
pub enum Tree<S> {
    Leaf { value: S },
    Add { a: Box<Tree<S>>, b: Box<Tree<S>> },
    Mul { a: Box<Tree<S>>, b: Box<Tree<S>>, cached_a: S, cached_b: S },
    SquaredDifference { a: Box<Tree<S>>, b: Box<Tree<S>>, cache: S },
}

/// `vals[i] - by[i]` at every position of `vals`.
pub open spec fn decremented<S: Scalar>(vals: Seq<S>, by: Seq<S>) -> Seq<S> {
    Seq::new(vals.len(), |i: int| vals[i].spec_minus(by[i]))
}

impl<S: Scalar> Tree<S> {
    /// The leaf values, left to right.
    pub open spec fn leaves(self) -> Seq<S>
        decreases self,
    {
        match self {
            Tree::Leaf { value } => seq![value],
            Tree::Add { a, b } => a.leaves() + b.leaves(),
            Tree::Mul { a, b, .. } => a.leaves() + b.leaves(),
            Tree::SquaredDifference { a, b, .. } => a.leaves() + b.leaves(),
        }
    }

    /// The value of the expression at its current leaf values. The caches
    /// play no part in it.
    pub open spec fn value(self) -> S
        decreases self,
    {
        match self {
            Tree::Leaf { value } => value,
            Tree::Add { a, b } => a.value().spec_plus(b.value()),
            Tree::Mul { a, b, .. } => a.value().spec_times(b.value()),
            Tree::SquaredDifference { a, b, .. } => {
                let diff = a.value().spec_minus(b.value());
                diff.spec_times(diff)
            },
        }
    }

    /// The tree after a forward pass: the leaves as they were, every cache
    /// overwritten with what its node saw of its operands.
    pub open spec fn forwarded(self) -> Tree<S>
        decreases self,
    {
        match self {
            Tree::Leaf { .. } => self,
            Tree::Add { a, b } => Tree::Add {
                a: Box::new(a.forwarded()),
                b: Box::new(b.forwarded()),
            },
            Tree::Mul { a, b, .. } => Tree::Mul {
                a: Box::new(a.forwarded()),
                b: Box::new(b.forwarded()),
                cached_a: a.value(),
                cached_b: b.value(),
            },
            Tree::SquaredDifference { a, b, .. } => Tree::SquaredDifference {
                a: Box::new(a.forwarded()),
                b: Box::new(b.forwarded()),
                cache: a.value().spec_minus(b.value()),
            },
        }
    }

    /// The gradient that a squared-difference node with remembered
    /// difference `cache` hands to its first operand.
    pub open spec fn squared_difference_gradient(cache: S, upstream: S) -> S {
        S::spec_two().spec_times(cache).spec_times(upstream)
    }

    /// The tree after a backward pass with the gradient `upstream`: every
    /// leaf decremented by the gradient routed to it, every cache untouched.
    /// The gradients are formed from the caches, never from the leaves.
    pub open spec fn backwarded(self, upstream: S) -> Tree<S>
        decreases self,
    {
        match self {
            Tree::Leaf { value } => Tree::Leaf { value: value.spec_minus(upstream) },
            Tree::Add { a, b } => Tree::Add {
                a: Box::new(a.backwarded(upstream)),
                b: Box::new(b.backwarded(upstream)),
            },
            Tree::Mul { a, b, cached_a, cached_b } => Tree::Mul {
                a: Box::new(a.backwarded(upstream.spec_times(cached_b))),
                b: Box::new(b.backwarded(upstream.spec_times(cached_a))),
                cached_a,
                cached_b,
            },
            Tree::SquaredDifference { a, b, cache } => {
                let grad = Self::squared_difference_gradient(cache, upstream);
                Tree::SquaredDifference {
                    a: Box::new(a.backwarded(grad)),
                    b: Box::new(b.backwarded(grad.spec_negate())),
                    cache,
                }
            },
        }
    }

    /// The gradient that a backward pass routes to each leaf, left to right,
    /// as the caches determine it.
    pub open spec fn gradients(self, upstream: S) -> Seq<S>
        decreases self,
    {
        match self {
            Tree::Leaf { .. } => seq![upstream],
            Tree::Add { a, b } => a.gradients(upstream) + b.gradients(upstream),
            Tree::Mul { a, b, cached_a, cached_b } => a.gradients(upstream.spec_times(cached_b))
                + b.gradients(upstream.spec_times(cached_a)),
            Tree::SquaredDifference { a, b, cache } => {
                let grad = Self::squared_difference_gradient(cache, upstream);
                a.gradients(grad) + b.gradients(grad.spec_negate())
            },
        }
    }

    /// The gradient of the expression with respect to each leaf at the
    /// current leaf values, scaled by `upstream`: the chain rule applied to
    /// the operand values themselves.
    pub open spec fn derivatives(self, upstream: S) -> Seq<S>
        decreases self,
    {
        match self {
            Tree::Leaf { .. } => seq![upstream],
            Tree::Add { a, b } => a.derivatives(upstream) + b.derivatives(upstream),
            Tree::Mul { a, b, .. } => a.derivatives(upstream.spec_times(b.value()))
                + b.derivatives(upstream.spec_times(a.value())),
            Tree::SquaredDifference { a, b, .. } => {
                let grad = Self::squared_difference_gradient(
                    a.value().spec_minus(b.value()),
                    upstream,
                );
                a.derivatives(grad) + b.derivatives(grad.spec_negate())
            },
        }
    }

    /// Every cache holds what a forward pass over the current leaf values
    /// would store in it.
    pub open spec fn fresh(self) -> bool
        decreases self,
    {
        match self {
            Tree::Leaf { .. } => true,
            Tree::Add { a, b } => a.fresh() && b.fresh(),
            Tree::Mul { a, b, cached_a, cached_b } => {
                &&& a.fresh()
                &&& b.fresh()
                &&& cached_a == a.value()
                &&& cached_b == b.value()
            },
            Tree::SquaredDifference { a, b, cache } => {
                &&& a.fresh()
                &&& b.fresh()
                &&& cache == a.value().spec_minus(b.value())
            },
        }
    }

    /// The same tree and caches with the leaf values replaced, left to
    /// right, by `vals`.
    pub open spec fn with_leaves(self, vals: Seq<S>) -> Tree<S>
        recommends
            vals.len() == self.leaves().len(),
        decreases self,
    {
        match self {
            Tree::Leaf { .. } => Tree::Leaf { value: vals[0] },
            Tree::Add { a, b } => {
                let n = a.leaves().len() as int;
                Tree::Add {
                    a: Box::new(a.with_leaves(vals.subrange(0, n))),
                    b: Box::new(b.with_leaves(vals.subrange(n, vals.len() as int))),
                }
            },
            Tree::Mul { a, b, cached_a, cached_b } => {
                let n = a.leaves().len() as int;
                Tree::Mul {
                    a: Box::new(a.with_leaves(vals.subrange(0, n))),
                    b: Box::new(b.with_leaves(vals.subrange(n, vals.len() as int))),
                    cached_a,
                    cached_b,
                }
            },
            Tree::SquaredDifference { a, b, cache } => {
                let n = a.leaves().len() as int;
                Tree::SquaredDifference {
                    a: Box::new(a.with_leaves(vals.subrange(0, n))),
                    b: Box::new(b.with_leaves(vals.subrange(n, vals.len() as int))),
                    cache,
                }
            },
        }
    }
}

} // verus!
