//! What holds of every expression tree, whatever its shape and whatever the
//! arithmetic of its values.

use vstd::prelude::*;
use crate::scalar::Scalar;
use crate::tree::{decremented, Tree};

verus! {

/// A forward pass changes no leaf.
pub proof fn forward_keeps_leaves<S: Scalar>(t: Tree<S>)
    ensures
        t.forwarded().leaves() == t.leaves(),
    decreases t,
{
    match t {
        Tree::Leaf { .. } => {},
        Tree::Add { a, b } => {
            forward_keeps_leaves(*a);
            forward_keeps_leaves(*b);
        },
        Tree::Mul { a, b, .. } => {
            forward_keeps_leaves(*a);
            forward_keeps_leaves(*b);
        },
        Tree::SquaredDifference { a, b, .. } => {
            forward_keeps_leaves(*a);
            forward_keeps_leaves(*b);
        },
    }
}

/// A forward pass does not change what the expression evaluates to.
pub proof fn forward_keeps_value<S: Scalar>(t: Tree<S>)
    ensures
        t.forwarded().value() == t.value(),
    decreases t,
{
    match t {
        Tree::Leaf { .. } => {},
        Tree::Add { a, b } => {
            forward_keeps_value(*a);
            forward_keeps_value(*b);
        },
        Tree::Mul { a, b, .. } => {
            forward_keeps_value(*a);
            forward_keeps_value(*b);
        },
        Tree::SquaredDifference { a, b, .. } => {
            forward_keeps_value(*a);
            forward_keeps_value(*b);
        },
    }
}

/// Two forward passes in a row, with no leaf changed in between, return the
/// same value and leave the tree, leaves and caches, as the first pass left
/// it.
pub proof fn forward_is_idempotent<S: Scalar>(t: Tree<S>)
    ensures
        t.forwarded().value() == t.value(),
        t.forwarded().leaves() == t.leaves(),
        t.forwarded().forwarded() == t.forwarded(),
    decreases t,
{
    forward_keeps_value(t);
    forward_keeps_leaves(t);
    match t {
        Tree::Leaf { .. } => {},
        Tree::Add { a, b } => {
            forward_is_idempotent(*a);
            forward_is_idempotent(*b);
        },
        Tree::Mul { a, b, .. } => {
            forward_is_idempotent(*a);
            forward_is_idempotent(*b);
        },
        Tree::SquaredDifference { a, b, .. } => {
            forward_is_idempotent(*a);
            forward_is_idempotent(*b);
        },
    }
}

/// After a forward pass every cache agrees with the leaf values.
pub proof fn forward_makes_fresh<S: Scalar>(t: Tree<S>)
    ensures
        t.forwarded().fresh(),
    decreases t,
{
    match t {
        Tree::Leaf { .. } => {},
        Tree::Add { a, b } => {
            forward_makes_fresh(*a);
            forward_makes_fresh(*b);
        },
        Tree::Mul { a, b, .. } => {
            forward_makes_fresh(*a);
            forward_makes_fresh(*b);
            forward_keeps_value(*a);
            forward_keeps_value(*b);
        },
        Tree::SquaredDifference { a, b, .. } => {
            forward_makes_fresh(*a);
            forward_makes_fresh(*b);
            forward_keeps_value(*a);
            forward_keeps_value(*b);
        },
    }
}

/// A backward pass subtracts from each leaf the gradient routed to it, and
/// routes one gradient to every leaf.
pub proof fn backward_decrements_leaves<S: Scalar>(t: Tree<S>, upstream: S)
    ensures
        t.gradients(upstream).len() == t.leaves().len(),
        t.backwarded(upstream).leaves() == decremented(t.leaves(), t.gradients(upstream)),
    decreases t,
{
    match t {
        Tree::Leaf { .. } => {},
        Tree::Add { a, b } => {
            backward_decrements_leaves(*a, upstream);
            backward_decrements_leaves(*b, upstream);
        },
        Tree::Mul { a, b, cached_a, cached_b } => {
            backward_decrements_leaves(*a, upstream.spec_times(cached_b));
            backward_decrements_leaves(*b, upstream.spec_times(cached_a));
        },
        Tree::SquaredDifference { a, b, cache } => {
            let grad = Tree::<S>::squared_difference_gradient(cache, upstream);
            backward_decrements_leaves(*a, grad);
            backward_decrements_leaves(*b, grad.spec_negate());
        },
    }
    assert(t.backwarded(upstream).leaves() =~= decremented(
        t.leaves(),
        t.gradients(upstream),
    ));
}

/// A backward pass changes no cache: the gradients of a second backward pass
/// are those of the first.
pub proof fn backward_keeps_gradients<S: Scalar>(t: Tree<S>, upstream: S, again: S)
    ensures
        t.backwarded(upstream).gradients(again) == t.gradients(again),
    decreases t,
{
    match t {
        Tree::Leaf { .. } => {},
        Tree::Add { a, b } => {
            backward_keeps_gradients(*a, upstream, again);
            backward_keeps_gradients(*b, upstream, again);
        },
        Tree::Mul { a, b, cached_a, cached_b } => {
            backward_keeps_gradients(
                *a,
                upstream.spec_times(cached_b),
                again.spec_times(cached_b),
            );
            backward_keeps_gradients(
                *b,
                upstream.spec_times(cached_a),
                again.spec_times(cached_a),
            );
        },
        Tree::SquaredDifference { a, b, cache } => {
            let grad = Tree::<S>::squared_difference_gradient(cache, upstream);
            let next = Tree::<S>::squared_difference_gradient(cache, again);
            backward_keeps_gradients(*a, grad, next);
            backward_keeps_gradients(*b, grad.spec_negate(), next.spec_negate());
        },
    }
}

/// Writing new values into the leaves changes the leaves and nothing that a
/// backward pass reads: the gradients stay those of the caches.
pub proof fn gradients_ignore_leaves<S: Scalar>(t: Tree<S>, vals: Seq<S>, upstream: S)
    requires
        vals.len() == t.leaves().len(),
    ensures
        t.with_leaves(vals).leaves() == vals,
        t.with_leaves(vals).gradients(upstream) == t.gradients(upstream),
    decreases t,
{
    match t {
        Tree::Leaf { .. } => {},
        Tree::Add { a, b } => {
            let n = a.leaves().len() as int;
            gradients_ignore_leaves(*a, vals.subrange(0, n), upstream);
            gradients_ignore_leaves(*b, vals.subrange(n, vals.len() as int), upstream);
        },
        Tree::Mul { a, b, cached_a, cached_b } => {
            let n = a.leaves().len() as int;
            gradients_ignore_leaves(*a, vals.subrange(0, n), upstream.spec_times(cached_b));
            gradients_ignore_leaves(
                *b,
                vals.subrange(n, vals.len() as int),
                upstream.spec_times(cached_a),
            );
        },
        Tree::SquaredDifference { a, b, cache } => {
            let n = a.leaves().len() as int;
            let grad = Tree::<S>::squared_difference_gradient(cache, upstream);
            gradients_ignore_leaves(*a, vals.subrange(0, n), grad);
            gradients_ignore_leaves(*b, vals.subrange(n, vals.len() as int), grad.spec_negate());
        },
    }
    assert(t.with_leaves(vals).leaves() =~= vals);
}

/// While the caches agree with the leaf values, the gradients that a
/// backward pass routes are the derivatives at those values.
pub proof fn fresh_gradients_are_derivatives<S: Scalar>(t: Tree<S>, upstream: S)
    requires
        t.fresh(),
    ensures
        t.gradients(upstream) == t.derivatives(upstream),
    decreases t,
{
    match t {
        Tree::Leaf { .. } => {},
        Tree::Add { a, b } => {
            fresh_gradients_are_derivatives(*a, upstream);
            fresh_gradients_are_derivatives(*b, upstream);
        },
        Tree::Mul { a, b, cached_a, cached_b } => {
            fresh_gradients_are_derivatives(*a, upstream.spec_times(cached_b));
            fresh_gradients_are_derivatives(*b, upstream.spec_times(cached_a));
        },
        Tree::SquaredDifference { a, b, cache } => {
            let grad = Tree::<S>::squared_difference_gradient(cache, upstream);
            fresh_gradients_are_derivatives(*a, grad);
            fresh_gradients_are_derivatives(*b, grad.spec_negate());
        },
    }
}

/// The derivatives depend on the leaf values alone, so a forward pass does
/// not change them.
pub proof fn forward_keeps_derivatives<S: Scalar>(t: Tree<S>, upstream: S)
    ensures
        t.forwarded().derivatives(upstream) == t.derivatives(upstream),
    decreases t,
{
    match t {
        Tree::Leaf { .. } => {},
        Tree::Add { a, b } => {
            forward_keeps_derivatives(*a, upstream);
            forward_keeps_derivatives(*b, upstream);
        },
        Tree::Mul { a, b, .. } => {
            forward_keeps_value(*a);
            forward_keeps_value(*b);
            forward_keeps_derivatives(*a, upstream.spec_times(b.value()));
            forward_keeps_derivatives(*b, upstream.spec_times(a.value()));
        },
        Tree::SquaredDifference { a, b, .. } => {
            forward_keeps_value(*a);
            forward_keeps_value(*b);
            let grad = Tree::<S>::squared_difference_gradient(
                a.value().spec_minus(b.value()),
                upstream,
            );
            forward_keeps_derivatives(*a, grad);
            forward_keeps_derivatives(*b, grad.spec_negate());
        },
    }
}

/// A forward pass followed by a backward pass is one step of gradient
/// descent: each leaf moves against the derivative at the leaf values that
/// the forward pass saw.
pub proof fn forward_then_backward_descends<S: Scalar>(t: Tree<S>, upstream: S)
    ensures
        t.forwarded().backwarded(upstream).leaves() == decremented(
            t.leaves(),
            t.derivatives(upstream),
        ),
{
    let f = t.forwarded();
    forward_keeps_leaves(t);
    forward_makes_fresh(t);
    fresh_gradients_are_derivatives(f, upstream);
    forward_keeps_derivatives(t, upstream);
    backward_decrements_leaves(f, upstream);
}

/// Stale caches decide the gradients. Let a forward pass see the leaf values
/// of `t`, let the leaves then be overwritten with `vals`, and let a backward
/// pass follow with no forward pass in between: each leaf is decremented by
/// the derivative at the values that the forward pass saw, not at `vals`.
pub proof fn stale_caches_decide_gradients<S: Scalar>(t: Tree<S>, vals: Seq<S>, upstream: S)
    requires
        vals.len() == t.leaves().len(),
    ensures
        t.forwarded().with_leaves(vals).backwarded(upstream).leaves() == decremented(
            vals,
            t.derivatives(upstream),
        ),
{
    let f = t.forwarded();
    forward_keeps_leaves(t);
    forward_makes_fresh(t);
    fresh_gradients_are_derivatives(f, upstream);
    forward_keeps_derivatives(t, upstream);
    gradients_ignore_leaves(f, vals, upstream);
    backward_decrements_leaves(f.with_leaves(vals), upstream);
}

} // verus!
