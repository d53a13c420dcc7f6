//! Differentiable expressions: leaves, sums, products and squared
//! differences, composed by nesting, each with a forward and a backward pass.

use vstd::prelude::*;
use crate::scalar::Scalar;
use crate::tree::Tree;

verus! {

/// A node of an expression tree. The node owns its operands; the whole tree
/// is one value, evaluated by `forward` and trained by `backward`.
pub trait Expression: Sized {
    /// The type of the values that flow through the tree.
    type Value: Scalar;

    /// The tree that this node is the root of.
    spec fn view(&self) -> Tree<Self::Value>;

    /// A node is determined by its tree.
    proof fn view_is_injective(self, other: Self)
        requires
            self@ == other@,
        ensures
            self == other,
    ;

    /// Evaluates the expression at the current leaf values and stores in
    /// every composite node what its backward pass will need.
    fn forward(&mut self) -> (r: Self::Value)
        ensures
            r == old(self)@.value(),
            final(self)@ == old(self)@.forwarded(),
    ;

    /// Routes the gradient `upstream` through the tree by the values stored
    /// at the latest forward pass, and subtracts from each leaf what reaches
    /// it.
    fn backward(&mut self, upstream: Self::Value)
        ensures
            final(self)@ == old(self)@.backwarded(upstream),
    ;
}

/// An input or a learnable parameter: one value and nothing else.
#[derive(Debug)]
pub struct Leaf<S> {
    pub value: S,
}

/// The sum of two expressions.
#[derive(Debug)]
pub struct Add<A, B>(pub A, pub B);

/// The product of two expressions, with both operand values of the latest
/// forward pass.
#[derive(Debug)]
pub struct Mul<A: Expression, B> {
    pub a: A,
    pub b: B,
    pub cached_a: A::Value,
    pub cached_b: A::Value,
}

/// The square of the difference of two expressions, with the difference of
/// the latest forward pass.
#[derive(Debug)]
pub struct SquaredDifference<A: Expression, B> {
    pub a: A,
    pub b: B,
    pub cache: A::Value,
}

impl<S: Scalar> Expression for Leaf<S> {
    type Value = S;

    open spec fn view(&self) -> Tree<S> {
        Tree::Leaf { value: self.value }
    }

    proof fn view_is_injective(self, other: Self) {
    }

    /// The value of the leaf, which stays as it is.
    fn forward(&mut self) -> (r: S)
        ensures
            r == old(self).value,
            final(self).value == old(self).value,
    {
        self.value
    }

    /// One step of gradient descent: the value becomes `value - upstream`.
    fn backward(&mut self, upstream: S)
        ensures
            final(self).value == old(self).value.spec_minus(upstream),
    {
        self.value = self.value.minus(upstream);
    }
}

impl<A: Expression, B: Expression<Value = A::Value>> Expression for Add<A, B> {
    type Value = A::Value;

    open spec fn view(&self) -> Tree<A::Value> {
        Tree::Add { a: Box::new(self.0@), b: Box::new(self.1@) }
    }

    proof fn view_is_injective(self, other: Self) {
        self.0.view_is_injective(other.0);
        self.1.view_is_injective(other.1);
    }

    /// The sum of the operands' values; both operands do their forward
    /// pass.
    fn forward(&mut self) -> (r: A::Value)
        ensures
            r == old(self).0@.value().spec_plus(old(self).1@.value()),
            final(self).0@ == old(self).0@.forwarded(),
            final(self).1@ == old(self).1@.forwarded(),
    {
        let a = self.0.forward();
        let b = self.1.forward();
        a.plus(b)
    }

    /// The sum rule: the gradient goes to both operands unchanged.
    fn backward(&mut self, upstream: A::Value)
        ensures
            final(self).0@ == old(self).0@.backwarded(upstream),
            final(self).1@ == old(self).1@.backwarded(upstream),
    {
        self.0.backward(upstream);
        self.1.backward(upstream);
    }
}

impl<A: Expression, B: Expression<Value = A::Value>> Expression for Mul<A, B> {
    type Value = A::Value;

    open spec fn view(&self) -> Tree<A::Value> {
        Tree::Mul {
            a: Box::new(self.a@),
            b: Box::new(self.b@),
            cached_a: self.cached_a,
            cached_b: self.cached_b,
        }
    }

    proof fn view_is_injective(self, other: Self) {
        self.a.view_is_injective(other.a);
        self.b.view_is_injective(other.b);
    }

    /// The product of the operands' values, both of which are kept for the
    /// backward pass; both operands do their forward pass.
    fn forward(&mut self) -> (r: A::Value)
        ensures
            r == old(self).a@.value().spec_times(old(self).b@.value()),
            final(self).cached_a == old(self).a@.value(),
            final(self).cached_b == old(self).b@.value(),
            final(self).a@ == old(self).a@.forwarded(),
            final(self).b@ == old(self).b@.forwarded(),
    {
        self.cached_a = self.a.forward();
        self.cached_b = self.b.forward();
        self.cached_a.times(self.cached_b)
    }

    /// The product rule: each operand gets the gradient times the kept
    /// value of the other operand. The kept values stay.
    fn backward(&mut self, upstream: A::Value)
        ensures
            final(self).a@ == old(self).a@.backwarded(upstream.spec_times(old(self).cached_b)),
            final(self).b@ == old(self).b@.backwarded(upstream.spec_times(old(self).cached_a)),
            final(self).cached_a == old(self).cached_a,
            final(self).cached_b == old(self).cached_b,
    {
        self.a.backward(upstream.times(self.cached_b));
        self.b.backward(upstream.times(self.cached_a));
    }
}

impl<A: Expression, B: Expression<Value = A::Value>> Expression for SquaredDifference<A, B> {
    type Value = A::Value;

    open spec fn view(&self) -> Tree<A::Value> {
        Tree::SquaredDifference {
            a: Box::new(self.a@),
            b: Box::new(self.b@),
            cache: self.cache,
        }
    }

    proof fn view_is_injective(self, other: Self) {
        self.a.view_is_injective(other.a);
        self.b.view_is_injective(other.b);
    }

    /// The square of the difference of the operands' values; the difference
    /// is kept for the backward pass, and both operands do their forward
    /// pass.
    fn forward(&mut self) -> (r: A::Value)
        ensures
            final(self).cache == old(self).a@.value().spec_minus(old(self).b@.value()),
            r == final(self).cache.spec_times(final(self).cache),
            final(self).a@ == old(self).a@.forwarded(),
            final(self).b@ == old(self).b@.forwarded(),
    {
        let a = self.a.forward();
        let b = self.b.forward();
        self.cache = a.minus(b);
        self.cache.times(self.cache)
    }

    /// With `grad` twice the kept difference times the gradient, the first
    /// operand gets `grad` and the second `-grad`. The kept difference
    /// stays.
    fn backward(&mut self, upstream: A::Value)
        ensures
            final(self).a@ == old(self).a@.backwarded(
                Tree::<A::Value>::squared_difference_gradient(old(self).cache, upstream),
            ),
            final(self).b@ == old(self).b@.backwarded(
                Tree::<A::Value>::squared_difference_gradient(
                    old(self).cache,
                    upstream,
                ).spec_negate(),
            ),
            final(self).cache == old(self).cache,
    {
        let grad = A::Value::two().times(self.cache).times(upstream);
        self.a.backward(grad);
        self.b.backward(grad.negate());
    }
}

/// A leaf that holds `value`.
pub fn leaf<S: Scalar>(value: S) -> (r: Leaf<S>)
    ensures
        r.value == value,
{
    Leaf { value }
}

/// The sum of `a` and `b`.
pub fn add<A: Expression, B: Expression<Value = A::Value>>(a: A, b: B) -> (r: Add<A, B>)
    ensures
        r.0 == a,
        r.1 == b,
{
    Add(a, b)
}

/// The product of `a` and `b`; both caches start at zero.
pub fn mul<A: Expression, B: Expression<Value = A::Value>>(a: A, b: B) -> (r: Mul<A, B>)
    ensures
        r.a == a,
        r.b == b,
        r.cached_a == A::Value::spec_zero(),
        r.cached_b == A::Value::spec_zero(),
{
    Mul { a, b, cached_a: A::Value::zero(), cached_b: A::Value::zero() }
}

/// The squared difference of `a` and `b`; the cache starts at zero.
pub fn sq_diff<A: Expression, B: Expression<Value = A::Value>>(a: A, b: B) -> (r:
    SquaredDifference<A, B>)
    ensures
        r.a == a,
        r.b == b,
        r.cache == A::Value::spec_zero(),
{
    SquaredDifference { a, b, cache: A::Value::zero() }
}

} // verus!
