use nn::expression::{Add, Expression, Leaf, Mul, SquaredDifference};
use nn::scalar::Scalar;
use rand::rngs::StdRng;
use rand::{Rng, SeedableRng};

/// Single-precision floats as the values of an expression.
#[derive(Clone, Copy, Debug, PartialEq)]
struct F(f32);

impl Scalar for F {
    fn spec_zero() -> F {
        Self::zero()
    }

    fn spec_two() -> F {
        Self::two()
    }

    fn spec_plus(self, rhs: F) -> F {
        self.plus(rhs)
    }

    fn spec_minus(self, rhs: F) -> F {
        self.minus(rhs)
    }

    fn spec_times(self, rhs: F) -> F {
        self.times(rhs)
    }

    fn spec_negate(self) -> F {
        self.negate()
    }

    fn spec_maximum(self, rhs: F) -> F {
        self.maximum(rhs)
    }

    fn zero() -> F {
        F(0.0)
    }

    fn two() -> F {
        F(2.0)
    }

    fn plus(self, rhs: F) -> F {
        F(self.0 + rhs.0)
    }

    fn minus(self, rhs: F) -> F {
        F(self.0 - rhs.0)
    }

    fn times(self, rhs: F) -> F {
        F(self.0 * rhs.0)
    }

    fn negate(self) -> F {
        F(-self.0)
    }

    fn maximum(self, rhs: F) -> F {
        F(f32::max(self.0, rhs.0))
    }
}

type Model = SquaredDifference<Mul<Add<Leaf<F>, Leaf<F>>, Leaf<F>>, Leaf<F>>;

fn leaf(value: f32) -> Leaf<F> {
    nn::expression::leaf(F(value))
}

/// `((x + a) * b - y)^2` with `x` and `y` at zero.
fn model(a: f32, b: f32) -> Model {
    nn::expression::sq_diff(
        nn::expression::mul(nn::expression::add(leaf(0.0), leaf(a)), leaf(b)),
        leaf(0.0),
    )
}

fn set(graph: &mut Model, x: f32, y: f32) {
    graph.a.a.0.value = F(x);
    graph.b.value = F(y);
}

#[test]
fn pure_addition() {
    let mut graph: Add<Leaf<F>, Leaf<F>> = nn::expression::add(leaf(2.0), leaf(3.0));
    assert_eq!(graph.forward(), F(5.0));
    graph.backward(F(1.0));
    assert_eq!(graph.0.value, F(1.0));
    assert_eq!(graph.1.value, F(2.0));
}

#[test]
fn product_rule() {
    let mut graph: Mul<Leaf<F>, Leaf<F>> = nn::expression::mul(leaf(3.0), leaf(4.0));
    assert_eq!(graph.forward(), F(12.0));
    graph.backward(F(1.0));
    assert_eq!(graph.a.value, F(-1.0));
    assert_eq!(graph.b.value, F(1.0));
}

#[test]
fn squared_difference_rule() {
    let mut graph: SquaredDifference<Leaf<F>, Leaf<F>> =
        nn::expression::sq_diff(leaf(5.0), leaf(2.0));
    assert_eq!(graph.forward(), F(9.0));
    graph.backward(F(1.0));
    assert_eq!(graph.a.value, F(-1.0));
    assert_eq!(graph.b.value, F(8.0));
}

#[test]
fn leaf_forward_returns_value_and_backward_decrements() {
    let mut x = leaf(1.5);
    assert_eq!(x.forward(), F(1.5));
    assert_eq!(x.value, F(1.5));
    x.backward(F(0.25));
    assert_eq!(x.value, F(1.25));
}

#[test]
fn constructors_start_with_zero_caches() {
    let product: Mul<Leaf<F>, Leaf<F>> = nn::expression::mul(leaf(3.0), leaf(4.0));
    assert_eq!(product.cached_a, F(0.0));
    assert_eq!(product.cached_b, F(0.0));
    let square: SquaredDifference<Leaf<F>, Leaf<F>> = nn::expression::sq_diff(leaf(5.0), leaf(2.0));
    assert_eq!(square.cache, F(0.0));
}

#[test]
fn composed_graph_one_step() {
    // x = 1, a = 5, b = -4, y = 3: (1 + 5) * -4 = -24, diff = -27, loss = 729.
    let mut graph = model(5.0, -4.0);
    set(&mut graph, 1.0, 3.0);
    assert_eq!(graph.forward(), F(729.0));
    assert_eq!(graph.cache, F(-27.0));
    assert_eq!(graph.a.cached_a, F(6.0));
    assert_eq!(graph.a.cached_b, F(-4.0));
    // grad = 2 * -27 * 0.5 = -27; the sum gets -27 * -4 = 108, b gets -27 * 6 = -162.
    graph.backward(F(0.5));
    assert_eq!(graph.a.a.0.value, F(1.0 - 108.0));
    assert_eq!(graph.a.a.1.value, F(5.0 - 108.0));
    assert_eq!(graph.a.b.value, F(-4.0 + 162.0));
    assert_eq!(graph.b.value, F(3.0 - 27.0));
}

#[test]
fn calibration_scenario_learns_the_line() {
    let mut rng = StdRng::from_seed([0u8; 32]);
    let learning_rate = 0.01;
    let mut graph = model(5.0, -4.0);
    let mut early = 0.0f64;
    let mut late = 0.0f64;
    for step in 0..100 {
        let x: f32 = rng.gen_range(-10.0..10.0);
        let y = 2.0 * x + 1.0;
        set(&mut graph, x, y);
        let loss = graph.forward();
        if step < 50 {
            early += loss.0 as f64;
        } else {
            late += loss.0 as f64;
        }
        graph.backward(F(learning_rate));
    }
    let a = graph.a.a.1.value.0;
    let b = graph.a.b.value.0;
    assert!((b - 2.0).abs() < 0.1, "b = {}", b);
    assert!((a - 0.5).abs() < 0.1, "a = {}", a);
    assert!(late < early, "early = {}, late = {}", early, late);
    assert!(late / 50.0 < 1.0, "late = {}", late);
}

#[test]
fn forward_twice_is_forward_once() {
    let mut graph = model(5.0, -4.0);
    set(&mut graph, 1.5, -2.0);
    let first = graph.forward();
    let cache = graph.cache;
    let cached_a = graph.a.cached_a;
    let cached_b = graph.a.cached_b;
    let second = graph.forward();
    assert_eq!(first, second);
    assert_eq!(graph.a.a.0.value, F(1.5));
    assert_eq!(graph.a.a.1.value, F(5.0));
    assert_eq!(graph.a.b.value, F(-4.0));
    assert_eq!(graph.b.value, F(-2.0));
    assert_eq!(graph.cache, cache);
    assert_eq!(graph.a.cached_a, cached_a);
    assert_eq!(graph.a.cached_b, cached_b);
}

#[test]
fn backward_uses_the_caches_of_the_last_forward() {
    // Forward sees 3 * 4; the leaves then change to 10 and 20.
    let mut graph: Mul<Leaf<F>, Leaf<F>> = nn::expression::mul(leaf(3.0), leaf(4.0));
    assert_eq!(graph.forward(), F(12.0));
    graph.a.value = F(10.0);
    graph.b.value = F(20.0);
    graph.backward(F(1.0));
    // The gradients are 4 and 3, not 20 and 10.
    assert_eq!(graph.a.value, F(6.0));
    assert_eq!(graph.b.value, F(17.0));
    assert_eq!(graph.cached_a, F(3.0));
    assert_eq!(graph.cached_b, F(4.0));
}

#[test]
fn backward_without_forward_uses_the_initial_caches() {
    let mut graph: SquaredDifference<Leaf<F>, Leaf<F>> =
        nn::expression::sq_diff(leaf(5.0), leaf(2.0));
    graph.backward(F(1.0));
    assert_eq!(graph.a.value, F(5.0));
    assert_eq!(graph.b.value, F(2.0));
}

#[test]
fn integers_wrap() {
    let mut graph = nn::expression::mul(
        nn::expression::leaf(i64::MAX),
        nn::expression::leaf(2i64),
    );
    assert_eq!(graph.forward(), -2);
    let mut sum = nn::expression::add(nn::expression::leaf(2i64), nn::expression::leaf(3i64));
    assert_eq!(sum.forward(), 5);
    sum.backward(1);
    assert_eq!(sum.0.value, 1);
    assert_eq!(sum.1.value, 2);
    assert_eq!(<i64 as Scalar>::zero(), 0);
    assert_eq!(<i64 as Scalar>::two(), 2);
    assert_eq!(7i64.negate(), -7);
    assert_eq!(i64::MIN.negate(), i64::MIN);
    assert_eq!(3i64.minus(5), -2);
    assert_eq!((-3i64).maximum(0), 0);
    assert_eq!(4i64.maximum(0), 4);
}
