use nn::nn::{ActivationFunction, FullyConnectedLayer, ReLU};
use nn::scalar::Scalar;

/// Single-precision floats as the values of an expression.
#[derive(Clone, Copy, Debug, PartialEq)]
struct F(f32);

impl Scalar for F {
    fn spec_zero() -> F {
        Self::zero()
    }

    fn spec_two() -> F {
        Self::two()
    }

    fn spec_plus(self, rhs: F) -> F {
        self.plus(rhs)
    }

    fn spec_minus(self, rhs: F) -> F {
        self.minus(rhs)
    }

    fn spec_times(self, rhs: F) -> F {
        self.times(rhs)
    }

    fn spec_negate(self) -> F {
        self.negate()
    }

    fn spec_maximum(self, rhs: F) -> F {
        self.maximum(rhs)
    }

    fn zero() -> F {
        F(0.0)
    }

    fn two() -> F {
        F(2.0)
    }

    fn plus(self, rhs: F) -> F {
        F(self.0 + rhs.0)
    }

    fn minus(self, rhs: F) -> F {
        F(self.0 - rhs.0)
    }

    fn times(self, rhs: F) -> F {
        F(self.0 * rhs.0)
    }

    fn negate(self) -> F {
        F(-self.0)
    }

    fn maximum(self, rhs: F) -> F {
        F(f32::max(self.0, rhs.0))
    }
}

fn values(raw: &[f32]) -> Vec<F> {
    raw.iter().map(|v| F(*v)).collect()
}

#[test]
fn test() {
    let layer = FullyConnectedLayer::new(
        2,
        3,
        values(&[11.0, 12.0, 13.0, 21.0, 22.0, 23.0, 31.0, 32.0, 33.0]),
    );
    let inputs = values(&[1.0, 2.0]);
    let mut outputs = values(&[0.0, 0.0, 0.0]);
    layer.infer(&inputs, &mut outputs);
    assert_eq!(outputs, values(&[48.0, 88.0, 128.0]));
}

#[test]
fn relu_cuts_negative_sums() {
    let layer = FullyConnectedLayer::new(2, 2, values(&[1.0, 1.0, -10.0, 1.0, 1.0, 10.0]));
    let inputs = values(&[1.0, 2.0]);
    let mut outputs = values(&[7.0, 7.0]);
    layer.infer(&inputs, &mut outputs);
    assert_eq!(outputs, values(&[0.0, 13.0]));
}

#[test]
fn relu_is_the_larger_of_zero_and_the_value() {
    assert_eq!(ReLU.activate(F(-1.5)), F(0.0));
    assert_eq!(ReLU.activate(F(2.5)), F(2.5));
    assert_eq!(ReLU.activate(-3i64), 0);
    assert_eq!(ReLU.activate(3i64), 3);
}

#[test]
fn new_takes_no_more_than_the_layer_needs() {
    let layer = FullyConnectedLayer::new(1, 1, vec![2i64, 3, 100, 200]);
    let mut outputs = vec![0i64];
    layer.infer(&[5], &mut outputs);
    assert_eq!(outputs, vec![13]);
}

#[test]
fn layer_without_outputs_writes_nothing() {
    let layer = FullyConnectedLayer::new(3, 0, vec![1i64, 2, 3]);
    let mut outputs: Vec<i64> = Vec::new();
    layer.infer(&[1, 2, 3], &mut outputs);
    assert!(outputs.is_empty());
}
