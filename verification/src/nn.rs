//! A dense layer that is only evaluated, never trained: a weighted sum of
//! the inputs and a bias for every output, passed through an activation
//! function.

use vstd::prelude::*;
use crate::scalar::Scalar;

verus! {

/// A function applied to every output of a layer.
pub trait ActivationFunction<S> {
    /// The value that `value` is mapped to.
    spec fn spec_activate(&self, value: S) -> S;

    /// Applies the function to `value`.
    fn activate(&self, value: S) -> (r: S)
        ensures
            r == self.spec_activate(value),
    ;
}

/// The rectifier: the larger of zero and the value.
pub struct ReLU;

impl<S: Scalar> ActivationFunction<S> for ReLU {
    open spec fn spec_activate(&self, value: S) -> S {
        S::spec_zero().spec_maximum(value)
    }

    fn activate(&self, value: S) -> (r: S) {
        S::zero().maximum(value)
    }
}

/// The sum, started at zero and taken from the left, of the first `n` inputs
/// each times its weight; the weights of an output start at `base`.
pub open spec fn weighted_sum<S: Scalar>(inputs: Seq<S>, weights: Seq<S>, base: int, n: nat) -> S
    decreases n,
{
    if n == 0 {
        S::spec_zero()
    } else {
        weighted_sum(inputs, weights, base, (n - 1) as nat).spec_plus(
            inputs[n - 1].spec_times(weights[base + n - 1]),
        )
    }
}

/// A layer with `input_count` inputs and `output_count` outputs. For every
/// output it holds one weight per input and then the bias.
pub struct FullyConnectedLayer<S, A = ReLU> {
    input_count: usize,
    output_count: usize,
    weights_and_biases: Vec<S>,
    activation_function: A,
}

impl<S, A> FullyConnectedLayer<S, A> {
    /// The number of inputs.
    pub closed spec fn input_count(&self) -> usize {
        self.input_count
    }

    /// The number of outputs.
    pub closed spec fn output_count(&self) -> usize {
        self.output_count
    }

    /// The weights and biases, output by output.
    pub closed spec fn weights_and_biases(&self) -> Seq<S> {
        self.weights_and_biases@
    }

    /// The activation function.
    pub closed spec fn activation_function(&self) -> A {
        self.activation_function
    }

    /// The number of weights and biases that the layer needs.
    pub open spec fn parameter_count(&self) -> int {
        (self.input_count() + 1) * self.output_count()
    }

    /// The layer holds a weight for every input of every output, and every
    /// bias.
    pub open spec fn complete(&self) -> bool {
        self.parameter_count() <= self.weights_and_biases().len()
    }
}

impl<S: Scalar> FullyConnectedLayer<S, ReLU> {
    /// A rectifier layer whose weights and biases are the first
    /// `(input_count + 1) * output_count` values of `initializer`, or all of
    /// them where there are fewer.
    pub fn new(input_count: usize, output_count: usize, initializer: Vec<S>) -> (r: Self)
        requires
            (input_count + 1) * output_count <= usize::MAX,
        ensures
            r.input_count() == input_count,
            r.output_count() == output_count,
            r.weights_and_biases() == if initializer@.len() <= (input_count + 1) * output_count {
                initializer@
            } else {
                initializer@.take((input_count + 1) * output_count)
            },
    {
        let mut weights_and_biases = initializer;
        if output_count > 0 {
            assert(input_count + 1 <= (input_count + 1) * output_count) by (nonlinear_arith)
                requires
                    output_count > 0,
            ;
            weights_and_biases.truncate((input_count + 1) * output_count);
        } else {
            assert((input_count + 1) * output_count == 0) by (nonlinear_arith)
                requires
                    output_count == 0,
            ;
            weights_and_biases.truncate(0);
        }
        Self { input_count, output_count, weights_and_biases, activation_function: ReLU }
    }
}

impl<S: Scalar, A: ActivationFunction<S>> FullyConnectedLayer<S, A> {
    /// What the layer puts out at `output` for the given inputs: the
    /// activation of the weighted sum plus the bias.
    pub open spec fn spec_output(&self, inputs: Seq<S>, output: int) -> S {
        let base = (self.input_count() + 1) * output;
        self.activation_function().spec_activate(
            weighted_sum(
                inputs,
                self.weights_and_biases(),
                base,
                self.input_count() as nat,
            ).spec_plus(self.weights_and_biases()[base + self.input_count()]),
        )
    }

    /// Evaluates the layer: writes the output for `inputs` into `outputs`.
    pub fn infer(&self, inputs: &[S], outputs: &mut [S])
        requires
            self.input_count() == inputs@.len(),
            self.output_count() == old(outputs)@.len(),
            self.complete(),
        ensures
            final(outputs)@.len() == self.output_count(),
            forall|o: int|
                0 <= o < self.output_count() ==> #[trigger] final(outputs)@[o] == self.spec_output(
                    inputs@,
                    o,
                ),
    {
        let parameters = self.weights_and_biases.len();
        let mut output_idx: usize = 0;
        while output_idx < self.output_count
            invariant
                output_idx <= self.output_count,
                parameters == self.weights_and_biases@.len(),
                self.input_count == inputs@.len(),
                self.output_count == outputs@.len(),
                self.complete(),
                forall|o: int|
                    0 <= o < output_idx ==> #[trigger] outputs@[o] == self.spec_output(inputs@, o),
            decreases self.output_count - output_idx,
        {
            assert({
                &&& self.input_count + 1 <= (self.input_count + 1) * self.output_count
                &&& 0 <= (self.input_count + 1) * output_idx
                &&& (self.input_count + 1) * output_idx + self.input_count < (self.input_count + 1)
                    * self.output_count
            }) by (nonlinear_arith)
                requires
                    output_idx < self.output_count,
            ;
            let base = (self.input_count + 1) * output_idx;
            let mut sum = S::zero();
            let mut input_idx: usize = 0;
            while input_idx < self.input_count
                invariant
                    input_idx <= self.input_count,
                    self.input_count == inputs@.len(),
                    parameters == self.weights_and_biases@.len(),
                    base + self.input_count < parameters,
                    sum == weighted_sum(
                        inputs@,
                        self.weights_and_biases@,
                        base as int,
                        input_idx as nat,
                    ),
                decreases self.input_count - input_idx,
            {
                sum = sum.plus(inputs[input_idx].times(self.weights_and_biases[base + input_idx]));
                input_idx = input_idx + 1;
            }
            let bias = self.weights_and_biases[base + self.input_count];
            outputs[output_idx] = self.activation_function.activate(sum.plus(bias));
            output_idx = output_idx + 1;
        }
    }
}

} // verus!
