use vstd::prelude::*;

use crate::activation::Activation;
use crate::error::NetworkError;
use crate::shape::Shape;

verus! {

/// What a fully-connected layer is made of, apart from its numbers: it reads
/// `inputs` features, has `neurons` neurons and applies `activation`.
#[derive(Clone, Copy, Debug, PartialEq)]
pub struct LayerSpec<P> {
    pub inputs: usize,
    pub neurons: usize,
    pub activation: Activation<P>,
}

impl<P> LayerSpec<P> {
    pub open spec fn weights(self) -> Shape {
        Shape { rows: self.inputs, cols: self.neurons }
    }

    pub open spec fn bias(self) -> Shape {
        Shape { rows: 1, cols: self.neurons }
    }

    /// Shape of the layer's output (and of its linear combination) for an
    /// input batch of shape `input`.
    pub open spec fn forward_of(self, input: Shape) -> Result<Shape, NetworkError> {
        if input.cols == self.inputs {
            Ok(Shape { rows: input.rows, cols: self.neurons })
        } else {
            Err(NetworkError::ShapeMismatch)
        }
    }

    /// Shape of the weight matrix: one row per input, one column per neuron.
    pub fn weights_shape(&self) -> (r: Shape)
        ensures
            r == self.weights(),
    {
        Shape { rows: self.inputs, cols: self.neurons }
    }

    /// Shape of the bias: a single row with one value per neuron.
    pub fn bias_shape(&self) -> (r: Shape)
        ensures
            r == self.bias(),
    {
        Shape { rows: 1, cols: self.neurons }
    }

    /// Shape of `activation(input · weights + bias)` (every activation keeps
    /// the shape of what it is applied to), or a mismatch
    /// when the input's width is not the layer's input count.
    pub fn forward_shape(&self, input: Shape) -> (r: Result<Shape, NetworkError>)
        ensures
            r == self.forward_of(input),
    {
        let weights = self.weights_shape();
        match input.dot(&weights) {
            Some(linear) => {
                let bias = self.bias_shape();
                match linear.broadcast_row(&bias) {
                    Some(sum) => Ok(sum),
                    None => Err(NetworkError::ShapeMismatch),
                }
            },
            None => Err(NetworkError::ShapeMismatch),
        }
    }

    /// Shape of `(desired - bias) · weightsᵗ`, the layer's step when an
    /// input is sought that yields the output `desired`.
    pub fn reverse_shape(&self, desired: Shape) -> (r: Result<Shape, NetworkError>)
        ensures
            r == (if desired.cols == self.neurons {
                Ok(Shape { rows: desired.rows, cols: self.inputs })
            } else {
                Err(NetworkError::ShapeMismatch)
            }),
    {
        let bias = self.bias_shape();
        match desired.broadcast_row(&bias) {
            Some(shifted) => {
                let back = self.weights_shape().transpose();
                match shifted.dot(&back) {
                    Some(r) => Ok(r),
                    None => Err(NetworkError::ShapeMismatch),
                }
            },
            None => Err(NetworkError::ShapeMismatch),
        }
    }
}

} // verus!
