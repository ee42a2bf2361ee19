use vstd::prelude::*;

use crate::error::NetworkError;
use crate::shape::Shape;

verus! {

/// The activation functions a layer applies to its linear combination.
/// `P` is the type of the numeric parameter of `Binary` (its threshold) and
/// `LeakyReLU` (its slope for negative inputs).
#[derive(Clone, Copy, Debug, PartialEq)]
pub enum Activation<P> {
    Identity,
    Binary(P),
    Sigmoid,
    TanH,
    ReLU,
    LeakyReLU(P),
    Softmax,
    LogSoftmax,
}

impl<P> Activation<P> {
    /// Softmax and LogSoftmax act on each row as a whole; the others act on
    /// each value alone.
    pub open spec fn row_wise(&self) -> bool {
        match self {
            Activation::Softmax | Activation::LogSoftmax => true,
            _ => false,
        }
    }

    /// ReLU and Binary lose information and have no inverse.
    pub open spec fn invertible(&self) -> bool {
        match self {
            Activation::ReLU | Activation::Binary(_) => false,
            _ => true,
        }
    }

    /// Shape of the derivative taken at a matrix of shape `input`: the same
    /// shape for an elementwise activation; for a row-wise one, the square
    /// Jacobian of a single row, which other inputs do not have.
    pub open spec fn derivative_shape_of(&self, input: Shape) -> Result<Shape, NetworkError> {
        if self.row_wise() {
            if input.rows == 1 {
                Ok(Shape { rows: input.cols, cols: input.cols })
            } else {
                Err(NetworkError::ShapeMismatch)
            }
        } else {
            Ok(input)
        }
    }

    pub fn is_row_wise(&self) -> (r: bool)
        ensures
            r == self.row_wise(),
    {
        match self {
            Activation::Softmax | Activation::LogSoftmax => true,
            _ => false,
        }
    }

    pub fn has_inverse(&self) -> (r: bool)
        ensures
            r == self.invertible(),
    {
        match self {
            Activation::ReLU | Activation::Binary(_) => false,
            _ => true,
        }
    }

    pub fn derivative_shape(&self, input: Shape) -> (r: Result<Shape, NetworkError>)
        ensures
            r == self.derivative_shape_of(input),
    {
        if self.is_row_wise() {
            if input.rows == 1 {
                Ok(Shape { rows: input.cols, cols: input.cols })
            } else {
                Err(NetworkError::ShapeMismatch)
            }
        } else {
            Ok(input)
        }
    }
}

} // verus!
