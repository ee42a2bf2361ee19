use vstd::prelude::*;

use crate::activation::Activation;
use crate::error::NetworkError;
use crate::shape::Shape;

verus! {

/// Loss functions. Only `SumSquaredError` and `CrossEntropy` have defined
/// math; the others are declared and refused.
#[derive(Clone, Copy, Debug, PartialEq, Eq, Structural)]
pub enum Objective {
    Log,
    Focal,
    Exponential,
    Hinge,
    CrossEntropy,
    SumSquaredError,
    MeanSquaredError,
    MeanAbsoluteError,
    Huber,
    LogCosh,
    Quantile,
    Likelihood,
}

impl Objective {
    pub open spec fn implemented(self) -> bool {
        self == Objective::SumSquaredError || self == Objective::CrossEntropy
    }

    /// Whether the derivative of this objective is fused with that of the
    /// output activation `last`: CrossEntropy after Softmax or LogSoftmax,
    /// where the gradient of the linear combination is the objective's
    /// derivative itself.
    pub open spec fn fused_with<P>(self, last: Activation<P>) -> bool {
        self == Objective::CrossEntropy && last.row_wise()
    }

    /// What `error` and `derivative` give on an output of shape `output`
    /// and an expected output of shape `expected`: the shape of the
    /// derivative, or why the call is refused.
    pub open spec fn operands_of(self, output: Shape, expected: Shape) -> Result<Shape, NetworkError> {
        if output != expected {
            Err(NetworkError::ShapeMismatch)
        } else if !self.implemented() {
            Err(NetworkError::NotImplemented)
        } else {
            Ok(output)
        }
    }

    pub fn is_implemented(&self) -> (r: bool)
        ensures
            r == self.implemented(),
    {
        match self {
            Objective::SumSquaredError | Objective::CrossEntropy => true,
            _ => false,
        }
    }

    pub fn fuses_with<P>(&self, last: &Activation<P>) -> (r: bool)
        ensures
            r == self.fused_with(*last),
    {
        match self {
            Objective::CrossEntropy => last.is_row_wise(),
            _ => false,
        }
    }

    /// Checks an output and an expected output before the error or the
    /// derivative is computed; on success gives the derivative's shape.
    pub fn check_operands(&self, output: Shape, expected: Shape) -> (r: Result<Shape, NetworkError>)
        ensures
            r == self.operands_of(output, expected),
    {
        if output.rows != expected.rows || output.cols != expected.cols {
            Err(NetworkError::ShapeMismatch)
        } else if !self.is_implemented() {
            Err(NetworkError::NotImplemented)
        } else {
            Ok(output)
        }
    }
}

} // verus!
