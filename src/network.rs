use vstd::prelude::*;

use crate::activation::Activation;
use crate::batch::{batch_count, batch_end, batch_start, batches, Batch};
use crate::error::NetworkError;
use crate::layer::LayerSpec;
use crate::objective::Objective;
use crate::shape::{dot_of, Shape};

verus! {

/// Width of what the layer at index `i` reads: the network's input width for
/// the first layer, the previous layer's neuron count for the others.
pub open spec fn input_width<P>(inputs: usize, layers: Seq<LayerSpec<P>>, i: int) -> usize {
    if i == 0 {
        inputs
    } else {
        layers[i - 1].neurons
    }
}

/// Each layer reads exactly what the one before it produces.
pub open spec fn chains<P>(inputs: usize, layers: Seq<LayerSpec<P>>) -> bool {
    forall|i: int| 0 <= i < layers.len() ==> (#[trigger] layers[i]).inputs == input_width(inputs, layers, i)
}

/// Width of what a stack of layers produces: that of its last layer, or the
/// input width when there is none.
pub open spec fn output_width<P>(inputs: usize, layers: Seq<LayerSpec<P>>) -> usize {
    if layers.len() == 0 {
        inputs
    } else {
        layers.last().neurons
    }
}

/// What the layer updated by a backward step multiplies its local gradient
/// with to get its weight gradient.
#[derive(Clone, Copy, Debug, PartialEq, Eq, Structural)]
pub enum StepInput {
    /// The batch fed to the network (first layer).
    Batch,
    /// The cached activity of the layer at this index.
    Activity(usize),
}

/// How a backward step turns the incoming gradient into the gradient of its
/// layer's linear combination.
#[derive(Clone, Copy, Debug, PartialEq, Eq, Structural)]
pub enum LocalGradient {
    /// Elementwise product with the activation's derivative at the cached
    /// linear combination.
    Elementwise,
    /// The incoming gradient as it is: the objective's derivative already
    /// accounts for the output activation.
    Fused,
}

/// One step of the backward sweep: which layer it updates, from what, and
/// whether it passes a gradient on to the layer before.
#[derive(Clone, Copy, Debug, PartialEq, Eq, Structural)]
pub struct BackwardStep {
    pub layer: usize,
    pub input: StepInput,
    pub local: LocalGradient,
    pub propagate: bool,
}

/// The work of one call of `train`: the batches, in order, and the backward
/// sweep run after the forward pass of each of them.
#[derive(Debug)]
pub struct TrainingPlan {
    pub batches: Vec<Batch>,
    pub steps: Vec<BackwardStep>,
}

/// The layout of a network: its input width and its layers, in order, each
/// reading what the previous one produces. There is at least one layer.
#[derive(Debug)]
pub struct Topology<P> {
    inputs: usize,
    layers: Vec<LayerSpec<P>>,
}

impl<P> Topology<P> {
    pub closed spec fn input_count(&self) -> usize {
        self.inputs
    }

    pub closed spec fn specs(&self) -> Seq<LayerSpec<P>> {
        self.layers@
    }

    pub open spec fn wf(&self) -> bool {
        self.specs().len() > 0 && chains(self.input_count(), self.specs())
    }

    pub open spec fn output_count(&self) -> usize {
        output_width(self.input_count(), self.specs())
    }

    pub(crate) fn from_parts(inputs: usize, layers: Vec<LayerSpec<P>>) -> (r: Topology<P>)
        requires
            layers@.len() > 0,
            chains(inputs, layers@),
        ensures
            r.wf(),
            r.input_count() == inputs,
            r.specs() == layers@,
    {
        Topology { inputs, layers }
    }

    /// Width of the input batches.
    pub fn inputs(&self) -> (r: usize)
        ensures
            r == self.input_count(),
    {
        self.inputs
    }

    /// Width of the output batches: the last layer's neuron count.
    pub fn outputs(&self) -> (r: usize)
        requires
            self.wf(),
        ensures
            r == self.output_count(),
    {
        self.layers[self.layers.len() - 1].neurons
    }

    /// Number of layers.
    pub fn len(&self) -> (r: usize)
        ensures
            r == self.specs().len(),
    {
        self.layers.len()
    }

    /// The layer at index `i`, counted from the input.
    pub fn layer(&self, i: usize) -> (r: &LayerSpec<P>)
        requires
            i < self.specs().len(),
        ensures
            *r == self.specs()[i as int],
    {
        &self.layers[i]
    }

    /// Shape of the output of a forward pass on a batch of shape `input`:
    /// as many rows as the input, as many columns as the last layer has
    /// neurons, whenever the input's width is the network's input width.
    pub fn forward_shape(&self, input: Shape) -> (r: Result<Shape, NetworkError>)
        requires
            self.wf(),
        ensures
            r == (if input.cols == self.input_count() {
                Ok(Shape { rows: input.rows, cols: self.output_count() })
            } else {
                Err(NetworkError::ShapeMismatch)
            }),
    {
        let mut current = input;
        let mut i: usize = 0;
        while i < self.layers.len()
            invariant
                self.wf(),
                i <= self.specs().len(),
                i == 0 ==> current == input,
                i > 0 ==> input.cols == self.input_count() && current == (Shape {
                    rows: input.rows,
                    cols: self.specs()[i - 1].neurons,
                }),
            decreases self.specs().len() - i,
        {
            let layer = &self.layers[i];
            assert(layer.inputs == input_width(self.input_count(), self.specs(), i as int));
            match layer.forward_shape(current) {
                Ok(next) => {
                    current = next;
                },
                Err(e) => {
                    return Err(e);
                },
            }
            i = i + 1;
        }
        Ok(current)
    }

    /// Shape of the input that the reverse sweep of `get_expected_input`
    /// gives for a desired output of shape `desired`: the desired rows, the
    /// network's input width; a mismatch when `desired` is not as wide as
    /// the network's output.
    pub fn expected_input_shape(&self, desired: Shape) -> (r: Result<Shape, NetworkError>)
        requires
            self.wf(),
        ensures
            r == (if desired.cols == self.output_count() {
                Ok(Shape { rows: desired.rows, cols: self.input_count() })
            } else {
                Err(NetworkError::ShapeMismatch)
            }),
    {
        let mut current = desired;
        let mut i: usize = self.layers.len();
        while i > 0
            invariant
                self.wf(),
                i <= self.specs().len(),
                i == self.specs().len() ==> current == desired,
                i < self.specs().len() ==> desired.cols == self.output_count() && current == (Shape {
                    rows: desired.rows,
                    cols: input_width(self.input_count(), self.specs(), i as int),
                }),
            decreases i,
        {
            let layer = &self.layers[i - 1];
            assert(layer.inputs == input_width(self.input_count(), self.specs(), i - 1));
            match layer.reverse_shape(current) {
                Ok(next) => {
                    current = next;
                },
                Err(e) => {
                    return Err(e);
                },
            }
            i = i - 1;
        }
        Ok(current)
    }
    /// Whether backpropagation is defined for this network trained with
    /// `objective`: the objective has math, no hidden layer is row-wise, and
    /// a row-wise output layer is paired with CrossEntropy, whose derivative
    /// is fused with it.
    pub open spec fn backward_supported(&self, objective: Objective) -> bool {
        &&& objective.implemented()
        &&& forall|i: int| 0 <= i < self.specs().len() - 1 ==> !(#[trigger] self.specs()[i]).activation.row_wise()
        &&& self.specs().last().activation.row_wise() ==> objective.fused_with(self.specs().last().activation)
    }

    /// The `k`-th step of the backward sweep: layers are visited from the
    /// last to the first; the first layer is fed the batch, every other one
    /// the activity of the layer before it, to which it passes a gradient on;
    /// only the output layer may fuse its derivative with the objective's.
    pub open spec fn step_at(&self, objective: Objective, k: int) -> BackwardStep {
        let i = self.specs().len() - 1 - k;
        BackwardStep {
            layer: i as usize,
            input: if i == 0 {
                StepInput::Batch
            } else {
                StepInput::Activity((i - 1) as usize)
            },
            local: if k == 0 && objective.fused_with(self.specs()[i].activation) {
                LocalGradient::Fused
            } else {
                LocalGradient::Elementwise
            },
            propagate: i > 0,
        }
    }

    /// The backward sweep used by training with `objective`, or
    /// `NotImplemented` where it has no defined math.
    pub fn backward_steps(&self, objective: Objective) -> (r: Result<Vec<BackwardStep>, NetworkError>)
        requires
            self.wf(),
        ensures
            r is Err <==> !self.backward_supported(objective),
            r is Err ==> r == Err::<Vec<BackwardStep>, NetworkError>(NetworkError::NotImplemented),
            r matches Ok(steps) ==> steps@.len() == self.specs().len() && forall|k: int|
                0 <= k < steps@.len() ==> #[trigger] steps@[k] == self.step_at(objective, k),
    {
        if !objective.is_implemented() {
            return Err(NetworkError::NotImplemented);
        }
        let n = self.layers.len();
        let last = &self.layers[n - 1];
        if last.activation.is_row_wise() && !objective.fuses_with(&last.activation) {
            return Err(NetworkError::NotImplemented);
        }
        let mut steps: Vec<BackwardStep> = Vec::new();
        let mut i: usize = n;
        while i > 0
            invariant
                self.wf(),
                n == self.specs().len(),
                i <= n,
                steps@.len() == n - i,
                forall|j: int| i <= j < n - 1 ==> !(#[trigger] self.specs()[j]).activation.row_wise(),
                forall|k: int| 0 <= k < steps@.len() ==> #[trigger] steps@[k] == self.step_at(objective, k),
            decreases i,
        {
            let layer_index = i - 1;
            let layer = &self.layers[layer_index];
            let is_last = layer_index == n - 1;
            if !is_last && layer.activation.is_row_wise() {
                return Err(NetworkError::NotImplemented);
            }
            let input = if layer_index == 0 {
                StepInput::Batch
            } else {
                StepInput::Activity(layer_index - 1)
            };
            let local = if is_last && objective.fuses_with(&layer.activation) {
                LocalGradient::Fused
            } else {
                LocalGradient::Elementwise
            };
            steps.push(BackwardStep { layer: layer_index, input, local, propagate: layer_index > 0 });
            i = i - 1;
        }
        Ok(steps)
    }

    /// Why training on a data set of shape `input` against expected results
    /// of shape `expected` is refused, if it is: row counts that differ, a
    /// zero batch size, widths that are not the network's, or an objective
    /// without backpropagation here.
    pub open spec fn training_refusal(
        &self,
        input: Shape,
        expected: Shape,
        objective: Objective,
        batch_size: usize,
    ) -> Option<NetworkError> {
        if input.rows != expected.rows {
            Some(NetworkError::ShapeMismatch)
        } else if batch_size == 0 {
            Some(NetworkError::InvalidBatchSize)
        } else if input.cols != self.input_count() || expected.cols != self.output_count() {
            Some(NetworkError::ShapeMismatch)
        } else if !self.backward_supported(objective) {
            Some(NetworkError::NotImplemented)
        } else {
            None
        }
    }

    /// Plans one pass of training over a data set of shape `input` with
    /// expected results of shape `expected`: every refusal comes here,
    /// before any layer is touched. The plan visits the rows in consecutive
    /// batches of `batch_size` rows and runs the backward sweep after each.
    pub fn plan_training(
        &self,
        input: Shape,
        expected: Shape,
        objective: Objective,
        batch_size: usize,
    ) -> (r: Result<TrainingPlan, NetworkError>)
        requires
            self.wf(),
        ensures
            r is Err <==> self.training_refusal(input, expected, objective, batch_size) is Some,
            r matches Err(e) ==> self.training_refusal(input, expected, objective, batch_size) == Some(e),
            r matches Ok(plan) ==> {
                &&& plan.batches@.len() == batch_count(input.rows as int, batch_size as int)
                &&& forall|k: int| 0 <= k < plan.batches@.len() ==> (#[trigger] plan.batches@[k]).start
                    == batch_start(k, batch_size as int) && plan.batches@[k].end == batch_end(
                    k,
                    input.rows as int,
                    batch_size as int,
                )
                &&& plan.steps@.len() == self.specs().len()
                &&& forall|k: int| 0 <= k < plan.steps@.len() ==> #[trigger] plan.steps@[k]
                    == self.step_at(objective, k)
            },
    {
        if input.rows != expected.rows {
            return Err(NetworkError::ShapeMismatch);
        }
        if batch_size == 0 {
            return Err(NetworkError::InvalidBatchSize);
        }
        if input.cols != self.inputs || expected.cols != self.outputs() {
            return Err(NetworkError::ShapeMismatch);
        }
        match self.backward_steps(objective) {
            Ok(steps) => Ok(TrainingPlan { batches: batches(input.rows, batch_size), steps }),
            Err(e) => Err(e),
        }
    }
}

/// In the backward sweep over a batch of `rows` rows, the layer at index `i`
/// gets a local gradient shaped like its output; the product of its
/// transposed input with that gradient is shaped like its weights, and the
/// gradient it passes back, that gradient times its transposed weights, is
/// shaped like the output of the layer before it.
pub proof fn lemma_backward_shapes<P>(t: &Topology<P>, rows: usize, i: int)
    requires
        t.wf(),
        0 <= i < t.specs().len(),
    ensures
        ({
            let layer = t.specs()[i];
            let input = Shape { rows, cols: input_width(t.input_count(), t.specs(), i) };
            let local = Shape { rows, cols: layer.neurons };
            &&& layer.forward_of(input) == Ok::<Shape, NetworkError>(local)
            &&& dot_of(input.transposed(), local) == Some(layer.weights())
            &&& i > 0 ==> dot_of(local, layer.weights().transposed()) == Some(
                Shape { rows, cols: t.specs()[i - 1].neurons },
            )
        }),
{
    assert(t.specs()[i].inputs == input_width(t.input_count(), t.specs(), i));
}

/// Training is refused, before anything is changed, when the data set and
/// the expected results have different row counts, and when the batch size
/// is zero.
pub proof fn lemma_training_refusals<P>(
    t: &Topology<P>,
    input: Shape,
    expected: Shape,
    objective: Objective,
    batch_size: usize,
)
    requires
        t.wf(),
    ensures
        input.rows != expected.rows ==> t.training_refusal(input, expected, objective, batch_size)
            == Some(NetworkError::ShapeMismatch),
        batch_size == 0 ==> t.training_refusal(input, expected, objective, batch_size) is Some,
        input.rows == expected.rows && batch_size == 0 ==> t.training_refusal(
            input,
            expected,
            objective,
            batch_size,
        ) == Some(NetworkError::InvalidBatchSize),
{
}

} // verus!
