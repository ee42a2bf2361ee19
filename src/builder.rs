use vstd::prelude::*;

use crate::activation::Activation;
use crate::error::NetworkError;
use crate::layer::LayerSpec;
use crate::network::{chains, input_width, output_width, Topology};

verus! {

/// Appends layers one after the other, each reading what the previous one
/// produces (the first reads the declared input width), and checks in
/// `build` that there is at least one.
#[derive(Debug)]
pub struct NeuralNetworkBuilder<P> {
    inputs: usize,
    last_layer_outputs: usize,
    layers: Vec<LayerSpec<P>>,
}

impl<P> NeuralNetworkBuilder<P> {
    pub closed spec fn input_count(&self) -> usize {
        self.inputs
    }

    pub closed spec fn specs(&self) -> Seq<LayerSpec<P>> {
        self.layers@
    }

    pub closed spec fn wf(&self) -> bool {
        &&& chains(self.inputs, self.layers@)
        &&& self.last_layer_outputs == output_width(self.inputs, self.layers@)
    }

    /// A builder for a network that reads batches `inputs` values wide.
    pub fn new(inputs: usize) -> (r: Self)
        ensures
            r.wf(),
            r.input_count() == inputs,
            r.specs() == Seq::<LayerSpec<P>>::empty(),
    {
        NeuralNetworkBuilder { inputs, last_layer_outputs: inputs, layers: Vec::new() }
    }

    /// Appends a layer of `neurons` neurons applying `activation_function`;
    /// it reads the output of the previous layer, or the network's input
    /// for the first.
    pub fn layer(self, neurons: usize, activation_function: Activation<P>) -> (r: Self)
        requires
            self.wf(),
        ensures
            r.wf(),
            r.input_count() == self.input_count(),
            r.specs() == self.specs().push(
                LayerSpec {
                    inputs: output_width(self.input_count(), self.specs()),
                    neurons,
                    activation: activation_function,
                },
            ),
    {
        let mut this = self;
        let spec = LayerSpec { inputs: this.last_layer_outputs, neurons, activation: activation_function };
        this.layers.push(spec);
        this.last_layer_outputs = neurons;
        proof {
            assert forall|i: int| 0 <= i < this.layers@.len() implies (#[trigger] this.layers@[i]).inputs
                == input_width(this.inputs, this.layers@, i) by {
                if i < self.layers@.len() {
                    assert(this.layers@[i] == self.layers@[i]);
                }
            }
        }
        this
    }

    /// The network's layout, or `NoLayers` when no layer was appended.
    pub fn build(self) -> (r: Result<Topology<P>, NetworkError>)
        requires
            self.wf(),
        ensures
            self.specs().len() == 0 ==> r == Err::<Topology<P>, NetworkError>(NetworkError::NoLayers),
            r is Ok <==> self.specs().len() > 0,
            r matches Ok(t) ==> t.wf() && t.input_count() == self.input_count() && t.specs()
                == self.specs(),
    {
        if self.layers.len() == 0 {
            Err(NetworkError::NoLayers)
        } else {
            Ok(Topology::from_parts(self.inputs, self.layers))
        }
    }
}

} // verus!
