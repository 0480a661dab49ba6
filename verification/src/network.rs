use vstd::prelude::*;

verus! {

use vstd::seq_lib::*;

/// The dimensions of one layer: a weight matrix of `inputs` by `outputs`
/// entries and a bias row of `outputs` entries.
#[derive(Debug, Clone, Copy, PartialEq, Eq, Structural)]
pub struct LayerShape {
    pub inputs: usize,
    pub outputs: usize,
}

/// Why a model operation was refused.
#[derive(Debug, Clone, Copy, PartialEq, Eq, Structural)]
pub enum NetworkError {
    /// A layer index that names no existing layer.
    InvalidLayerIndex,
    /// A row whose width does not fit the layer it is held against.
    ShapeMismatch,
}

/// Consecutive layers fit: each layer produces exactly as many values as
/// the next one consumes.
pub open spec fn layers_fit(layers: Seq<LayerShape>) -> bool {
    forall|i: int|
        0 <= i < layers.len() - 1 ==> (#[trigger] layers[i]).outputs == layers[i + 1].inputs
}

/// The layer dimensions after one hidden-layer insertion: the layer at
/// `after` is re-shaped to end in `neurons` outputs, and a fresh layer that
/// restores the original output width is inserted directly behind it.
pub open spec fn spec_inserted(layers: Seq<LayerShape>, neurons: usize, after: int) -> Seq<
    LayerShape,
> {
    layers.update(
        after,
        LayerShape { inputs: layers[after].inputs, outputs: neurons },
    ).insert(after + 1, LayerShape { inputs: neurons, outputs: layers[after].outputs })
}

/// One insertion at a valid index keeps the layers fitting and preserves
/// the outer widths of the network.
pub proof fn lemma_inserted_keeps_outer_shape(layers: Seq<LayerShape>, neurons: usize, after: int)
    requires
        1 <= layers.len(),
        layers_fit(layers),
        0 <= after < layers.len(),
    ensures
        spec_inserted(layers, neurons, after).len() == layers.len() + 1,
        layers_fit(spec_inserted(layers, neurons, after)),
        spec_inserted(layers, neurons, after)[0].inputs == layers[0].inputs,
        spec_inserted(layers, neurons, after).last().outputs == layers.last().outputs,
{
    let updated = layers.update(
        after,
        LayerShape { inputs: layers[after].inputs, outputs: neurons },
    );
    let grown = spec_inserted(layers, neurons, after);
    updated.insert_ensures(
        after + 1,
        LayerShape { inputs: neurons, outputs: layers[after].outputs },
    );
    assert forall|i: int| 0 <= i < grown.len() - 1 implies (#[trigger] grown[i]).outputs == grown[
        i + 1
    ].inputs by {
        if i + 1 <= after {
            assert(grown[i] == updated[i] && grown[i + 1] == updated[i + 1]);
        } else if i > after + 1 {
            assert(grown[i] == updated[i - 1] && grown[i + 1] == updated[i]);
        }
    }
}

/// The layer dimensions after a whole sequence of insertions, each given
/// as a neuron count and the index inserted after.
pub open spec fn spec_after_insertions(layers: Seq<LayerShape>, ops: Seq<(usize, usize)>) -> Seq<
    LayerShape,
>
    decreases ops.len(),
{
    if ops.len() == 0 {
        layers
    } else {
        spec_after_insertions(spec_inserted(layers, ops[0].0, ops[0].1 as int), ops.drop_first())
    }
}

/// Law: a model built with the declared input and output widths, then
/// deepened by any sequence of hidden-layer insertions whose indices are
/// valid when they are applied, still consumes the declared input width at
/// its first layer and produces the declared output width at its last —
/// and its layers still fit together.
pub proof fn lemma_shape_invariant(
    input_size: usize,
    output_size: usize,
    ops: Seq<(usize, usize)>,
)
    requires
        forall|i: int| 0 <= i < ops.len() ==> (#[trigger] ops[i]).1 < 1 + i,
    ensures
        ({
            let result = spec_after_insertions(
                seq![(LayerShape { inputs: input_size, outputs: output_size })],
                ops,
            );
            &&& result.len() == 1 + ops.len()
            &&& layers_fit(result)
            &&& result[0].inputs == input_size
            &&& result.last().outputs == output_size
        }),
    decreases ops.len(),
{
    lemma_shape_invariant_step(
        seq![(LayerShape { inputs: input_size, outputs: output_size })],
        ops,
    );
}

/// The induction behind the shape law, stated from an arbitrary fitting
/// stack of layers.
proof fn lemma_shape_invariant_step(layers: Seq<LayerShape>, ops: Seq<(usize, usize)>)
    requires
        1 <= layers.len(),
        layers_fit(layers),
        forall|i: int| 0 <= i < ops.len() ==> (#[trigger] ops[i]).1 < layers.len() + i,
    ensures
        ({
            let result = spec_after_insertions(layers, ops);
            &&& result.len() == layers.len() + ops.len()
            &&& layers_fit(result)
            &&& result[0].inputs == layers[0].inputs
            &&& result.last().outputs == layers.last().outputs
        }),
    decreases ops.len(),
{
    if ops.len() > 0 {
        let grown = spec_inserted(layers, ops[0].0, ops[0].1 as int);
        lemma_inserted_keeps_outer_shape(layers, ops[0].0, ops[0].1 as int);
        assert(forall|i: int|
            0 <= i < ops.drop_first().len() ==> (#[trigger] ops.drop_first()[i]).1 < grown.len()
                + i);
        lemma_shape_invariant_step(grown, ops.drop_first());
    }
}

/// The architecture of the feed-forward network: its ordered layer
/// dimensions.  The floating-point weights themselves live with the caller,
/// one weight matrix and one bias row per entry, in the shapes recorded
/// here; this type carries every decision about them that is not
/// floating-point arithmetic.
#[derive(Debug, Clone)]
pub struct NetworkShape {
    pub layers: Vec<LayerShape>,
}

impl NetworkShape {
    /// There is at least one layer and consecutive layers fit.
    pub open spec fn wf(self) -> bool {
        &&& 1 <= self.layers.len()
        &&& layers_fit(self.layers@)
    }

    /// The width of the row the network consumes.
    pub open spec fn spec_input_size(self) -> int {
        self.layers[0].inputs as int
    }

    /// The width of the row the network produces.
    pub open spec fn spec_output_size(self) -> int {
        self.layers[self.layers.len() - 1].outputs as int
    }

    pub fn new(input_size: usize, output_size: usize) -> (s: Self)
        ensures
            s.wf(),
            s.layers@ == seq![(LayerShape { inputs: input_size, outputs: output_size })],
            s.spec_input_size() == input_size,
            s.spec_output_size() == output_size,
    {
        let mut layers: Vec<LayerShape> = Vec::new();
        layers.push(LayerShape { inputs: input_size, outputs: output_size });
        proof {
            assert(layers@ =~= seq![(LayerShape { inputs: input_size, outputs: output_size })]);
        }
        NetworkShape { layers }
    }

    /// Re-shapes the layer at `after` to end in `neurons` outputs — the
    /// caller discards whatever weights that layer held and draws fresh
    /// ones — and inserts a new layer directly behind it that restores the
    /// original output width, so the network's outer shape is preserved
    /// while it deepens by one layer.
    pub fn add_hidden_layer(&mut self, neurons: usize, after: usize) -> (r: Result<
        (),
        NetworkError,
    >)
        requires
            old(self).wf(),
            old(self).layers.len() < usize::MAX,
        ensures
            final(self).wf(),
            r is Err <==> after >= old(self).layers.len(),
            r matches Err(e) ==> e == NetworkError::InvalidLayerIndex && *final(self) == *old(
                self,
            ),
            r is Ok ==> final(self).layers@ == spec_inserted(
                old(self).layers@,
                neurons,
                after as int,
            ),
            final(self).spec_input_size() == old(self).spec_input_size(),
            final(self).spec_output_size() == old(self).spec_output_size(),
    {
        if after >= self.layers.len() {
            return Err(NetworkError::InvalidLayerIndex);
        }

        let input_size = self.layers[after].inputs;
        let output_size = self.layers[after].outputs;

        self.layers[after] = LayerShape { inputs: input_size, outputs: neurons };
        self.layers.insert(after + 1, LayerShape { inputs: neurons, outputs: output_size });

        proof {
            lemma_inserted_keeps_outer_shape(old(self).layers@, neurons, after as int);
            assert(self.layers@ =~= spec_inserted(old(self).layers@, neurons, after as int));
        }

        Ok(())
    }

    /// Accepts exactly the rows as wide as the first layer's input side.
    pub fn check_input_width(&self, width: usize) -> (r: Result<(), NetworkError>)
        requires
            self.wf(),
        ensures
            r is Ok <==> width == self.spec_input_size(),
            r matches Err(e) ==> e == NetworkError::ShapeMismatch,
    {
        if width == self.layers[0].inputs {
            Ok(())
        } else {
            Err(NetworkError::ShapeMismatch)
        }
    }

    /// Accepts exactly the rows as wide as the last layer's output side.
    pub fn check_target_width(&self, width: usize) -> (r: Result<(), NetworkError>)
        requires
            self.wf(),
        ensures
            r is Ok <==> width == self.spec_output_size(),
            r matches Err(e) ==> e == NetworkError::ShapeMismatch,
    {
        if width == self.layers[self.layers.len() - 1].outputs {
            Ok(())
        } else {
            Err(NetworkError::ShapeMismatch)
        }
    }
}

} // verus!
