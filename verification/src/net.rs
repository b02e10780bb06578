//! Neuron, layer and multilayer perceptron: thin compositions over the
//! scalar engine with no algorithmic behavior beyond forward evaluation.
//!
//! Construction samples every weight and bias independently and uniformly
//! from the open interval (-1, 1). The sampling itself is the caller's:
//! construction takes a pool of sampled encodings (`entropy`) and a cursor
//! into it, draws the words it needs in order, and advances the cursor; the
//! contracts pin exactly which word lands where. Forward evaluation likewise
//! takes the caller's IEEE-754 dot products (`activations`) and pins
//! everything downstream of them: rectification, wrapping, shapes and order.

use vstd::prelude::*;

use crate::engine::is_fresh_leaf;
use crate::engine::is_relu_of;
use crate::engine::relu_data_bits;
use crate::engine::Value;

verus! {

/// A neuron: a sequence of weight scalars and one bias scalar, all leaves.
#[derive(Debug)]
pub struct Neuron {
    pub w: Vec<Value>,
    pub b: Value,
}

/// A layer: a sequence of neurons evaluated on the same input.
#[derive(Debug)]
pub struct Layer {
    pub neurons: Vec<Neuron>,
}

/// A multilayer perceptron: a sequence of layers evaluated left to right.
#[derive(Debug)]
pub struct MLP {
    pub layers: Vec<Layer>,
}

/// The neuron holds `nin` fresh leaf weights drawn from `entropy` starting
/// at position `at`, in order, and a fresh leaf bias drawn right after them.
pub open spec fn neuron_drawn_at(n: Neuron, nin: usize, entropy: Seq<u64>, at: int) -> bool {
    &&& n.w@.len() == nin
    &&& forall|i: int| 0 <= i < nin ==> is_fresh_leaf(#[trigger] n.w@[i], entropy[at + i])
    &&& is_fresh_leaf(n.b, entropy[at + nin])
}

/// The layer holds `nout` neurons of `nin` inputs each, drawn from `entropy`
/// in neuron order starting at position `at`, each neuron taking the
/// `nin + 1` words that follow the previous neuron's.
pub open spec fn layer_drawn_at(l: Layer, nin: usize, nout: usize, entropy: Seq<u64>, at: int) -> bool {
    &&& l.neurons@.len() == nout
    &&& forall|j: int|
        0 <= j < nout ==> neuron_drawn_at(#[trigger] l.neurons@[j], nin, entropy, at + j * (nin + 1))
}

/// The input width of layer `j` of a perceptron built on `nin` inputs with
/// layer widths `nouts`: the first layer reads the inputs, every later layer
/// reads the previous layer's outputs.
pub open spec fn fan_in(nin: usize, nouts: Seq<usize>, j: int) -> usize {
    if j == 0 {
        nin
    } else {
        nouts[j - 1]
    }
}

/// How many entropy words the first `j` layers of such a perceptron draw:
/// layer `k` draws `nouts[k]` neurons of `fan_in(k) + 1` words each.
pub open spec fn params_upto(nin: usize, nouts: Seq<usize>, j: int) -> int
    decreases j,
{
    if j <= 0 {
        0
    } else {
        params_upto(nin, nouts, j - 1) + nouts[j - 1] * (fan_in(nin, nouts, j - 1) + 1)
    }
}

proof fn lemma_params_upto_monotone(nin: usize, nouts: Seq<usize>, a: int, b: int)
    requires
        0 <= a <= b <= nouts.len(),
    ensures
        params_upto(nin, nouts, a) <= params_upto(nin, nouts, b),
    decreases b,
{
    if a < b {
        lemma_params_upto_monotone(nin, nouts, a, b - 1);
        assert(nouts[b - 1] * (fan_in(nin, nouts, b - 1) + 1) >= 0) by (nonlinear_arith)
            requires
                nouts[b - 1] >= 0,
                fan_in(nin, nouts, b - 1) >= 0,
        ;
    }
}

impl Neuron {
    /// Construction: draws `nin` weight words and then one bias word from
    /// `entropy` at the cursor, wraps each as a fresh leaf, and advances the
    /// cursor past them. The words are uniform samples from (-1, 1) that the
    /// caller put there.
    pub fn new(nin: usize, entropy: &Vec<u64>, cursor: &mut usize) -> (n: Neuron)
        requires
            *old(cursor) + nin + 1 <= entropy@.len(),
        ensures
            *final(cursor) == *old(cursor) + nin + 1,
            neuron_drawn_at(n, nin, entropy@, *old(cursor) as int),
    {
        let ghost start: usize = *cursor;
        let total: usize = entropy.len();
        let mut w: Vec<Value> = Vec::new();
        let mut i: usize = 0;
        while i < nin
            invariant
                start + nin + 1 <= total,
                total == entropy@.len(),
                i <= nin,
                *cursor == start + i,
                w@.len() == i,
                forall|k: int| 0 <= k < i ==> is_fresh_leaf(#[trigger] w@[k], entropy@[start + k]),
            decreases nin - i,
        {
            let v = Value::new(entropy[*cursor]);
            w.push(v);
            *cursor = *cursor + 1;
            i = i + 1;
        }
        let b = Value::new(entropy[*cursor]);
        *cursor = *cursor + 1;
        Neuron { w, b }
    }

    /// Forward evaluation. `activation` is the caller's IEEE-754 weighted
    /// sum of the weights' payloads with the inputs, plus the bias payload.
    /// The result wraps that activation as a fresh leaf and rectifies it, so
    /// no lineage to the weights or bias survives.
    pub fn call(&self, activation: u64) -> (v: Value)
        ensures
            is_relu_of(v, activation),
    {
        let out = Value::new(activation);
        out.relu()
    }
}

impl Layer {
    /// Construction: draws `nout` neurons of `nin` inputs each from
    /// `entropy` at the cursor, in order, and advances the cursor past the
    /// `nout * (nin + 1)` words they take.
    pub fn new(nin: usize, nout: usize, entropy: &Vec<u64>, cursor: &mut usize) -> (l: Layer)
        requires
            *old(cursor) + nout * (nin + 1) <= entropy@.len(),
        ensures
            *final(cursor) == *old(cursor) + nout * (nin + 1),
            layer_drawn_at(l, nin, nout, entropy@, *old(cursor) as int),
    {
        let ghost start: usize = *cursor;
        let total: usize = entropy.len();
        let mut neurons: Vec<Neuron> = Vec::new();
        let mut j: usize = 0;
        while j < nout
            invariant
                start + nout * (nin + 1) <= total,
                total == entropy@.len(),
                j <= nout,
                *cursor == start + j * (nin + 1),
                neurons@.len() == j,
                forall|k: int|
                    0 <= k < j ==> neuron_drawn_at(
                        #[trigger] neurons@[k],
                        nin,
                        entropy@,
                        start + k * (nin + 1),
                    ),
            decreases nout - j,
        {
            proof {
                assert((j + 1) * (nin + 1) == j * (nin + 1) + (nin + 1)) by (nonlinear_arith);
                assert((j + 1) * (nin + 1) <= nout * (nin + 1)) by (nonlinear_arith)
                    requires
                        j + 1 <= nout,
                        nin >= 0,
                ;
            }
            let n = Neuron::new(nin, entropy, cursor);
            neurons.push(n);
            j = j + 1;
        }
        Layer { neurons }
    }

    /// Forward evaluation of every neuron on the same input:
    /// `activations[j]` is the caller's weighted sum for neuron `j`. The
    /// outputs keep neuron construction order.
    pub fn call(&self, activations: &Vec<u64>) -> (out: Vec<Value>)
        requires
            activations@.len() == self.neurons@.len(),
        ensures
            out@.len() == self.neurons@.len(),
            forall|j: int| 0 <= j < out@.len() ==> is_relu_of(#[trigger] out@[j], activations@[j]),
    {
        let mut out: Vec<Value> = Vec::new();
        let mut j: usize = 0;
        while j < self.neurons.len()
            invariant
                activations@.len() == self.neurons@.len(),
                j <= self.neurons@.len(),
                out@.len() == j,
                forall|k: int| 0 <= k < j ==> is_relu_of(#[trigger] out@[k], activations@[k]),
            decreases self.neurons@.len() - j,
        {
            let v = self.neurons[j].call(activations[j]);
            out.push(v);
            j = j + 1;
        }
        out
    }
}

impl MLP {
    /// Construction on `nin` inputs with layer widths `nouts`: layer `j` has
    /// `nouts[j]` neurons of `fan_in(j)` inputs each, so each layer's output
    /// width equals the next layer's input width. The layers draw their
    /// words from `entropy` at the cursor, in layer order.
    pub fn new(nin: usize, nouts: Vec<usize>, entropy: &Vec<u64>, cursor: &mut usize) -> (m: MLP)
        requires
            *old(cursor) + params_upto(nin, nouts@, nouts@.len() as int) <= entropy@.len(),
        ensures
            *final(cursor) == *old(cursor) + params_upto(nin, nouts@, nouts@.len() as int),
            m.layers@.len() == nouts@.len(),
            forall|j: int|
                0 <= j < nouts@.len() ==> layer_drawn_at(
                    #[trigger] m.layers@[j],
                    fan_in(nin, nouts@, j),
                    nouts@[j],
                    entropy@,
                    *old(cursor) + params_upto(nin, nouts@, j),
                ),
    {
        let ghost start: usize = *cursor;
        let total: usize = entropy.len();
        let mut layers: Vec<Layer> = Vec::new();
        let mut cur_in: usize = nin;
        let mut j: usize = 0;
        while j < nouts.len()
            invariant
                start + params_upto(nin, nouts@, nouts@.len() as int) <= total,
                total == entropy@.len(),
                j <= nouts@.len(),
                cur_in == fan_in(nin, nouts@, j as int),
                *cursor == start + params_upto(nin, nouts@, j as int),
                layers@.len() == j,
                forall|k: int|
                    0 <= k < j ==> layer_drawn_at(
                        #[trigger] layers@[k],
                        fan_in(nin, nouts@, k),
                        nouts@[k],
                        entropy@,
                        start + params_upto(nin, nouts@, k),
                    ),
            decreases nouts@.len() - j,
        {
            let nout = nouts[j];
            proof {
                lemma_params_upto_monotone(nin, nouts@, j as int + 1, nouts@.len() as int);
                assert(params_upto(nin, nouts@, j as int + 1) == params_upto(nin, nouts@, j as int)
                    + nouts@[j as int] * (fan_in(nin, nouts@, j as int) + 1));
            }
            let l = Layer::new(cur_in, nout, entropy, cursor);
            layers.push(l);
            cur_in = nout;
            j = j + 1;
        }
        MLP { layers }
    }

    /// Forward evaluation. `x` carries the input payloads; `activations[i]`
    /// carries the caller's weighted sums for layer `i`, computed from the
    /// payloads the previous layer produced -- between layers only those
    /// payloads survive. The result re-wraps the last layer's payloads as
    /// fresh leaves, discarding gradient lineage; with no layers the inputs
    /// themselves are wrapped.
    pub fn call(&self, x: &Vec<u64>, activations: &Vec<Vec<u64>>) -> (out: Vec<Value>)
        requires
            activations@.len() == self.layers@.len(),
            forall|i: int|
                0 <= i < activations@.len() ==> (#[trigger] activations@[i])@.len()
                    == self.layers@[i].neurons@.len(),
        ensures
            self.layers@.len() == 0 ==> out@.len() == x@.len() && forall|j: int|
                0 <= j < x@.len() ==> is_fresh_leaf(#[trigger] out@[j], x@[j]),
            self.layers@.len() > 0 ==> ({
                let last = activations@[activations@.len() - 1]@;
                out@.len() == last.len() && forall|j: int|
                    0 <= j < last.len() ==> is_fresh_leaf(#[trigger] out@[j], relu_data_bits(last[j]))
            }),
    {
        if self.layers.len() == 0 {
            return wrap_leaves(x);
        }
        let mut last: Vec<Value> = self.layers[0].call(&activations[0]);
        let mut i: usize = 1;
        while i < self.layers.len()
            invariant
                activations@.len() == self.layers@.len(),
                forall|k: int|
                    0 <= k < activations@.len() ==> (#[trigger] activations@[k])@.len()
                        == self.layers@[k].neurons@.len(),
                1 <= i <= self.layers@.len(),
                last@.len() == activations@[i - 1]@.len(),
                forall|j: int|
                    0 <= j < last@.len() ==> is_relu_of(#[trigger] last@[j], activations@[i - 1]@[j]),
            decreases self.layers@.len() - i,
        {
            last = self.layers[i].call(&activations[i]);
            i = i + 1;
        }
        let data = data_of(&last);
        wrap_leaves(&data)
    }
}

/// The payloads of a sequence of values, in order.
fn data_of(vals: &Vec<Value>) -> (out: Vec<u64>)
    ensures
        out@.len() == vals@.len(),
        forall|j: int| 0 <= j < vals@.len() ==> out@[j] == vals@[j].data,
{
    let mut out: Vec<u64> = Vec::new();
    let mut j: usize = 0;
    while j < vals.len()
        invariant
            j <= vals@.len(),
            out@.len() == j,
            forall|k: int| 0 <= k < j ==> out@[k] == vals@[k].data,
        decreases vals@.len() - j,
    {
        out.push(vals[j].data);
        j = j + 1;
    }
    out
}

/// Fresh leaves wrapping the given payloads, in order.
fn wrap_leaves(data: &Vec<u64>) -> (out: Vec<Value>)
    ensures
        out@.len() == data@.len(),
        forall|j: int| 0 <= j < data@.len() ==> is_fresh_leaf(#[trigger] out@[j], data@[j]),
{
    let mut out: Vec<Value> = Vec::new();
    let mut j: usize = 0;
    while j < data.len()
        invariant
            j <= data@.len(),
            out@.len() == j,
            forall|k: int| 0 <= k < j ==> is_fresh_leaf(#[trigger] out@[k], data@[k]),
        decreases data@.len() - j,
    {
        let v = Value::new(data[j]);
        out.push(v);
        j = j + 1;
    }
    out
}

} // verus!
