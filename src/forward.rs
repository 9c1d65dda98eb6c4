use crate::error::NetworkError;
use crate::model::NeuralNetwork;
use vstd::prelude::*;

verus! {

/// `neuron` can be applied to an activation vector and a neuron vector of the
/// same length.
pub open spec fn accepts_matching<W, F: Fn(&Vec<W>, &Vec<W>) -> W>(neuron: F) -> bool {
    forall|a: &Vec<W>, w: &Vec<W>| a@.len() == w@.len() ==> #[trigger] neuron.requires((a, w))
}

/// What `neuron` gives depends on the contents of its two vectors alone.
pub open spec fn content_determined<W, F: Fn(&Vec<W>, &Vec<W>) -> W>(neuron: F) -> bool {
    forall|a1: &Vec<W>, w1: &Vec<W>, a2: &Vec<W>, w2: &Vec<W>, r1: W, r2: W|
        a1@ == a2@ && w1@ == w2@ && #[trigger] neuron.ensures((a1, w1), r1)
            && #[trigger] neuron.ensures((a2, w2), r2) ==> r1 == r2
}

/// `out` is what the neurons of `layer` give on `acts`: entry `j` is a result
/// of `neuron` on `acts` and the `j`-th neuron vector.
pub open spec fn layer_output<W, F: Fn(&Vec<W>, &Vec<W>) -> W>(
    neuron: F,
    acts: Vec<W>,
    layer: Seq<Vec<W>>,
    out: Seq<W>,
) -> bool {
    &&& out.len() == layer.len()
    &&& forall|j: int| 0 <= j < layer.len() ==> neuron.ensures((&acts, &layer[j]), #[trigger] out[j])
}

/// `trace` lists the activations of every layer: `trace[i + 1]` is what weight
/// layer `i` gives on `trace[i]`.
pub open spec fn propagates<W, F: Fn(&Vec<W>, &Vec<W>) -> W>(
    neuron: F,
    layers: Seq<Vec<Vec<W>>>,
    trace: Seq<Vec<W>>,
) -> bool {
    &&& trace.len() == layers.len() + 1
    &&& forall|i: int|
        #![trigger layers[i]]
        0 <= i < layers.len() ==> layer_output(neuron, trace[i], layers[i]@, trace[i + 1]@)
}

/// `out` is the output that forward propagation through `m` gives on `input`.
pub open spec fn run_result<W, F: Fn(&Vec<W>, &Vec<W>) -> W>(
    neuron: F,
    m: NeuralNetwork<W>,
    input: Seq<W>,
    out: Seq<W>,
) -> bool {
    exists|t: Seq<Vec<W>>|
        #![trigger propagates(neuron, m.spec_weights(), t)]
        propagates(neuron, m.spec_weights(), t) && t[0]@ == input && t.last()@ == out
}

/// Two traces through the same layers that start from vectors with equal
/// contents agree, layer by layer, up to layer `n`.
proof fn lemma_traces_agree<W, F: Fn(&Vec<W>, &Vec<W>) -> W>(
    neuron: F,
    layers: Seq<Vec<Vec<W>>>,
    t1: Seq<Vec<W>>,
    t2: Seq<Vec<W>>,
    n: int,
)
    requires
        content_determined(neuron),
        propagates(neuron, layers, t1),
        propagates(neuron, layers, t2),
        t1[0]@ == t2[0]@,
        0 <= n <= layers.len(),
    ensures
        t1[n]@ == t2[n]@,
    decreases n,
{
    if n > 0 {
        lemma_traces_agree(neuron, layers, t1, t2, n - 1);
        let layer = layers[n - 1];
        assert(layer_output(neuron, t1[n - 1], layer@, t1[n]@));
        assert(layer_output(neuron, t2[n - 1], layer@, t2[n]@));
        assert forall|j: int| 0 <= j < t1[n]@.len() implies t1[n]@[j] == t2[n]@[j] by {
            assert(neuron.ensures((&t1[n - 1], &layer@[j]), t1[n]@[j]));
            assert(neuron.ensures((&t2[n - 1], &layer@[j]), t2[n]@[j]));
        }
        assert(t1[n]@ =~= t2[n]@);
    }
}

/// Inference is deterministic: with a neuron function whose result depends on
/// the contents of its arguments alone, running the same network twice on the
/// same input gives the same output.
pub proof fn lemma_run_deterministic<W, F: Fn(&Vec<W>, &Vec<W>) -> W>(
    neuron: F,
    m: NeuralNetwork<W>,
    input: Seq<W>,
    out1: Seq<W>,
    out2: Seq<W>,
)
    requires
        m.wf(),
        content_determined(neuron),
        run_result(neuron, m, input, out1),
        run_result(neuron, m, input, out2),
    ensures
        out1 == out2,
{
    let t1 = choose|t: Seq<Vec<W>>|
        propagates(neuron, m.spec_weights(), t) && t[0]@ == input && t.last()@ == out1;
    let t2 = choose|t: Seq<Vec<W>>|
        propagates(neuron, m.spec_weights(), t) && t[0]@ == input && t.last()@ == out2;
    lemma_traces_agree(neuron, m.spec_weights(), t1, t2, m.spec_weights().len() as int);
}

/// Applies one weight layer: entry `j` of the result is `neuron` on `acts` and
/// the `j`-th neuron vector of `layer`, in order.
pub fn process_layer<W, F: Fn(&Vec<W>, &Vec<W>) -> W>(
    acts: &Vec<W>,
    layer: &Vec<Vec<W>>,
    neuron: &F,
) -> (r: Vec<W>)
    requires
        accepts_matching(*neuron),
        forall|j: int| 0 <= j < layer@.len() ==> (#[trigger] layer@[j])@.len() == acts@.len(),
    ensures
        layer_output(*neuron, *acts, layer@, r@),
{
    let mut result: Vec<W> = Vec::new();
    let mut j: usize = 0;
    while j < layer.len()
        invariant
            accepts_matching(*neuron),
            forall|n: int| 0 <= n < layer@.len() ==> (#[trigger] layer@[n])@.len() == acts@.len(),
            j <= layer.len(),
            result@.len() == j,
            forall|n: int|
                0 <= n < j ==> neuron.ensures((acts, &layer@[n]), #[trigger] result@[n]),
        decreases layer.len() - j,
    {
        let row = &layer[j];
        assert(neuron.requires((acts, row)));
        let v = neuron(acts, row);
        result.push(v);
        j = j + 1;
    }
    result
}

impl<W> NeuralNetwork<W> {
    /// Forward propagation: each weight layer in turn maps the current
    /// activations, starting from `input`, to the next ones. Fails with
    /// `DimensionMismatch` exactly when `input`'s length is not the input width.
    pub fn run<F: Fn(&Vec<W>, &Vec<W>) -> W>(&self, input: Vec<W>, neuron: &F) -> (r: Result<
        Vec<W>,
        NetworkError,
    >)
        requires
            self.wf(),
            accepts_matching(*neuron),
        ensures
            r is Err <==> input@.len() != self.spec_sizes()[0],
            r matches Err(e) ==> e == NetworkError::DimensionMismatch,
            r matches Ok(out) ==> {
                &&& out@.len() == self.spec_sizes().last()
                &&& run_result(*neuron, *self, input@, out@)
            },
    {
        let weights = self.weights();
        let sizes = self.sizes();
        if input.len() != sizes[0] {
            return Err(NetworkError::DimensionMismatch);
        }
        let ghost first = input@;
        let mut data = input;
        let ghost mut trace: Seq<Vec<W>> = seq![data];
        let mut i: usize = 0;
        while i < weights.len()
            invariant
                self.wf(),
                accepts_matching(*neuron),
                weights@ == self.spec_weights(),
                sizes@ == self.spec_sizes(),
                i <= weights.len(),
                trace.len() == i + 1,
                trace[0]@ == first,
                trace.last() == data,
                data@.len() == sizes@[i as int],
                forall|l: int|
                    #![trigger weights@[l]]
                    0 <= l < i ==> layer_output(*neuron, trace[l], weights@[l]@, trace[l + 1]@),
            decreases weights.len() - i,
        {
            let layer = &weights[i];
            assert(forall|j: int|
                0 <= j < layer@.len() ==> (#[trigger] layer@[j])@.len() == data@.len());
            let next = process_layer(&data, layer, neuron);
            proof {
                trace = trace.push(next);
            }
            data = next;
            i = i + 1;
        }
        proof {
            assert(propagates(*neuron, weights@, trace));
        }
        Ok(data)
    }
}

} // verus!
