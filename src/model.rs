use crate::error::NetworkError;
use vstd::prelude::*;

verus! {

/// A topology is usable when it has an input and an output layer and no
/// layer is empty.
pub open spec fn valid_sizes(sizes: Seq<usize>) -> bool {
    &&& sizes.len() >= 2
    &&& forall|i: int| 0 <= i < sizes.len() ==> sizes[i] > 0
}

/// Layer `i` holds `sizes[i + 1]` neuron vectors, each with one weight per
/// neuron of layer `i`; there is one weight layer between each pair of
/// consecutive layers.
pub open spec fn well_shaped<W>(sizes: Seq<usize>, weights: Seq<Vec<Vec<W>>>) -> bool {
    &&& weights.len() + 1 == sizes.len()
    &&& forall|i: int| 0 <= i < weights.len() ==> #[trigger] weights[i]@.len() == sizes[i + 1]
    &&& forall|i: int, j: int|
        0 <= i < weights.len() && 0 <= j < weights[i]@.len() ==> (#[trigger] weights[i]@[j])@.len()
            == sizes[i]
}

/// What a loaded or hand-built network must satisfy.
pub open spec fn parts_accepted<W>(sizes: Seq<usize>, weights: Seq<Vec<Vec<W>>>) -> bool {
    valid_sizes(sizes) && well_shaped(sizes, weights)
}

/// Every weight `weights[i][j][k]` is a value that `draw` gives for layer `i`,
/// neuron `j` and incoming connection `k`.
pub open spec fn drawn_from<W, F: Fn(usize, usize, usize) -> W>(
    draw: F,
    weights: Seq<Vec<Vec<W>>>,
) -> bool {
    forall|i: int, j: int, k: int|
        0 <= i < weights.len() && 0 <= j < weights[i]@.len() && 0 <= k < weights[i]@[j]@.len()
            ==> draw.ensures((i as usize, j as usize, k as usize), #[trigger] weights[i]@[j]@[k])
}

/// A multi-layer perceptron: its layer widths and its weights, without bias
/// terms.
pub struct NeuralNetwork<W> {
    sizes: Vec<usize>,
    weights: Vec<Vec<Vec<W>>>,
}

impl<W> NeuralNetwork<W> {
    /// The layer widths, input first.
    pub closed spec fn spec_sizes(&self) -> Seq<usize> {
        self.sizes@
    }

    /// The weight layers, in order.
    pub closed spec fn spec_weights(&self) -> Seq<Vec<Vec<W>>> {
        self.weights@
    }

    /// The invariant that every network holds.
    pub open spec fn wf(&self) -> bool {
        parts_accepted(self.spec_sizes(), self.spec_weights())
    }

    /// Builds a network for the topology `sizes`, taking weight `k` of neuron
    /// `j` in layer `i` from `draw(i, j, k)`. Fails with `InvalidTopology`
    /// exactly when `sizes` has fewer than two entries or an entry is zero.
    pub fn new<F: Fn(usize, usize, usize) -> W>(sizes: Vec<usize>, draw: F) -> (r: Result<
        Self,
        NetworkError,
    >)
        requires
            forall|i: usize, j: usize, k: usize| draw.requires((i, j, k)),
        ensures
            r is Ok <==> valid_sizes(sizes@),
            r matches Err(e) ==> e == NetworkError::InvalidTopology,
            r matches Ok(m) ==> {
                &&& m.wf()
                &&& m.spec_sizes() == sizes@
                &&& drawn_from(draw, m.spec_weights())
            },
    {
        if !valid_topology(&sizes) {
            return Err(NetworkError::InvalidTopology);
        }
        let mut weights: Vec<Vec<Vec<W>>> = Vec::new();
        let mut i: usize = 0;
        while i + 1 < sizes.len()
            invariant
                valid_sizes(sizes@),
                i + 1 <= sizes.len(),
                weights@.len() == i,
                forall|i: usize, j: usize, k: usize| draw.requires((i, j, k)),
                forall|l: int| 0 <= l < i ==> #[trigger] weights@[l]@.len() == sizes@[l + 1],
                forall|l: int, j: int|
                    0 <= l < i && 0 <= j < weights@[l]@.len() ==> (#[trigger] weights@[l]@[j])@.len()
                        == sizes@[l],
                drawn_from(draw, weights@),
            decreases sizes.len() - i,
        {
            let layer = draw_layer(i, sizes[i + 1], sizes[i], &draw);
            weights.push(layer);
            i = i + 1;
        }
        Ok(NeuralNetwork { sizes, weights })
    }

    /// Accepts `sizes` and `weights` as a network exactly when they satisfy
    /// its invariant; otherwise fails with `Deserialization`. A restored
    /// network is validated this way.
    pub fn from_parts(sizes: Vec<usize>, weights: Vec<Vec<Vec<W>>>) -> (r: Result<
        Self,
        NetworkError,
    >)
        ensures
            r is Ok <==> parts_accepted(sizes@, weights@),
            r matches Err(e) ==> e == NetworkError::Deserialization,
            r matches Ok(m) ==> m.wf() && m.spec_sizes() == sizes@ && m.spec_weights()
                == weights@,
    {
        if valid_topology(&sizes) && shape_matches(&sizes, &weights) {
            Ok(NeuralNetwork { sizes, weights })
        } else {
            Err(NetworkError::Deserialization)
        }
    }

    /// Gives the network up as its layer widths and weights.
    pub fn into_parts(self) -> (r: (Vec<usize>, Vec<Vec<Vec<W>>>))
        ensures
            r.0@ == self.spec_sizes(),
            r.1@ == self.spec_weights(),
    {
        (self.sizes, self.weights)
    }

    /// The layer widths, input first.
    pub fn sizes(&self) -> (r: &Vec<usize>)
        ensures
            r@ == self.spec_sizes(),
    {
        &self.sizes
    }

    /// The weight layers, in order.
    pub fn weights(&self) -> (r: &Vec<Vec<Vec<W>>>)
        ensures
            r@ == self.spec_weights(),
    {
        &self.weights
    }
}

/// Saving and restoring keeps a network: the layer widths and weights of a
/// valid network are accepted by `from_parts`, whose contract then hands back
/// a network with exactly those widths and weights.
pub proof fn lemma_parts_round_trip<W>(m: NeuralNetwork<W>)
    requires
        m.wf(),
    ensures
        parts_accepted(m.spec_sizes(), m.spec_weights()),
{
}

/// Whether `sizes` is a usable topology.
pub fn valid_topology(sizes: &Vec<usize>) -> (r: bool)
    ensures
        r == valid_sizes(sizes@),
{
    if sizes.len() < 2 {
        return false;
    }
    let mut i: usize = 0;
    while i < sizes.len()
        invariant
            i <= sizes.len(),
            forall|l: int| 0 <= l < i ==> sizes@[l] > 0,
        decreases sizes.len() - i,
    {
        if sizes[i] == 0 {
            return false;
        }
        i = i + 1;
    }
    true
}

/// Whether `weights` has the shape that the topology `sizes` asks for.
pub fn shape_matches<W>(sizes: &Vec<usize>, weights: &Vec<Vec<Vec<W>>>) -> (r: bool)
    ensures
        r == well_shaped(sizes@, weights@),
{
    if sizes.len() == 0 || weights.len() != sizes.len() - 1 {
        return false;
    }
    let mut i: usize = 0;
    while i < weights.len()
        invariant
            weights@.len() + 1 == sizes@.len(),
            i <= weights.len(),
            forall|l: int| 0 <= l < i ==> #[trigger] weights@[l]@.len() == sizes@[l + 1],
            forall|l: int, j: int|
                0 <= l < i && 0 <= j < weights@[l]@.len() ==> (#[trigger] weights@[l]@[j])@.len()
                    == sizes@[l],
        decreases weights.len() - i,
    {
        let layer = &weights[i];
        if layer.len() != sizes[i + 1] {
            return false;
        }
        let mut j: usize = 0;
        while j < layer.len()
            invariant
                weights@.len() + 1 == sizes@.len(),
                i < weights.len(),
                *layer == weights@[i as int],
                j <= layer.len(),
                forall|n: int| 0 <= n < j ==> (#[trigger] layer@[n])@.len() == sizes@[i as int],
            decreases layer.len() - j,
        {
            if layer[j].len() != sizes[i] {
                return false;
            }
            j = j + 1;
        }
        i = i + 1;
    }
    true
}

/// Draws the `height` neuron vectors of weight layer `layer`, each `width` long.
fn draw_layer<W, F: Fn(usize, usize, usize) -> W>(
    layer: usize,
    height: usize,
    width: usize,
    draw: &F,
) -> (r: Vec<Vec<W>>)
    requires
        forall|i: usize, j: usize, k: usize| draw.requires((i, j, k)),
    ensures
        r@.len() == height,
        forall|j: int| 0 <= j < height ==> (#[trigger] r@[j])@.len() == width,
        forall|j: int, k: int|
            0 <= j < height && 0 <= k < width ==> draw.ensures(
                (layer, j as usize, k as usize),
                #[trigger] r@[j]@[k],
            ),
{
    let mut rows: Vec<Vec<W>> = Vec::new();
    let mut j: usize = 0;
    while j < height
        invariant
            forall|i: usize, j: usize, k: usize| draw.requires((i, j, k)),
            j <= height,
            rows@.len() == j,
            forall|n: int| 0 <= n < j ==> (#[trigger] rows@[n])@.len() == width,
            forall|n: int, k: int|
                0 <= n < j && 0 <= k < width ==> draw.ensures(
                    (layer, n as usize, k as usize),
                    #[trigger] rows@[n]@[k],
                ),
        decreases height - j,
    {
        let mut row: Vec<W> = Vec::new();
        let mut k: usize = 0;
        while k < width
            invariant
                forall|i: usize, j: usize, k: usize| draw.requires((i, j, k)),
                k <= width,
                row@.len() == k,
                forall|m: int| 0 <= m < k ==> draw.ensures((layer, j, m as usize), #[trigger] row@[m]),
            decreases width - k,
        {
            let w = draw(layer, j, k);
            row.push(w);
            k = k + 1;
        }
        rows.push(row);
        j = j + 1;
    }
    rows
}

} // verus!
