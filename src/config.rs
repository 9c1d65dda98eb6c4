use vstd::prelude::*;

verus! {

/// The scalar nonlinearity applied to each neuron's weighted sum.
#[derive(Debug, Clone, Copy, PartialEq, Eq, Structural)]
pub enum Activation {
    /// `1 / (1 + e^-x)`
    Sigmoid,
    /// `(e^2x - 1) / (e^2x + 1)`
    Tanh,
    /// `x` when `x > 0`, else `0`
    Relu,
}

/// Where a network is kept, which activation it uses and the topology a fresh
/// network gets.
pub struct Config {
    pub path: String,
    pub activation: Activation,
    pub topology: Vec<usize>,
}

impl Config {
    /// The standard setup: `NN.txt`, sigmoid, and a 28x28 input through two
    /// hidden layers of 16 to ten outputs.
    pub fn standard() -> (c: Config)
        ensures
            c.path@ == "NN.txt"@,
            c.activation == Activation::Sigmoid,
            c.topology@ == seq![784usize, 16, 16, 10],
    {
        let path = "NN.txt";
        proof {
            reveal_strlit("NN.txt");
        }
        let topology: Vec<usize> = vec![784, 16, 16, 10];
        proof {
            assert(topology@ =~= seq![784usize, 16, 16, 10]);
        }
        Config { path: path.to_string(), activation: Activation::Sigmoid, topology }
    }
}

} // verus!
