//! A small feedforward neural-network inference engine.
//!
//! A network is a topology (the width of each layer) and, for every pair of
//! consecutive layers, one weight vector per neuron of the later layer.
//! The library validates topologies and shapes, builds networks from a source of
//! weights, and propagates an input vector through the layers. The scalar
//! arithmetic (a neuron's dot product and its activation function) is handed in
//! by the caller, so the library is generic in the weight type.

pub mod config;
pub mod error;
pub mod forward;
pub mod model;
