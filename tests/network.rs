use perceptron::config::{Activation, Config};
use perceptron::error::NetworkError;
use perceptron::forward::process_layer;
use perceptron::model::{shape_matches, valid_topology, NeuralNetwork};

fn relu(x: f32) -> f32 {
    if x > 0.0 {
        x
    } else {
        0.0
    }
}

fn dot(a: &Vec<f32>, w: &Vec<f32>) -> f32 {
    let mut sum = 0.0_f32;
    for k in 0..a.len() {
        sum += a[k] * w[k];
    }
    sum
}

fn relu_neuron(a: &Vec<f32>, w: &Vec<f32>) -> f32 {
    relu(dot(a, w))
}

fn indexed(i: usize, j: usize, k: usize) -> f32 {
    (i * 100 + j * 10 + k) as f32
}

fn example_model() -> NeuralNetwork<f32> {
    NeuralNetwork::from_parts(
        vec![2, 2, 1],
        vec![vec![vec![1.0, 0.0], vec![0.0, 1.0]], vec![vec![1.0, 1.0]]],
    )
    .unwrap()
}

#[test]
fn new_builds_layers_of_the_requested_shape() {
    let sizes = vec![3, 4, 2, 5];
    let m = NeuralNetwork::new(sizes.clone(), |_i: usize, _j: usize, _k: usize| 0.5_f32).unwrap();
    assert_eq!(m.sizes(), &sizes);
    assert_eq!(m.weights().len(), sizes.len() - 1);
    for i in 0..m.weights().len() {
        assert_eq!(m.weights()[i].len(), sizes[i + 1]);
        for neuron in &m.weights()[i] {
            assert_eq!(neuron.len(), sizes[i]);
        }
    }
}

#[test]
fn new_takes_each_weight_from_its_draw() {
    let m = NeuralNetwork::new(vec![2, 3, 1], indexed).unwrap();
    assert_eq!(m.weights()[0][2][1], 21.0);
    assert_eq!(m.weights()[1][0][2], 102.0);
    assert_eq!(m.weights()[0][0][0], 0.0);
}

#[test]
fn new_with_random_weights_in_range() {
    let mut state: u32 = 12345;
    let draws: Vec<f32> = (0..4 * 3 + 3 * 2)
        .map(|_| {
            state = state.wrapping_mul(1103515245).wrapping_add(12345);
            (state >> 8) as f32 / (1u32 << 23) as f32 - 1.0
        })
        .collect();
    let m = NeuralNetwork::new(vec![4, 3, 2], |i: usize, j: usize, k: usize| {
        if i == 0 {
            draws[j * 4 + k]
        } else {
            draws[12 + j * 3 + k]
        }
    })
    .unwrap();
    for layer in m.weights() {
        for neuron in layer {
            for w in neuron {
                assert!(*w >= -1.0 && *w < 1.0);
            }
        }
    }
}

#[test]
fn new_rejects_invalid_topologies() {
    let empty: Vec<usize> = vec![];
    assert_eq!(NeuralNetwork::new(empty, indexed).err(), Some(NetworkError::InvalidTopology));
    assert_eq!(NeuralNetwork::new(vec![5], indexed).err(), Some(NetworkError::InvalidTopology));
    assert_eq!(
        NeuralNetwork::new(vec![3, 0, 2], indexed).err(),
        Some(NetworkError::InvalidTopology)
    );
}

#[test]
fn valid_topology_cases() {
    assert!(valid_topology(&vec![1, 1]));
    assert!(valid_topology(&vec![784, 16, 16, 10]));
    assert!(!valid_topology(&vec![]));
    assert!(!valid_topology(&vec![7]));
    assert!(!valid_topology(&vec![2, 3, 0]));
}

#[test]
fn run_gives_output_width_and_is_deterministic() {
    let m = NeuralNetwork::new(vec![3, 5, 4, 2], indexed).unwrap();
    let x = vec![0.5_f32, -1.0, 2.0];
    let a = m.run(x.clone(), &relu_neuron).unwrap();
    let b = m.run(x, &relu_neuron).unwrap();
    assert_eq!(a.len(), 2);
    assert_eq!(a, b);
}

#[test]
fn run_rejects_wrong_input_length() {
    let m = example_model();
    assert_eq!(m.run(vec![1.0], &relu_neuron), Err(NetworkError::DimensionMismatch));
    assert_eq!(m.run(vec![1.0, 2.0, 3.0], &relu_neuron), Err(NetworkError::DimensionMismatch));
    let empty: Vec<f32> = vec![];
    assert_eq!(m.run(empty, &relu_neuron), Err(NetworkError::DimensionMismatch));
}

#[test]
fn end_to_end_relu_network() {
    let m = example_model();
    assert_eq!(m.run(vec![3.0, -2.0], &relu_neuron), Ok(vec![3.0]));
}

#[test]
fn process_layer_applies_each_neuron_in_order() {
    let layer = vec![vec![1.0_f32, 0.0], vec![0.0, 1.0], vec![2.0, 2.0]];
    let out = process_layer(&vec![3.0_f32, -2.0], &layer, &|a: &Vec<f32>, w: &Vec<f32>| dot(a, w));
    assert_eq!(out, vec![3.0, -2.0, 2.0]);
    let out = process_layer(&vec![3.0_f32, -2.0], &layer, &relu_neuron);
    assert_eq!(out, vec![3.0, 0.0, 2.0]);
}

#[test]
fn parts_round_trip() {
    let m = NeuralNetwork::new(vec![2, 3, 1], indexed).unwrap();
    let (sizes, weights) = m.into_parts();
    let back = NeuralNetwork::from_parts(sizes.clone(), weights.clone()).unwrap();
    assert_eq!(back.sizes(), &sizes);
    assert_eq!(back.weights(), &weights);
}

#[test]
fn text_round_trip_keeps_every_weight() {
    let m = NeuralNetwork::new(vec![3, 2, 2], |i: usize, j: usize, k: usize| {
        (i as f32 + 0.1) * (j as f32 - 0.7) / (k as f32 + 3.0)
    })
    .unwrap();
    let (sizes, weights) = m.into_parts();
    let text = serde_json::to_string(&(sizes.clone(), weights.clone())).unwrap();
    let (s2, w2): (Vec<usize>, Vec<Vec<Vec<f32>>>) = serde_json::from_str(&text).unwrap();
    let back = NeuralNetwork::from_parts(s2, w2).unwrap();
    assert_eq!(back.sizes(), &sizes);
    assert_eq!(back.weights(), &weights);
}

#[test]
fn from_parts_rejects_invalid_content() {
    let bad_sizes = NeuralNetwork::<f32>::from_parts(vec![2], vec![]);
    assert_eq!(bad_sizes.err(), Some(NetworkError::Deserialization));
    let zero = NeuralNetwork::<f32>::from_parts(vec![0, 1], vec![vec![]]);
    assert_eq!(zero.err(), Some(NetworkError::Deserialization));
    let missing_layer = NeuralNetwork::<f32>::from_parts(vec![1, 1, 1], vec![vec![vec![1.0]]]);
    assert_eq!(missing_layer.err(), Some(NetworkError::Deserialization));
    let short_neuron =
        NeuralNetwork::<f32>::from_parts(vec![2, 1], vec![vec![vec![1.0]]]);
    assert_eq!(short_neuron.err(), Some(NetworkError::Deserialization));
    let extra_neuron =
        NeuralNetwork::<f32>::from_parts(vec![1, 1], vec![vec![vec![1.0], vec![2.0]]]);
    assert_eq!(extra_neuron.err(), Some(NetworkError::Deserialization));
}

#[test]
fn shape_matches_cases() {
    let w: Vec<Vec<Vec<u8>>> = vec![vec![vec![1, 2], vec![3, 4], vec![5, 6]]];
    assert!(shape_matches(&vec![2, 3], &w));
    assert!(!shape_matches(&vec![3, 2], &w));
    assert!(!shape_matches(&vec![2, 3, 1], &w));
    assert!(!shape_matches(&vec![], &w));
}

#[test]
fn standard_config() {
    let c = Config::standard();
    assert_eq!(c.path, "NN.txt");
    assert_eq!(c.activation, Activation::Sigmoid);
    assert_eq!(c.topology, vec![784, 16, 16, 10]);
}
