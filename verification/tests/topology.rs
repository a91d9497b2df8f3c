use edla_rs::network::{
    EDNetwork, ErrorRoute, LayerType, NetworkConfig, NetworkDimensions, NetworkError, NetworkLayer,
};
use edla_rs::neuron::{ErrorChannel, NeuronType};
use edla_rs::{MAX_NETWORK_SIZE, MAX_OUTPUT_NETWORKS};

fn all_flags(on: bool) -> NetworkConfig {
    NetworkConfig {
        timesteps: 2,
        flag_multilayer: on,
        flag_loop_cutting: on,
        flag_self_loop_cutting: on,
        flag_inhibitory_inputs: on,
        mode_weight_decrement: false,
    }
}

fn edges(net: &EDNetwork) -> Vec<(usize, usize)> {
    let mut all: Vec<(usize, usize)> = Vec::new();
    for row in net.connections.iter() {
        for c in row.iter() {
            all.push((c.from, c.to));
        }
    }
    all
}

#[test]
fn limits() {
    assert_eq!(MAX_NETWORK_SIZE, 1000);
    assert_eq!(MAX_OUTPUT_NETWORKS, 10);
}

#[test]
fn default_config() {
    let c = NetworkConfig::default();
    assert_eq!(c.timesteps, 2);
    assert!(c.flag_multilayer);
    assert!(c.flag_loop_cutting);
    assert!(c.flag_self_loop_cutting);
    assert!(c.flag_inhibitory_inputs);
    assert!(!c.mode_weight_decrement);
    assert!(!c.applies_opposing_channel());
}

#[test]
fn dimensions_total() {
    let d = NetworkDimensions::new(2, 2, 1);
    assert_eq!(d.input_size, 2);
    assert_eq!(d.hidden_size, 2);
    assert_eq!(d.output_size, 1);
    assert_eq!(d.total_neurons, 9);
    assert_eq!(NetworkDimensions::new(0, 0, 0).total_neurons, 2);
}

#[test]
fn dimensions_cap() {
    assert_eq!(NetworkDimensions::checked(500, 400, 100).map(|d| d.total_neurons), Ok(1502));
    assert_eq!(NetworkDimensions::checked(500, 400, 101), Err(NetworkError::DimensionOverflow));
    assert_eq!(NetworkDimensions::checked(usize::MAX, 1, 1), Err(NetworkError::DimensionOverflow));
    assert_eq!(NetworkDimensions::checked(1, usize::MAX, 1), Err(NetworkError::DimensionOverflow));
    assert_eq!(NetworkDimensions::checked(1, 1, usize::MAX), Err(NetworkError::DimensionOverflow));
    assert!(matches!(
        EDNetwork::new(1000, 1, 0, NetworkConfig::default()),
        Err(NetworkError::DimensionOverflow)
    ));
}

#[test]
fn pattern_shapes() {
    let d = NetworkDimensions::new(2, 3, 1);
    assert_eq!(d.check_pattern_shape(2, 1), Ok(()));
    assert_eq!(d.check_pattern_shape(3, 1), Err(NetworkError::ShapeMismatch));
    assert_eq!(d.check_pattern_shape(2, 2), Err(NetworkError::ShapeMismatch));
    assert_eq!(d.check_pattern_shape(4, 1), Err(NetworkError::ShapeMismatch));
}

#[test]
fn layers_of_indices() {
    let d = NetworkDimensions::new(2, 3, 1);
    let expected = [
        LayerType::Bias,
        LayerType::Bias,
        LayerType::Input,
        LayerType::Input,
        LayerType::Input,
        LayerType::Input,
        LayerType::Hidden,
        LayerType::Hidden,
        LayerType::Hidden,
        LayerType::Output,
    ];
    for (i, l) in expected.iter().enumerate() {
        assert_eq!(d.layer_of(i), *l);
    }
    assert_eq!(d.layer_start(LayerType::Bias), 0);
    assert_eq!(d.layer_start(LayerType::Input), 2);
    assert_eq!(d.layer_start(LayerType::Hidden), 6);
    assert_eq!(d.layer_start(LayerType::Output), 9);
    assert_eq!(d.layer_size(LayerType::Bias), 2);
    assert_eq!(d.layer_size(LayerType::Input), 4);
    assert_eq!(d.layer_size(LayerType::Hidden), 3);
    assert_eq!(d.layer_size(LayerType::Output), 1);
    assert_eq!(LayerType::Bias.layer_index(), 0);
    assert_eq!(LayerType::Input.layer_index(), 1);
    assert_eq!(LayerType::Hidden.layer_index(), 2);
    assert_eq!(LayerType::Output.layer_index(), 3);
}

#[test]
fn polarities_of_indices() {
    let d = NetworkDimensions::new(1, 3, 2);
    let i = NeuronType::Inhibitory;
    let e = NeuronType::Excitatory;
    // bias 0,1; input 2,3; hidden 4,5,6; output 7,8
    let expected = [i, e, i, e, i, e, i, e, e];
    for (k, t) in expected.iter().enumerate() {
        assert_eq!(d.neuron_type_of(k), *t);
    }
}

#[test]
fn layer_construction() {
    let hidden = NetworkLayer::new(LayerType::Hidden, 4, 2);
    assert_eq!(hidden.layer_type, LayerType::Hidden);
    assert_eq!(hidden.layer_index, 2);
    let types: Vec<NeuronType> = hidden.neurons.iter().map(|n| n.neuron_type).collect();
    assert_eq!(
        types,
        vec![
            NeuronType::Inhibitory,
            NeuronType::Excitatory,
            NeuronType::Inhibitory,
            NeuronType::Excitatory
        ]
    );
    let indices: Vec<usize> = hidden.neurons.iter().map(|n| n.index).collect();
    assert_eq!(indices, vec![0, 1, 2, 3]);

    let output = NetworkLayer::new(LayerType::Output, 3, 3);
    assert!(output.neurons.iter().all(|n| n.neuron_type == NeuronType::Excitatory));
    assert_eq!(output.neurons.len(), 3);

    let shifted = NetworkLayer::with_first_index(LayerType::Input, 2, 1, 2);
    assert_eq!(shifted.neurons[0].index, 2);
    assert_eq!(shifted.neurons[1].index, 3);

    assert!(NetworkLayer::new(LayerType::Bias, 0, 0).neurons.is_empty());
}

#[test]
fn layer_lookup() {
    let layer = NetworkLayer::new(LayerType::Input, 4, 1);
    assert_eq!(layer.get_neuron(3).map(|n| n.index), Some(3));
    assert_eq!(layer.get_neuron(3).map(|n| n.neuron_type), Some(NeuronType::Excitatory));
    assert!(layer.get_neuron(4).is_none());
}

#[test]
fn network_layers_and_indices() {
    let net = EDNetwork::new(2, 2, 1, NetworkConfig::default()).unwrap();
    assert_eq!(net.dimensions.total_neurons, 9);
    assert_eq!(net.layers.len(), 4);
    let kinds: Vec<LayerType> = net.layers.iter().map(|l| l.layer_type).collect();
    assert_eq!(kinds, vec![LayerType::Bias, LayerType::Input, LayerType::Hidden, LayerType::Output]);
    let sizes: Vec<usize> = net.layers.iter().map(|l| l.neurons.len()).collect();
    assert_eq!(sizes, vec![2, 4, 2, 1]);
    let mut next: usize = 0;
    for (k, layer) in net.layers.iter().enumerate() {
        assert_eq!(layer.layer_index, k);
        for n in layer.neurons.iter() {
            assert_eq!(n.index, next);
            assert_eq!(net.neuron(next).map(|m| m.neuron_type), Some(n.neuron_type));
            next += 1;
        }
    }
    assert_eq!(next, 9);
    assert!(net.neuron(9).is_none());
    assert_eq!(net.layers[0].neurons[0].neuron_type, NeuronType::Inhibitory);
    assert_eq!(net.layers[0].neurons[1].neuron_type, NeuronType::Excitatory);
}

#[test]
fn input_layer_is_doubled() {
    for n in 0..5usize {
        let net = EDNetwork::new(n, 3, 2, NetworkConfig::default()).unwrap();
        assert_eq!(net.layers[1].neurons.len(), 2 * n);
        assert_eq!(net.input_assignment().len(), 2 * n);
    }
}

#[test]
fn inhibitory_inputs_masked_without_flag() {
    let mut config = NetworkConfig::default();
    config.flag_inhibitory_inputs = false;
    let net = EDNetwork::new(3, 1, 1, config).unwrap();
    assert_eq!(net.input_assignment(), vec![None, Some(0), None, Some(1), None, Some(2)]);
    for (local, n) in net.layers[1].neurons.iter().enumerate() {
        if n.neuron_type == NeuronType::Inhibitory {
            assert_eq!(config.input_source(local), None);
        }
    }
    let fed = EDNetwork::new(3, 1, 1, NetworkConfig::default()).unwrap();
    assert_eq!(
        fed.input_assignment(),
        vec![Some(0), Some(0), Some(1), Some(1), Some(2), Some(2)]
    );
}

#[test]
fn default_topology_of_xor_network() {
    let net = EDNetwork::new(2, 2, 1, NetworkConfig::default()).unwrap();
    // bias 0,1; input 2..6; hidden 6,7; output 8
    let expected: Vec<(usize, usize)> = vec![
        (0, 6), (0, 7), (0, 8),
        (1, 6), (1, 7), (1, 8),
        (2, 6), (2, 7),
        (3, 6), (3, 7),
        (4, 6), (4, 7),
        (5, 6), (5, 7),
        (6, 7), (6, 8),
        (7, 6), (7, 8),
    ];
    assert_eq!(edges(&net), expected);
    assert_eq!(net.connections.len(), 9);
    assert!(net.connections[8].is_empty());
}

#[test]
fn topology_without_flags() {
    let net = EDNetwork::new(1, 1, 1, all_flags(false)).unwrap();
    // bias 0,1; input 2,3; hidden 4; output 5: every neuron feeds 4 and 5
    let mut expected: Vec<(usize, usize)> = Vec::new();
    for from in 0..6usize {
        expected.push((from, 4));
        expected.push((from, 5));
    }
    assert_eq!(edges(&net), expected);
}

#[test]
fn flags_cut_what_they_name() {
    let sizes: [(usize, usize, usize); 3] = [(2, 3, 2), (1, 0, 2), (0, 4, 1)];
    for (i, h, o) in sizes {
        for bits in 0..8u8 {
            let config = NetworkConfig {
                timesteps: 1,
                flag_multilayer: bits & 1 != 0,
                flag_loop_cutting: bits & 2 != 0,
                flag_self_loop_cutting: bits & 4 != 0,
                flag_inhibitory_inputs: true,
                mode_weight_decrement: false,
            };
            let net = EDNetwork::new(i, h, o, config).unwrap();
            let d = net.dimensions;
            let found = edges(&net);
            for (from, to) in found.iter().copied() {
                let lf = d.layer_of(from);
                let lt = d.layer_of(to);
                assert!(lt == LayerType::Hidden || lt == LayerType::Output);
                if config.flag_self_loop_cutting {
                    assert_ne!(from, to);
                }
                if config.flag_loop_cutting {
                    assert!(lt.layer_index() >= lf.layer_index());
                }
                if config.flag_multilayer {
                    assert!(!(lf == LayerType::Input && lt == LayerType::Output));
                }
            }
            for from in 0..d.total_neurons {
                for to in 0..d.total_neurons {
                    let listed = found.iter().filter(|e| **e == (from, to)).count();
                    let admitted = d.edge_admitted(&config, from, to);
                    assert_eq!(listed, if admitted { 1 } else { 0 });
                }
            }
            for bias in 0..2usize {
                for to in d.layer_start(LayerType::Hidden)..d.total_neurons {
                    assert!(found.contains(&(bias, to)));
                }
            }
        }
    }
}

#[test]
fn edges_outside_the_network_are_refused() {
    let d = NetworkDimensions::new(1, 1, 1);
    let config = all_flags(false);
    assert!(d.edge_admitted(&config, 0, 4));
    assert!(!d.edge_admitted(&config, 0, 6));
    assert!(!d.edge_admitted(&config, 6, 4));
    assert!(!d.edge_admitted(&config, 4, 3));
    assert!(d.edge_admitted(&config, 4, 4));
    assert!(!d.edge_admitted(&all_flags(true), 4, 4));
    assert!(d.edge_admitted(&config, 5, 4));
    assert!(!d.edge_admitted(&all_flags(true), 5, 4));
    assert!(d.edge_admitted(&config, 2, 5));
    assert!(!d.edge_admitted(&all_flags(true), 2, 5));
}

#[test]
fn connection_signs_follow_polarity() {
    let net = EDNetwork::new(2, 3, 2, all_flags(false)).unwrap();
    let mut seen_negative = false;
    let mut seen_positive = false;
    for row in net.connections.iter() {
        for c in row.iter() {
            let from = net.dimensions.neuron_type_of(c.from);
            let to = net.dimensions.neuron_type_of(c.to);
            assert_eq!(c.sign, from.sign_factor() * to.sign_factor());
            assert_eq!(c.sign == 1, from == to);
            assert!(c.connection_enabled);
            seen_negative = seen_negative || c.sign == -1;
            seen_positive = seen_positive || c.sign == 1;
        }
    }
    assert!(seen_negative && seen_positive);
}

#[test]
fn outgoing_row_of_a_hidden_neuron() {
    let d = NetworkDimensions::new(1, 2, 1);
    // bias 0,1; input 2,3; hidden 4,5; output 6
    let row = EDNetwork::outgoing(&d, &NetworkConfig::default(), 4);
    let targets: Vec<usize> = row.iter().map(|c| c.to).collect();
    assert_eq!(targets, vec![5, 6]);
    let signs: Vec<i8> = row.iter().map(|c| c.sign).collect();
    assert_eq!(signs, vec![-1, -1]);
    let from_output = EDNetwork::outgoing(&d, &all_flags(false), 6);
    let back: Vec<usize> = from_output.iter().map(|c| c.to).collect();
    assert_eq!(back, vec![4, 5, 6]);
}

#[test]
fn computed_layers() {
    assert!(LayerType::Hidden.computes());
    assert!(LayerType::Output.computes());
    assert!(!LayerType::Input.computes());
    assert!(!LayerType::Bias.computes());
}

#[test]
fn hidden_error_routes() {
    let net = EDNetwork::new(1, 2, 2, NetworkConfig::default()).unwrap();
    // bias 0,1; input 2,3; hidden 4 (inhibitory), 5 (excitatory); output 6,7
    let from_inhibitory = net.diffusion_routes(4);
    assert_eq!(
        from_inhibitory,
        vec![
            ErrorRoute {
                position: 1,
                output: 6,
                into_excitatory: ErrorChannel::Inhibitory,
                into_inhibitory: ErrorChannel::Excitatory,
            },
            ErrorRoute {
                position: 2,
                output: 7,
                into_excitatory: ErrorChannel::Inhibitory,
                into_inhibitory: ErrorChannel::Excitatory,
            },
        ]
    );
    let from_excitatory = net.diffusion_routes(5);
    assert_eq!(
        from_excitatory,
        vec![
            ErrorRoute {
                position: 1,
                output: 6,
                into_excitatory: ErrorChannel::Excitatory,
                into_inhibitory: ErrorChannel::Inhibitory,
            },
            ErrorRoute {
                position: 2,
                output: 7,
                into_excitatory: ErrorChannel::Excitatory,
                into_inhibitory: ErrorChannel::Inhibitory,
            },
        ]
    );
    for row in net.connections.iter() {
        for (k, c) in row.iter().enumerate() {
            let listed = net.diffusion_routes(c.from).iter().filter(|r| r.position == k).count();
            let expected = net.dimensions.layer_of(c.from) == LayerType::Hidden
                && net.dimensions.layer_of(c.to) == LayerType::Output;
            assert_eq!(listed, if expected { 1 } else { 0 });
        }
    }
}

#[test]
fn no_error_flows_into_bias_input_or_output() {
    let net = EDNetwork::new(2, 2, 2, all_flags(false)).unwrap();
    // bias 0,1; input 2..6; hidden 6,7; output 8,9
    for index in [0usize, 1, 2, 3, 4, 5, 8, 9] {
        assert!(net.diffusion_routes(index).is_empty());
    }
    assert_eq!(net.diffusion_routes(6).len(), 2);
    assert_eq!(net.diffusion_routes(7).len(), 2);
}
