use edla_rs::training::TrainingPattern;

fn level(bit: bool) -> f64 {
    if bit {
        1.0
    } else {
        0.0
    }
}

#[test]
fn test_xor_dataset_creation() {
    let xor_data = TrainingPattern::create_xor_dataset();
    assert_eq!(xor_data.len(), 4);

    assert_eq!(level(xor_data[0].targets[0]), 0.0); // [0,0] -> 0
    assert_eq!(level(xor_data[1].targets[0]), 1.0); // [1,0] -> 1
    assert_eq!(level(xor_data[2].targets[0]), 1.0); // [0,1] -> 1
    assert_eq!(level(xor_data[3].targets[0]), 0.0); // [1,1] -> 0
}

#[test]
fn xor_inputs_in_order() {
    let xor_data = TrainingPattern::create_xor_dataset();
    let inputs: Vec<Vec<bool>> = xor_data.iter().map(|p| p.inputs.clone()).collect();
    assert_eq!(
        inputs,
        vec![vec![false, false], vec![true, false], vec![false, true], vec![true, true]]
    );
    let ids: Vec<usize> = xor_data.iter().map(|p| p.id).collect();
    assert_eq!(ids, vec![0, 1, 2, 3]);
    for p in xor_data.iter() {
        assert_eq!(p.targets.len(), 1);
    }
}

#[test]
fn parity_of_three_bits() {
    let data = TrainingPattern::create_parity_dataset(3);
    assert_eq!(data.len(), 8);
    let targets: Vec<bool> = data.iter().map(|p| p.targets[0]).collect();
    assert_eq!(targets, vec![false, true, true, false, true, false, false, true]);
    assert_eq!(data[6].inputs, vec![false, true, true]);
    assert_eq!(data[5].inputs, vec![true, false, true]);
    for (i, p) in data.iter().enumerate() {
        assert_eq!(p.id, i);
        assert_eq!(p.inputs.len(), 3);
        assert_eq!(p.targets.len(), 1);
        let ones: usize = p.inputs.iter().filter(|b| **b).count();
        assert_eq!(p.targets[0], ones % 2 == 1);
    }
}

#[test]
fn parity_of_zero_bits() {
    let data = TrainingPattern::create_parity_dataset(0);
    assert_eq!(data.len(), 1);
    assert!(data[0].inputs.is_empty());
    assert_eq!(data[0].targets, vec![false]);
    assert_eq!(data[0].id, 0);
}

#[test]
fn parity_of_two_bits_is_xor() {
    let parity = TrainingPattern::create_parity_dataset(2);
    let xor = TrainingPattern::create_xor_dataset();
    assert_eq!(parity.len(), xor.len());
    for k in 0..4 {
        assert_eq!(parity[k].inputs, xor[k].inputs);
        assert_eq!(parity[k].targets, xor[k].targets);
        assert_eq!(parity[k].id, xor[k].id);
    }
}

#[test]
fn parity_pattern_counts() {
    assert_eq!(TrainingPattern::parity_pattern_count(0), Some(1));
    assert_eq!(TrainingPattern::parity_pattern_count(3), Some(8));
    assert_eq!(TrainingPattern::parity_pattern_count(10), Some(1024));
    assert_eq!(TrainingPattern::parity_pattern_count(usize::BITS as usize), None);
    assert_eq!(
        TrainingPattern::parity_pattern_count(usize::BITS as usize - 1),
        Some(1usize << (usize::BITS - 1))
    );
}

#[test]
fn pattern_keeps_what_it_is_given() {
    let p = TrainingPattern::new(vec![true, false, true], vec![false, true], 9);
    assert_eq!(p.inputs, vec![true, false, true]);
    assert_eq!(p.targets, vec![false, true]);
    assert_eq!(p.id, 9);
}
