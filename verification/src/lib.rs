use vstd::prelude::*;

pub mod network;
pub mod neuron;
pub mod stats;
pub mod training;

verus! {

/// Largest number of logical inputs, hidden and output neurons a network may have.
pub const MAX_NETWORK_SIZE: usize = 1000;

/// Largest number of output networks.
pub const MAX_OUTPUT_NETWORKS: usize = 10;

} // verus!
