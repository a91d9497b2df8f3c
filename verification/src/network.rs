use vstd::prelude::*;
use crate::neuron::{Connection, ErrorChannel, Neuron, NeuronType};
use crate::MAX_NETWORK_SIZE;

verus! {

/// Type of network layer
#[derive(Debug, Clone, Copy, PartialEq, Eq, Structural)]
pub enum LayerType {
    /// Input layer (doubled for excitatory/inhibitory pairs)
    Input,
    /// Hidden processing layer
    Hidden,
    /// Output layer
    Output,
    /// Bias/threshold layer
    Bias,
}

impl LayerType {
    /// Place of the layer in the network: bias, input, hidden, output.
    pub open spec fn position(self) -> int {
        match self {
            LayerType::Bias => 0,
            LayerType::Input => 1,
            LayerType::Hidden => 2,
            LayerType::Output => 3,
        }
    }

    /// Polarity of the neuron at place `local` of a layer of this role:
    /// output neurons are all excitatory, the other layers alternate.
    pub open spec fn polarity_at(self, local: int) -> NeuronType {
        match self {
            LayerType::Output => NeuronType::Excitatory,
            _ => NeuronType::alternating(local),
        }
    }

    /// Whether neurons of this layer compute their activation from incoming
    /// connections (hidden and output) rather than emit a given value.
    pub open spec fn is_computed(self) -> bool {
        self == LayerType::Hidden || self == LayerType::Output
    }

    /// Place of the layer in the network as a machine integer.
    pub fn layer_index(&self) -> (r: usize)
        ensures
            r == self.position(),
    {
        match self {
            LayerType::Bias => 0,
            LayerType::Input => 1,
            LayerType::Hidden => 2,
            LayerType::Output => 3,
        }
    }

    /// Whether neurons of this layer compute their activation from incoming
    /// connections.
    pub fn computes(&self) -> (r: bool)
        ensures
            r == self.is_computed(),
    {
        match self {
            LayerType::Hidden => true,
            LayerType::Output => true,
            _ => false,
        }
    }

    /// Polarity of the neuron at place `local` of a layer of this role.
    pub fn neuron_type_at(&self, local: usize) -> (r: NeuronType)
        ensures
            r == self.polarity_at(local as int),
    {
        match self {
            LayerType::Output => NeuronType::Excitatory,
            _ => NeuronType::from_index(local),
        }
    }
}

/// What construction and training report to the caller.
#[derive(Debug, Clone, Copy, PartialEq, Eq, Structural)]
pub enum NetworkError {
    /// A pattern has the wrong number of inputs or of targets.
    ShapeMismatch,
    /// The network would hold more neurons than the cap allows.
    DimensionOverflow,
}

/// Discrete settings of a network: the number of recurrent passes and the
/// flags that shape topology and learning.
#[derive(Debug, Clone, Copy, PartialEq, Eq, Structural)]
pub struct NetworkConfig {
    /// Number of recurrent processing timesteps per forward pass
    pub timesteps: usize,
    /// Enable multi-layer processing (prevents input shortcuts)
    pub flag_multilayer: bool,
    /// Cut recurrent loops for more feedforward structure
    pub flag_loop_cutting: bool,
    /// Prevent neuron self-connections
    pub flag_self_loop_cutting: bool,
    /// Enable inhibitory input connections
    pub flag_inhibitory_inputs: bool,
    /// Enable bidirectional error application mode
    pub mode_weight_decrement: bool,
}

impl Default for NetworkConfig {
    /// Default ED parameters based on Kaneko's research
    fn default() -> (r: Self)
        ensures
            r == (NetworkConfig {
                timesteps: 2,
                flag_multilayer: true,
                flag_loop_cutting: true,
                flag_self_loop_cutting: true,
                flag_inhibitory_inputs: true,
                mode_weight_decrement: false,
            }),
    {
        Self {
            timesteps: 2,
            flag_multilayer: true,
            mode_weight_decrement: false,
            flag_loop_cutting: true,
            flag_self_loop_cutting: true,
            flag_inhibitory_inputs: true,
        }
    }
}

impl NetworkConfig {
    /// The logical input that feeds the input neuron at place `local` of the
    /// input layer, or `None` where the neuron is masked to zero. Logical
    /// input `k` feeds the adjacent pair `2k`, `2k + 1`; the inhibitory half
    /// of a pair is fed only with `flag_inhibitory_inputs`.
    pub open spec fn input_feed(self, local: int) -> Option<int> {
        if NeuronType::alternating(local) == NeuronType::Excitatory || self.flag_inhibitory_inputs {
            Some(local / 2)
        } else {
            None
        }
    }

    /// The logical input that feeds the input neuron at place `local` of the
    /// input layer, or `None` where the neuron is masked to zero.
    pub fn input_source(&self, local: usize) -> (r: Option<usize>)
        ensures
            match r {
                Some(k) => self.input_feed(local as int) == Some(k as int),
                None => self.input_feed(local as int).is_none(),
            },
    {
        match NeuronType::from_index(local) {
            NeuronType::Excitatory => Some(local / 2),
            NeuronType::Inhibitory => if self.flag_inhibitory_inputs {
                Some(local / 2)
            } else {
                None
            },
        }
    }

    /// Whether a weight update also applies, with negated sign, the channel
    /// opposite to the one that matches the target neuron's polarity.
    pub fn applies_opposing_channel(&self) -> (r: bool)
        ensures
            r == self.mode_weight_decrement,
    {
        self.mode_weight_decrement
    }
}

/// Each logical input feeds one excitatory and one inhibitory input neuron,
/// next to each other; without `flag_inhibitory_inputs` every inhibitory
/// input neuron is masked, and every excitatory one is fed in any case.
pub proof fn lemma_input_pairs(config: NetworkConfig, k: int)
    requires
        0 <= k,
    ensures
        NeuronType::alternating(2 * k) == NeuronType::Inhibitory,
        NeuronType::alternating(2 * k + 1) == NeuronType::Excitatory,
        config.input_feed(2 * k + 1) == Some(k),
        config.flag_inhibitory_inputs ==> config.input_feed(2 * k) == Some(k),
        !config.flag_inhibitory_inputs ==> config.input_feed(2 * k).is_none(),
{
}

/// Network dimensional parameters
#[derive(Debug, Clone, Copy, PartialEq, Eq, Structural)]
pub struct NetworkDimensions {
    /// Number of input neurons (logical inputs, will be doubled)
    pub input_size: usize,
    /// Number of hidden neurons
    pub hidden_size: usize,
    /// Number of output neurons
    pub output_size: usize,
    /// Total number of neurons
    pub total_neurons: usize,
}

impl NetworkDimensions {
    /// Neurons of a network with the given sizes: two bias units, a pair per
    /// logical input, the hidden and the output neurons.
    pub open spec fn total_of(input_size: int, hidden_size: int, output_size: int) -> int {
        2 + 2 * input_size + hidden_size + output_size
    }

    /// Whether the sizes stay within the cap on network size.
    pub open spec fn within_cap(input_size: int, hidden_size: int, output_size: int) -> bool {
        input_size + hidden_size + output_size <= MAX_NETWORK_SIZE
    }

    /// The total is the one that the three sizes give.
    pub open spec fn wf(self) -> bool {
        self.total_neurons == Self::total_of(
            self.input_size as int,
            self.hidden_size as int,
            self.output_size as int,
        )
    }

    /// Global index of the first neuron of a layer.
    pub open spec fn first_index(self, layer: LayerType) -> int {
        match layer {
            LayerType::Bias => 0,
            LayerType::Input => 2,
            LayerType::Hidden => 2 + 2 * self.input_size,
            LayerType::Output => 2 + 2 * self.input_size + self.hidden_size,
        }
    }

    /// Number of neurons in a layer.
    pub open spec fn size_of(self, layer: LayerType) -> int {
        match layer {
            LayerType::Bias => 2,
            LayerType::Input => 2 * self.input_size,
            LayerType::Hidden => self.hidden_size as int,
            LayerType::Output => self.output_size as int,
        }
    }

    /// The layer that holds the neuron with global index `index`.
    pub open spec fn layer_at(self, index: int) -> LayerType {
        if index < 2 {
            LayerType::Bias
        } else if index < 2 + 2 * self.input_size {
            LayerType::Input
        } else if index < 2 + 2 * self.input_size + self.hidden_size {
            LayerType::Hidden
        } else {
            LayerType::Output
        }
    }

    /// Polarity of the neuron with global index `index`.
    pub open spec fn polarity_of(self, index: int) -> NeuronType {
        self.layer_at(index).polarity_at(index - self.first_index(self.layer_at(index)))
    }

    /// Create new network dimensions
    pub fn new(input_size: usize, hidden_size: usize, output_size: usize) -> (r: Self)
        requires
            Self::total_of(input_size as int, hidden_size as int, output_size as int) <= usize::MAX,
        ensures
            r.input_size == input_size,
            r.hidden_size == hidden_size,
            r.output_size == output_size,
            r.wf(),
    {
        let total_neurons = 2 + (input_size * 2) + hidden_size + output_size;  // +2 for bias
        Self { input_size, hidden_size, output_size, total_neurons }
    }

    /// Dimensions of a network within the size cap, or the overflow error.
    pub fn checked(input_size: usize, hidden_size: usize, output_size: usize) -> (r: Result<Self, NetworkError>)
        ensures
            r.is_ok() == Self::within_cap(input_size as int, hidden_size as int, output_size as int),
            r.is_err() ==> r == Err::<Self, NetworkError>(NetworkError::DimensionOverflow),
            r.is_ok() ==> {
                &&& r.unwrap().input_size == input_size
                &&& r.unwrap().hidden_size == hidden_size
                &&& r.unwrap().output_size == output_size
                &&& r.unwrap().wf()
            },
    {
        if input_size > MAX_NETWORK_SIZE || hidden_size > MAX_NETWORK_SIZE - input_size
            || output_size > MAX_NETWORK_SIZE - input_size - hidden_size {
            Err(NetworkError::DimensionOverflow)
        } else {
            Ok(Self::new(input_size, hidden_size, output_size))
        }
    }

    /// The layer that holds the neuron with global index `index`.
    pub fn layer_of(&self, index: usize) -> (r: LayerType)
        requires
            self.wf(),
            index < self.total_neurons,
        ensures
            r == self.layer_at(index as int),
    {
        if index < 2 {
            LayerType::Bias
        } else if index - 2 < 2 * self.input_size {
            LayerType::Input
        } else if index - 2 - 2 * self.input_size < self.hidden_size {
            LayerType::Hidden
        } else {
            LayerType::Output
        }
    }

    /// Global index of the first neuron of a layer.
    pub fn layer_start(&self, layer: LayerType) -> (r: usize)
        requires
            self.wf(),
        ensures
            r == self.first_index(layer),
    {
        match layer {
            LayerType::Bias => 0,
            LayerType::Input => 2,
            LayerType::Hidden => 2 + 2 * self.input_size,
            LayerType::Output => 2 + 2 * self.input_size + self.hidden_size,
        }
    }

    /// Number of neurons in a layer.
    pub fn layer_size(&self, layer: LayerType) -> (r: usize)
        requires
            self.wf(),
        ensures
            r == self.size_of(layer),
    {
        match layer {
            LayerType::Bias => 2,
            LayerType::Input => 2 * self.input_size,
            LayerType::Hidden => self.hidden_size,
            LayerType::Output => self.output_size,
        }
    }

    /// Polarity of the neuron with global index `index`.
    pub fn neuron_type_of(&self, index: usize) -> (r: NeuronType)
        requires
            self.wf(),
            index < self.total_neurons,
        ensures
            r == self.polarity_of(index as int),
    {
        let layer = self.layer_of(index);
        layer.neuron_type_at(index - self.layer_start(layer))
    }

    /// Whether a pattern with `n_inputs` inputs and `n_targets` targets fits
    /// a network of these dimensions.
    pub fn check_pattern_shape(&self, n_inputs: usize, n_targets: usize) -> (r: Result<(), NetworkError>)
        ensures
            r.is_ok() == (n_inputs == self.input_size && n_targets == self.output_size),
            r.is_err() ==> r == Err::<(), NetworkError>(NetworkError::ShapeMismatch),
    {
        if n_inputs == self.input_size && n_targets == self.output_size {
            Ok(())
        } else {
            Err(NetworkError::ShapeMismatch)
        }
    }

    /// Whether the connection table may hold an edge from neuron `from` to
    /// neuron `to` under `config`.
    pub open spec fn admits(self, config: NetworkConfig, from: int, to: int) -> bool {
        &&& 0 <= from < self.total_neurons
        &&& 0 <= to < self.total_neurons
        &&& self.layer_at(to).is_computed()
        &&& (config.flag_self_loop_cutting ==> from != to)
        &&& (config.flag_loop_cutting ==> self.layer_at(to).position() >= self.layer_at(from).position())
        &&& (config.flag_multilayer ==> !(self.layer_at(from) == LayerType::Input && self.layer_at(to)
            == LayerType::Output))
    }

    /// Whether the connection table may hold an edge from neuron `from` to
    /// neuron `to` under `config`.
    pub fn edge_admitted(&self, config: &NetworkConfig, from: usize, to: usize) -> (r: bool)
        requires
            self.wf(),
        ensures
            r == self.admits(*config, from as int, to as int),
    {
        if from >= self.total_neurons || to >= self.total_neurons {
            return false;
        }
        let from_layer = self.layer_of(from);
        let to_layer = self.layer_of(to);
        let computed = to_layer.computes();
        let shortcut = match (from_layer, to_layer) {
            (LayerType::Input, LayerType::Output) => true,
            _ => false,
        };
        computed && (!config.flag_self_loop_cutting || from != to) && (!config.flag_loop_cutting
            || to_layer.layer_index() >= from_layer.layer_index()) && (!config.flag_multilayer
            || !shortcut)
    }
}

/// Network layer containing neurons and their properties
#[derive(Debug, Clone)]
pub struct NetworkLayer {
    /// Neurons in this layer
    pub neurons: Vec<Neuron>,
    /// Layer type identifier
    pub layer_type: LayerType,
    /// Layer index in network
    pub layer_index: usize,
}

impl NetworkLayer {
    /// Whether this is the layer of the given role, size and place whose
    /// neurons are numbered from `first` on and typed by the role's rule.
    pub open spec fn is_layer(self, layer_type: LayerType, size: int, layer_index: int, first: int) -> bool {
        &&& self.layer_type == layer_type
        &&& self.layer_index == layer_index
        &&& self.neurons.len() == size
        &&& forall|i: int|
            0 <= i < size ==> #[trigger] self.neurons[i] == (Neuron {
                neuron_type: layer_type.polarity_at(i),
                index: (first + i) as usize,
            })
    }

    /// Create new layer with specified type and size
    pub fn new(layer_type: LayerType, size: usize, layer_index: usize) -> (r: Self)
        ensures
            r.is_layer(layer_type, size as int, layer_index as int, 0),
    {
        Self::with_first_index(layer_type, size, layer_index, 0)
    }

    /// Create a layer whose neurons carry the indices `first`, `first + 1`, ...
    pub fn with_first_index(layer_type: LayerType, size: usize, layer_index: usize, first: usize) -> (r: Self)
        requires
            first + size <= usize::MAX,
        ensures
            r.is_layer(layer_type, size as int, layer_index as int, first as int),
    {
        let mut neurons: Vec<Neuron> = Vec::with_capacity(size);
        let mut i: usize = 0;
        while i < size
            invariant
                i <= size,
                first + size <= usize::MAX,
                neurons.len() == i,
                forall|j: int|
                    0 <= j < i ==> #[trigger] neurons[j] == (Neuron {
                        neuron_type: layer_type.polarity_at(j),
                        index: (first + j) as usize,
                    }),
            decreases size - i,
        {
            neurons.push(Neuron::new(layer_type.neuron_type_at(i), first + i));
            i = i + 1;
        }
        Self { neurons, layer_type, layer_index }
    }

    /// Get neuron by index safely
    pub fn get_neuron(&self, index: usize) -> (r: Option<&Neuron>)
        ensures
            r.is_some() == (index < self.neurons.len()),
            r.is_some() ==> *r.unwrap() == self.neurons[index as int],
    {
        if index < self.neurons.len() {
            Some(&self.neurons[index])
        } else {
            None
        }
    }
}

/// Whether `row` holds exactly the admitted edges from neuron `from` to the
/// neurons below `bound`, once each, by rising target, each enabled and
/// signed by the polarity product of its endpoints.
pub open spec fn is_row(
    dims: NetworkDimensions,
    config: NetworkConfig,
    row: Seq<Connection>,
    from: int,
    bound: int,
) -> bool {
    &&& forall|k: int|
        0 <= k < row.len() ==> {
            &&& (#[trigger] row[k]).from == from
            &&& row[k].to < bound
            &&& row[k].connection_enabled
            &&& dims.admits(config, from, row[k].to as int)
            &&& row[k].obeys_polarity(dims.polarity_of(from), dims.polarity_of(row[k].to as int))
        }
    &&& forall|a: int, b: int| 0 <= a < b < row.len() ==> (#[trigger] row[a]).to < (#[trigger] row[b]).to
    &&& forall|to: int|
        0 <= to < bound && #[trigger] dims.admits(config, from, to) ==> exists|k: int|
            0 <= k < row.len() && (#[trigger] row[k]).to == to
}

/// One term of the error that a hidden neuron gathers: the connection to an
/// output neuron, and which channel of that neuron flows into which channel
/// of the hidden one.
#[derive(Debug, Clone, Copy, PartialEq, Eq, Structural)]
pub struct ErrorRoute {
    /// Place of the connection in the row of the hidden neuron
    pub position: usize,
    /// Global index of the output neuron at the end of the connection
    pub output: usize,
    /// Channel of the output neuron that flows into the excitatory channel
    pub into_excitatory: ErrorChannel,
    /// Channel of the output neuron that flows into the inhibitory channel
    pub into_inhibitory: ErrorChannel,
}

impl ErrorRoute {
    /// Whether this is the term for the connection at place `position` of
    /// `row`, the row of neuron `hidden`: the connection ends on an output
    /// neuron, and the channels keep their side when the polarity product of
    /// the two neurons is positive and swap when it is negative.
    pub open spec fn routes(
        self,
        dims: NetworkDimensions,
        row: Seq<Connection>,
        hidden: int,
        position: int,
    ) -> bool {
        &&& self.position == position
        &&& 0 <= position < row.len()
        &&& self.output == row[position].to
        &&& dims.layer_at(self.output as int) == LayerType::Output
        &&& self.into_excitatory == ErrorChannel::Excitatory.routed_spec(
            dims.polarity_of(hidden),
            dims.polarity_of(self.output as int),
        )
        &&& self.into_inhibitory == ErrorChannel::Inhibitory.routed_spec(
            dims.polarity_of(hidden),
            dims.polarity_of(self.output as int),
        )
    }
}

/// Whether `routes` holds one term for each connection among the first
/// `bound` of `row` that ends on an output neuron, in the order of the row,
/// and nothing else.
pub open spec fn is_diffusion(
    dims: NetworkDimensions,
    row: Seq<Connection>,
    routes: Seq<ErrorRoute>,
    hidden: int,
    bound: int,
) -> bool {
    &&& forall|r: int|
        0 <= r < routes.len() ==> (#[trigger] routes[r]).routes(dims, row, hidden, routes[r].position as int)
            && routes[r].position < bound
    &&& forall|a: int, b: int|
        0 <= a < b < routes.len() ==> (#[trigger] routes[a]).position < (#[trigger] routes[b]).position
    &&& forall|k: int|
        0 <= k < bound && k < row.len() && dims.layer_at((#[trigger] row[k]).to as int) == LayerType::Output
            ==> exists|r: int| 0 <= r < routes.len() && (#[trigger] routes[r]).position == k
}

/// Topology of an Error Diffusion network: its layers of typed neurons and
/// its table of sign-constrained connections.
#[derive(Debug, Clone)]
pub struct EDNetwork {
    /// Network layers (bias, input, hidden, output)
    pub layers: Vec<NetworkLayer>,
    /// Connection matrix: row `i` holds the connections that leave neuron `i`
    pub connections: Vec<Vec<Connection>>,
    /// Network configuration parameters
    pub config: NetworkConfig,
    /// Network dimensions
    pub dimensions: NetworkDimensions,
}

impl EDNetwork {
    /// The network is the one that its dimensions and configuration
    /// describe: four layers in the order bias, input, hidden, output with
    /// consecutive global indices, and one row of connections per neuron.
    pub open spec fn wf(self) -> bool {
        let d = self.dimensions;
        &&& d.wf()
        &&& NetworkDimensions::within_cap(d.input_size as int, d.hidden_size as int, d.output_size as int)
        &&& self.layers.len() == 4
        &&& self.layers[0].is_layer(LayerType::Bias, 2, 0, 0)
        &&& self.layers[1].is_layer(LayerType::Input, 2 * d.input_size, 1, 2)
        &&& self.layers[2].is_layer(LayerType::Hidden, d.hidden_size as int, 2, d.first_index(LayerType::Hidden))
        &&& self.layers[3].is_layer(LayerType::Output, d.output_size as int, 3, d.first_index(LayerType::Output))
        &&& self.connections.len() == d.total_neurons
        &&& forall|i: int|
            0 <= i < d.total_neurons ==> is_row(
                d,
                self.config,
                (#[trigger] self.connections[i])@,
                i,
                d.total_neurons as int,
            )
    }

    /// The connections that leave neuron `from`.
    pub fn outgoing(dims: &NetworkDimensions, config: &NetworkConfig, from: usize) -> (r: Vec<Connection>)
        requires
            dims.wf(),
            from < dims.total_neurons,
        ensures
            is_row(*dims, *config, r@, from as int, dims.total_neurons as int),
    {
        let mut row: Vec<Connection> = Vec::new();
        let from_type = dims.neuron_type_of(from);
        let mut to: usize = 0;
        while to < dims.total_neurons
            invariant
                dims.wf(),
                from < dims.total_neurons,
                to <= dims.total_neurons,
                from_type == dims.polarity_of(from as int),
                is_row(*dims, *config, row@, from as int, to as int),
            decreases dims.total_neurons - to,
        {
            if dims.edge_admitted(config, from, to) {
                let ghost before = row@;
                let c = Connection::new(from, to, from_type, dims.neuron_type_of(to));
                row.push(c);
                proof {
                    assert forall|t: int|
                        0 <= t < to + 1 && #[trigger] dims.admits(*config, from as int, t) implies exists|k: int|
                        0 <= k < row@.len() && (#[trigger] row@[k]).to == t by {
                        if t < to {
                            let k = choose|k: int| 0 <= k < before.len() && (#[trigger] before[k]).to == t;
                            assert(row@[k] == before[k]);
                        } else {
                            assert(row@[before.len() as int] == c);
                        }
                    }
                }
            }
            to = to + 1;
        }
        row
    }

    /// Build the network of the given sizes: its layers and its connection
    /// table. Sizes over the cap are refused.
    pub fn new(input_size: usize, hidden_size: usize, output_size: usize, config: NetworkConfig) -> (r: Result<
        Self,
        NetworkError,
    >)
        ensures
            r.is_ok() == NetworkDimensions::within_cap(
                input_size as int,
                hidden_size as int,
                output_size as int,
            ),
            r.is_err() ==> r.unwrap_err() == NetworkError::DimensionOverflow,
            r.is_ok() ==> {
                &&& r.unwrap().wf()
                &&& r.unwrap().config == config
                &&& r.unwrap().dimensions.input_size == input_size
                &&& r.unwrap().dimensions.hidden_size == hidden_size
                &&& r.unwrap().dimensions.output_size == output_size
            },
    {
        let dimensions = match NetworkDimensions::checked(input_size, hidden_size, output_size) {
            Ok(d) => d,
            Err(e) => {
                return Err(e);
            },
        };
        let mut layers: Vec<NetworkLayer> = Vec::with_capacity(4);
        layers.push(NetworkLayer::with_first_index(LayerType::Bias, 2, 0, 0));
        layers.push(NetworkLayer::with_first_index(LayerType::Input, 2 * input_size, 1, 2));
        layers.push(
            NetworkLayer::with_first_index(
                LayerType::Hidden,
                hidden_size,
                2,
                dimensions.layer_start(LayerType::Hidden),
            ),
        );
        layers.push(
            NetworkLayer::with_first_index(
                LayerType::Output,
                output_size,
                3,
                dimensions.layer_start(LayerType::Output),
            ),
        );
        let mut connections: Vec<Vec<Connection>> = Vec::with_capacity(dimensions.total_neurons);
        let mut from: usize = 0;
        while from < dimensions.total_neurons
            invariant
                dimensions.wf(),
                from <= dimensions.total_neurons,
                connections.len() == from,
                forall|i: int|
                    0 <= i < from ==> is_row(
                        dimensions,
                        config,
                        (#[trigger] connections[i])@,
                        i,
                        dimensions.total_neurons as int,
                    ),
            decreases dimensions.total_neurons - from,
        {
            connections.push(Self::outgoing(&dimensions, &config, from));
            from = from + 1;
        }
        Ok(Self { layers, connections, config, dimensions })
    }

    /// The terms of the error that neuron `hidden` gathers from the output
    /// layer: one for each of its connections to an output neuron, in the
    /// order of its row. Only hidden neurons gather error; for a neuron of
    /// another layer there is no term.
    pub fn diffusion_routes(&self, hidden: usize) -> (r: Vec<ErrorRoute>)
        requires
            self.wf(),
            hidden < self.dimensions.total_neurons,
        ensures
            self.dimensions.layer_at(hidden as int) != LayerType::Hidden ==> r.len() == 0,
            self.dimensions.layer_at(hidden as int) == LayerType::Hidden ==> is_diffusion(
                self.dimensions,
                self.connections[hidden as int]@,
                r@,
                hidden as int,
                self.connections[hidden as int].len() as int,
            ),
    {
        let mut routes: Vec<ErrorRoute> = Vec::new();
        match self.dimensions.layer_of(hidden) {
            LayerType::Hidden => {},
            _ => {
                return routes;
            },
        }
        let upstream = self.dimensions.neuron_type_of(hidden);
        let row = &self.connections[hidden];
        assert(is_row(
            self.dimensions,
            self.config,
            row@,
            hidden as int,
            self.dimensions.total_neurons as int,
        ));
        let mut k: usize = 0;
        while k < row.len()
            invariant
                self.dimensions.wf(),
                hidden < self.dimensions.total_neurons,
                k <= row.len(),
                upstream == self.dimensions.polarity_of(hidden as int),
                is_row(self.dimensions, self.config, row@, hidden as int, self.dimensions.total_neurons as int),
                is_diffusion(self.dimensions, row@, routes@, hidden as int, k as int),
            decreases row.len() - k,
        {
            let output = row[k].to;
            match self.dimensions.layer_of(output) {
                LayerType::Output => {
                    let ghost before = routes@;
                    let downstream = self.dimensions.neuron_type_of(output);
                    let route = ErrorRoute {
                        position: k,
                        output,
                        into_excitatory: ErrorChannel::Excitatory.routed(upstream, downstream),
                        into_inhibitory: ErrorChannel::Inhibitory.routed(upstream, downstream),
                    };
                    routes.push(route);
                    proof {
                        assert forall|j: int|
                            0 <= j < k + 1 && j < row@.len() && self.dimensions.layer_at(
                                (#[trigger] row@[j]).to as int,
                            ) == LayerType::Output implies exists|r: int|
                            0 <= r < routes@.len() && (#[trigger] routes@[r]).position == j by {
                            if j < k {
                                let r = choose|r: int| 0 <= r < before.len() && (#[trigger] before[r]).position == j;
                                assert(routes@[r] == before[r]);
                            } else {
                                assert(routes@[before.len() as int] == route);
                            }
                        }
                    }
                },
                _ => {},
            }
            k = k + 1;
        }
        routes
    }

    /// For each neuron of the input layer, in order, the logical input whose
    /// value it emits, or `None` where it emits zero.
    pub fn input_assignment(&self) -> (r: Vec<Option<usize>>)
        requires
            self.wf(),
        ensures
            r.len() == 2 * self.dimensions.input_size,
            forall|local: int|
                0 <= local < r.len() ==> match #[trigger] r[local] {
                    Some(k) => k < self.dimensions.input_size && self.config.input_feed(local) == Some(
                        k as int,
                    ),
                    None => self.config.input_feed(local).is_none(),
                },
    {
        let size = self.dimensions.layer_size(LayerType::Input);
        let mut plan: Vec<Option<usize>> = Vec::with_capacity(size);
        let mut local: usize = 0;
        while local < size
            invariant
                local <= size,
                size == 2 * self.dimensions.input_size,
                plan.len() == local,
                forall|l: int|
                    0 <= l < local ==> match #[trigger] plan[l] {
                        Some(k) => k < self.dimensions.input_size && self.config.input_feed(l) == Some(
                            k as int,
                        ),
                        None => self.config.input_feed(l).is_none(),
                    },
            decreases size - local,
        {
            plan.push(self.config.input_source(local));
            local = local + 1;
        }
        plan
    }

    /// The neuron with global index `index`, if there is one.
    pub fn neuron(&self, index: usize) -> (r: Option<&Neuron>)
        requires
            self.wf(),
        ensures
            r.is_some() == (index < self.dimensions.total_neurons),
            r.is_some() ==> *r.unwrap() == (Neuron {
                neuron_type: self.dimensions.polarity_of(index as int),
                index,
            }),
    {
        if index >= self.dimensions.total_neurons {
            return None;
        }
        let layer = self.dimensions.layer_of(index);
        let local = index - self.dimensions.layer_start(layer);
        self.layers[layer.layer_index()].get_neuron(local)
    }
}

/// Sign discipline: every connection of a network carries the product of the
/// sign factors of its two endpoints, so it is `+1` between neurons of one
/// polarity and `-1` between neurons of different polarity.
pub proof fn lemma_polarity_discipline(net: EDNetwork, i: int, k: int)
    requires
        net.wf(),
        0 <= i < net.connections.len(),
        0 <= k < net.connections[i].len(),
    ensures
        net.connections[i][k].sign as int == net.dimensions.polarity_of(
            net.connections[i][k].from as int,
        ).sign() * net.dimensions.polarity_of(net.connections[i][k].to as int).sign(),
        (net.connections[i][k].sign == 1) == (net.dimensions.polarity_of(net.connections[i][k].from as int)
            == net.dimensions.polarity_of(net.connections[i][k].to as int)),
        (net.connections[i][k].sign == -1) == (net.dimensions.polarity_of(net.connections[i][k].from as int)
            != net.dimensions.polarity_of(net.connections[i][k].to as int)),
{
    let row = net.connections[i]@;
    assert(is_row(net.dimensions, net.config, row, i, net.dimensions.total_neurons as int));
    let c = row[k];
    assert(c.obeys_polarity(net.dimensions.polarity_of(i), net.dimensions.polarity_of(c.to as int)));
}

/// Topology flags: every connection of a network ends on a hidden or output
/// neuron; with self-loop cutting none joins a neuron to itself; with loop
/// cutting none runs from a later layer to an earlier one; with the
/// multilayer flag none runs from the input layer straight to the output
/// layer.
pub proof fn lemma_topology_flags(net: EDNetwork, i: int, k: int)
    requires
        net.wf(),
        0 <= i < net.connections.len(),
        0 <= k < net.connections[i].len(),
    ensures
        net.connections[i][k].from == i,
        net.connections[i][k].to < net.dimensions.total_neurons,
        net.dimensions.layer_at(net.connections[i][k].to as int).is_computed(),
        net.config.flag_self_loop_cutting ==> net.connections[i][k].from != net.connections[i][k].to,
        net.config.flag_loop_cutting ==> net.dimensions.layer_at(net.connections[i][k].from as int).position()
            <= net.dimensions.layer_at(net.connections[i][k].to as int).position(),
        net.config.flag_multilayer ==> !(net.dimensions.layer_at(net.connections[i][k].from as int)
            == LayerType::Input && net.dimensions.layer_at(net.connections[i][k].to as int)
            == LayerType::Output),
{
    let row = net.connections[i]@;
    assert(is_row(net.dimensions, net.config, row, i, net.dimensions.total_neurons as int));
    let c = row[k];
    assert(net.dimensions.admits(net.config, i, c.to as int));
}

/// The connection table is complete: every pair that the admission rule
/// lets through has its connection, exactly once, in the row of its source;
/// so each bias neuron feeds every hidden and output neuron.
pub proof fn lemma_table_complete(net: EDNetwork, from: int, to: int)
    requires
        net.wf(),
        net.dimensions.admits(net.config, from, to),
    ensures
        exists|k: int| 0 <= k < net.connections[from].len() && (#[trigger] net.connections[from][k]).to == to,
        forall|a: int, b: int|
            0 <= a < net.connections[from].len() && 0 <= b < net.connections[from].len()
                && (#[trigger] net.connections[from][a]).to == (#[trigger] net.connections[from][b]).to ==> a
                == b,
{
    let row = net.connections[from]@;
    assert(is_row(net.dimensions, net.config, row, from, net.dimensions.total_neurons as int));
    let k = choose|k: int| 0 <= k < row.len() && (#[trigger] row[k]).to == to;
    assert(net.connections[from][k].to == to);
    assert forall|a: int, b: int|
        0 <= a < row.len() && 0 <= b < row.len() && (#[trigger] row[a]).to == (#[trigger] row[b]).to implies a
        == b by {
        if a < b {
            assert(row[a].to < row[b].to);
        } else if b < a {
            assert(row[b].to < row[a].to);
        }
    }
}

/// Each of the two bias neurons feeds every hidden and every output neuron,
/// whatever the flags.
pub proof fn lemma_bias_feeds_all(net: EDNetwork, bias: int, to: int)
    requires
        net.wf(),
        0 <= bias < 2,
        0 <= to < net.dimensions.total_neurons,
        net.dimensions.layer_at(to).is_computed(),
    ensures
        exists|k: int| 0 <= k < net.connections[bias].len() && (#[trigger] net.connections[bias][k]).to == to,
{
    lemma_table_complete(net, bias, to);
}

/// Input masking: an excitatory neuron of the input layer emits the value of
/// its logical input, and so does an inhibitory one with
/// `flag_inhibitory_inputs`; without the flag every inhibitory neuron of the
/// input layer emits zero.
pub proof fn lemma_inhibitory_inputs_masked(net: EDNetwork, local: int)
    requires
        net.wf(),
        0 <= local < net.layers[1].neurons.len(),
    ensures
        net.layers[1].neurons[local].neuron_type == NeuronType::Excitatory ==> net.config.input_feed(local)
            == Some(local / 2),
        net.layers[1].neurons[local].neuron_type == NeuronType::Inhibitory ==> net.config.input_feed(local)
            == if net.config.flag_inhibitory_inputs {
            Some(local / 2)
        } else {
            None
        },
        0 <= local / 2 < net.dimensions.input_size,
{
    assert(net.layers[1].neurons[local].neuron_type == LayerType::Input.polarity_at(local));
}

/// Input doubling: the input layer holds two neurons for each logical
/// input, and the whole network as many neurons as its dimensions say.
pub proof fn lemma_input_doubling(net: EDNetwork)
    requires
        net.wf(),
    ensures
        net.layers[1].layer_type == LayerType::Input,
        net.layers[1].neurons.len() == 2 * net.dimensions.input_size,
        net.layers[0].neurons.len() + net.layers[1].neurons.len() + net.layers[2].neurons.len()
            + net.layers[3].neurons.len() == net.dimensions.total_neurons,
        net.dimensions.total_neurons == 2 + 2 * net.dimensions.input_size + net.dimensions.hidden_size
            + net.dimensions.output_size,
{
}

} // verus!
