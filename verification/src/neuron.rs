use vstd::prelude::*;

verus! {

/// Polarity of a neuron, fixed at creation.
#[derive(Debug, Clone, Copy, PartialEq, Eq, Structural)]
pub enum NeuronType {
    /// Excitatory neurons strengthen connections when activated
    Excitatory,
    /// Inhibitory neurons weaken connections when activated
    Inhibitory,
}

impl NeuronType {
    /// The sign factor of a polarity: +1 for excitatory, -1 for inhibitory.
    pub open spec fn sign(self) -> int {
        match self {
            NeuronType::Excitatory => 1,
            NeuronType::Inhibitory => -1,
        }
    }

    /// The polarity at position `index` of an alternating layer: inhibitory
    /// exactly where `(index + 1) mod 2 == 1`.
    pub open spec fn alternating(index: int) -> NeuronType {
        if (index + 1) % 2 == 1 {
            NeuronType::Inhibitory
        } else {
            NeuronType::Excitatory
        }
    }

    /// Sign factor as a machine integer.
    pub fn sign_factor(&self) -> (r: i8)
        ensures
            r as int == self.sign(),
    {
        match self {
            NeuronType::Excitatory => 1,
            NeuronType::Inhibitory => -1,
        }
    }

    /// Create alternating excitatory/inhibitory pattern
    pub fn from_index(index: usize) -> (r: Self)
        ensures
            r == Self::alternating(index as int),
    {
        if index % 2 == 1 {
            NeuronType::Excitatory
        } else {
            NeuronType::Inhibitory
        }
    }

    /// Sign that a connection from a neuron of this polarity to one of
    /// polarity `to` must carry: the product of the two sign factors.
    pub fn polarity_product(&self, to: NeuronType) -> (r: i8)
        ensures
            r as int == self.sign() * to.sign(),
            (r == 1) == (*self == to),
            (r == -1) == (*self != to),
    {
        match self {
            NeuronType::Excitatory => to.sign_factor(),
            NeuronType::Inhibitory => match to {
                NeuronType::Excitatory => -1,
                NeuronType::Inhibitory => 1,
            },
        }
    }
}

/// One of the two error accumulators of a neuron.
#[derive(Debug, Clone, Copy, PartialEq, Eq, Structural)]
pub enum ErrorChannel {
    /// Receives positive prediction error (the output was too low).
    Excitatory,
    /// Receives negative prediction error (the output was too high).
    Inhibitory,
}

impl ErrorChannel {
    /// The other channel.
    pub open spec fn flipped(self) -> ErrorChannel {
        match self {
            ErrorChannel::Excitatory => ErrorChannel::Inhibitory,
            ErrorChannel::Inhibitory => ErrorChannel::Excitatory,
        }
    }

    /// The channel whose polarity is that of `neuron_type`.
    pub open spec fn matching(neuron_type: NeuronType) -> ErrorChannel {
        match neuron_type {
            NeuronType::Excitatory => ErrorChannel::Excitatory,
            NeuronType::Inhibitory => ErrorChannel::Inhibitory,
        }
    }

    /// Where error held in `self` at a downstream neuron lands upstream: the
    /// same channel when the polarity product of the two neurons is positive,
    /// the other one when it is negative.
    pub open spec fn routed_spec(self, upstream: NeuronType, downstream: NeuronType) -> ErrorChannel {
        if upstream.sign() * downstream.sign() == 1 {
            self
        } else {
            self.flipped()
        }
    }

    /// The other channel.
    pub fn opposite(&self) -> (r: Self)
        ensures
            r == self.flipped(),
    {
        match self {
            ErrorChannel::Excitatory => ErrorChannel::Inhibitory,
            ErrorChannel::Inhibitory => ErrorChannel::Excitatory,
        }
    }

    /// The channel that governs weight updates on connections into a neuron
    /// of the given polarity.
    pub fn governing(neuron_type: NeuronType) -> (r: Self)
        ensures
            r == Self::matching(neuron_type),
    {
        match neuron_type {
            NeuronType::Excitatory => ErrorChannel::Excitatory,
            NeuronType::Inhibitory => ErrorChannel::Inhibitory,
        }
    }

    /// The upstream channel into which error from this downstream channel is
    /// diffused.
    pub fn routed(&self, upstream: NeuronType, downstream: NeuronType) -> (r: Self)
        ensures
            r == self.routed_spec(upstream, downstream),
    {
        if upstream.polarity_product(downstream) == 1 {
            *self
        } else {
            self.opposite()
        }
    }
}

/// Routing never merges the two channels of a downstream neuron: they land in
/// different upstream channels, and routing twice across the same pair of
/// polarities gives the channel back.
pub proof fn lemma_routing_is_a_swap(channel: ErrorChannel, upstream: NeuronType, downstream: NeuronType)
    ensures
        channel.routed_spec(upstream, downstream) != channel.flipped().routed_spec(upstream, downstream),
        channel.routed_spec(upstream, downstream).routed_spec(upstream, downstream) == channel,
        upstream == downstream ==> channel.routed_spec(upstream, downstream) == channel,
        upstream != downstream ==> channel.routed_spec(upstream, downstream) == channel.flipped(),
{
}

/// Identity of a neuron within the network: its polarity and its index.
#[derive(Debug, Clone, Copy, PartialEq, Eq, Structural)]
pub struct Neuron {
    /// Neuron type (excitatory or inhibitory)
    pub neuron_type: NeuronType,
    /// Neuron index within the network
    pub index: usize,
}

impl Neuron {
    /// Create new neuron with specified type and index
    pub fn new(neuron_type: NeuronType, index: usize) -> (r: Self)
        ensures
            r == (Neuron { neuron_type, index }),
    {
        Self { neuron_type, index }
    }

    /// Check if neuron is excitatory
    pub fn is_excitatory(&self) -> (r: bool)
        ensures
            r == (self.neuron_type == NeuronType::Excitatory),
    {
        matches!(self.neuron_type, NeuronType::Excitatory)
    }

    /// Check if neuron is inhibitory
    pub fn is_inhibitory(&self) -> (r: bool)
        ensures
            r == (self.neuron_type == NeuronType::Inhibitory),
    {
        matches!(self.neuron_type, NeuronType::Inhibitory)
    }
}

/// Directed edge between two neurons, with the sign its weight must carry.
#[derive(Debug, Clone, Copy, PartialEq, Eq, Structural)]
pub struct Connection {
    /// Source neuron index
    pub from: usize,
    /// Target neuron index
    pub to: usize,
    /// Sign imposed on the weight by the polarities of the two endpoints
    pub sign: i8,
    /// Whether this connection is enabled
    pub connection_enabled: bool,
}

impl Connection {
    /// The sign discipline: the recorded sign is the product of the sign
    /// factors of the two endpoint polarities.
    pub open spec fn obeys_polarity(self, from_type: NeuronType, to_type: NeuronType) -> bool {
        self.sign as int == from_type.sign() * to_type.sign()
    }

    /// Create new connection with ED neuron type constraints applied
    pub fn new(from: usize, to: usize, from_type: NeuronType, to_type: NeuronType) -> (r: Self)
        ensures
            r.from == from,
            r.to == to,
            r.connection_enabled,
            r.obeys_polarity(from_type, to_type),
    {
        Self { from, to, sign: from_type.polarity_product(to_type), connection_enabled: true }
    }

    /// Whether the weight of this connection takes part in learning: a
    /// disabled connection is never updated.
    pub fn accepts_update(&self) -> (r: bool)
        ensures
            r == self.connection_enabled,
    {
        self.connection_enabled
    }
}

} // verus!
