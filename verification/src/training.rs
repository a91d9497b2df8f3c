use vstd::prelude::*;
use vstd::arithmetic::power2::{pow2, lemma_pow2_pos, lemma_pow2_unfold, lemma_pow2_strictly_increases, lemma2_to64};
use vstd::arithmetic::div_mod::lemma_div_denominator;

verus! {

/// Training pattern for ED learning over binary values: each input and each
/// target is 0 or 1, held as a bit (`true` stands for 1, `false` for 0).
#[derive(Debug, Clone)]
pub struct TrainingPattern {
    /// Input bits (each will be doubled for excitatory/inhibitory pairs)
    pub inputs: Vec<bool>,
    /// Target output bits
    pub targets: Vec<bool>,
    /// Pattern identifier
    pub id: usize,
}

/// Bit number `bit` of `value`, counting from the least significant.
pub open spec fn bit_of(value: nat, bit: nat) -> bool {
    (value / pow2(bit)) % 2 == 1
}

/// The low `n_bits` bits of `value`, least significant first.
pub open spec fn low_bits(value: nat, n_bits: nat) -> Seq<bool> {
    Seq::new(n_bits, |bit: int| bit_of(value, bit as nat))
}

/// How many of the bits are set.
pub open spec fn count_set(bits: Seq<bool>) -> nat
    decreases bits.len(),
{
    if bits.len() == 0 {
        0
    } else {
        count_set(bits.drop_last()) + if bits.last() { 1nat } else { 0nat }
    }
}

/// Odd parity: whether an odd number of the bits are set.
pub open spec fn odd_parity(bits: Seq<bool>) -> bool {
    count_set(bits) % 2 == 1
}

/// Appending a bit raises the count by one exactly when the bit is set.
pub proof fn lemma_count_set_push(bits: Seq<bool>, bit: bool)
    ensures
        count_set(bits.push(bit)) == count_set(bits) + if bit { 1nat } else { 0nat },
{
    assert(bits.push(bit).drop_last() =~= bits);
}

impl TrainingPattern {
    /// Whether this is pattern number `id` of the `n_bits`-bit parity task:
    /// the inputs are the low bits of `id`, the single target is their odd
    /// parity.
    pub open spec fn is_parity_pattern(self, id: nat, n_bits: nat) -> bool {
        &&& self.id == id
        &&& self.inputs@ == low_bits(id, n_bits)
        &&& self.targets@ == seq![odd_parity(low_bits(id, n_bits))]
    }

    /// Whether the pattern has the given contents.
    pub open spec fn holds(self, inputs: Seq<bool>, targets: Seq<bool>, id: nat) -> bool {
        &&& self.inputs@ == inputs
        &&& self.targets@ == targets
        &&& self.id == id
    }

    /// Create new training pattern
    pub fn new(inputs: Vec<bool>, targets: Vec<bool>, id: usize) -> (r: Self)
        ensures
            r.inputs == inputs,
            r.targets == targets,
            r.id == id,
    {
        Self { inputs, targets, id }
    }

    /// Create XOR training dataset
    pub fn create_xor_dataset() -> (r: Vec<Self>)
        ensures
            r.len() == 4,
            r[0].holds(seq![false, false], seq![false], 0),
            r[1].holds(seq![true, false], seq![true], 1),
            r[2].holds(seq![false, true], seq![true], 2),
            r[3].holds(seq![true, true], seq![false], 3),
    {
        let r = vec![
            Self::new(vec![false, false], vec![false], 0),
            Self::new(vec![true, false], vec![true], 1),
            Self::new(vec![false, true], vec![true], 2),
            Self::new(vec![true, true], vec![false], 3),
        ];
        proof {
            assert(r[0].inputs@ =~= seq![false, false]);
            assert(r[0].targets@ =~= seq![false]);
            assert(r[1].inputs@ =~= seq![true, false]);
            assert(r[1].targets@ =~= seq![true]);
            assert(r[2].inputs@ =~= seq![false, true]);
            assert(r[2].targets@ =~= seq![true]);
            assert(r[3].inputs@ =~= seq![true, true]);
            assert(r[3].targets@ =~= seq![false]);
        }
        r
    }

    /// Number of patterns of the `n_bits`-bit parity task, two to the power
    /// `n_bits`, or `None` where that number does not fit the machine word.
    pub fn parity_pattern_count(n_bits: usize) -> (r: Option<usize>)
        ensures
            r.is_some() == (pow2(n_bits as nat) <= usize::MAX),
            r.is_some() ==> r.unwrap() == pow2(n_bits as nat),
    {
        let mut count: usize = 1;
        let mut k: usize = 0;
        proof {
            lemma2_to64();
        }
        while k < n_bits
            invariant
                k <= n_bits,
                count == pow2(k as nat),
            decreases n_bits - k,
        {
            proof {
                lemma_pow2_unfold((k + 1) as nat);
                if k + 1 < n_bits {
                    lemma_pow2_strictly_increases((k + 1) as nat, n_bits as nat);
                }
            }
            if count > usize::MAX / 2 {
                return None;
            }
            count = count * 2;
            k = k + 1;
        }
        Some(count)
    }

    /// Create N-bit parity dataset
    pub fn create_parity_dataset(n_bits: usize) -> (r: Vec<Self>)
        requires
            pow2(n_bits as nat) <= usize::MAX,
        ensures
            r.len() == pow2(n_bits as nat),
            forall|i: int| 0 <= i < r.len() ==> (#[trigger] r[i]).is_parity_pattern(i as nat, n_bits as nat),
    {
        let mut patterns: Vec<Self> = Vec::new();
        let n_patterns: usize = match Self::parity_pattern_count(n_bits) {
            Some(n) => n,
            None => 0,
        };
        let mut i: usize = 0;
        while i < n_patterns
            invariant
                i <= n_patterns,
                n_patterns == pow2(n_bits as nat),
                patterns.len() == i,
                forall|p: int| 0 <= p < i ==> (#[trigger] patterns[p]).is_parity_pattern(p as nat, n_bits as nat),
            decreases n_patterns - i,
        {
            let mut inputs: Vec<bool> = Vec::with_capacity(n_bits);
            let mut parity: usize = 0;
            let mut rest: usize = i;
            let mut bit: usize = 0;
            proof {
                lemma2_to64();
            }
            // Generate binary pattern
            while bit < n_bits
                invariant
                    bit <= n_bits,
                    inputs.len() == bit,
                    inputs@ == low_bits(i as nat, bit as nat),
                    rest == (i as nat) / pow2(bit as nat),
                    parity == count_set(inputs@),
                    parity <= bit,
                decreases n_bits - bit,
            {
                let value = rest % 2 == 1;
                proof {
                    lemma_count_set_push(inputs@, value);
                    lemma_pow2_pos(bit as nat);
                    lemma_pow2_unfold((bit + 1) as nat);
                    lemma_div_denominator(i as int, pow2(bit as nat) as int, 2);
                    assert(pow2(bit as nat) * 2 == pow2((bit + 1) as nat));
                    assert(inputs@.push(value) =~= low_bits(i as nat, (bit + 1) as nat));
                }
                inputs.push(value);
                if value {
                    parity += 1;
                }
                rest = rest / 2;
                bit = bit + 1;
            }
            // Parity target: 1 if odd number of 1's, 0 if even
            let target = parity % 2 == 1;
            let targets = vec![target];
            proof {
                assert(targets@ =~= seq![odd_parity(low_bits(i as nat, n_bits as nat))]);
            }
            patterns.push(Self::new(inputs, targets, i));
            i = i + 1;
        }
        patterns
    }
}

} // verus!
