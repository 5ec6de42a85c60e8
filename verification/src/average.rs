//! The average of a stream of samples, taken without keeping the samples.

use vstd::prelude::*;

verus! {

/// The sum of `samples`.
pub open spec fn sum_of(samples: Seq<u8>) -> int
    decreases samples.len(),
{
    if samples.len() == 0 {
        0
    } else {
        sum_of(samples.drop_last()) + samples.last()
    }
}

/// A sum of samples is at most 255 times their number.
pub proof fn lemma_sum_of_bounded(samples: Seq<u8>)
    ensures
        0 <= sum_of(samples) <= 255 * samples.len(),
    decreases samples.len(),
{
    if samples.len() > 0 {
        lemma_sum_of_bounded(samples.drop_last());
    }
}

/// Where every sample is `value`, the sum is `value` times their number.
pub proof fn lemma_sum_of_constant(samples: Seq<u8>, value: u8)
    requires
        forall|i: int| 0 <= i < samples.len() ==> samples[i] == value,
    ensures
        sum_of(samples) == value * samples.len(),
    decreases samples.len(),
{
    if samples.len() > 0 {
        let front = samples.drop_last();
        lemma_sum_of_constant(front, value);
        assert(value * samples.len() == value * front.len() + value) by (nonlinear_arith)
            requires
                samples.len() == front.len() + 1,
        ;
    }
}

/// The average of the samples pushed so far, held as their exact sum and
/// their number. Its view is the sequence of those samples, which exists in
/// proofs only: a run of any length takes two integers.
pub struct Average {
    sum: u128,
    count: u64,
    samples: Ghost<Seq<u8>>,
}

impl View for Average {
    type V = Seq<u8>;

    closed spec fn view(&self) -> Seq<u8> {
        self.samples@
    }
}

impl Average {
    #[verifier::type_invariant]
    spec fn consistent(&self) -> bool {
        &&& self.count == self.samples@.len()
        &&& self.sum == sum_of(self.samples@)
    }

    /// The average of no samples yet.
    pub fn new() -> (average: Average)
        ensures
            average@ == Seq::<u8>::empty(),
    {
        Average { sum: 0, count: 0, samples: Ghost(Seq::empty()) }
    }

    /// Takes one more sample in.
    pub fn push(&mut self, sample: u8)
        requires
            old(self)@.len() < u64::MAX,
        ensures
            final(self)@ == old(self)@.push(sample),
    {
        let ghost before = self.samples@;
        proof {
            use_type_invariant(&*self);
            lemma_sum_of_bounded(before);
            assert(before.push(sample).drop_last() =~= before);
        }
        *self = Average {
            sum: self.sum + sample as u128,
            count: self.count + 1,
            samples: Ghost(self.samples@.push(sample)),
        };
    }

    /// The sum of the samples.
    pub fn sum(&self) -> (sum: u128)
        ensures
            sum == sum_of(self@),
    {
        proof {
            use_type_invariant(self);
        }
        self.sum
    }

    /// The number of samples.
    pub fn count(&self) -> (count: u64)
        ensures
            count == self@.len(),
    {
        proof {
            use_type_invariant(self);
        }
        self.count
    }
}

} // verus!
