//! Summary statistics of a run.
//!
//! A run is summed up by three exact integers: how many passes it made, how
//! many milliseconds they took together, and how many bytes one pass moves.
//! The derived figures are quotients of these, and are handed out as
//! fractions so that nothing is rounded here:
//!
//! * mean duration in ms: `total / iterations`
//! * passes per second: `1000 / mean`
//! * GiB per second: `passes per second * bytes per pass / 1024^3`

use vstd::prelude::*;

verus! {

/// The sum of a sequence of durations.
pub open spec fn total_of(durations: Seq<u64>) -> nat
    decreases durations.len(),
{
    if durations.len() == 0 {
        0
    } else {
        total_of(durations.drop_last()) + durations.last() as nat
    }
}

/// `1024^3`, the number of bytes in a GiB.
pub const BYTES_PER_GIB: u128 = 1_073_741_824;

/// The number of milliseconds in a second.
pub const MS_PER_SECOND: u128 = 1000;

/// A quotient of two naturals. A zero denominator stands for a quotient
/// that has no finite value.
pub struct Quotient {
    pub numerator: nat,
    pub denominator: nat,
}

impl Quotient {
    /// `self` is the quotient `n / d`: the two cross products agree.
    pub open spec fn equals(self, n: nat, d: nat) -> bool {
        self.numerator * d == n * self.denominator
    }
}

/// What a [`RunStatistics`] holds, as unbounded naturals.
pub struct Summary {
    pub iterations: nat,
    pub total_ms: nat,
    pub bytes_per_iteration: nat,
}

impl Summary {
    /// Mean duration of a pass in milliseconds.
    pub open spec fn mean_ms(self) -> Quotient {
        Quotient { numerator: self.total_ms, denominator: self.iterations }
    }

    /// Passes per second.
    pub open spec fn iterations_per_second(self) -> Quotient {
        Quotient { numerator: MS_PER_SECOND as nat * self.iterations, denominator: self.total_ms }
    }

    /// GiB moved per second.
    pub open spec fn gib_per_second(self) -> Quotient {
        Quotient {
            numerator: MS_PER_SECOND as nat * self.iterations * self.bytes_per_iteration,
            denominator: self.total_ms * BYTES_PER_GIB as nat,
        }
    }
}

/// The summary of a run that recorded `durations` and moved
/// `bytes_per_iteration` bytes in each pass.
pub open spec fn summary_of(durations: Seq<u64>, bytes_per_iteration: nat) -> Summary {
    Summary { iterations: durations.len(), total_ms: total_of(durations), bytes_per_iteration }
}

/// Appending a duration adds it to the total.
pub proof fn lemma_total_of_push(durations: Seq<u64>, elapsed: u64)
    ensures
        total_of(durations.push(elapsed)) == total_of(durations) + elapsed,
{
    assert(durations.push(elapsed).drop_last() =~= durations);
}

/// The total of `n` durations is at most `n` times the largest value a
/// duration can have.
pub proof fn lemma_total_of_bound(durations: Seq<u64>)
    ensures
        total_of(durations) <= durations.len() * u64::MAX,
    decreases durations.len(),
{
    if durations.len() > 0 {
        lemma_total_of_bound(durations.drop_last());
        assert((durations.len() - 1) * u64::MAX + u64::MAX == durations.len() * u64::MAX)
            by (nonlinear_arith);
    }
}

/// The three derived figures hang together as the formulas say: the mean is
/// the total over the count, the throughput is a thousand over the mean, and
/// the bandwidth is the throughput times the bytes of a pass over `1024^3`.
pub proof fn lemma_statistics_consistent(durations: Seq<u64>, bytes_per_iteration: nat)
    ensures
        ({
            let summary = summary_of(durations, bytes_per_iteration);
            let mean = summary.mean_ms();
            let throughput = summary.iterations_per_second();
            let bandwidth = summary.gib_per_second();
            &&& mean.equals(total_of(durations), durations.len())
            &&& throughput.equals(1000 * mean.denominator, mean.numerator)
            &&& bandwidth.equals(
                throughput.numerator * bytes_per_iteration,
                throughput.denominator * 1_073_741_824,
            )
        }),
{
    let summary = summary_of(durations, bytes_per_iteration);
    let n = summary.iterations;
    let t = summary.total_ms;
    let b = bytes_per_iteration;
    assert((1000 * n * b) * (t * 1_073_741_824) == ((1000 * n) * b) * (t * 1_073_741_824))
        by (nonlinear_arith);
}

/// A quotient of two machine integers.
#[derive(Clone, Copy, Debug, PartialEq, Eq)]
pub struct Ratio {
    pub numerator: u128,
    pub denominator: u128,
}

impl View for Ratio {
    type V = Quotient;

    open spec fn view(&self) -> Quotient {
        Quotient { numerator: self.numerator as nat, denominator: self.denominator as nat }
    }
}

/// The statistics of a finished run.
#[derive(Clone, Copy, Debug, PartialEq, Eq)]
pub struct RunStatistics {
    iterations: u32,
    total_ms: u128,
    bytes_per_iteration: u64,
}

impl View for RunStatistics {
    type V = Summary;

    closed spec fn view(&self) -> Summary {
        Summary {
            iterations: self.iterations as nat,
            total_ms: self.total_ms as nat,
            bytes_per_iteration: self.bytes_per_iteration as nat,
        }
    }
}

impl RunStatistics {
    /// The run made at least one pass, and its total is one that so many
    /// passes can add up to.
    pub open spec fn wf(&self) -> bool {
        &&& 0 < self@.iterations <= u32::MAX
        &&& self@.total_ms <= self@.iterations * u64::MAX
        &&& self@.bytes_per_iteration <= u64::MAX
    }

    /// Number of passes.
    pub fn iterations(&self) -> (iterations: u32)
        ensures
            iterations == self@.iterations,
    {
        self.iterations
    }

    /// Total duration of all passes in milliseconds.
    pub fn total_ms(&self) -> (total_ms: u128)
        ensures
            total_ms == self@.total_ms,
    {
        self.total_ms
    }

    /// Bytes moved by one pass.
    pub fn bytes_per_iteration(&self) -> (bytes: u64)
        ensures
            bytes == self@.bytes_per_iteration,
    {
        self.bytes_per_iteration
    }

    /// Mean duration of a pass in milliseconds.
    pub fn mean_ms(&self) -> (mean: Ratio)
        ensures
            mean@ == self@.mean_ms(),
    {
        Ratio { numerator: self.total_ms, denominator: self.iterations as u128 }
    }

    /// Passes per second. The denominator is zero when the whole run took
    /// less than a millisecond.
    pub fn iterations_per_second(&self) -> (throughput: Ratio)
        ensures
            throughput@ == self@.iterations_per_second(),
    {
        Ratio { numerator: MS_PER_SECOND * (self.iterations as u128), denominator: self.total_ms }
    }

    /// GiB moved per second. The denominator is zero when the whole run took
    /// less than a millisecond.
    pub fn gib_per_second(&self) -> (bandwidth: Ratio)
        requires
            self.wf(),
        ensures
            bandwidth@ == self@.gib_per_second(),
    {
        let passes: u128 = MS_PER_SECOND * (self.iterations as u128);
        assert(passes * self.bytes_per_iteration <= 1000 * 0xffff_ffff * 0xffff_ffff_ffff_ffff)
            by (nonlinear_arith)
            requires
                passes <= 1000 * 0xffff_ffff,
                self.bytes_per_iteration <= 0xffff_ffff_ffff_ffff,
        ;
        assert(self.total_ms * BYTES_PER_GIB <= 0xffff_ffff * 0xffff_ffff_ffff_ffff * 1_073_741_824)
            by (nonlinear_arith)
            requires
                self.total_ms <= self.iterations * 0xffff_ffff_ffff_ffff,
                self.iterations <= 0xffff_ffff,
                BYTES_PER_GIB == 1_073_741_824,
        ;
        Ratio {
            numerator: passes * (self.bytes_per_iteration as u128),
            denominator: self.total_ms * BYTES_PER_GIB,
        }
    }
}

/// Adds up `durations`.
pub fn total_duration(durations: &Vec<u64>) -> (total: u128)
    ensures
        total == total_of(durations@),
{
    let mut total: u128 = 0;
    let mut i: usize = 0;
    while i < durations.len()
        invariant
            i <= durations.len(),
            total == total_of(durations@.take(i as int)),
            total <= i * u64::MAX,
        decreases durations.len() - i,
    {
        proof {
            assert(durations@.take(i + 1) =~= durations@.take(i as int).push(durations@[i as int]));
            lemma_total_of_push(durations@.take(i as int), durations@[i as int]);
            assert(i * u64::MAX + u64::MAX == (i + 1) * u64::MAX) by (nonlinear_arith);
            assert(i * u64::MAX <= usize::MAX * u64::MAX) by (nonlinear_arith)
                requires
                    i <= usize::MAX,
            ;
        }
        total = total + durations[i] as u128;
        i = i + 1;
    }
    assert(durations@.take(i as int) =~= durations@);
    total
}

/// Sums up a run from the durations of its passes and the number of bytes a
/// pass moves. There is nothing to sum up without a pass, and the count of
/// passes has to fit 32 bits; outside that the answer is `None`.
pub fn summarize(durations: &Vec<u64>, bytes_per_iteration: u64) -> (result: Option<RunStatistics>)
    ensures
        result is Some <==> 0 < durations@.len() <= u32::MAX,
        result matches Some(statistics) ==> statistics.wf() && statistics@ == summary_of(
            durations@,
            bytes_per_iteration as nat,
        ),
{
    let count = durations.len();
    if count == 0 || count > u32::MAX as usize {
        return None;
    }
    proof {
        lemma_total_of_bound(durations@);
    }
    Some(
        RunStatistics {
            iterations: count as u32,
            total_ms: total_duration(durations),
            bytes_per_iteration,
        },
    )
}

} // verus!
