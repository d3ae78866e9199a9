//! Sample-rate conversion by accumulation.
//!
//! Every input sample advances an accumulator by one output period; each
//! time the accumulator reaches one input period, that period is taken away
//! again and the sample is kept. The accumulator is carried in units of
//! `1 / target_rate` of an input sample, so that all arithmetic is exact:
//! a step adds `target_rate` and a kept sample costs `source_rate`.

use vstd::prelude::*;

verus! {

/// Whether the sample that arrives at accumulator value `acc` is kept.
pub open spec fn keeps(acc: int, source: int, target: int) -> bool {
    acc + target >= source
}

/// The accumulator after one sample has arrived at accumulator value `acc`.
pub open spec fn step(acc: int, source: int, target: int) -> int {
    if keeps(acc, source, target) {
        acc + target - source
    } else {
        acc + target
    }
}

/// The samples of `input` that are kept when the stream is entered with
/// accumulator value `acc`.
pub open spec fn decimated(acc: int, source: int, target: int, input: Seq<i16>) -> Seq<i16>
    decreases input.len(),
{
    if input.len() == 0 {
        Seq::empty()
    } else {
        let rest = decimated(step(acc, source, target), source, target, input.drop_first());
        if keeps(acc, source, target) {
            seq![input[0]] + rest
        } else {
            rest
        }
    }
}

/// The accumulator after all of `input` has passed.
pub open spec fn advanced(acc: int, source: int, target: int, input: Seq<i16>) -> int
    decreases input.len(),
{
    if input.len() == 0 {
        acc
    } else {
        advanced(step(acc, source, target), source, target, input.drop_first())
    }
}

/// What a converter at accumulator value `acc` returns for `input`: the
/// input itself where the rates are equal, else the kept samples.
pub open spec fn resampled(acc: int, source: int, target: int, input: Seq<i16>) -> Seq<i16> {
    if source == target {
        input
    } else {
        decimated(acc, source, target, input)
    }
}

/// The accumulator of such a converter after `input`.
pub open spec fn carried(acc: int, source: int, target: int, input: Seq<i16>) -> int {
    if source == target {
        acc
    } else {
        advanced(acc, source, target, input)
    }
}

/// Feeding `a + b` is feeding `a` and then `b`.
pub proof fn lemma_decimated_concat(acc: int, source: int, target: int, a: Seq<i16>, b: Seq<i16>)
    ensures
        decimated(acc, source, target, a + b) == decimated(acc, source, target, a) + decimated(
            advanced(acc, source, target, a),
            source,
            target,
            b,
        ),
        advanced(acc, source, target, a + b) == advanced(
            advanced(acc, source, target, a),
            source,
            target,
            b,
        ),
    decreases a.len(),
{
    if a.len() == 0 {
        assert(a + b =~= b);
        assert(decimated(acc, source, target, a) =~= Seq::<i16>::empty());
        assert(Seq::<i16>::empty() + decimated(acc, source, target, b) =~= decimated(
            acc,
            source,
            target,
            b,
        ));
    } else {
        assert((a + b).drop_first() =~= a.drop_first() + b);
        assert((a + b)[0] == a[0]);
        lemma_decimated_concat(step(acc, source, target), source, target, a.drop_first(), b);
        let tail_a = decimated(step(acc, source, target), source, target, a.drop_first());
        let tail_b = decimated(advanced(acc, source, target, a), source, target, b);
        assert((seq![a[0]] + tail_a) + tail_b =~= seq![a[0]] + (tail_a + tail_b));
    }
}

/// Every step adds one output period and every kept sample takes one input
/// period away: nothing else moves the accumulator.
pub proof fn lemma_accumulator_balance(acc: int, source: int, target: int, input: Seq<i16>)
    ensures
        decimated(acc, source, target, input).len() * source + advanced(
            acc,
            source,
            target,
            input,
        ) == acc + input.len() * target,
        decimated(acc, source, target, input).len() <= input.len(),
    decreases input.len(),
{
    if input.len() > 0 {
        let next = step(acc, source, target);
        let rest = input.drop_first();
        lemma_accumulator_balance(next, source, target, rest);
        let kept = decimated(next, source, target, rest).len() as int;
        let n = rest.len() as int;
        assert(input.len() == n + 1);
        assert((n + 1) * target == n * target + target) by (nonlinear_arith);
        assert((kept + 1) * source == kept * source + source) by (nonlinear_arith);
    }
}

/// While decimating, the accumulator never reaches one input period.
pub proof fn lemma_accumulator_stays_below_period(
    acc: int,
    source: int,
    target: int,
    input: Seq<i16>,
)
    requires
        0 <= target < source,
        0 <= acc < source,
    ensures
        0 <= advanced(acc, source, target, input) < source,
    decreases input.len(),
{
    if input.len() > 0 {
        lemma_accumulator_stays_below_period(
            step(acc, source, target),
            source,
            target,
            input.drop_first(),
        );
    }
}

/// The most samples that decimating `len` input samples can keep: the
/// samples' share of output periods, rounded up, and one more for a period
/// that was already under way.
pub open spec fn decimation_bound(len: int, source: int, target: int) -> int {
    (len * target + source - 1) / source + 1
}

/// Decimation never keeps more than `decimation_bound` samples.
pub proof fn lemma_decimation_bound(acc: int, source: int, target: int, input: Seq<i16>)
    requires
        0 <= target < source,
        0 <= acc < source,
    ensures
        decimated(acc, source, target, input).len() <= decimation_bound(
            input.len() as int,
            source,
            target,
        ),
{
    lemma_accumulator_balance(acc, source, target, input);
    lemma_accumulator_stays_below_period(acc, source, target, input);
    let kept = decimated(acc, source, target, input).len() as int;
    let work = input.len() * target;
    assert(kept * source <= acc + work);
    assert((kept - 1) * source == kept * source - source) by (nonlinear_arith);
    assert((kept - 1) * source <= work + source - 1);
    assert(kept - 1 <= (work + source - 1) / source) by (nonlinear_arith)
        requires
            (kept - 1) * source <= work + source - 1,
            source > 0,
    ;
}

/// Converts a stream of PCM samples from one rate to another, chunk by
/// chunk, as if the chunks were one continuous stream.
pub struct Resampler {
    source_rate: u32,
    target_rate: u32,
    /// The accumulator, capped at one input period: beyond it every sample
    /// is kept whatever the exact value.
    phase: u64,
    accumulated: Ghost<int>,
}

impl Resampler {
    /// The rate of the input stream, in samples per second.
    pub closed spec fn source_rate(&self) -> int {
        self.source_rate as int
    }

    /// The rate of the output stream, in samples per second.
    pub closed spec fn target_rate(&self) -> int {
        self.target_rate as int
    }

    /// The accumulator, in units of `1 / target_rate` of an input sample.
    pub closed spec fn accumulator(&self) -> int {
        self.accumulated@
    }

    /// The stored phase stands for the accumulator.
    #[verifier::type_invariant]
    closed spec fn wf(&self) -> bool {
        &&& self.accumulated@ >= 0
        &&& self.target_rate < self.source_rate ==> self.accumulated@ < self.source_rate
        &&& self.phase as int == if self.accumulated@ < self.source_rate as int {
            self.accumulated@
        } else {
            self.source_rate as int
        }
    }

    /// Whether the two rates differ.
    pub open spec fn spec_needs_resampling(&self) -> bool {
        self.source_rate() != self.target_rate()
    }

    /// A converter at the start of a stream.
    pub fn new(source_rate: u32, target_rate: u32) -> (r: Self)
        ensures
            r.source_rate() == source_rate,
            r.target_rate() == target_rate,
            r.accumulator() == 0,
    {
        Resampler { source_rate, target_rate, phase: 0, accumulated: Ghost(0) }
    }

    /// Whether the two rates differ.
    #[verifier::when_used_as_spec(spec_needs_resampling)]
    pub fn needs_resampling(&self) -> (b: bool)
        ensures
            b == self.spec_needs_resampling(),
    {
        self.source_rate != self.target_rate
    }

    /// Converts the next chunk of the stream.
    ///
    /// With equal rates the chunk is returned as it is. Otherwise the kept
    /// samples are returned and the accumulator moves on, so that the next
    /// chunk continues where this one ended.
    pub fn resample(&mut self, input: &[i16]) -> (out: Vec<i16>)
        ensures
            final(self).source_rate() == old(self).source_rate(),
            final(self).target_rate() == old(self).target_rate(),
            out@ == resampled(
                old(self).accumulator(),
                old(self).source_rate(),
                old(self).target_rate(),
                input@,
            ),
            final(self).accumulator() == carried(
                old(self).accumulator(),
                old(self).source_rate(),
                old(self).target_rate(),
                input@,
            ),
            old(self).source_rate() == old(self).target_rate() ==> out@ == input@,
            old(self).target_rate() < old(self).source_rate() ==> out@.len() <= decimation_bound(
                input@.len() as int,
                old(self).source_rate(),
                old(self).target_rate(),
            ),
            out@.len() <= input@.len(),
    {
        proof {
            use_type_invariant(&*self);
        }
        if !self.needs_resampling() {
            return vstd::slice::slice_to_vec(input);
        }
        let source: u64 = self.source_rate as u64;
        let target: u64 = self.target_rate as u64;
        let ghost start = self.accumulated@;
        let ghost s = self.source_rate as int;
        let ghost t = self.target_rate as int;
        let mut phase: u64 = self.phase;
        let ghost mut acc: int = start;
        let mut output: Vec<i16> = Vec::new();
        let mut i: usize = 0;
        while i < input.len()
            invariant
                0 <= i <= input.len(),
                source == s,
                target == t,
                0 <= s <= u32::MAX,
                0 <= t <= u32::MAX,
                s != t,
                acc >= 0,
                t < s ==> acc < s,
                phase as int == if acc < s { acc } else { s },
                output@ == decimated(start, s, t, input@.take(i as int)),
                acc == advanced(start, s, t, input@.take(i as int)),
            decreases input.len() - i,
        {
            let sample: i16 = input[i];
            proof {
                let seen = input@.take(i as int);
                lemma_decimated_concat(start, s, t, seen, seq![sample]);
                assert(seen + seq![sample] =~= input@.take(i + 1));
                reveal_with_fuel(decimated, 2);
                reveal_with_fuel(advanced, 2);
                assert(seq![sample].drop_first() =~= Seq::<i16>::empty());
                assert(decimated(acc, s, t, seq![sample]) =~= if keeps(acc, s, t) {
                    seq![sample]
                } else {
                    Seq::<i16>::empty()
                });
                assert(advanced(acc, s, t, seq![sample]) == step(acc, s, t));
            }
            let bumped: u64 = phase + target;
            if bumped >= source {
                let rest: u64 = bumped - source;
                phase = if rest < source { rest } else { source };
                output.push(sample);
            } else {
                phase = bumped;
            }
            proof {
                acc = step(acc, s, t);
            }
            i += 1;
        }
        proof {
            assert(input@.take(input@.len() as int) =~= input@);
            lemma_accumulator_balance(start, s, t, input@);
            if t < s {
                lemma_decimation_bound(start, s, t, input@);
            }
        }
        *self = Resampler {
            source_rate: self.source_rate,
            target_rate: self.target_rate,
            phase,
            accumulated: Ghost(acc),
        };
        output
    }
}

} // verus!
