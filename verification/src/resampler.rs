//! Nearest-neighbour conversion of a stereo stream from one sample rate to another.
//!
//! The resampler counts the frames it has taken in. After `n` source frames the
//! sink has received `n * sink_rate / source_rate` frames, rounded down, whatever
//! the sizes of the pieces in which the frames came: the rounding error never
//! adds up over a long stream.

use vstd::prelude::*;

verus! {

/// The number of sink frames that stand for the first `frames` source frames.
pub open spec fn sink_index(frames: nat, source_rate: nat, sink_rate: nat) -> nat {
    frames * sink_rate / source_rate
}

/// How often the source frame at `index` is written to the sink; zero where it is dropped.
pub open spec fn repeats(index: nat, source_rate: nat, sink_rate: nat) -> nat {
    (sink_index(index + 1, source_rate, sink_rate) - sink_index(index, source_rate, sink_rate)) as nat
}

/// The stereo pair `left`, `right`, `times` times in a row.
pub open spec fn repeated(left: i16, right: i16, times: nat) -> Seq<i16>
    decreases times,
{
    if times == 0 {
        Seq::empty()
    } else {
        repeated(left, right, (times - 1) as nat).push(left).push(right)
    }
}

/// The sink frames for `input`, interleaved stereo frames that follow `before`
/// earlier source frames: each frame in turn, as often as `repeats` says.
pub open spec fn resampled(input: Seq<i16>, before: nat, source_rate: nat, sink_rate: nat) -> Seq<
    i16,
>
    decreases input.len(),
{
    if input.len() < 2 {
        Seq::empty()
    } else {
        let last = input.len() / 2 - 1;
        resampled(input.subrange(0, 2 * last), before, source_rate, sink_rate) + repeated(
            input[2 * last],
            input[2 * last + 1],
            repeats((before + last) as nat, source_rate, sink_rate),
        )
    }
}

/// A sample-rate converter for interleaved stereo frames.
#[derive(Clone, Copy, Debug, PartialEq, Eq, Structural)]
pub struct Resampler {
    source_sample_counter: u64,
    source_sample_rate: u64,
    sink_sample_counter: u64,
    sink_sample_rate: u64,
}

impl Resampler {
    #[verifier::type_invariant]
    pub closed spec fn wf(self) -> bool {
        &&& self.source_sample_rate > 0
        &&& self.sink_sample_counter == sink_index(
            self.source_sample_counter as nat,
            self.source_sample_rate as nat,
            self.sink_sample_rate as nat,
        )
    }

    /// The number of source frames taken in so far.
    pub closed spec fn frames_in(self) -> nat {
        self.source_sample_counter as nat
    }

    pub closed spec fn source_rate(self) -> nat {
        self.source_sample_rate as nat
    }

    pub closed spec fn sink_rate(self) -> nat {
        self.sink_sample_rate as nat
    }

    /// Whether `frames` more source frames can be counted in 64 bits, on both sides.
    pub open spec fn has_room(self, frames: nat) -> bool {
        &&& self.frames_in() + frames <= u64::MAX
        &&& sink_index(self.frames_in() + frames, self.source_rate(), self.sink_rate())
            <= u64::MAX
    }

    /// A resampler that has taken in nothing yet.
    pub fn new(source_sample_rate: u64, sink_sample_rate: u64) -> (r: Resampler)
        requires
            source_sample_rate > 0,
        ensures
            r.frames_in() == 0,
            r.source_rate() == source_sample_rate,
            r.sink_rate() == sink_sample_rate,
    {
        assert(0 * (sink_sample_rate as nat) / (source_sample_rate as nat) == 0) by (nonlinear_arith)
            requires
                source_sample_rate > 0,
        ;
        Resampler {
            source_sample_counter: 0,
            source_sample_rate,
            sink_sample_counter: 0,
            sink_sample_rate,
        }
    }

    /// The rate of the source, which is never zero.
    pub fn source_sample_rate(&self) -> (rate: u64)
        ensures
            rate == self.source_rate(),
            rate > 0,
    {
        proof {
            use_type_invariant(self);
        }
        self.source_sample_rate
    }

    /// Whether `frames` more source frames can be counted in 64 bits, on both sides.
    pub fn can_take(&self, frames: usize) -> (ok: bool)
        ensures
            ok == self.has_room(frames as nat),
    {
        proof {
            use_type_invariant(self);
        }
        let total: u128 = self.source_sample_counter as u128 + frames as u128;
        if total > u64::MAX as u128 {
            return false;
        }
        assert(total * (self.sink_sample_rate as u128) <= u128::MAX) by (nonlinear_arith)
            requires
                total <= u64::MAX,
                self.sink_sample_rate <= u64::MAX,
        ;
        total * (self.sink_sample_rate as u128) / (self.source_sample_rate as u128)
            <= u64::MAX as u128
    }

    /// Converts `input` and counts its frames in.
    pub fn resample_nearest(&mut self, input: &[i16]) -> (output: Vec<i16>)
        requires
            input@.len() % 2 == 0,
            old(self).has_room(input@.len() / 2),
        ensures
            output@ == resampled(
                input@,
                old(self).frames_in(),
                old(self).source_rate(),
                old(self).sink_rate(),
            ),
            final(self).frames_in() == old(self).frames_in() + input@.len() / 2,
            final(self).source_rate() == old(self).source_rate(),
            final(self).sink_rate() == old(self).sink_rate(),
    {
        proof {
            use_type_invariant(&*self);
        }
        let source_rate: u64 = self.source_sample_rate;
        let sink_rate: u64 = self.sink_sample_rate;
        let frames: usize = input.len() / 2;
        let ghost before: nat = self.source_sample_counter as nat;
        let mut source: u64 = self.source_sample_counter;
        let mut sink: u64 = self.sink_sample_counter;
        let mut output: Vec<i16> = Vec::new();
        let mut idx: usize = 0;
        assert(input@.subrange(0, 0) =~= Seq::<i16>::empty());
        while idx < frames
            invariant
                2 * frames == input@.len(),
                input@.len() <= usize::MAX,
                source_rate > 0,
                idx <= frames,
                source == before + idx,
                before + frames <= u64::MAX,
                sink_index((before + frames) as nat, source_rate as nat, sink_rate as nat)
                    <= u64::MAX,
                sink == sink_index(source as nat, source_rate as nat, sink_rate as nat),
                output@ == resampled(
                    input@.subrange(0, 2 * idx),
                    before,
                    source_rate as nat,
                    sink_rate as nat,
                ),
            decreases frames - idx,
        {
            let left: i16 = input[2 * idx];
            let right: i16 = input[2 * idx + 1];
            source = source + 1;
            proof {
                lemma_sink_index_monotone(
                    (source - 1) as nat,
                    source as nat,
                    source_rate as nat,
                    sink_rate as nat,
                );
                lemma_sink_index_monotone(
                    source as nat,
                    (before + frames) as nat,
                    source_rate as nat,
                    sink_rate as nat,
                );
                assert((source as u128) * (sink_rate as u128) <= u128::MAX) by (nonlinear_arith)
                    requires
                        source <= u64::MAX,
                        sink_rate <= u64::MAX,
                ;
            }
            let new_sink: u64 = ((source as u128 * sink_rate as u128) / source_rate as u128) as u64;
            let times: u64 = new_sink - sink;
            let ghost done: Seq<i16> = output@;
            let mut count: u64 = 0;
            while count < times
                invariant
                    count <= times,
                    output@ == done + repeated(left, right, count as nat),
                decreases times - count,
            {
                output.push(left);
                output.push(right);
                count = count + 1;
                assert(output@ =~= done + repeated(left, right, count as nat));
            }
            sink = new_sink;
            proof {
                let longer = input@.subrange(0, 2 * (idx + 1));
                assert(longer.subrange(0, 2 * idx) =~= input@.subrange(0, 2 * idx));
                assert(longer[2 * idx] == left && longer[2 * idx + 1] == right);
                assert(times == repeats(
                    (before + idx) as nat,
                    source_rate as nat,
                    sink_rate as nat,
                ));
            }
            idx = idx + 1;
        }
        assert(input@.subrange(0, 2 * idx) =~= input@);
        *self =
        Resampler {
            source_sample_counter: source,
            source_sample_rate: source_rate,
            sink_sample_counter: sink,
            sink_sample_rate: sink_rate,
        };
        output
    }
}

/// More source frames never stand for fewer sink frames.
pub proof fn lemma_sink_index_monotone(a: nat, b: nat, source_rate: nat, sink_rate: nat)
    requires
        a <= b,
        source_rate > 0,
    ensures
        sink_index(a, source_rate, sink_rate) <= sink_index(b, source_rate, sink_rate),
{
    vstd::arithmetic::mul::lemma_mul_inequality(a as int, b as int, sink_rate as int);
    vstd::arithmetic::div_mod::lemma_div_is_ordered(
        (a * sink_rate) as int,
        (b * sink_rate) as int,
        source_rate as int,
    );
}

/// A pair repeated `times` times is `times` frames long.
pub proof fn lemma_repeated_len(left: i16, right: i16, times: nat)
    ensures
        repeated(left, right, times).len() == 2 * times,
    decreases times,
{
    if times > 0 {
        lemma_repeated_len(left, right, (times - 1) as nat);
    }
}

/// The rounding error does not add up: however many frames went before, the
/// frames that come out for a stretch of the stream are as many as the sink
/// is owed at its end, less what it was owed at its start.
pub proof fn lemma_resampled_len(input: Seq<i16>, before: nat, source_rate: nat, sink_rate: nat)
    requires
        source_rate > 0,
        input.len() % 2 == 0,
    ensures
        resampled(input, before, source_rate, sink_rate).len() == 2 * (sink_index(
            before + input.len() / 2,
            source_rate,
            sink_rate,
        ) - sink_index(before, source_rate, sink_rate)),
    decreases input.len(),
{
    if input.len() >= 2 {
        let last = input.len() / 2 - 1;
        let index = (before + last) as nat;
        let head = input.subrange(0, 2 * last);
        lemma_resampled_len(head, before, source_rate, sink_rate);
        lemma_sink_index_monotone(index, index + 1, source_rate, sink_rate);
        lemma_repeated_len(
            input[2 * last],
            input[2 * last + 1],
            repeats(index, source_rate, sink_rate),
        );
    }
}

/// A stream that comes in two pieces gives what it gives in one: the second
/// piece goes on where the first one ended.
pub proof fn lemma_resampled_in_pieces(
    first: Seq<i16>,
    second: Seq<i16>,
    before: nat,
    source_rate: nat,
    sink_rate: nat,
)
    requires
        first.len() % 2 == 0,
        second.len() % 2 == 0,
    ensures
        resampled(first + second, before, source_rate, sink_rate) == resampled(
            first,
            before,
            source_rate,
            sink_rate,
        ) + resampled(second, before + first.len() / 2, source_rate, sink_rate),
    decreases second.len(),
{
    let whole = first + second;
    if second.len() == 0 {
        assert(whole =~= first);
        assert(resampled(second, before + first.len() / 2, source_rate, sink_rate)
            =~= Seq::<i16>::empty());
        assert(resampled(first, before, source_rate, sink_rate) + Seq::<i16>::empty()
            =~= resampled(first, before, source_rate, sink_rate));
    } else {
        let last = second.len() / 2 - 1;
        let whole_last = whole.len() / 2 - 1;
        let shorter = second.subrange(0, 2 * last);
        assert(whole_last == first.len() / 2 + last);
        assert(whole.subrange(0, 2 * whole_last) =~= first + shorter);
        assert(whole[2 * whole_last] == second[2 * last]);
        assert(whole[2 * whole_last + 1] == second[2 * last + 1]);
        lemma_resampled_in_pieces(first, shorter, before, source_rate, sink_rate);
        let tail = repeated(
            second[2 * last],
            second[2 * last + 1],
            repeats((before + whole_last) as nat, source_rate, sink_rate),
        );
        let a = resampled(first, before, source_rate, sink_rate);
        let b = resampled(shorter, before + first.len() / 2, source_rate, sink_rate);
        assert((a + b) + tail =~= a + (b + tail));
    }
}

} // verus!
