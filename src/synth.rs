//! Phase accumulation for the sine generator and expansion of mono values
//! across the channels of an interleaved frame buffer.
use vstd::prelude::*;
use crate::errors::Error;

verus! {

/// Message of the error for a stream format without samples or channels.
pub open spec fn empty_format_message() -> Seq<char> {
    "stream format needs a positive sample rate and at least one channel"@
}

/// Accepts a negotiated stream format only if it has a positive sample rate
/// and at least one channel, which synthesis and frame writing need.
pub fn check_stream_format(sample_rate: u32, channels: u16) -> (r: Result<(), Error>)
    ensures
        r is Ok <==> (sample_rate > 0 && channels > 0),
        r matches Err(e) ==> e matches Error::DefaultStreamConfigError(m) && m@ == empty_format_message(),
{
    if sample_rate > 0 && channels > 0 {
        Ok(())
    } else {
        Err(Error::DefaultStreamConfigError(String::from_str("stream format needs a positive sample rate and at least one channel")))
    }
}

/// The phase reached one step after `phase` at `sample_rate` samples per second.
pub open spec fn next_phase(phase: nat, sample_rate: nat) -> nat {
    (phase + 1) % sample_rate
}

/// The phase reached `steps` steps after `phase`.
pub open spec fn phase_after(phase: nat, steps: nat, sample_rate: nat) -> nat {
    (phase + steps) % sample_rate
}

/// Number of frames of `channels` samples in a buffer of `len` samples; a
/// trailing partial frame counts as one frame.
pub open spec fn frame_count(len: nat, channels: nat) -> nat
    recommends
        channels > 0,
{
    if channels == 0 {
        0
    } else {
        ((len + channels - 1) as nat) / channels
    }
}

/// Phase accumulator of one pulse. The phase counts samples modulo the sample
/// rate, so it never grows without bound however long the pulse lasts.
pub struct PhaseClock {
    phase: u32,
    sample_rate: u32,
}

impl PhaseClock {
    pub closed spec fn phase_spec(&self) -> nat {
        self.phase as nat
    }

    pub closed spec fn rate_spec(&self) -> nat {
        self.sample_rate as nat
    }

    pub closed spec fn wf(&self) -> bool {
        self.sample_rate > 0 && self.phase < self.sample_rate
    }

    /// A fresh clock at phase zero.
    pub fn new(sample_rate: u32) -> (r: PhaseClock)
        requires
            sample_rate > 0,
        ensures
            r.wf(),
            r.phase_spec() == 0,
            r.rate_spec() == sample_rate,
    {
        PhaseClock { phase: 0, sample_rate }
    }

    pub fn phase(&self) -> (r: u32)
        ensures
            r == self.phase_spec(),
    {
        self.phase
    }

    pub fn sample_rate(&self) -> (r: u32)
        ensures
            r == self.rate_spec(),
    {
        self.sample_rate
    }

    /// Moves one sample forward and returns the new phase, which lies in
    /// `[0, sample_rate)`.
    pub fn advance(&mut self) -> (r: u32)
        requires
            old(self).wf(),
        ensures
            final(self).wf(),
            final(self).rate_spec() == old(self).rate_spec(),
            r == next_phase(old(self).phase_spec(), old(self).rate_spec()),
            final(self).phase_spec() == r,
            r < final(self).rate_spec(),
    {
        let p: u32 = if self.phase + 1 == self.sample_rate {
            0
        } else {
            self.phase + 1
        };
        proof {
            if self.phase + 1 == self.sample_rate {
                vstd::arithmetic::div_mod::lemma_mod_self_0(self.sample_rate as int);
            } else {
                vstd::arithmetic::div_mod::lemma_small_mod((self.phase + 1) as nat, self.sample_rate as nat);
            }
        }
        self.phase = p;
        p
    }

    /// Advances the clock once per frame for `frames` frames and returns the
    /// phase of each frame in order.
    pub fn advance_frames(&mut self, frames: usize) -> (r: Vec<u32>)
        requires
            old(self).wf(),
        ensures
            final(self).wf(),
            final(self).rate_spec() == old(self).rate_spec(),
            r@.len() == frames,
            forall|k: int|
                0 <= k < frames ==> #[trigger] r@[k] == phase_after(
                    old(self).phase_spec(),
                    (k + 1) as nat,
                    old(self).rate_spec(),
                ),
            final(self).phase_spec() == phase_after(
                old(self).phase_spec(),
                frames as nat,
                old(self).rate_spec(),
            ),
    {
        let ghost start = self.phase_spec();
        let ghost rate = self.rate_spec();
        proof {
            vstd::arithmetic::div_mod::lemma_small_mod(start, rate);
        }
        let mut out: Vec<u32> = Vec::with_capacity(frames);
        let mut i: usize = 0;
        while i < frames
            invariant
                self.wf(),
                self.rate_spec() == rate,
                i <= frames,
                out@.len() == i,
                forall|k: int| 0 <= k < i ==> #[trigger] out@[k] == phase_after(start, (k + 1) as nat, rate),
                self.phase_spec() == phase_after(start, i as nat, rate),
            decreases frames - i,
        {
            let p = self.advance();
            proof {
                lemma_step_mod(start, i as nat, rate);
            }
            out.push(p);
            i = i + 1;
        }
        out
    }
}

proof fn lemma_step_mod(start: nat, i: nat, rate: nat)
    requires
        rate > 0,
    ensures
        next_phase(phase_after(start, i, rate), rate) == phase_after(start, i + 1, rate),
{
    if rate == 1 {
        vstd::arithmetic::div_mod::lemma_mod_bound((start + i) as int, 1);
        vstd::arithmetic::div_mod::lemma_mod_bound((start + i + 1) as int, 1);
        vstd::arithmetic::div_mod::lemma_mod_bound(((start + i) % rate + 1) as int, 1);
    } else {
        vstd::arithmetic::div_mod::lemma_small_mod(1, rate);
        vstd::arithmetic::div_mod::lemma_add_mod_noop((start + i) as int, 1, rate as int);
        vstd::arithmetic::div_mod::lemma_mod_twice((start + i) as int, rate as int);
    }
}

/// Number of frames of `channels` samples in a buffer of `len` samples.
pub fn frames_in(len: usize, channels: usize) -> (r: usize)
    requires
        channels > 0,
    ensures
        r == frame_count(len as nat, channels as nat),
{
    let full = len / channels;
    if len % channels == 0 {
        proof {
            lemma_frame_count_split(len as nat, channels as nat);
        }
        full
    } else {
        proof {
            lemma_frame_count_split(len as nat, channels as nat);
            vstd::arithmetic::div_mod::lemma_fundamental_div_mod(len as int, channels as int);
            let q = full as int;
            let m = (len % channels) as int;
            let c = channels as int;
            assert(q < len) by (nonlinear_arith)
                requires
                    len as int == c * q + m,
                    m > 0,
                    c > 0,
                    q >= 0,
            ;
        }
        full + 1
    }
}

proof fn lemma_frame_count_split(len: nat, c: nat)
    requires
        c > 0,
    ensures
        len % c == 0 ==> frame_count(len, c) == len / c,
        len % c != 0 ==> frame_count(len, c) == len / c + 1,
{
    let q = len / c;
    let m = len % c;
    vstd::arithmetic::div_mod::lemma_fundamental_div_mod(len as int, c as int);
    assert(len == c * q + m);
    let s = (len + c - 1) as nat;
    if m == 0 {
        assert(s == c * q + (c - 1));
        vstd::arithmetic::div_mod::lemma_div_multiples_vanish_fancy(q as int, (c - 1) as int, c as int);
    } else {
        assert(s == c * (q + 1) + (m - 1)) by (nonlinear_arith)
            requires
                len == c * q + m,
                s == len + c - 1,
                m > 0,
        ;
        vstd::arithmetic::div_mod::lemma_div_multiples_vanish_fancy((q + 1) as int, (m - 1) as int, c as int);
    }
}

/// Fills `output`, read as consecutive frames of `channels` samples, so that
/// every sample of frame `k` holds `values[k]`. Each value is used for exactly
/// one frame, which keeps all channels of a frame in phase.
pub fn write_frames<T: Copy>(output: &mut [T], channels: usize, values: &Vec<T>)
    requires
        channels > 0,
        values@.len() == frame_count(old(output)@.len(), channels as nat),
    ensures
        final(output)@.len() == old(output)@.len(),
        forall|i: int|
            0 <= i < final(output)@.len() ==> #[trigger] final(output)@[i] == values@[i / (channels as int)],
{
    let len = output.len();
    let ghost c = channels as int;
    let mut i: usize = 0;
    while i < len
        invariant
            channels > 0,
            c == channels,
            len == output@.len(),
            values@.len() == frame_count(len as nat, channels as nat),
            i <= len,
            forall|j: int| 0 <= j < i ==> #[trigger] output@[j] == values@[j / c],
        decreases len - i,
    {
        proof {
            lemma_frame_index_in_range(i as nat, len as nat, channels as nat);
        }
        let v = values[i / channels];
        output[i] = v;
        i = i + 1;
    }
}

proof fn lemma_frame_index_in_range(i: nat, len: nat, c: nat)
    requires
        c > 0,
        i < len,
    ensures
        i / c < frame_count(len, c),
{
    vstd::arithmetic::div_mod::lemma_hoist_over_denominator(i as int, 1, c);
    vstd::arithmetic::div_mod::lemma_div_is_ordered((i + c) as int, (len + c - 1) as int, c as int);
}

/// Every sample within one frame written by `write_frames` is identical to the
/// others of that frame: for frame `k` and any two of its slots `i` and `j`
/// (the last frame may be shorter), the samples at `k * channels + i` and
/// `k * channels + j` are equal.
pub proof fn lemma_frame_is_monophonic<T>(
    output: Seq<T>,
    values: Seq<T>,
    channels: nat,
    k: nat,
    i: nat,
    j: nat,
)
    requires
        channels > 0,
        forall|x: int| 0 <= x < output.len() ==> #[trigger] output[x] == values[x / (channels as int)],
        i < channels,
        j < channels,
        k * channels + i < output.len(),
        k * channels + j < output.len(),
    ensures
        output[(k * channels + i) as int] == output[(k * channels + j) as int],
{
    let c = channels as int;
    vstd::arithmetic::div_mod::lemma_div_multiples_vanish_fancy(k as int, i as int, c);
    vstd::arithmetic::div_mod::lemma_div_multiples_vanish_fancy(k as int, j as int, c);
    assert((k * channels + i) as int == c * k + i) by (nonlinear_arith)
        requires
            c == channels,
    ;
    assert((k * channels + j) as int == c * k + j) by (nonlinear_arith)
        requires
            c == channels,
    ;
    assert(output[(k * channels + i) as int] == values[k as int]);
    assert(output[(k * channels + j) as int] == values[k as int]);
}

} // verus!
