//! The pulse loop's decisions: drawing pulse durations from a validated range
//! and deciding, after each pulse, whether to reset the volume and whether to
//! stop.
use vstd::prelude::*;
use rand::Rng;
use rand_chacha::ChaCha12Rng;
use crate::errors::Error;

verus! {

#[verifier::external_type_specification]
#[verifier::external_body]
pub struct ExChaCha12Rng(ChaCha12Rng);

/// Relies on `rand::Rng::random_range` over an inclusive range: it returns a
/// value between `lo` and `hi`, both included, and panics only on an empty
/// range.
#[verifier::external_body]
fn random_in(rng: &mut ChaCha12Rng, lo: u64, hi: u64) -> (r: u64)
    requires
        lo <= hi,
    ensures
        lo <= r <= hi,
{
    rng.random_range(lo..=hi)
}

/// Message of the error for a range whose minimum exceeds its maximum.
pub open spec fn empty_range_message() -> Seq<char> {
    "low > high (or equal if exclusive) in uniform distribution"@
}

/// Bounds, in milliseconds, between which pulse durations are drawn.
pub struct DurationRange {
    min: u64,
    max: u64,
}

impl DurationRange {
    pub closed spec fn min_spec(&self) -> u64 {
        self.min
    }

    pub closed spec fn max_spec(&self) -> u64 {
        self.max
    }

    pub closed spec fn wf(&self) -> bool {
        self.min <= self.max
    }

    /// A range of durations from `min` to `max`, both included. Fails exactly
    /// when `min > max`.
    pub fn new(min: u64, max: u64) -> (r: Result<DurationRange, Error>)
        ensures
            min <= max <==> r is Ok,
            r matches Ok(d) ==> d.wf() && d.min_spec() == min && d.max_spec() == max,
            r matches Err(e) ==> e matches Error::RandomError(m) && m@ == empty_range_message(),
    {
        if min <= max {
            Ok(DurationRange { min, max })
        } else {
            Err(Error::RandomError(String::from_str("low > high (or equal if exclusive) in uniform distribution")))
        }
    }

    pub fn min(&self) -> (r: u64)
        ensures
            r == self.min_spec(),
    {
        self.min
    }

    pub fn max(&self) -> (r: u64)
        ensures
            r == self.max_spec(),
    {
        self.max
    }

    /// Draws a duration uniformly from the range; the result never leaves it.
    pub fn draw(&self, rng: &mut ChaCha12Rng) -> (r: u64)
        requires
            self.wf(),
        ensures
            self.min_spec() <= r <= self.max_spec(),
    {
        random_in(rng, self.min, self.max)
    }
}

/// Whether a pulse played or its stream failed.
#[derive(Debug, Clone, Copy, PartialEq, Eq, Structural)]
pub enum PulseOutcome {
    Played,
    Failed,
}

/// What the loop does after a pulse.
#[derive(Debug, Clone, Copy, PartialEq, Eq, Structural)]
pub struct Step {
    /// Reset the system volume before going on: the pulse failed.
    pub reset_volume: bool,
    /// Leave the loop: the run's time limit is reached.
    pub stop: bool,
}

/// Whether a run that has lasted `elapsed_ms` milliseconds has reached the
/// limit of `timeout_secs` seconds; without a limit it never does.
pub open spec fn timed_out(timeout_secs: Option<u64>, elapsed_ms: u64) -> bool {
    match timeout_secs {
        Some(t) => elapsed_ms as int >= t as int * 1000,
        None => false,
    }
}

/// `n + 1`, held at `u64::MAX`.
pub open spec fn count_up(n: u64) -> u64 {
    if n == u64::MAX {
        n
    } else {
        (n + 1) as u64
    }
}

/// State of the pulse loop between pulses.
pub struct PulseScheduler {
    timeout_secs: Option<u64>,
    pulses: u64,
    failures: u64,
    terminated: bool,
}

impl PulseScheduler {
    pub closed spec fn timeout_spec(&self) -> Option<u64> {
        self.timeout_secs
    }

    pub closed spec fn pulses_spec(&self) -> u64 {
        self.pulses
    }

    pub closed spec fn failures_spec(&self) -> u64 {
        self.failures
    }

    pub closed spec fn terminated_spec(&self) -> bool {
        self.terminated
    }

    /// A loop that has played nothing yet, limited to `timeout_secs` seconds
    /// when a limit is given.
    pub fn new(timeout_secs: Option<u64>) -> (r: PulseScheduler)
        ensures
            r.timeout_spec() == timeout_secs,
            r.pulses_spec() == 0,
            r.failures_spec() == 0,
            !r.terminated_spec(),
    {
        PulseScheduler { timeout_secs, pulses: 0, failures: 0, terminated: false }
    }

    pub fn timeout_secs(&self) -> (r: Option<u64>)
        ensures
            r == self.timeout_spec(),
    {
        self.timeout_secs
    }

    /// Pulses attempted so far.
    pub fn pulses(&self) -> (r: u64)
        ensures
            r == self.pulses_spec(),
    {
        self.pulses
    }

    /// Pulses whose stream failed so far.
    pub fn failures(&self) -> (r: u64)
        ensures
            r == self.failures_spec(),
    {
        self.failures
    }

    /// True once the loop has decided to stop.
    pub fn is_terminated(&self) -> (r: bool)
        ensures
            r == self.terminated_spec(),
    {
        self.terminated
    }

    /// Records the outcome of a pulse, `elapsed_ms` milliseconds after the
    /// run began. A failed pulse asks for a volume reset and never ends the
    /// loop by itself; the loop stops once the time limit is reached, and
    /// never without one.
    pub fn after_pulse(&mut self, outcome: PulseOutcome, elapsed_ms: u64) -> (r: Step)
        requires
            !old(self).terminated_spec(),
        ensures
            r.reset_volume == (outcome == PulseOutcome::Failed),
            r.stop == timed_out(old(self).timeout_spec(), elapsed_ms),
            final(self).terminated_spec() == r.stop,
            final(self).timeout_spec() == old(self).timeout_spec(),
            final(self).pulses_spec() == count_up(old(self).pulses_spec()),
            final(self).failures_spec() == if outcome == PulseOutcome::Failed {
                count_up(old(self).failures_spec())
            } else {
                old(self).failures_spec()
            },
    {
        if self.pulses < u64::MAX {
            self.pulses = self.pulses + 1;
        }
        let failed = match outcome {
            PulseOutcome::Failed => true,
            PulseOutcome::Played => false,
        };
        if failed && self.failures < u64::MAX {
            self.failures = self.failures + 1;
        }
        let stop = match self.timeout_secs {
            Some(t) => {
                proof {
                    lemma_whole_seconds(elapsed_ms as int, t as int);
                }
                elapsed_ms / 1000 >= t
            },
            None => false,
        };
        self.terminated = stop;
        Step { reset_volume: failed, stop }
    }
}

proof fn lemma_whole_seconds(ms: int, t: int)
    requires
        ms >= 0,
        t >= 0,
    ensures
        (ms / 1000 >= t) == (ms >= t * 1000),
{
    vstd::arithmetic::div_mod::lemma_fundamental_div_mod(ms, 1000);
    vstd::arithmetic::div_mod::lemma_mod_bound(ms, 1000);
    let q = ms / 1000;
    let m = ms % 1000;
    if q >= t {
        assert(q * 1000 >= t * 1000) by (nonlinear_arith)
            requires
                q >= t,
        ;
    } else {
        assert(q * 1000 + 1000 <= t * 1000) by (nonlinear_arith)
            requires
                q + 1 <= t,
        ;
    }
}

} // verus!
