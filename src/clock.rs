//! The fixed-timestep frame clock: measures elapsed time, caps it, accumulates
//! it as lag and spends the lag in whole timesteps.
use crate::config::GameConfig;
use crate::time::{TimeSpan, NANOS_PER_SEC};
use vstd::arithmetic::div_mod::{lemma_fundamental_div_mod, lemma_fundamental_div_mod_converse};
use vstd::prelude::*;

verus! {

/// Elapsed time after the spiral-of-death guard: anything strictly above the
/// ceiling counts as the ceiling.
pub open spec fn clamped(elapsed: nat, max_frame_time: nat) -> nat {
    if elapsed > max_frame_time {
        max_frame_time
    } else {
        elapsed
    }
}

/// How many whole timesteps one advance spends.
pub open spec fn updates_due(lag: nat, elapsed: nat, max_frame_time: nat, frame: nat) -> nat {
    (lag + clamped(elapsed, max_frame_time)) / (frame as int) as nat
}

/// The lag carried to the next iteration: what is left after the whole
/// timesteps are spent.
pub open spec fn lag_after(lag: nat, elapsed: nat, max_frame_time: nat, frame: nat) -> nat {
    (lag + clamped(elapsed, max_frame_time)) % (frame as int) as nat
}

/// Elapsed time between two clock readings; a reading earlier than the
/// previous one counts as no time at all.
pub open spec fn elapsed_between(previous: nat, now: nat) -> nat {
    if now >= previous {
        (now - previous) as nat
    } else {
        0
    }
}

/// What a frame clock holds, in nanoseconds.
pub ghost struct ClockView {
    /// The previous reading, counted from the start of the loop.
    pub previous: nat,
    /// Simulated time not yet spent.
    pub lag: nat,
    /// One fixed timestep.
    pub frame: nat,
    /// The most elapsed time one iteration accounts for.
    pub max_frame_time: nat,
}

/// Timing state of one run of the event loop.
pub struct FrameClock {
    previous: u64,
    lag: u64,
    frame: u64,
    max_frame_time: u64,
}

impl View for FrameClock {
    type V = ClockView;

    closed spec fn view(&self) -> ClockView {
        ClockView {
            previous: self.previous as nat,
            lag: self.lag as nat,
            frame: self.frame as nat,
            max_frame_time: self.max_frame_time as nat,
        }
    }
}

impl FrameClock {
    #[verifier::type_invariant]
    spec fn lag_below_frame(&self) -> bool {
        &&& self.frame > 0
        &&& self.lag < self.frame
    }

    /// A clock at the start of a run: no lag, and the previous reading at zero.
    pub fn new(frame: TimeSpan, max_frame_time: TimeSpan) -> (r: FrameClock)
        requires
            frame.nanos > 0,
        ensures
            r@ == (ClockView {
                previous: 0,
                lag: 0,
                frame: frame.nanos as nat,
                max_frame_time: max_frame_time.nanos as nat,
            }),
    {
        FrameClock { previous: 0, lag: 0, frame: frame.nanos, max_frame_time: max_frame_time.nanos }
    }

    /// A clock for a validated configuration.
    pub fn from_config(config: &GameConfig) -> (r: FrameClock)
        requires
            config.is_valid(),
        ensures
            r@ == (ClockView {
                previous: 0,
                lag: 0,
                frame: config.frame_nanos(),
                max_frame_time: config.max_frame_time.nanos as nat,
            }),
            r@.frame > 0,
    {
        let frame = config.frame_duration();
        assert(frame.nanos > 0) by {
            // A second divided by at most a billion frames is at least one nanosecond.
            vstd::arithmetic::div_mod::lemma_div_is_ordered_by_denominator(
                NANOS_PER_SEC as int,
                config.target_fps as int,
                NANOS_PER_SEC as int,
            );
        }
        FrameClock::new(frame, config.max_frame_time)
    }

    /// The lag still to be spent.
    pub fn lag(&self) -> (r: TimeSpan)
        ensures
            r.nanos == self@.lag,
            r.nanos < self@.frame,
    {
        proof {
            use_type_invariant(self);
        }
        TimeSpan::from_nanos(self.lag)
    }

    /// One fixed timestep.
    pub fn frame(&self) -> (r: TimeSpan)
        ensures
            r.nanos == self@.frame,
            r.nanos > 0,
    {
        proof {
            use_type_invariant(self);
        }
        TimeSpan::from_nanos(self.frame)
    }

    /// Caps `elapsed` at the ceiling, adds it to the lag and spends the lag in
    /// whole timesteps; returns how many timesteps were spent.
    pub fn advance(&mut self, elapsed: TimeSpan) -> (updates: u64)
        ensures
            updates == updates_due(old(self)@.lag, elapsed.nanos as nat, old(self)@.max_frame_time, old(self)@.frame),
            final(self)@ == (ClockView {
                lag: lag_after(old(self)@.lag, elapsed.nanos as nat, old(self)@.max_frame_time, old(self)@.frame),
                ..old(self)@
            }),
            final(self)@.lag < final(self)@.frame,
    {
        proof {
            use_type_invariant(&*self);
        }
        let e: u64 = if elapsed.nanos > self.max_frame_time { self.max_frame_time } else { elapsed.nanos };
        let frame = self.frame;
        let lag = self.lag;
        let q: u64 = e / frame;
        let r: u64 = e % frame;
        proof {
            lemma_fundamental_div_mod(e as int, frame as int);
        }
        let updates: u64;
        let new_lag: u64;
        if r >= frame - lag {
            assert(frame >= 2);
            assert(q * frame <= e) by (nonlinear_arith)
                requires
                    e == frame * q + r,
                    0 <= r,
            ;
            assert(2 * q <= q * frame) by (nonlinear_arith)
                requires
                    frame >= 2,
            ;
            updates = q + 1;
            new_lag = r - (frame - lag);
            proof {
                assert(lag + e == (q + 1) * frame + new_lag) by (nonlinear_arith)
                    requires
                        e == frame * q + r,
                        new_lag == r - (frame - lag),
                ;
                lemma_fundamental_div_mod_converse(
                    lag + e,
                    frame as int,
                    q + 1,
                    new_lag as int,
                );
            }
        } else {
            updates = q;
            new_lag = lag + r;
            proof {
                lemma_fundamental_div_mod_converse(lag + e, frame as int, q as int, new_lag as int);
            }
        }
        self.lag = new_lag;
        updates
    }

    /// Takes a clock reading (time since the start of the loop), measures the
    /// time elapsed since the previous reading, and advances by it.
    pub fn tick(&mut self, now: TimeSpan) -> (updates: u64)
        ensures
            updates == updates_due(
                old(self)@.lag,
                elapsed_between(old(self)@.previous, now.nanos as nat),
                old(self)@.max_frame_time,
                old(self)@.frame,
            ),
            final(self)@ == (ClockView {
                previous: now.nanos as nat,
                lag: lag_after(
                    old(self)@.lag,
                    elapsed_between(old(self)@.previous, now.nanos as nat),
                    old(self)@.max_frame_time,
                    old(self)@.frame,
                ),
                ..old(self)@
            }),
            final(self)@.lag < final(self)@.frame,
    {
        proof {
            use_type_invariant(&*self);
        }
        let elapsed = if now.nanos >= self.previous {
            TimeSpan::from_nanos(now.nanos - self.previous)
        } else {
            TimeSpan::zero()
        };
        self.previous = now.nanos;
        self.advance(elapsed)
    }
}

/// Any elapsed time above the ceiling spends exactly as many timesteps, and
/// leaves exactly the same lag, as an elapsed time equal to the ceiling.
pub proof fn clamp_beyond_ceiling(lag: nat, elapsed: nat, max_frame_time: nat, frame: nat)
    requires
        elapsed > max_frame_time,
        frame > 0,
    ensures
        updates_due(lag, elapsed, max_frame_time, frame) == updates_due(lag, max_frame_time, max_frame_time, frame),
        lag_after(lag, elapsed, max_frame_time, frame) == lag_after(lag, max_frame_time, max_frame_time, frame),
{
}

/// An elapsed time equal to the ceiling is not cut: it all becomes lag.
pub proof fn ceiling_is_not_clamped(max_frame_time: nat)
    ensures
        clamped(max_frame_time, max_frame_time) == max_frame_time,
{
}

/// Lag that is an exact multiple of the timestep is spent completely: that
/// many timesteps, and no lag left.
pub proof fn exact_multiple_spends_all(k: nat, frame: nat)
    requires
        frame > 0,
        k * frame <= u64::MAX,
    ensures
        updates_due(0, k * frame, k * frame, frame) == k,
        lag_after(0, k * frame, k * frame, frame) == 0,
{
    lemma_fundamental_div_mod_converse((k * frame) as int, frame as int, k as int, 0);
}

} // verus!
