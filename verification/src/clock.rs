//! Playback clock: derives the virtual time signal from wall-clock samples
//! and the playback configuration, with pause / resume / speed semantics.
//!
//! Times are in microseconds, speeds in thousandths.  The state is owned
//! exclusively by the render loop and advanced once per frame.

use vstd::prelude::*;
use vstd::arithmetic::mul::{lemma_mul_inequality, lemma_mul_is_distributive_add};
use vstd::arithmetic::div_mod::{
    lemma_fundamental_div_mod,
    lemma_mod_bound,
    lemma_div_is_ordered,
    lemma_div_pos_is_pos,
    lemma_div_multiples_vanish,
};

verus! {

/// Largest wall-clock sample the clock accepts, in microseconds (about
/// thirteen months of session time).  Keeps the fixed-point products of the
/// clock inside the machine word.
pub const MAX_TIME_US: i64 = 0x2000_0000_0000;

/// Largest magnitude of the playback speed, in thousandths (about a
/// thousandfold).  Speeds beyond it saturate at this value.
pub const MAX_SPEED_MILLI: i64 = 0x10_0000;

/// Clock state: wall-clock microseconds of the previous frame (0 doubles
/// as the "no previous frame yet" sentinel), and the accumulated virtual
/// microseconds.
#[derive(Clone, Copy, PartialEq, Eq, Debug)]
pub struct ClockState {
    pub last_real_time: i64,
    pub last_playback_time: i64,
}

impl ClockState {
    /// The sample bound and the derived bound on the accumulated virtual
    /// time: scaled by a thousand it never exceeds the largest speed times
    /// the wall-clock time over which it accumulated.
    pub open spec fn wf(self) -> bool {
        &&& 0 <= self.last_real_time <= MAX_TIME_US
        &&& 1000 * self.last_playback_time <= MAX_SPEED_MILLI * self.last_real_time
        &&& (-1000) * self.last_playback_time <= MAX_SPEED_MILLI * self.last_real_time
    }

    /// The clock before any frame was seen.
    pub fn new() -> (clock: ClockState)
        ensures
            clock.wf(),
            clock.last_real_time == 0,
            clock.last_playback_time == 0,
    {
        ClockState { last_real_time: 0, last_playback_time: 0 }
    }
}

/// Virtual microseconds produced by a real delta at a speed in
/// thousandths, rounded towards zero.
pub open spec fn playback_delta(real_delta: int, speed_milli: int) -> int {
    if speed_milli >= 0 {
        (real_delta * speed_milli) / 1000
    } else {
        -((real_delta * (-speed_milli)) / 1000)
    }
}

/// The virtual time after a frame at wall-clock `t`: the first frame seeds
/// the clock with `t` itself (phase continuity with wall-clock), any later
/// frame accumulates the scaled real delta.
pub open spec fn tick_time(clock: ClockState, t: int, speed_milli: int) -> int {
    if clock.last_real_time == 0 {
        t
    } else {
        clock.last_playback_time + playback_delta(t - clock.last_real_time, speed_milli)
    }
}

/// The virtual delta of a frame at wall-clock `t`: zero on the seeding
/// frame, the scaled real delta afterwards.
pub open spec fn tick_delta(clock: ClockState, t: int, speed_milli: int) -> int {
    if clock.last_real_time == 0 {
        0
    } else {
        playback_delta(t - clock.last_real_time, speed_milli)
    }
}

impl ClockState {
    /// Advances the clock for a drawn frame at wall-clock `t` and returns
    /// the virtual time and delta to render with.
    pub fn tick(&mut self, t: i64, speed_milli: i64) -> (out: (i64, i64))
        requires
            old(self).wf(),
            0 <= t <= MAX_TIME_US,
            old(self).last_real_time <= t,
            -MAX_SPEED_MILLI <= speed_milli <= MAX_SPEED_MILLI,
        ensures
            final(self).wf(),
            final(self).last_real_time == t,
            final(self).last_playback_time == tick_time(*old(self), t as int, speed_milli as int),
            out.0 == final(self).last_playback_time,
            out.1 == tick_delta(*old(self), t as int, speed_milli as int),
    {
        if self.last_real_time == 0 {
            self.last_real_time = t;
            self.last_playback_time = t;
            proof {
                lemma_mul_inequality(1000, MAX_SPEED_MILLI as int, t as int);
                lemma_mul_inequality(0, 1000, t as int);
            }
            (t, 0)
        } else {
            let rd: i64 = t - self.last_real_time;
            let negative = speed_milli < 0;
            let sabs: i64 = if negative {
                -speed_milli
            } else {
                speed_milli
            };
            proof {
                lemma_mul_inequality(rd as int, MAX_TIME_US as int, sabs as int);
                lemma_mul_inequality(sabs as int, MAX_SPEED_MILLI as int, MAX_TIME_US as int);
                lemma_mul_inequality(0, sabs as int, rd as int);
            }
            let prod: u128 = (rd as u128) * (sabs as u128);
            let magq: u128 = prod / 1000;
            proof {
                lemma_div_is_ordered(
                    prod as int,
                    MAX_TIME_US as int * MAX_SPEED_MILLI as int,
                    1000,
                );
                lemma_div_pos_is_pos(prod as int, 1000);
                // A thousand times the rounded quotient never exceeds the product.
                lemma_fundamental_div_mod(prod as int, 1000);
                lemma_mod_bound(prod as int, 1000);
                // The scaled real delta is bounded by the largest speed.
                lemma_mul_inequality(sabs as int, MAX_SPEED_MILLI as int, rd as int);
                lemma_mul_is_distributive_add(
                    MAX_SPEED_MILLI as int,
                    self.last_real_time as int,
                    rd as int,
                );
            }
            let mag: i64 = magq as i64;
            let delta: i64 = if negative {
                -mag
            } else {
                mag
            };
            self.last_playback_time = self.last_playback_time + delta;
            self.last_real_time = t;
            (self.last_playback_time, delta)
        }
    }

    /// A frame seen while paused: only the wall-clock bookkeeping advances,
    /// so that no backlog of real time is converted into virtual time on
    /// resume.  The virtual time is untouched.
    pub fn pause_tick(&mut self, t: i64)
        requires
            old(self).wf(),
            0 <= t <= MAX_TIME_US,
            old(self).last_real_time <= t,
        ensures
            final(self).wf(),
            final(self).last_real_time == t,
            final(self).last_playback_time == old(self).last_playback_time,
    {
        proof {
            lemma_mul_inequality(
                self.last_real_time as int,
                t as int,
                MAX_SPEED_MILLI as int,
            );
        }
        self.last_real_time = t;
    }
}

/// Law: at double speed every real delta yields exactly the doubled
/// virtual delta.
pub proof fn lemma_speed_scaling(real_delta: int)
    requires
        0 <= real_delta,
    ensures
        playback_delta(real_delta, 2000) == 2 * real_delta,
{
    assert(real_delta * 2000 == 1000 * (2 * real_delta)) by (nonlinear_arith);
    lemma_div_multiples_vanish(2 * real_delta, 1000);
}

/// Law: pausing keeps the virtual time while the wall-clock bookkeeping
/// advances, and resuming continues from the pause point: the delta of the
/// first drawn frame after the pause covers only the real time since the
/// pause, never the paused span.
pub proof fn lemma_pause_resume_continuity(
    clock: ClockState,
    t_pause: i64,
    t_resume: i64,
    speed_milli: i64,
)
    requires
        t_pause != 0,
    ensures
        ({
            let paused_clock = ClockState {
                last_real_time: t_pause,
                last_playback_time: clock.last_playback_time,
            };
            &&& tick_delta(paused_clock, t_resume as int, speed_milli as int)
                == playback_delta(t_resume - t_pause, speed_milli as int)
            &&& tick_time(paused_clock, t_resume as int, speed_milli as int)
                == clock.last_playback_time + playback_delta(t_resume - t_pause, speed_milli as int)
        }),
{
}

} // verus!
