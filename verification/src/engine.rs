//! Per-frame orchestration: evaluates recovery, decides on recompilation,
//! advances the clock, and computes the seven uniform values of a frame
//! under the override-then-default rule.
//!
//! The engine holds every mutable local of the render loop: clock state,
//! frame counter, recovery state, the active program binding, and the last
//! configuration snapshot (reused when no fresh one could be taken).  The
//! shell performs the graphics calls the decisions ask for.

use vstd::prelude::*;
use vstd::arithmetic::div_mod::{lemma_div_is_ordered_by_denominator, lemma_div_pos_is_pos};
use crate::clock::{ClockState, tick_time, tick_delta, MAX_TIME_US, MAX_SPEED_MILLI};
use crate::config::{
    PlayerState,
    ResolutionUniform,
    MouseUniform,
    DateUniform,
    stored_paused,
    stored_speed,
    stored_resolution,
    stored_time,
    stored_time_delta,
    stored_frame,
    stored_frame_rate,
    stored_mouse,
    stored_date,
};
use crate::recovery::{RecoveryState, FrameAction, after_lost, after_restored, frame_transition};

verus! {

/// Actual drawing-buffer dimensions in pixels and the device pixel ratio
/// in thousandths, sampled by the shell each frame.
#[derive(Clone, Copy, PartialEq, Eq, Debug)]
pub struct Viewport {
    pub width: i64,
    pub height: i64,
    pub pixel_ratio_milli: i64,
}

/// The seven uniform slots of a frame, ready for upload.  `mouse` is only
/// uploaded when an override is stored, matching last-interaction
/// semantics; every other slot always carries a value.
#[derive(Clone, Copy, PartialEq, Eq, Debug)]
pub struct UniformValues {
    pub resolution: ResolutionUniform,
    pub time: i64,
    pub time_delta: i64,
    pub frame: i64,
    pub frame_rate: i64,
    pub mouse: Option<MouseUniform>,
    pub date: DateUniform,
}

/// Shell-side handles of the seven resolved uniform locations of the
/// active program.
#[derive(Clone, Copy, PartialEq, Eq, Debug)]
pub struct UniformLocations {
    pub resolution: Option<u64>,
    pub time: Option<u64>,
    pub time_delta: Option<u64>,
    pub frame: Option<u64>,
    pub frame_rate: Option<u64>,
    pub mouse: Option<u64>,
    pub date: Option<u64>,
}

/// The active program together with all of its uniform locations: the two
/// are only ever swapped as one piece, never half.
#[derive(Clone, Copy, PartialEq, Eq, Debug)]
pub struct ProgramBinding {
    pub program: u64,
    pub locations: UniformLocations,
}

/// Whether the snapshot pauses playback: only an explicitly stored `true`
/// pauses.
pub open spec fn effective_paused(state: PlayerState) -> bool {
    stored_paused(state) == Some(true)
}

/// Saturates a stored speed into the range the fixed-point clock carries.
pub open spec fn clamped_speed(speed_milli: i64) -> i64 {
    if speed_milli > MAX_SPEED_MILLI {
        MAX_SPEED_MILLI
    } else if speed_milli < -MAX_SPEED_MILLI {
        (-MAX_SPEED_MILLI) as i64
    } else {
        speed_milli
    }
}

/// The speed the clock runs at: the stored speed, saturated, defaulting to
/// a thousand thousandths (1.0) when none was ever stored.
pub open spec fn effective_speed(state: PlayerState) -> i64 {
    match stored_speed(state) {
        Some(s) => clamped_speed(s),
        None => 1000,
    }
}

/// The default frame rate, in thousandths of frames per second: the
/// inverse of the virtual delta in microseconds, zero when the delta is
/// zero.
pub open spec fn default_frame_rate(time_delta: i64) -> i64 {
    if time_delta > 0 {
        (1_000_000_000int / (time_delta as int)) as i64
    } else if time_delta < 0 {
        (-(1_000_000_000int / (-(time_delta as int)))) as i64
    } else {
        0
    }
}

/// The override-then-default rule for the seven uniform slots: a stored
/// override wins, otherwise the computed value — the clock's time and
/// delta, the frame counter, the inverse of the effective delta, the
/// viewport, the date of the shell's clock.  The effective delta feeds the
/// default frame rate, so a delta override changes that default too.
pub open spec fn spec_uniform_values(
    state: PlayerState,
    time: i64,
    time_delta: i64,
    frame: i64,
    viewport: Viewport,
    now: DateUniform,
) -> UniformValues {
    let eff_delta = match stored_time_delta(state) {
        Some(d) => d,
        None => time_delta,
    };
    UniformValues {
        resolution: match stored_resolution(state) {
            Some(r) => r,
            None => ResolutionUniform {
                width: viewport.width,
                height: viewport.height,
                pixel_aspect_ratio: viewport.pixel_ratio_milli,
            },
        },
        time: match stored_time(state) {
            Some(t) => t,
            None => time,
        },
        time_delta: eff_delta,
        frame: match stored_frame(state) {
            Some(f) => f,
            None => frame,
        },
        frame_rate: match stored_frame_rate(state) {
            Some(r) => r,
            None => default_frame_rate(eff_delta),
        },
        mouse: stored_mouse(state),
        date: match stored_date(state) {
            Some(d) => d,
            None => now,
        },
    }
}

/// The inverse of the effective delta, executable half.
fn frame_rate_from_delta(time_delta: i64) -> (rate: i64)
    ensures
        rate == default_frame_rate(time_delta),
{
    if time_delta > 0 {
        let d: u64 = time_delta as u64;
        proof {
            lemma_div_is_ordered_by_denominator(1_000_000_000, 1, d as int);
            lemma_div_pos_is_pos(1_000_000_000, d as int);
        }
        (1_000_000_000u64 / d) as i64
    } else if time_delta < 0 {
        let m: i128 = -(time_delta as i128);
        let mu: u128 = m as u128;
        proof {
            lemma_div_is_ordered_by_denominator(1_000_000_000, 1, mu as int);
            lemma_div_pos_is_pos(1_000_000_000, mu as int);
        }
        -((1_000_000_000u128 / mu) as i64)
    } else {
        0
    }
}

/// Computes the seven uniform slots of a frame under the
/// override-then-default rule.
pub fn compute_uniform_values(
    state: &PlayerState,
    time: i64,
    time_delta: i64,
    frame: i64,
    viewport: &Viewport,
    now: &DateUniform,
) -> (values: UniformValues)
    ensures
        values == spec_uniform_values(*state, time, time_delta, frame, *viewport, *now),
{
    let uniforms = match state.uniforms {
        Some(u) => u,
        None => crate::config::Uniforms {
            resolution: None,
            time: None,
            time_delta: None,
            frame: None,
            frame_rate: None,
            mouse: None,
            date: None,
        },
    };
    let eff_delta = match uniforms.time_delta {
        Some(d) => d,
        None => time_delta,
    };
    UniformValues {
        resolution: match uniforms.resolution {
            Some(r) => r,
            None => ResolutionUniform {
                width: viewport.width,
                height: viewport.height,
                pixel_aspect_ratio: viewport.pixel_ratio_milli,
            },
        },
        time: match uniforms.time {
            Some(t) => t,
            None => time,
        },
        time_delta: eff_delta,
        frame: match uniforms.frame {
            Some(f) => f,
            None => frame,
        },
        frame_rate: match uniforms.frame_rate {
            Some(r) => r,
            None => frame_rate_from_delta(eff_delta),
        },
        mouse: uniforms.mouse,
        date: match uniforms.date {
            Some(d) => d,
            None => *now,
        },
    }
}

/// Law: with no resolution override the emitted resolution is exactly the
/// viewport's pixel dimensions and device pixel ratio, and with one the
/// override is emitted verbatim.
pub proof fn lemma_resolution_default(
    state: PlayerState,
    time: i64,
    time_delta: i64,
    frame: i64,
    viewport: Viewport,
    now: DateUniform,
)
    ensures
        (stored_resolution(state) is None
            ==> spec_uniform_values(state, time, time_delta, frame, viewport, now).resolution
                == (ResolutionUniform {
                    width: viewport.width,
                    height: viewport.height,
                    pixel_aspect_ratio: viewport.pixel_ratio_milli,
                })),
        (stored_resolution(state) matches Some(r)
            ==> spec_uniform_values(state, time, time_delta, frame, viewport, now).resolution == r),
{
}

/// Every mutable local of the render loop, threaded through each frame.
pub struct Engine {
    pub clock: ClockState,
    pub frame_counter: i64,
    pub recovery: RecoveryState,
    pub binding: Option<ProgramBinding>,
    pub last_snapshot: PlayerState,
}

impl Engine {
    /// A well-formed clock and a frame counter that never ran backwards.
    pub open spec fn wf(self) -> bool {
        &&& self.clock.wf()
        &&& 0 <= self.frame_counter
    }

    /// The engine before the first frame: healthy, no program bound, no
    /// snapshot seen, clock unseeded.
    pub fn new() -> (engine: Engine)
        ensures
            engine.wf(),
            engine.clock.last_real_time == 0,
            engine.clock.last_playback_time == 0,
            engine.frame_counter == 0,
            engine.recovery == RecoveryState::Healthy,
            engine.binding is None,
            engine.last_snapshot == crate::config::empty_player_state(),
    {
        Engine {
            clock: ClockState::new(),
            frame_counter: 0,
            recovery: RecoveryState::Healthy,
            binding: None,
            last_snapshot: PlayerState { playback: None, uniforms: None },
        }
    }

    /// The device-lost event: only the recovery state moves.
    pub fn device_lost(&mut self)
        ensures
            final(self).recovery == after_lost(old(self).recovery),
            final(self).clock == old(self).clock,
            final(self).frame_counter == old(self).frame_counter,
            final(self).binding == old(self).binding,
            final(self).last_snapshot == old(self).last_snapshot,
    {
        self.recovery = match self.recovery {
            RecoveryState::Healthy => RecoveryState::LostPendingRelease,
            RecoveryState::LostPendingRelease => RecoveryState::LostPendingRelease,
            RecoveryState::LostReleased => RecoveryState::LostReleased,
            RecoveryState::RestoredPendingRecompile => RecoveryState::LostReleased,
        };
    }

    /// The device-restored event: only the recovery state moves.
    pub fn device_restored(&mut self)
        ensures
            final(self).recovery == after_restored(old(self).recovery),
            final(self).clock == old(self).clock,
            final(self).frame_counter == old(self).frame_counter,
            final(self).binding == old(self).binding,
            final(self).last_snapshot == old(self).last_snapshot,
    {
        self.recovery = match self.recovery {
            RecoveryState::Healthy => RecoveryState::Healthy,
            RecoveryState::LostPendingRelease => RecoveryState::Healthy,
            RecoveryState::LostReleased => RecoveryState::RestoredPendingRecompile,
            RecoveryState::RestoredPendingRecompile => RecoveryState::RestoredPendingRecompile,
        };
    }

    /// Evaluates the recovery state at the top of a frame and says what
    /// the frame does.  On the release turn the binding is dropped — the
    /// shell deletes the program it mirrors; on every other turn the
    /// binding is untouched.
    pub fn begin_frame(&mut self) -> (action: FrameAction)
        ensures
            (final(self).recovery, action) == frame_transition(old(self).recovery),
            action == FrameAction::Release ==> final(self).binding is None,
            action != FrameAction::Release ==> final(self).binding == old(self).binding,
            final(self).clock == old(self).clock,
            final(self).frame_counter == old(self).frame_counter,
            final(self).last_snapshot == old(self).last_snapshot,
    {
        match self.recovery {
            RecoveryState::Healthy => FrameAction::Run { force_recompile: false },
            RecoveryState::LostPendingRelease => {
                self.recovery = RecoveryState::LostReleased;
                self.binding = None;
                FrameAction::Release
            },
            RecoveryState::LostReleased => FrameAction::Skip,
            RecoveryState::RestoredPendingRecompile => {
                self.recovery = RecoveryState::Healthy;
                FrameAction::Run { force_recompile: true }
            },
        }
    }

    /// Absorbs the outcome of a recompile.  Success swaps the program and
    /// all seven uniform locations as one piece; failure leaves the engine
    /// — the active program and every location binding — exactly as it
    /// was, so the previous program keeps rendering.
    pub fn apply_compile_result(&mut self, outcome: Option<ProgramBinding>)
        ensures
            outcome matches Some(b) ==> final(self).binding == Some(b),
            outcome is None ==> *final(self) == *old(self),
            final(self).clock == old(self).clock,
            final(self).frame_counter == old(self).frame_counter,
            final(self).recovery == old(self).recovery,
            final(self).last_snapshot == old(self).last_snapshot,
    {
        if let Some(binding) = outcome {
            self.binding = Some(binding);
        }
    }

    /// The body of a drawn frame at wall-clock `t`: adopts the fresh
    /// configuration snapshot (or reuses the last one), performs the
    /// clock bookkeeping even when paused, and — unless paused — returns
    /// the uniform values to upload, counting the frame.  `None` means the
    /// frame is not drawn.
    pub fn frame_tick(
        &mut self,
        t: i64,
        fresh_snapshot: Option<PlayerState>,
        viewport: &Viewport,
        now: &DateUniform,
    ) -> (drawn: Option<UniformValues>)
        requires
            old(self).wf(),
            0 <= t <= MAX_TIME_US,
            old(self).clock.last_real_time <= t,
        ensures
            final(self).wf(),
            final(self).recovery == old(self).recovery,
            final(self).binding == old(self).binding,
            final(self).last_snapshot == (match fresh_snapshot {
                Some(s) => s,
                None => old(self).last_snapshot,
            }),
            final(self).clock.last_real_time == t,
            ({
                let eff = match fresh_snapshot {
                    Some(s) => s,
                    None => old(self).last_snapshot,
                };
                &&& effective_paused(eff) ==> {
                    &&& drawn is None
                    &&& final(self).clock.last_playback_time == old(self).clock.last_playback_time
                    &&& final(self).frame_counter == old(self).frame_counter
                }
                &&& !effective_paused(eff) ==> {
                    &&& final(self).clock.last_playback_time
                        == tick_time(old(self).clock, t as int, effective_speed(eff) as int)
                    &&& drawn == Some(spec_uniform_values(
                        eff,
                        final(self).clock.last_playback_time,
                        tick_delta(old(self).clock, t as int, effective_speed(eff) as int) as i64,
                        old(self).frame_counter,
                        *viewport,
                        *now,
                    ))
                    &&& final(self).frame_counter == (if old(self).frame_counter < i64::MAX {
                        old(self).frame_counter + 1
                    } else {
                        old(self).frame_counter as int
                    })
                }
            }),
    {
        let eff: PlayerState = match fresh_snapshot {
            Some(s) => s,
            None => self.last_snapshot,
        };
        self.last_snapshot = eff;

        let paused: bool = match eff.playback {
            Some(p) => match p.paused {
                Some(b) => b,
                None => false,
            },
            None => false,
        };
        if paused {
            self.clock.pause_tick(t);
            return None;
        }

        let speed_raw: i64 = match eff.playback {
            Some(p) => match p.speed {
                Some(s) => s,
                None => 1000,
            },
            None => 1000,
        };
        let speed: i64 = if speed_raw > MAX_SPEED_MILLI {
            MAX_SPEED_MILLI
        } else if speed_raw < -MAX_SPEED_MILLI {
            -MAX_SPEED_MILLI
        } else {
            speed_raw
        };

        let out = self.clock.tick(t, speed);
        let values = compute_uniform_values(&eff, out.0, out.1, self.frame_counter, viewport, now);
        if self.frame_counter < i64::MAX {
            self.frame_counter = self.frame_counter + 1;
        }
        Some(values)
    }
}

} // verus!
