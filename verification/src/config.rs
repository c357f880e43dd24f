//! Configuration store: the single piece of state shared between external
//! writers (host calls, pointer events) and the render loop.
//!
//! Every leaf field is optional; "unset" means "let the render loop compute
//! a default".  A merge only ever replaces a field whose incoming value is
//! present; an absent incoming field keeps the stored value.

use vstd::prelude::*;

verus! {

/// Viewport dimensions and aspect correction.  `width` and `height` are in
/// pixels; `pixel_aspect_ratio` is in thousandths (1000 means 1.0).
#[derive(Clone, Copy, PartialEq, Eq, Debug)]
pub struct ResolutionUniform {
    pub width: i64,
    pub height: i64,
    pub pixel_aspect_ratio: i64,
}

/// Pointer position and position at last press, in canvas-local pixels,
/// origin top-left.
#[derive(Clone, Copy, PartialEq, Eq, Debug)]
pub struct MouseUniform {
    pub x: i64,
    pub y: i64,
    pub down_x: i64,
    pub down_y: i64,
}

/// Calendar date plus seconds since midnight.
#[derive(Clone, Copy, PartialEq, Eq, Debug)]
pub struct DateUniform {
    pub year: i64,
    pub month: i64,
    pub day: i64,
    pub time: i64,
}

/// Per-frame uniform overrides.  Times are in microseconds, `frame_rate` in
/// thousandths of frames per second.  A present field overrides the value
/// the render loop would otherwise compute.
#[derive(Clone, Copy, PartialEq, Eq, Debug)]
pub struct Uniforms {
    pub resolution: Option<ResolutionUniform>,
    pub time: Option<i64>,
    pub time_delta: Option<i64>,
    pub frame: Option<i64>,
    pub frame_rate: Option<i64>,
    pub mouse: Option<MouseUniform>,
    pub date: Option<DateUniform>,
}

/// Playback controls.  `speed` is in thousandths (1000 means 1.0).  An
/// absent field falls back to whatever is currently stored, and defaults in
/// the render loop to not-paused / speed 1.0 if nothing was ever stored.
#[derive(Clone, Copy, PartialEq, Eq, Debug)]
pub struct Playback {
    pub paused: Option<bool>,
    pub speed: Option<i64>,
}

/// The full externally writable configuration.
#[derive(Clone, Copy, PartialEq, Eq, Debug)]
pub struct PlayerState {
    pub playback: Option<Playback>,
    pub uniforms: Option<Uniforms>,
}

/// The configuration before anything was ever stored.
pub open spec fn empty_player_state() -> PlayerState {
    PlayerState { playback: None, uniforms: None }
}

/// A present incoming field replaces the stored one; an absent incoming
/// field keeps the stored one.
pub open spec fn merged_opt<T>(incoming: Option<T>, stored: Option<T>) -> Option<T> {
    if incoming is Some {
        incoming
    } else {
        stored
    }
}

/// Field-wise merge of two present uniform sections.
pub open spec fn merge_uniforms(stored: Uniforms, incoming: Uniforms) -> Uniforms {
    Uniforms {
        resolution: merged_opt(incoming.resolution, stored.resolution),
        time: merged_opt(incoming.time, stored.time),
        time_delta: merged_opt(incoming.time_delta, stored.time_delta),
        frame: merged_opt(incoming.frame, stored.frame),
        frame_rate: merged_opt(incoming.frame_rate, stored.frame_rate),
        mouse: merged_opt(incoming.mouse, stored.mouse),
        date: merged_opt(incoming.date, stored.date),
    }
}

/// Field-wise merge of two present playback sections.
pub open spec fn merge_playback(stored: Playback, incoming: Playback) -> Playback {
    Playback {
        paused: merged_opt(incoming.paused, stored.paused),
        speed: merged_opt(incoming.speed, stored.speed),
    }
}

/// Merge of the optional uniform sections: a never-stored section takes the
/// incoming one verbatim; an absent incoming section changes nothing.
pub open spec fn merge_uniforms_opt(
    stored: Option<Uniforms>,
    incoming: Option<Uniforms>,
) -> Option<Uniforms> {
    match stored {
        None => incoming,
        Some(s) => match incoming {
            None => Some(s),
            Some(i) => Some(merge_uniforms(s, i)),
        },
    }
}

/// Merge of the optional playback sections, as for the uniform sections.
pub open spec fn merge_playback_opt(
    stored: Option<Playback>,
    incoming: Option<Playback>,
) -> Option<Playback> {
    match stored {
        None => incoming,
        Some(s) => match incoming {
            None => Some(s),
            Some(i) => Some(merge_playback(s, i)),
        },
    }
}

/// The complete merge contract of the store.
pub open spec fn merge_state(stored: PlayerState, incoming: PlayerState) -> PlayerState {
    PlayerState {
        playback: merge_playback_opt(stored.playback, incoming.playback),
        uniforms: merge_uniforms_opt(stored.uniforms, incoming.uniforms),
    }
}

/// The pause flag as seen through the optional playback section: absent
/// while the section is absent.
pub open spec fn stored_paused(state: PlayerState) -> Option<bool> {
    match state.playback {
        Some(p) => p.paused,
        None => None,
    }
}

/// The speed as seen through the optional playback section.
pub open spec fn stored_speed(state: PlayerState) -> Option<i64> {
    match state.playback {
        Some(p) => p.speed,
        None => None,
    }
}

/// The resolution override as seen through the optional uniform section.
pub open spec fn stored_resolution(state: PlayerState) -> Option<ResolutionUniform> {
    match state.uniforms {
        Some(u) => u.resolution,
        None => None,
    }
}

/// The time override as seen through the optional uniform section.
pub open spec fn stored_time(state: PlayerState) -> Option<i64> {
    match state.uniforms {
        Some(u) => u.time,
        None => None,
    }
}

/// The time-delta override as seen through the optional uniform section.
pub open spec fn stored_time_delta(state: PlayerState) -> Option<i64> {
    match state.uniforms {
        Some(u) => u.time_delta,
        None => None,
    }
}

/// The frame override as seen through the optional uniform section.
pub open spec fn stored_frame(state: PlayerState) -> Option<i64> {
    match state.uniforms {
        Some(u) => u.frame,
        None => None,
    }
}

/// The frame-rate override as seen through the optional uniform section.
pub open spec fn stored_frame_rate(state: PlayerState) -> Option<i64> {
    match state.uniforms {
        Some(u) => u.frame_rate,
        None => None,
    }
}

/// The mouse override as seen through the optional uniform section.
pub open spec fn stored_mouse(state: PlayerState) -> Option<MouseUniform> {
    match state.uniforms {
        Some(u) => u.mouse,
        None => None,
    }
}

/// The date override as seen through the optional uniform section.
pub open spec fn stored_date(state: PlayerState) -> Option<DateUniform> {
    match state.uniforms {
        Some(u) => u.date,
        None => None,
    }
}

/// Law: merging the same configuration twice yields the same stored state
/// as merging it once.
pub proof fn lemma_merge_idempotent(stored: PlayerState, incoming: PlayerState)
    ensures
        merge_state(merge_state(stored, incoming), incoming) == merge_state(stored, incoming),
{
}

/// Law: a merge changes exactly the leaves present in the incoming
/// configuration.  Every leaf of the merged state is the incoming leaf when
/// that one is present and the stored leaf otherwise, and a section is
/// present afterwards exactly when either side had it.
pub proof fn lemma_merge_field_independence(stored: PlayerState, incoming: PlayerState)
    ensures
        stored_paused(merge_state(stored, incoming))
            == merged_opt(stored_paused(incoming), stored_paused(stored)),
        stored_speed(merge_state(stored, incoming))
            == merged_opt(stored_speed(incoming), stored_speed(stored)),
        stored_resolution(merge_state(stored, incoming))
            == merged_opt(stored_resolution(incoming), stored_resolution(stored)),
        stored_time(merge_state(stored, incoming))
            == merged_opt(stored_time(incoming), stored_time(stored)),
        stored_time_delta(merge_state(stored, incoming))
            == merged_opt(stored_time_delta(incoming), stored_time_delta(stored)),
        stored_frame(merge_state(stored, incoming))
            == merged_opt(stored_frame(incoming), stored_frame(stored)),
        stored_frame_rate(merge_state(stored, incoming))
            == merged_opt(stored_frame_rate(incoming), stored_frame_rate(stored)),
        stored_mouse(merge_state(stored, incoming))
            == merged_opt(stored_mouse(incoming), stored_mouse(stored)),
        stored_date(merge_state(stored, incoming))
            == merged_opt(stored_date(incoming), stored_date(stored)),
        (merge_state(stored, incoming).playback is Some)
            == (stored.playback is Some || incoming.playback is Some),
        (merge_state(stored, incoming).uniforms is Some)
            == (stored.uniforms is Some || incoming.uniforms is Some),
{
}

/// Holds the latest merged external configuration.  Exclusive access and
/// the non-blocking snapshot attempt of the render loop are the shell's
/// concern; the store itself is the merge logic over plain data.
pub struct ConfigStore {
    pub state: PlayerState,
}

impl ConfigStore {
    /// A store with nothing ever written to it.
    pub fn new() -> (store: ConfigStore)
        ensures
            store.state == empty_player_state(),
    {
        ConfigStore { state: PlayerState { playback: None, uniforms: None } }
    }

    /// Merges a partial external configuration into the stored one: every
    /// present incoming leaf replaces the stored leaf, every absent one
    /// keeps it, and a never-stored section takes the incoming section
    /// verbatim.
    pub fn update_player_state(&mut self, incoming: PlayerState)
        ensures
            final(self).state == merge_state(old(self).state, incoming),
    {
        match &mut self.state.uniforms {
            Some(uniforms) => {
                if let Some(new_uniforms) = incoming.uniforms {
                    if new_uniforms.resolution.is_some() {
                        uniforms.resolution = new_uniforms.resolution;
                    }
                    if new_uniforms.time.is_some() {
                        uniforms.time = new_uniforms.time;
                    }
                    if new_uniforms.time_delta.is_some() {
                        uniforms.time_delta = new_uniforms.time_delta;
                    }
                    if new_uniforms.frame.is_some() {
                        uniforms.frame = new_uniforms.frame;
                    }
                    if new_uniforms.frame_rate.is_some() {
                        uniforms.frame_rate = new_uniforms.frame_rate;
                    }
                    if new_uniforms.mouse.is_some() {
                        uniforms.mouse = new_uniforms.mouse;
                    }
                    if new_uniforms.date.is_some() {
                        uniforms.date = new_uniforms.date;
                    }
                }
            },
            None => {
                self.state.uniforms = incoming.uniforms;
            },
        }

        match &mut self.state.playback {
            Some(playback) => {
                if let Some(new_playback) = incoming.playback {
                    if new_playback.paused.is_some() {
                        playback.paused = new_playback.paused;
                    }
                    if new_playback.speed.is_some() {
                        playback.speed = new_playback.speed;
                    }
                }
            },
            None => {
                self.state.playback = incoming.playback;
            },
        }
    }

    /// Sets only `playback.paused`, creating the playback section if it was
    /// never stored; every other leaf keeps its value.
    pub fn set_paused(&mut self, value: bool)
        ensures
            final(self).state.uniforms == old(self).state.uniforms,
            final(self).state.playback == (match old(self).state.playback {
                Some(p) => Some(Playback { paused: Some(value), speed: p.speed }),
                None => Some(Playback { paused: Some(value), speed: None }),
            }),
    {
        match &mut self.state.playback {
            Some(playback) => {
                playback.paused = Some(value);
            },
            None => {
                self.state.playback = Some(Playback { paused: Some(value), speed: None });
            },
        }
    }

    /// Convenience wrapper: clears the pause flag.
    pub fn play(&mut self)
        ensures
            final(self).state.uniforms == old(self).state.uniforms,
            final(self).state.playback == (match old(self).state.playback {
                Some(p) => Some(Playback { paused: Some(false), speed: p.speed }),
                None => Some(Playback { paused: Some(false), speed: None }),
            }),
    {
        self.set_paused(false);
    }

    /// Convenience wrapper: sets the pause flag.
    pub fn stop(&mut self)
        ensures
            final(self).state.uniforms == old(self).state.uniforms,
            final(self).state.playback == (match old(self).state.playback {
                Some(p) => Some(Playback { paused: Some(true), speed: p.speed }),
                None => Some(Playback { paused: Some(true), speed: None }),
            }),
    {
        self.set_paused(true);
    }

    /// A copy of the stored configuration.
    pub fn snapshot(&self) -> (state: PlayerState)
        ensures
            state == self.state,
    {
        self.state
    }

    /// A pointer press stores the position both as the current and as the
    /// press position; every other leaf keeps its value.
    pub fn mouse_press(&mut self, x: i64, y: i64)
        ensures
            final(self).state.playback == old(self).state.playback,
            final(self).state.uniforms == (match old(self).state.uniforms {
                Some(u) => Some(Uniforms { mouse: Some(MouseUniform { x, y, down_x: x, down_y: y }), ..u }),
                None => Some(Uniforms {
                    resolution: None,
                    time: None,
                    time_delta: None,
                    frame: None,
                    frame_rate: None,
                    mouse: Some(MouseUniform { x, y, down_x: x, down_y: y }),
                    date: None,
                }),
            }),
    {
        let pressed = MouseUniform { x, y, down_x: x, down_y: y };
        match &mut self.state.uniforms {
            Some(uniforms) => {
                uniforms.mouse = Some(pressed);
            },
            None => {
                self.state.uniforms = Some(Uniforms {
                    resolution: None,
                    time: None,
                    time_delta: None,
                    frame: None,
                    frame_rate: None,
                    mouse: Some(pressed),
                    date: None,
                });
            },
        }
    }

    /// A pointer move while pressed stores the new position and carries the
    /// press position over from the stored value (falling back to the new
    /// position if none was stored); a move while released changes nothing.
    /// A release itself changes nothing either: the last interaction
    /// persists.
    pub fn mouse_move(&mut self, x: i64, y: i64, pressed: bool)
        ensures
            final(self).state.playback == old(self).state.playback,
            !pressed ==> final(self).state == old(self).state,
            pressed ==> final(self).state.uniforms == (match old(self).state.uniforms {
                Some(u) => Some(Uniforms {
                    mouse: (match u.mouse {
                        Some(m) => Some(MouseUniform { x, y, down_x: m.down_x, down_y: m.down_y }),
                        None => Some(MouseUniform { x, y, down_x: x, down_y: y }),
                    }),
                    ..u
                }),
                None => Some(Uniforms {
                    resolution: None,
                    time: None,
                    time_delta: None,
                    frame: None,
                    frame_rate: None,
                    mouse: Some(MouseUniform { x, y, down_x: x, down_y: y }),
                    date: None,
                }),
            }),
    {
        if !pressed {
            return;
        }
        match &mut self.state.uniforms {
            Some(uniforms) => {
                let moved = match uniforms.mouse {
                    Some(m) => MouseUniform { x, y, down_x: m.down_x, down_y: m.down_y },
                    None => MouseUniform { x, y, down_x: x, down_y: y },
                };
                uniforms.mouse = Some(moved);
            },
            None => {
                self.state.uniforms = Some(Uniforms {
                    resolution: None,
                    time: None,
                    time_delta: None,
                    frame: None,
                    frame_rate: None,
                    mouse: Some(MouseUniform { x, y, down_x: x, down_y: y }),
                    date: None,
                });
            },
        }
    }
}

} // verus!
