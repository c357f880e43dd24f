use shader_player::clock::ClockState;
use shader_player::config::{
    ConfigStore, DateUniform, MouseUniform, Playback, PlayerState, ResolutionUniform, Uniforms,
};
use shader_player::engine::{Engine, ProgramBinding, UniformLocations, Viewport};
use shader_player::recovery::{FrameAction, RecoveryState};
use shader_player::shader::{prepare_shader, CompileSource, ShaderPipeline};

fn full_uniforms() -> Uniforms {
    Uniforms {
        resolution: Some(ResolutionUniform { width: 640, height: 480, pixel_aspect_ratio: 1000 }),
        time: Some(1_500_000),
        time_delta: Some(16_667),
        frame: Some(42),
        frame_rate: Some(60_000),
        mouse: Some(MouseUniform { x: 10, y: 20, down_x: 5, down_y: 6 }),
        date: Some(DateUniform { year: 2024, month: 3, day: 14, time: 3600 }),
    }
}

fn full_state() -> PlayerState {
    PlayerState {
        playback: Some(Playback { paused: Some(false), speed: Some(2000) }),
        uniforms: Some(full_uniforms()),
    }
}

fn locations(base: u64) -> UniformLocations {
    UniformLocations {
        resolution: Some(base),
        time: Some(base + 1),
        time_delta: Some(base + 2),
        frame: Some(base + 3),
        frame_rate: Some(base + 4),
        mouse: Some(base + 5),
        date: Some(base + 6),
    }
}

fn viewport() -> Viewport {
    Viewport { width: 800, height: 600, pixel_ratio_milli: 2000 }
}

fn today() -> DateUniform {
    DateUniform { year: 2025, month: 9, day: 30, time: 43_200 }
}

#[test]
fn merge_twice_same_as_once() {
    let mut once = ConfigStore::new();
    once.update_player_state(full_state());
    let after_once = once.snapshot();

    once.update_player_state(full_state());
    assert_eq!(once.snapshot(), after_once);
}

#[test]
fn merge_changes_exactly_present_fields() {
    let mut store = ConfigStore::new();
    store.update_player_state(full_state());

    let partial = PlayerState {
        playback: Some(Playback { paused: None, speed: Some(500) }),
        uniforms: Some(Uniforms {
            resolution: None,
            time: Some(9_000_000),
            time_delta: None,
            frame: None,
            frame_rate: None,
            mouse: None,
            date: None,
        }),
    };
    store.update_player_state(partial);
    let merged = store.snapshot();

    let playback = merged.playback.unwrap();
    assert_eq!(playback.paused, Some(false));
    assert_eq!(playback.speed, Some(500));
    let uniforms = merged.uniforms.unwrap();
    assert_eq!(uniforms.time, Some(9_000_000));
    assert_eq!(uniforms.resolution, full_uniforms().resolution);
    assert_eq!(uniforms.time_delta, full_uniforms().time_delta);
    assert_eq!(uniforms.frame, full_uniforms().frame);
    assert_eq!(uniforms.frame_rate, full_uniforms().frame_rate);
    assert_eq!(uniforms.mouse, full_uniforms().mouse);
    assert_eq!(uniforms.date, full_uniforms().date);
}

#[test]
fn first_merge_is_verbatim() {
    let mut store = ConfigStore::new();
    let sparse = PlayerState {
        playback: None,
        uniforms: Some(Uniforms {
            resolution: None,
            time: Some(7),
            time_delta: None,
            frame: None,
            frame_rate: None,
            mouse: None,
            date: None,
        }),
    };
    store.update_player_state(sparse);
    let stored = store.snapshot();
    assert_eq!(stored.playback, None);
    let uniforms = stored.uniforms.unwrap();
    assert_eq!(uniforms.time, Some(7));
    assert_eq!(uniforms.resolution, None);
    assert_eq!(uniforms.mouse, None);
}

#[test]
fn play_and_stop_touch_only_pause() {
    let mut store = ConfigStore::new();
    store.update_player_state(full_state());
    store.stop();
    let paused = store.snapshot().playback.unwrap();
    assert_eq!(paused.paused, Some(true));
    assert_eq!(paused.speed, Some(2000));
    store.play();
    let playing = store.snapshot().playback.unwrap();
    assert_eq!(playing.paused, Some(false));
    assert_eq!(playing.speed, Some(2000));
    assert_eq!(store.snapshot().uniforms, Some(full_uniforms()));
}

#[test]
fn set_paused_creates_missing_playback() {
    let mut store = ConfigStore::new();
    store.set_paused(true);
    assert_eq!(
        store.snapshot().playback,
        Some(Playback { paused: Some(true), speed: None })
    );
    assert_eq!(store.snapshot().uniforms, None);
}

#[test]
fn mouse_press_sets_click_position() {
    let mut store = ConfigStore::new();
    store.mouse_press(100, 50);
    let mouse = store.snapshot().uniforms.unwrap().mouse.unwrap();
    assert_eq!(mouse, MouseUniform { x: 100, y: 50, down_x: 100, down_y: 50 });
}

#[test]
fn mouse_drag_keeps_click_position() {
    let mut store = ConfigStore::new();
    store.mouse_press(100, 50);
    store.mouse_move(120, 60, true);
    let mouse = store.snapshot().uniforms.unwrap().mouse.unwrap();
    assert_eq!(mouse, MouseUniform { x: 120, y: 60, down_x: 100, down_y: 50 });
}

#[test]
fn mouse_move_ignored_when_released() {
    let mut store = ConfigStore::new();
    store.mouse_press(100, 50);
    store.mouse_move(300, 300, false);
    let mouse = store.snapshot().uniforms.unwrap().mouse.unwrap();
    assert_eq!(mouse, MouseUniform { x: 100, y: 50, down_x: 100, down_y: 50 });
}

#[test]
fn prepare_shader_wraps_exactly_once() {
    let user = "void render_image(out vec4 color, vec2 coord) { color = vec4(1.0); }";
    let wrapped = prepare_shader(user);
    let expected = format!(
        "#version 300 es \nprecision mediump float;\n\nuniform vec3 u_resolution; // image/buffer\tThe viewport resolution (z is pixel aspect ratio, usually 1.0)\nuniform float\tu_time; // image/sound/buffer\tCurrent time in seconds\nuniform float\tu_time_delta; // image/buffer\tTime it takes to render a frame, in seconds\nuniform int\tu_frame; // image/buffer\tCurrent frame\nuniform float\tu_frame_rate; // image/buffer\tNumber of frames rendered per second\nuniform vec4\tu_mouse; // image/buffer\txy = current pixel coords (if LMB is down). zw = click pixel\nuniform vec4\tu_date; // image/buffer/sound\tYear, month, day, time in seconds in .xyzw\n{}\nin vec2 vUv;\nout vec4 frag_color;\n\nvoid main() {{\n    render_image(frag_color, vUv * u_resolution.xy);\n}}",
        user
    );
    assert_eq!(wrapped, expected);
    assert_eq!(wrapped.matches("void main()").count(), 1);
}

#[test]
fn set_fragment_shader_stores_wrapped_pending() {
    let mut pipeline = ShaderPipeline::new();
    assert_eq!(pipeline.get_shader(), None);
    pipeline.set_fragment_shader("void render_image(out vec4 c, vec2 p) {}");
    assert!(pipeline.reload);
    let stored = pipeline.get_shader().unwrap();
    assert_eq!(stored, prepare_shader("void render_image(out vec4 c, vec2 p) {}"));
}

#[test]
fn take_for_compile_clears_flag_and_keeps_source() {
    let mut pipeline = ShaderPipeline::new();
    pipeline.set_fragment_shader("void render_image(out vec4 c, vec2 p) {}");
    let source = pipeline.take_for_compile(false);
    match source {
        Some(CompileSource::Stored(text)) => {
            assert_eq!(text, prepare_shader("void render_image(out vec4 c, vec2 p) {}"));
        }
        _ => panic!("a raised reload flag must hand the stored source out"),
    }
    assert!(!pipeline.reload);
    // A failed compile is not retried: nothing is due on the next frame.
    assert!(pipeline.take_for_compile(false).is_none());
    // The text is kept for a later forced reload.
    assert!(pipeline.get_shader().is_some());
}

#[test]
fn take_for_compile_fallback_when_nothing_stored() {
    let mut pipeline = ShaderPipeline::new();
    assert!(pipeline.take_for_compile(false).is_none());
    match pipeline.take_for_compile(true) {
        Some(CompileSource::Fallback) => {}
        _ => panic!("a forced reload with nothing stored must ask for the fallback"),
    }
}

#[test]
fn clock_first_frame_seeds_to_wall_clock() {
    let mut clock = ClockState::new();
    let (time, delta) = clock.tick(123_456, 1000);
    assert_eq!(time, 123_456);
    assert_eq!(delta, 0);
}

#[test]
fn speed_scaling_doubles_real_delta() {
    let mut clock = ClockState::new();
    clock.tick(1_000, 2000);
    let (time, delta) = clock.tick(501_000, 2000);
    assert_eq!(delta, 1_000_000);
    assert_eq!(time, 1_000 + 1_000_000);
}

#[test]
fn speed_beyond_bound_saturates() {
    let mut engine = Engine::new();
    let vp = viewport();
    let breakneck = PlayerState {
        playback: Some(Playback { paused: Some(false), speed: Some(9_000_000) }),
        uniforms: None,
    };
    engine.frame_tick(1_000, Some(breakneck), &vp, &today());
    let values = engine.frame_tick(2_000, None, &vp, &today()).unwrap();
    assert_eq!(values.time_delta, 1_000 * 1_048_576 / 1000);
}

#[test]
fn pause_resume_continuity() {
    let mut engine = Engine::new();
    let vp = viewport();
    let date = today();

    // t0 = 0 s, t1 = 1 s: drawn frames.
    engine.frame_tick(0, None, &vp, &date);
    let at_t1 = engine.frame_tick(1_000_000, None, &vp, &date).unwrap();
    let virtual_at_t1 = engine.clock.last_playback_time;
    assert_eq!(at_t1.time, virtual_at_t1);

    // Pause set between t1 and t2.
    let paused = PlayerState {
        playback: Some(Playback { paused: Some(true), speed: None }),
        uniforms: None,
    };
    let at_t2 = engine.frame_tick(2_000_000, Some(paused), &vp, &date);
    assert!(at_t2.is_none());
    // No jump: the virtual time at t2 equals the virtual time at t1,
    // while the wall-clock bookkeeping still advanced to t2.
    assert_eq!(engine.clock.last_playback_time, virtual_at_t1);
    assert_eq!(engine.clock.last_real_time, 2_000_000);

    // Resuming converts only the real time since t2, not the paused span.
    let resumed = PlayerState {
        playback: Some(Playback { paused: Some(false), speed: None }),
        uniforms: None,
    };
    let at_t3 = engine.frame_tick(3_000_000, Some(resumed), &vp, &date).unwrap();
    assert_eq!(at_t3.time_delta, 1_000_000);
    assert_eq!(engine.clock.last_playback_time, virtual_at_t1 + 1_000_000);
}

#[test]
fn resolution_defaults_to_viewport() {
    let mut engine = Engine::new();
    let vp = viewport();
    let values = engine.frame_tick(1_000, None, &vp, &today()).unwrap();
    assert_eq!(
        values.resolution,
        ResolutionUniform { width: 800, height: 600, pixel_aspect_ratio: 2000 }
    );
}

#[test]
fn resolution_override_wins() {
    let mut engine = Engine::new();
    let with_resolution = PlayerState {
        playback: None,
        uniforms: Some(Uniforms {
            resolution: Some(ResolutionUniform { width: 64, height: 32, pixel_aspect_ratio: 500 }),
            time: None,
            time_delta: None,
            frame: None,
            frame_rate: None,
            mouse: None,
            date: None,
        }),
    };
    let values = engine.frame_tick(1_000, Some(with_resolution), &viewport(), &today()).unwrap();
    assert_eq!(
        values.resolution,
        ResolutionUniform { width: 64, height: 32, pixel_aspect_ratio: 500 }
    );
}

#[test]
fn recompile_failure_leaves_binding_untouched() {
    let mut engine = Engine::new();
    let mut pipeline = ShaderPipeline::new();
    let good = ProgramBinding { program: 1, locations: locations(10) };
    engine.apply_compile_result(Some(good));

    pipeline.set_fragment_shader("not even a shader");
    let action = engine.begin_frame();
    assert_eq!(action, FrameAction::Run { force_recompile: false });
    assert!(pipeline.take_for_compile(false).is_some());
    // The compile failed: the active program and all seven uniform
    // locations still reference the previous program.
    engine.apply_compile_result(None);
    assert_eq!(engine.binding, Some(good));
    assert_eq!(engine.recovery, RecoveryState::Healthy);
}

#[test]
fn device_loss_sequence() {
    let mut engine = Engine::new();
    let mut pipeline = ShaderPipeline::new();
    engine.apply_compile_result(Some(ProgramBinding { program: 7, locations: locations(0) }));

    engine.device_lost();
    assert_eq!(engine.recovery, RecoveryState::LostPendingRelease);

    // One frame: resources released, draw skipped.
    assert_eq!(engine.begin_frame(), FrameAction::Release);
    assert_eq!(engine.binding, None);
    assert_eq!(engine.recovery, RecoveryState::LostReleased);

    // Still lost: every frame skipped.
    assert_eq!(engine.begin_frame(), FrameAction::Skip);

    engine.device_restored();
    assert_eq!(engine.recovery, RecoveryState::RestoredPendingRecompile);

    // The next frame forces a recompile regardless of the pending flag.
    assert!(!pipeline.reload);
    assert_eq!(engine.begin_frame(), FrameAction::Run { force_recompile: true });
    assert!(pipeline.take_for_compile(true).is_some());
    assert_eq!(engine.recovery, RecoveryState::Healthy);
}

#[test]
fn hot_reload_scenario() {
    let mut engine = Engine::new();
    let mut pipeline = ShaderPipeline::new();
    let mut diagnostics: Vec<String> = Vec::new();
    let vp = viewport();
    let date = today();

    pipeline.set_fragment_shader("void render_image(out vec4 c, vec2 p) { c = vec4(0.5); }");

    // One frame tick: compiles and draws with the new program.
    let action = engine.begin_frame();
    let force = matches!(action, FrameAction::Run { force_recompile: true });
    let compiled = pipeline.take_for_compile(force);
    assert!(compiled.is_some());
    // The shell's compiler accepts the source: it contains the image function.
    match compiled.unwrap() {
        CompileSource::Stored(text) => assert!(text.contains("void render_image(")),
        CompileSource::Fallback => panic!("a stored source must be handed out"),
    }
    engine.apply_compile_result(Some(ProgramBinding { program: 2, locations: locations(20) }));
    let drawn = engine.frame_tick(16_000, None, &vp, &date);
    assert!(drawn.is_some());
    assert_eq!(engine.binding.unwrap().program, 2);

    // A replacement whose code misses the required function name fails to
    // compile: one diagnostic, and the previous program keeps rendering.
    pipeline.set_fragment_shader("void wrong_name() {}");
    let action = engine.begin_frame();
    let force = matches!(action, FrameAction::Run { force_recompile: true });
    match pipeline.take_for_compile(force) {
        Some(CompileSource::Stored(text)) => {
            if !text.contains("void render_image(") {
                diagnostics.push(String::from("Shader compilation error"));
                engine.apply_compile_result(None);
            }
        }
        _ => panic!("the raised flag must hand the stored source out"),
    }
    assert_eq!(diagnostics.len(), 1);
    assert_eq!(engine.binding.unwrap().program, 2);
    let still_drawn = engine.frame_tick(32_000, None, &vp, &date);
    assert!(still_drawn.is_some());
}

#[test]
fn frame_rate_defaults_to_inverse_delta() {
    let mut engine = Engine::new();
    let vp = viewport();
    engine.frame_tick(1_000, None, &vp, &today());
    let values = engine.frame_tick(17_667, None, &vp, &today()).unwrap();
    assert_eq!(values.time_delta, 16_667);
    assert_eq!(values.frame_rate, 1_000_000_000 / 16_667);
}

#[test]
fn frame_rate_handles_zero_and_negative_delta() {
    let mut engine = Engine::new();
    let values = engine.frame_tick(0, None, &viewport(), &today()).unwrap();
    // The seeding frame has delta zero; the inverse is reported as zero.
    assert_eq!(values.time_delta, 0);
    assert_eq!(values.frame_rate, 0);

    let negative_delta = PlayerState {
        playback: None,
        uniforms: Some(Uniforms {
            resolution: None,
            time: None,
            time_delta: Some(-2_000),
            frame: None,
            frame_rate: None,
            mouse: None,
            date: None,
        }),
    };
    let mut other = Engine::new();
    let overridden = other.frame_tick(5_000, Some(negative_delta), &viewport(), &today()).unwrap();
    assert_eq!(overridden.time_delta, -2_000);
    assert_eq!(overridden.frame_rate, -500_000);
}

#[test]
fn frame_counter_increments_only_on_drawn_frames() {
    let mut engine = Engine::new();
    let vp = viewport();
    let first = engine.frame_tick(1_000, None, &vp, &today()).unwrap();
    assert_eq!(first.frame, 0);
    let second = engine.frame_tick(2_000, None, &vp, &today()).unwrap();
    assert_eq!(second.frame, 1);

    let paused = PlayerState {
        playback: Some(Playback { paused: Some(true), speed: None }),
        uniforms: None,
    };
    assert!(engine.frame_tick(3_000, Some(paused), &vp, &today()).is_none());
    let resumed = PlayerState {
        playback: Some(Playback { paused: Some(false), speed: None }),
        uniforms: None,
    };
    let third = engine.frame_tick(4_000, Some(resumed), &vp, &today()).unwrap();
    assert_eq!(third.frame, 2);
}

#[test]
fn time_and_frame_overrides_win() {
    let mut engine = Engine::new();
    let overrides = PlayerState {
        playback: None,
        uniforms: Some(Uniforms {
            resolution: None,
            time: Some(77_000_000),
            time_delta: None,
            frame: Some(900),
            frame_rate: None,
            mouse: None,
            date: Some(DateUniform { year: 1999, month: 11, day: 31, time: 86_399 }),
        }),
    };
    let values = engine.frame_tick(5_000, Some(overrides), &viewport(), &today()).unwrap();
    assert_eq!(values.time, 77_000_000);
    assert_eq!(values.frame, 900);
    assert_eq!(values.date, DateUniform { year: 1999, month: 11, day: 31, time: 86_399 });
    // The engine's own clock still advanced organically underneath.
    assert_eq!(engine.clock.last_playback_time, 5_000);
}

#[test]
fn date_defaults_to_shell_clock() {
    let mut engine = Engine::new();
    let values = engine.frame_tick(5_000, None, &viewport(), &today()).unwrap();
    assert_eq!(values.date, today());
    assert_eq!(values.mouse, None);
}

#[test]
fn stale_snapshot_reused_when_none_fresh() {
    let mut engine = Engine::new();
    let vp = viewport();
    let paused = PlayerState {
        playback: Some(Playback { paused: Some(true), speed: None }),
        uniforms: None,
    };
    assert!(engine.frame_tick(1_000, Some(paused), &vp, &today()).is_none());
    // No fresh snapshot could be taken: the last one still pauses.
    assert!(engine.frame_tick(2_000, None, &vp, &today()).is_none());
    assert_eq!(engine.last_snapshot, paused);
}
