//! Shader source pipeline: wraps user fragment code in the fixed uniform
//! declarations and entry point, holds the pending replacement source, and
//! gates recompilation through a reload flag.
//!
//! The wrapping happens exactly once, when a source is set, never at
//! compile time.

use vstd::prelude::*;
use vstd::string::StringExecFns;

verus! {

/// The fixed uniform declarations prepended to user code.
pub open spec fn shader_prefix() -> Seq<char> {
    "#version 300 es \nprecision mediump float;\n\nuniform vec3 u_resolution; // image/buffer\tThe viewport resolution (z is pixel aspect ratio, usually 1.0)\nuniform float\tu_time; // image/sound/buffer\tCurrent time in seconds\nuniform float\tu_time_delta; // image/buffer\tTime it takes to render a frame, in seconds\nuniform int\tu_frame; // image/buffer\tCurrent frame\nuniform float\tu_frame_rate; // image/buffer\tNumber of frames rendered per second\nuniform vec4\tu_mouse; // image/buffer\txy = current pixel coords (if LMB is down). zw = click pixel\nuniform vec4\tu_date; // image/buffer/sound\tYear, month, day, time in seconds in .xyzw\n"@
}

/// The fixed entry point appended to user code: it calls the user's image
/// function with screen-space coordinates derived from the varying UV
/// times the resolution.
pub open spec fn shader_suffix() -> Seq<char> {
    "\nin vec2 vUv;\nout vec4 frag_color;\n\nvoid main() {\n    render_image(frag_color, vUv * u_resolution.xy);\n}"@
}

/// A complete shader: the fixed declarations, the user code, the fixed
/// entry point.
pub open spec fn wrapped_shader(user_code: Seq<char>) -> Seq<char> {
    shader_prefix() + user_code + shader_suffix()
}

/// Wraps user fragment code into a complete shader source.
pub fn prepare_shader(shadertoy_code: &str) -> (wrapped: String)
    ensures
        wrapped@ == wrapped_shader(shadertoy_code@),
{
    let mut wrapped = String::new();
    wrapped.append(
        "#version 300 es \nprecision mediump float;\n\nuniform vec3 u_resolution; // image/buffer\tThe viewport resolution (z is pixel aspect ratio, usually 1.0)\nuniform float\tu_time; // image/sound/buffer\tCurrent time in seconds\nuniform float\tu_time_delta; // image/buffer\tTime it takes to render a frame, in seconds\nuniform int\tu_frame; // image/buffer\tCurrent frame\nuniform float\tu_frame_rate; // image/buffer\tNumber of frames rendered per second\nuniform vec4\tu_mouse; // image/buffer\txy = current pixel coords (if LMB is down). zw = click pixel\nuniform vec4\tu_date; // image/buffer/sound\tYear, month, day, time in seconds in .xyzw\n",
    );
    wrapped.append(shadertoy_code);
    wrapped.append(
        "\nin vec2 vUv;\nout vec4 frag_color;\n\nvoid main() {\n    render_image(frag_color, vUv * u_resolution.xy);\n}",
    );
    proof {
        assert(wrapped@ =~= wrapped_shader(shadertoy_code@));
    }
    wrapped
}

/// What the render loop is told to compile: the stored wrapped source, or
/// the fallback shader of the shell if none was ever set.
pub enum CompileSource {
    Stored(String),
    Fallback,
}

/// Holds the latest wrapped source and the reload flag that makes the
/// render loop recompile it.
pub struct ShaderPipeline {
    pub stored: Option<String>,
    pub reload: bool,
}

/// The stored wrapped source as a sequence of characters.
pub open spec fn stored_text(pipeline: ShaderPipeline) -> Option<Seq<char>> {
    match pipeline.stored {
        Some(s) => Some(s@),
        None => None,
    }
}

impl ShaderPipeline {
    /// A pipeline with no source ever set and no reload due.
    pub fn new() -> (pipeline: ShaderPipeline)
        ensures
            pipeline.stored is None,
            !pipeline.reload,
    {
        ShaderPipeline { stored: None, reload: false }
    }

    /// Stores the user code, wrapped exactly once, and raises the reload
    /// flag.
    pub fn set_fragment_shader(&mut self, new_shader_code: &str)
        ensures
            stored_text(*final(self)) == Some(wrapped_shader(new_shader_code@)),
            final(self).reload,
    {
        self.stored = Some(prepare_shader(new_shader_code));
        self.reload = true;
    }

    /// A copy of the stored wrapped source, if any was ever set.
    pub fn get_shader(&self) -> (shader: Option<String>)
        ensures
            shader is Some <==> self.stored is Some,
            shader matches Some(s) ==> stored_text(*self) == Some(s@),
    {
        match &self.stored {
            Some(s) => Some(s.clone()),
            None => None,
        }
    }

    /// Decides whether a recompile is due this frame — because the flag was
    /// raised or because recovery forces one — and clears the flag, whatever
    /// the compile will come to: a failed compile is not retried every
    /// frame.  The stored source itself is kept, so a later forced reload
    /// compiles the same text again.
    pub fn take_for_compile(&mut self, force: bool) -> (source: Option<CompileSource>)
        ensures
            final(self).stored == old(self).stored,
            !final(self).reload,
            source is Some <==> (force || old(self).reload),
            source matches Some(s) ==> (match s {
                CompileSource::Stored(text) => stored_text(*old(self)) == Some(text@),
                CompileSource::Fallback => old(self).stored is None,
            }),
    {
        if force || self.reload {
            self.reload = false;
            match &self.stored {
                Some(s) => Some(CompileSource::Stored(s.clone())),
                None => Some(CompileSource::Fallback),
            }
        } else {
            self.reload = false;
            None
        }
    }
}

} // verus!
