//! Verified decision logic of the rabbit_hole renderer: the GL error check,
//! the shader program build protocol, the frame-noise texture, and the
//! per-frame input toggles and render plan.

pub mod gl_errors;
pub mod shader_program;
pub mod program_transcript;
pub mod noise;
pub mod frame;
pub mod uniforms;
