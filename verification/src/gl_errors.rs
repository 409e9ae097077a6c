use vstd::prelude::*;

verus! {

/// The value `glGetError` reports when no error is pending.
pub const GL_NO_ERROR: u32 = 0;

/// Whether the code returned by `glGetError` reports a pending error, which
/// the viewer treats as fatal.
pub fn gl_error_pending(err: u32) -> (pending: bool)
    ensures
        pending == (err != GL_NO_ERROR),
{
    err != GL_NO_ERROR
}

/// The check the viewer makes after setting up and after every frame: it
/// goes on only when `glGetError` reports no pending error. A pending error
/// is fatal; callers test `gl_error_pending` first and stop there.
pub fn check_gl_errors(err: u32)
    requires
        err == GL_NO_ERROR,
{
}

} // verus!
