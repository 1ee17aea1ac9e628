use vstd::prelude::*;

verus! {

/// The two unrecoverable conditions of window and backend setup.
#[derive(Clone, Copy, Debug, PartialEq, Eq, Structural)]
pub enum SetupError {
    /// The window handle belongs to a window system this target does not support.
    UnsupportedWindowSystem,
    /// The GPU backend could not acquire a rendering context.
    BackendInitFailure,
}

impl SetupError {
    /// A one-line diagnostic for the error.
    pub fn message(&self) -> (r: &'static str)
        ensures
            *self == SetupError::UnsupportedWindowSystem ==> r@ == "Unsupported Window Manager"@,
            *self == SetupError::BackendInitFailure ==> r@ == "failed to init bgfx"@,
    {
        match self {
            SetupError::UnsupportedWindowSystem => "Unsupported Window Manager",
            SetupError::BackendInitFailure => "failed to init bgfx",
        }
    }
}

} // verus!
