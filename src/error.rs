use vstd::prelude::*;

verus! {

/// Errors that the glass effect operations report to their caller.
#[derive(Debug, Clone, PartialEq, Eq)]
pub enum GlassError {
    /// The platform offers no native glass effect at all.
    UnsupportedPlatform,
    /// The window handle was null.
    InvalidHandle,
    /// No live surface has this id.
    InvalidViewId(i32),
    /// The tint colour is not a valid hex colour; holds the input as given.
    InvalidColor(String),
    /// The toolkit refused the operation (wrong thread, unknown property).
    RuntimeError(String),
    /// A native surface could not be constructed.
    CreationFailed,
}

} // verus!
