use vstd::prelude::*;

verus! {

/// The ways in which bringing up the rendering context can fail.
#[derive(Clone, Copy, Debug, PartialEq, Eq, Structural)]
pub enum InitError {
    /// A requested validation layer is not available.
    UnsupportedLayer,
    /// A requested instance extension is not available.
    UnsupportedExtension,
    /// The runtime rejected the instance for another reason.
    RuntimeCreationFailed,
    /// The platform window could not be wrapped into a surface.
    SurfaceCreationFailed,
    /// No accelerator and queue families meet the selection policy.
    NoSuitableAccelerator,
    /// The logical device or its queues could not be set up.
    DeviceCreationFailed,
}

/// The runtime's result code for a validation layer that does not exist.
pub const LAYER_NOT_PRESENT: i32 = -6;

/// The runtime's result code for an extension that does not exist.
pub const EXTENSION_NOT_PRESENT: i32 = -7;

/// The error that a failed instance creation reports, by the runtime's code.
pub open spec fn instance_error_of(code: i32) -> InitError {
    if code == LAYER_NOT_PRESENT {
        InitError::UnsupportedLayer
    } else if code == EXTENSION_NOT_PRESENT {
        InitError::UnsupportedExtension
    } else {
        InitError::RuntimeCreationFailed
    }
}

/// Classifies the result code with which the runtime refused to create an instance.
pub fn classify_instance_error(code: i32) -> (r: InitError)
    ensures
        r == instance_error_of(code),
{
    if code == LAYER_NOT_PRESENT {
        InitError::UnsupportedLayer
    } else if code == EXTENSION_NOT_PRESENT {
        InitError::UnsupportedExtension
    } else {
        InitError::RuntimeCreationFailed
    }
}

} // verus!
