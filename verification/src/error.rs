//! The error type shared by every backend.

use vstd::prelude::*;

verus! {

/// What can go wrong when talking to an audio backend.
#[derive(Debug)]
pub enum AudioError {
    /// The backend is not available in this build.
    Unsupported,
    /// No device matches the requested identifier or name.
    DeviceNotFound,
    /// The audio service could not be initialised or queried.
    InitializationFailed(String),
    /// The list of devices could not be retrieved.
    ListFailed(String),
    /// The volume level could not be read.
    GetVolumeFailed(String),
    /// The volume level could not be changed.
    SetVolumeFailed(String),
    /// The mute state could not be read.
    GetMuteFailed(String),
    /// The mute state could not be changed.
    SetMuteFailed(String),
}

/// Holds of a result that reports the backend as unavailable.
pub open spec fn is_unsupported<T>(r: Result<T, AudioError>) -> bool {
    match r {
        Err(AudioError::Unsupported) => true,
        _ => false,
    }
}

} // verus!
