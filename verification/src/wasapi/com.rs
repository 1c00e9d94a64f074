//! The outcomes of COM calls, and what the backend makes of them.

use vstd::prelude::*;
use crate::error::AudioError;

verus! {

/// A failed COM call: its `HRESULT` code and the message that describes it.
pub struct ComError {
    pub code: i32,
    pub message: String,
}

/// `CoInitializeEx`'s answer when COM was already initialised on this thread
/// with another apartment model (`0x80010106`): COM is usable, but this
/// initialisation must not be balanced by `CoUninitialize`.
pub const RPC_E_CHANGED_MODE: i32 = -2_147_417_850i32;

/// `HRESULT_FROM_WIN32(ERROR_NOT_FOUND)` (`0x80070490`): no endpoint has the
/// requested identifier.
pub const HRESULT_ERROR_NOT_FOUND: i32 = -2_147_023_728i32;

/// `HRESULT_FROM_WIN32(ERROR_FILE_NOT_FOUND)` (`0x80070002`): the requested
/// device has been removed.
pub const HRESULT_ERROR_FILE_NOT_FOUND: i32 = -2_147_024_894i32;

/// `AUDCLNT_E_DEVICE_INVALIDATED` (`0x88890004`): the requested device has
/// been invalidated.
pub const AUDCLNT_E_DEVICE_INVALIDATED: i32 = -2_004_287_484i32;

/// The codes with which a device lookup reports that the device is missing.
pub open spec fn is_missing_device_code(code: i32) -> bool {
    code == HRESULT_ERROR_NOT_FOUND || code == HRESULT_ERROR_FILE_NOT_FOUND || code
        == AUDCLNT_E_DEVICE_INVALIDATED
}

/// The COM calls that the backend makes on behalf of an operation.
#[derive(Clone, Copy, Debug)]
pub enum ComCall {
    /// `CoCreateInstance` of the device enumerator.
    CreateEnumerator,
    /// `GetDefaultAudioEndpoint` for the console render role.
    DefaultDevice,
    /// `GetDevice` with an endpoint identifier.
    DeviceById,
    /// `GetId` of a device, and its conversion to a string.
    DeviceId,
    /// Reading a device's friendly name from its property store.
    DeviceName,
    /// `EnumAudioEndpoints` of the active render endpoints.
    EnumerateDevices,
    /// `GetCount` of the endpoint collection.
    CountDevices,
    /// `Item` of the endpoint collection.
    CollectionItem,
    /// `Activate` of a device's endpoint volume interface.
    EndpointVolume,
    /// `GetMasterVolumeLevelScalar`.
    GetVolume,
    /// `SetMasterVolumeLevelScalar`.
    SetVolume,
    /// `GetMute`.
    GetMute,
    /// `SetMute`.
    SetMute,
}

/// The error that a failure of `call` with `code` and `message` means.
///
/// Listing failures are `ListFailed`, volume and mute failures are the
/// matching `Get..`/`Set..` errors, a lookup by identifier that COM answers
/// with a missing-device code is `DeviceNotFound`, and any other failure is
/// `InitializationFailed`; each keeps COM's message.
pub open spec fn failure_of(call: ComCall, code: i32, message: String) -> AudioError {
    match call {
        ComCall::EnumerateDevices | ComCall::CountDevices | ComCall::CollectionItem => AudioError::ListFailed(message),
        ComCall::GetVolume => AudioError::GetVolumeFailed(message),
        ComCall::SetVolume => AudioError::SetVolumeFailed(message),
        ComCall::GetMute => AudioError::GetMuteFailed(message),
        ComCall::SetMute => AudioError::SetMuteFailed(message),
        ComCall::DeviceById => if is_missing_device_code(code) {
            AudioError::DeviceNotFound
        } else {
            AudioError::InitializationFailed(message)
        },
        _ => AudioError::InitializationFailed(message),
    }
}

/// The documented meaning of each failure: listing calls fail with
/// `ListFailed`, volume and mute calls with their own errors, a lookup by
/// identifier answered `0x80070490`, `0x80070002` or `0x88890004` with
/// `DeviceNotFound`, and everything else with `InitializationFailed`; each
/// keeps COM's message.
pub proof fn law_call_failures(code: i32, message: String)
    ensures
        failure_of(ComCall::EnumerateDevices, code, message) == AudioError::ListFailed(message),
        failure_of(ComCall::CountDevices, code, message) == AudioError::ListFailed(message),
        failure_of(ComCall::CollectionItem, code, message) == AudioError::ListFailed(message),
        failure_of(ComCall::GetVolume, code, message) == AudioError::GetVolumeFailed(message),
        failure_of(ComCall::SetVolume, code, message) == AudioError::SetVolumeFailed(message),
        failure_of(ComCall::GetMute, code, message) == AudioError::GetMuteFailed(message),
        failure_of(ComCall::SetMute, code, message) == AudioError::SetMuteFailed(message),
        failure_of(ComCall::CreateEnumerator, code, message) == AudioError::InitializationFailed(
            message,
        ),
        failure_of(ComCall::DefaultDevice, code, message) == AudioError::InitializationFailed(
            message,
        ),
        failure_of(ComCall::DeviceId, code, message) == AudioError::InitializationFailed(message),
        failure_of(ComCall::DeviceName, code, message) == AudioError::InitializationFailed(message),
        failure_of(ComCall::EndpointVolume, code, message) == AudioError::InitializationFailed(
            message,
        ),
        failure_of(ComCall::DeviceById, code, message) == if code == -2_147_023_728i32 || code
            == -2_147_024_894i32 || code == -2_004_287_484i32 {
            AudioError::DeviceNotFound
        } else {
            AudioError::InitializationFailed(message)
        },
{
}

/// The answer of `CoInitializeEx` that leaves COM usable without owning it
/// (another apartment model) is `0x80010106`.
pub proof fn law_changed_mode_code()
    ensures
        RPC_E_CHANGED_MODE == -2_147_417_850i32,
{
}

/// What the failure `e` of `call` means to the caller.
pub fn call_failure(call: ComCall, e: ComError) -> (r: AudioError)
    ensures
        r == failure_of(call, e.code, e.message),
{
    match call {
        ComCall::EnumerateDevices | ComCall::CountDevices | ComCall::CollectionItem => AudioError::ListFailed(e.message),
        ComCall::GetVolume => AudioError::GetVolumeFailed(e.message),
        ComCall::SetVolume => AudioError::SetVolumeFailed(e.message),
        ComCall::GetMute => AudioError::GetMuteFailed(e.message),
        ComCall::SetMute => AudioError::SetMuteFailed(e.message),
        ComCall::DeviceById => {
            if e.code == HRESULT_ERROR_NOT_FOUND || e.code == HRESULT_ERROR_FILE_NOT_FOUND || e.code
                == AUDCLNT_E_DEVICE_INVALIDATED {
                AudioError::DeviceNotFound
            } else {
                AudioError::InitializationFailed(e.message)
            }
        },
        _ => AudioError::InitializationFailed(e.message),
    }
}

/// Keeps the record of a COM initialisation made for one operation: whether
/// this thread's initialisation must be balanced when the operation ends.
pub struct ComGuard {
    owns_init: bool,
}

impl ComGuard {
    /// Whether the initialisation belongs to this guard.
    pub closed spec fn owns_init(&self) -> bool {
        self.owns_init
    }

    /// What `CoInitializeEx` answered decides the guard: success owns the
    /// initialisation; `RPC_E_CHANGED_MODE` leaves COM usable but not owned;
    /// any other failure stops the operation.
    pub fn from_init_result(result: Result<(), ComError>) -> (r: Result<ComGuard, AudioError>)
        ensures
            match result {
                Ok(()) => r is Ok && r->Ok_0.owns_init(),
                Err(e) => if e.code == RPC_E_CHANGED_MODE {
                    r is Ok && !r->Ok_0.owns_init()
                } else {
                    r == Err::<ComGuard, AudioError>(AudioError::InitializationFailed(e.message))
                },
            },
    {
        match result {
            Ok(()) => Ok(ComGuard { owns_init: true }),
            Err(e) => {
                if e.code == RPC_E_CHANGED_MODE {
                    Ok(ComGuard { owns_init: false })
                } else {
                    Err(AudioError::InitializationFailed(e.message))
                }
            },
        }
    }

    /// Whether `CoUninitialize` must be called when the guard is released:
    /// exactly when the guard owns the initialisation.
    pub fn must_uninitialize(&self) -> (b: bool)
        ensures
            b == self.owns_init(),
    {
        self.owns_init
    }
}

} // verus!
