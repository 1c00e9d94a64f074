//! The CoreAudio backend (macOS).
//!
//! A CoreAudio device is an audio object with a 32-bit identifier; its public
//! identifier is the decimal text of that number, and its name is the
//! object's name property.  The functions here make the backend's decisions
//! between its calls into CoreAudio: how an identifier is read back, when a
//! device counts as found, and which device a name selects.

pub mod object_id;
pub mod open;
pub mod search;

use vstd::prelude::*;
use crate::device::AudioDevice as AudioDeviceTrait;
use crate::error::{AudioError, is_unsupported};
use self::object_id::{decimal_text, object_id_text, parse_object_id, parse_u32};

verus! {

/// A CoreAudio audio object identifier.
pub type AudioObjectID = u32;

/// A CoreAudio audio output device (macOS).
#[derive(Debug)]
pub struct AudioDevice {
    /// The decimal text of the device's `AudioObjectID`.
    id: String,
    /// The device's human-readable name.
    name: String,
}

/// What looking up the object named by the identifier text `id` gives: the
/// object's number, or `DeviceNotFound` when the text names no number.
pub open spec fn object_id_lookup(id: Seq<char>) -> Result<u32, AudioError> {
    match parse_u32(id) {
        Some(n) => Ok(n),
        None => Err(AudioError::DeviceNotFound),
    }
}

/// Reads the object identifier that the public identifier `id` names; a text
/// that is not a 32-bit decimal number names no device.
pub fn object_id_from_text(id: &str) -> (r: Result<AudioObjectID, AudioError>)
    ensures
        r == object_id_lookup(id@),
{
    match parse_object_id(id) {
        Some(n) => Ok(n),
        None => Err(AudioError::DeviceNotFound),
    }
}

/// Keeps `raw_id` only where the listing of the system's devices holds it.
///
/// `ids` is what listing the devices gave; its error is passed on.
pub fn require_listed(raw_id: AudioObjectID, ids: Result<Vec<AudioObjectID>, AudioError>) -> (r:
    Result<AudioObjectID, AudioError>)
    ensures
        match ids {
            Err(e) => r == Err::<AudioObjectID, AudioError>(e),
            Ok(v) => if v@.contains(raw_id) {
                r == Ok::<AudioObjectID, AudioError>(raw_id)
            } else {
                r == Err::<AudioObjectID, AudioError>(AudioError::DeviceNotFound)
            },
        },
{
    match ids {
        Err(e) => Err(e),
        Ok(v) => {
            let mut i: usize = 0;
            while i < v.len()
                invariant
                    ids == Ok::<Vec<AudioObjectID>, AudioError>(v),
                    0 <= i <= v.len(),
                    forall|k: int| 0 <= k < i ==> v@[k] != raw_id,
                decreases v.len() - i,
            {
                if v[i] == raw_id {
                    assert(v@[i as int] == raw_id);
                    return Ok(raw_id);
                }
                i = i + 1;
            }
            Err(AudioError::DeviceNotFound)
        },
    }
}

/// The `(identifier, name)` entry that lists the object `raw_id` named `name`.
pub fn list_entry(raw_id: AudioObjectID, name: String) -> (r: (String, String))
    ensures
        r.0@ == decimal_text(raw_id as nat),
        r.1@ == name@,
{
    (object_id_text(raw_id), name)
}

impl AudioDevice {
    /// The device's public identifier, as characters.
    pub closed spec fn id_text(&self) -> Seq<char> {
        self.id@
    }

    /// The device's name, as characters.
    pub closed spec fn name_text(&self) -> Seq<char> {
        self.name@
    }

    /// The device for the object `raw_id`, whose name lookup gave `name`.
    ///
    /// The identifier is the decimal text of `raw_id`; an error of the name
    /// lookup is passed on.
    pub fn from_raw_id(raw_id: AudioObjectID, name: Result<String, AudioError>) -> (r: Result<
        AudioDevice,
        AudioError,
    >)
        ensures
            match name {
                Ok(n) => r is Ok && r->Ok_0.id_text() == decimal_text(raw_id as nat)
                    && r->Ok_0.name_text() == n@,
                Err(e) => r == Err::<AudioDevice, AudioError>(e),
            },
    {
        match name {
            Ok(n) => Ok(AudioDevice { id: object_id_text(raw_id), name: n }),
            Err(e) => Err(e),
        }
    }

    /// The object identifier that this device's public identifier names.
    pub fn raw_id(&self) -> (r: Result<AudioObjectID, AudioError>)
        ensures
            r == object_id_lookup(self.id_text()),
    {
        object_id_from_text(self.id.as_str())
    }

    /// The device's public identifier.
    pub fn id(&self) -> (r: &str)
        ensures
            r@ == self.id_text(),
    {
        self.id.as_str()
    }

    /// The device's name.
    pub fn name(&self) -> (r: &str)
        ensures
            r@ == self.name_text(),
    {
        self.name.as_str()
    }
}

/// A device made for an object reads back that object: the identifier text
/// that `from_raw_id` gives a device names the object it was made for.
pub proof fn law_device_names_its_object(raw_id: AudioObjectID, device: AudioDevice)
    requires
        device.id_text() == decimal_text(raw_id as nat),
    ensures
        object_id_lookup(device.id_text()) == Ok::<AudioObjectID, AudioError>(raw_id),
{
    object_id::lemma_object_id_text_round_trip(raw_id);
}

/// An identifier text names its object exactly when it reads as a 32-bit
/// number; any other text is `DeviceNotFound`.
pub proof fn law_object_id_lookup(id: Seq<char>)
    ensures
        parse_u32(id) is None ==> object_id_lookup(id) == Err::<AudioObjectID, AudioError>(
            AudioError::DeviceNotFound,
        ),
        parse_u32(id) is Some ==> object_id_lookup(id) == Ok::<AudioObjectID, AudioError>(
            parse_u32(id)->Some_0,
        ),
{
}

impl AudioDeviceTrait for AudioDevice {
    /// Without a linked CoreAudio service there is no default device.
    fn default() -> (r: Result<Self, AudioError>)
        ensures
            is_unsupported(r),
    {
        Err(AudioError::Unsupported)
    }

    fn from_id(id: &str) -> (r: Result<Self, AudioError>)
        ensures
            is_unsupported(r),
    {
        Err(AudioError::Unsupported)
    }

    fn from_name(name: &str) -> (r: Result<Self, AudioError>)
        ensures
            is_unsupported(r),
    {
        Err(AudioError::Unsupported)
    }

    fn list() -> (r: Result<Vec<(String, String)>, AudioError>)
        ensures
            is_unsupported(r),
    {
        Err(AudioError::Unsupported)
    }

    fn get_vol(&self) -> (r: Result<u8, AudioError>)
        ensures
            is_unsupported(r),
    {
        Err(AudioError::Unsupported)
    }

    fn set_vol(&self, vol: u8) -> (r: Result<(), AudioError>)
        ensures
            is_unsupported(r),
    {
        Err(AudioError::Unsupported)
    }

    fn is_mute(&self) -> (r: Result<bool, AudioError>)
        ensures
            is_unsupported(r),
    {
        Err(AudioError::Unsupported)
    }

    fn set_mute(&self, muted: bool) -> (r: Result<(), AudioError>)
        ensures
            is_unsupported(r),
    {
        Err(AudioError::Unsupported)
    }
}

} // verus!
