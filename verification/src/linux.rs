//! The PulseAudio backend (Linux).
//!
//! A PulseAudio device is a sink: its identifier is the sink's name and its
//! name is the sink's description.  The backend reads a sink's state as a
//! snapshot; the functions here make devices and answers out of snapshots.

use vstd::prelude::*;
use crate::device::AudioDevice as AudioDeviceTrait;
use crate::error::{AudioError, is_unsupported};

verus! {

/// What PulseAudio reports of one sink.
pub struct SinkSnapshot {
    /// The sink's name, which identifies it.
    pub name: String,
    /// The sink's human-readable description.
    pub description: String,
    /// The sink's volume, in `0..=100`.
    pub volume: u8,
    /// Whether the sink is muted.
    pub mute: bool,
}

/// A PulseAudio audio output device.
#[derive(Debug)]
pub struct AudioDevice {
    /// The sink name, which identifies the device.
    id: String,
    /// The sink description.
    name: String,
}

impl AudioDevice {
    /// The device's sink name, as characters.
    pub closed spec fn id_text(&self) -> Seq<char> {
        self.id@
    }

    /// The device's sink description, as characters.
    pub closed spec fn name_text(&self) -> Seq<char> {
        self.name@
    }

    /// The device for the sink that a lookup gave, or the lookup's error.
    pub fn from_sink(snap: Result<SinkSnapshot, AudioError>) -> (r: Result<AudioDevice, AudioError>)
        ensures
            match snap {
                Ok(s) => r is Ok && r->Ok_0.id_text() == s.name@ && r->Ok_0.name_text()
                    == s.description@,
                Err(e) => r == Err::<AudioDevice, AudioError>(e),
            },
    {
        match snap {
            Ok(s) => Ok(AudioDevice { id: s.name, name: s.description }),
            Err(e) => Err(e),
        }
    }

    /// The device's sink name.
    pub fn id(&self) -> (r: &str)
        ensures
            r@ == self.id_text(),
    {
        self.id.as_str()
    }

    /// The device's sink description.
    pub fn name(&self) -> (r: &str)
        ensures
            r@ == self.name_text(),
    {
        self.name.as_str()
    }
}

/// The volume that a sink lookup reports, or the lookup's error.
pub fn sink_volume(snap: Result<SinkSnapshot, AudioError>) -> (r: Result<u8, AudioError>)
    ensures
        match snap {
            Ok(s) => r == Ok::<u8, AudioError>(s.volume),
            Err(e) => r == Err::<u8, AudioError>(e),
        },
{
    match snap {
        Ok(s) => Ok(s.volume),
        Err(e) => Err(e),
    }
}

/// The mute state that a sink lookup reports, or the lookup's error.
pub fn sink_mute(snap: Result<SinkSnapshot, AudioError>) -> (r: Result<bool, AudioError>)
    ensures
        match snap {
            Ok(s) => r == Ok::<bool, AudioError>(s.mute),
            Err(e) => r == Err::<bool, AudioError>(e),
        },
{
    match snap {
        Ok(s) => Ok(s.mute),
        Err(e) => Err(e),
    }
}

impl AudioDeviceTrait for AudioDevice {
    /// Without a linked PulseAudio service there is no default device.
    fn default() -> (r: Result<Self, AudioError>)
        ensures
            is_unsupported(r),
    {
        Err(AudioError::Unsupported)
    }

    fn from_id(id: &str) -> (r: Result<Self, AudioError>)
        ensures
            is_unsupported(r),
    {
        Err(AudioError::Unsupported)
    }

    fn from_name(name: &str) -> (r: Result<Self, AudioError>)
        ensures
            is_unsupported(r),
    {
        Err(AudioError::Unsupported)
    }

    fn list() -> (r: Result<Vec<(String, String)>, AudioError>)
        ensures
            is_unsupported(r),
    {
        Err(AudioError::Unsupported)
    }

    fn get_vol(&self) -> (r: Result<u8, AudioError>)
        ensures
            is_unsupported(r),
    {
        Err(AudioError::Unsupported)
    }

    fn set_vol(&self, vol: u8) -> (r: Result<(), AudioError>)
        ensures
            is_unsupported(r),
    {
        Err(AudioError::Unsupported)
    }

    fn is_mute(&self) -> (r: Result<bool, AudioError>)
        ensures
            is_unsupported(r),
    {
        Err(AudioError::Unsupported)
    }

    fn set_mute(&self, muted: bool) -> (r: Result<(), AudioError>)
        ensures
            is_unsupported(r),
    {
        Err(AudioError::Unsupported)
    }
}

} // verus!
