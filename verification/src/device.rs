//! The interface that every backend's device type offers.

use vstd::prelude::*;
use crate::error::AudioError;

verus! {

/// An audio output device of one backend.
///
/// A device is found as the system default, by its backend identifier, or by
/// its human-readable name; the backend lists its devices as
/// `(identifier, name)` pairs.  The volume is a percentage in `0..=100`.
pub trait AudioDevice: Sized {
    /// The system's default output device.
    fn default() -> Result<Self, AudioError>;

    /// The device whose backend identifier is `id`.
    fn from_id(id: &str) -> Result<Self, AudioError>;

    /// The first device whose name matches `name`.
    fn from_name(name: &str) -> Result<Self, AudioError>;

    /// Every output device as an `(identifier, name)` pair.
    fn list() -> Result<Vec<(String, String)>, AudioError>;

    /// The current volume level, in `0..=100`.
    fn get_vol(&self) -> Result<u8, AudioError>;

    /// Sets the volume level.
    fn set_vol(&self, vol: u8) -> Result<(), AudioError>;

    /// Whether the device is muted.
    fn is_mute(&self) -> Result<bool, AudioError>;

    /// Mutes or unmutes the device.
    fn set_mute(&self, muted: bool) -> Result<(), AudioError>;
}

} // verus!

verus! {

/// The characters of each `(identifier, name)` pair of a device list.
pub open spec fn pair_texts(v: Seq<(String, String)>) -> Seq<(Seq<char>, Seq<char>)> {
    v.map_values(|e: (String, String)| (e.0@, e.1@))
}

/// The texts of a device list are its pairs' characters, one for one and in order.
pub proof fn law_pair_texts(v: Seq<(String, String)>)
    ensures
        pair_texts(v).len() == v.len(),
        forall|i: int| 0 <= i < v.len() ==> #[trigger] pair_texts(v)[i] == (v[i].0@, v[i].1@),
{
}

} // verus!
