//! The WASAPI backend (Windows).
//!
//! A WASAPI device is a render endpoint, identified by its endpoint
//! identifier string and named by its friendly name.  The functions here make
//! the backend's decisions around its COM calls: how COM's answers turn into
//! the library's errors, the wide string that a lookup by identifier passes,
//! the volume that a request sets, and which device a name selects.

pub mod com;
pub mod listing;
pub mod wide;

use vstd::prelude::*;
use crate::device::{AudioDevice as AudioDeviceTrait, pair_texts};
use crate::error::{AudioError, is_unsupported};
use crate::text::{contains_seq, law_contains_iff_split, str_contains};

verus! {

/// A WASAPI audio output device (Windows).
#[derive(Debug)]
pub struct AudioDevice {
    /// The endpoint identifier.
    id: String,
    /// The friendly name.
    name: String,
}

/// Unicode lower-casing of `s`, as std's `str::to_lowercase` performs it.
pub uninterp spec fn lowercase(s: Seq<char>) -> Seq<char>;

/// The lower-case form of `s`.
///
/// Calls std's `str::to_lowercase`, whose result depends on `s` alone (Unicode
/// case mapping, no locale); the contract names that result and claims
/// nothing more of it.
#[verifier::external_body]
fn to_lowercase(s: &str) -> (r: String)
    ensures
        r@ == lowercase(s@),
{
    s.to_lowercase()
}

/// The device name `name` matches the text `needle`: the lower-case name
/// contains the lower-case text.
pub open spec fn name_matches(name: Seq<char>, needle: Seq<char>) -> bool {
    contains_seq(lowercase(name), lowercase(needle))
}

/// Position `i` holds the first device of `devices` whose name matches `needle`.
pub open spec fn first_match_at(
    devices: Seq<(Seq<char>, Seq<char>)>,
    needle: Seq<char>,
    i: int,
) -> bool {
    &&& 0 <= i < devices.len()
    &&& name_matches(devices[i].1, needle)
    &&& forall|j: int| 0 <= j < i ==> !name_matches(#[trigger] devices[j].1, needle)
}

/// A device name matches a text exactly when the lower-cased name splits into
/// something before, the lower-cased text, and something after — for texts
/// and names of every length.
pub proof fn law_name_matches_iff_split(name: Seq<char>, needle: Seq<char>)
    ensures
        name_matches(name, needle) <==> exists|a: Seq<char>, b: Seq<char>|
            #[trigger] (a + lowercase(needle) + b) == lowercase(name),
{
    law_contains_iff_split(lowercase(name), lowercase(needle));
}

/// The device that a name selects: position `i` is the first match exactly
/// when the lower-cased name at `i` splits around the lower-cased text and no
/// lower-cased name before it does.
pub proof fn law_first_match_by_split(devices: Seq<(Seq<char>, Seq<char>)>, needle: Seq<char>, i: int)
    ensures
        first_match_at(devices, needle, i) <==> {
            &&& 0 <= i < devices.len()
            &&& exists|a: Seq<char>, b: Seq<char>|
                #[trigger] (a + lowercase(needle) + b) == lowercase(devices[i].1)
            &&& forall|j: int, a: Seq<char>, b: Seq<char>|
                0 <= j < i ==> #[trigger] (a + lowercase(needle) + b) != lowercase(
                    #[trigger] devices[j].1,
                )
        },
{
    if 0 <= i < devices.len() {
        law_name_matches_iff_split(devices[i].1, needle);
    }
    assert forall|j: int| 0 <= j < i && j < devices.len() implies (!name_matches(
        #[trigger] devices[j].1,
        needle,
    ) <==> forall|a: Seq<char>, b: Seq<char>|
        #[trigger] (a + lowercase(needle) + b) != lowercase(devices[j].1)) by {
        law_name_matches_iff_split(devices[j].1, needle);
    }
}

/// The characters of each string of `v`.
pub open spec fn string_texts(v: Seq<String>) -> Seq<Seq<char>> {
    v.map_values(|s: String| s@)
}

/// Position `i` holds the first of `names` that contains `needle`.
pub open spec fn first_containing_at(names: Seq<Seq<char>>, needle: Seq<char>, i: int) -> bool {
    &&& 0 <= i < names.len()
    &&& contains_seq(names[i], needle)
    &&& forall|j: int| 0 <= j < i ==> !contains_seq(#[trigger] names[j], needle)
}

/// The position of the first of `names` that contains `needle`, compared
/// character by character; `None` when none does.  The name search runs it
/// on lower-cased names with a lower-cased text.
pub fn first_containing(names: &Vec<String>, needle: &str) -> (r: Option<usize>)
    ensures
        match r {
            Some(i) => first_containing_at(string_texts(names@), needle@, i as int),
            None => forall|i: int|
                0 <= i < names@.len() ==> !contains_seq(#[trigger] string_texts(names@)[i], needle@),
        },
{
    let ghost texts = string_texts(names@);
    let mut i: usize = 0;
    while i < names.len()
        invariant
            texts == string_texts(names@),
            i <= names.len(),
            forall|j: int| 0 <= j < i ==> !contains_seq(#[trigger] texts[j], needle@),
        decreases names.len() - i,
    {
        if str_contains(names[i].as_str(), needle) {
            return Some(i);
        }
        i = i + 1;
    }
    None
}

/// What a failed listing means to a lookup by name: a listing failure is a
/// failed lookup; any other error stays as it is.
pub open spec fn lookup_failure(e: AudioError) -> AudioError {
    match e {
        AudioError::ListFailed(message) => AudioError::InitializationFailed(message),
        _ => e,
    }
}

/// A failed listing is a failed lookup by name: `ListFailed` becomes
/// `InitializationFailed` with the same message; any other error stays.
pub proof fn law_lookup_failure(message: String, e: AudioError)
    ensures
        lookup_failure(AudioError::ListFailed(message)) == AudioError::InitializationFailed(message),
        !(e is ListFailed) ==> lookup_failure(e) == e,
{
}

/// The texts of a list of strings are the strings' characters, one for one.
pub proof fn law_string_texts(v: Seq<String>)
    ensures
        string_texts(v).len() == v.len(),
        forall|i: int| 0 <= i < v.len() ==> #[trigger] string_texts(v)[i] == v[i]@,
{
}

/// Position `i` holds the first name containing the text exactly when the
/// name at `i` splits around the text and no name before it does.
pub proof fn law_first_containing_by_split(names: Seq<Seq<char>>, needle: Seq<char>, i: int)
    ensures
        first_containing_at(names, needle, i) <==> {
            &&& 0 <= i < names.len()
            &&& exists|a: Seq<char>, b: Seq<char>| #[trigger] (a + needle + b) == names[i]
            &&& forall|j: int, a: Seq<char>, b: Seq<char>|
                0 <= j < i ==> #[trigger] (a + needle + b) != #[trigger] names[j]
        },
{
    if 0 <= i < names.len() {
        law_contains_iff_split(names[i], needle);
    }
    assert forall|j: int| 0 <= j < i && j < names.len() implies (!contains_seq(
        #[trigger] names[j],
        needle,
    ) <==> forall|a: Seq<char>, b: Seq<char>| #[trigger] (a + needle + b) != names[j]) by {
        law_contains_iff_split(names[j], needle);
    }
}

/// The mute state that a Win32 `BOOL` value holds: any non-zero value is true.
pub fn mute_from_win32(value: i32) -> (muted: bool)
    ensures
        muted == (value != 0),
{
    value != 0
}

/// The Win32 `BOOL` value of a mute state: `1` for true, `0` for false.
pub fn mute_to_win32(muted: bool) -> (value: i32)
    ensures
        value == if muted { 1i32 } else { 0i32 },
{
    if muted {
        1
    } else {
        0
    }
}

/// The volume level that a request for `vol` sets: `vol`, clamped to `0..=100`.
pub fn clamp_volume(vol: u8) -> (r: u8)
    ensures
        r == if vol <= 100 { vol } else { 100u8 },
{
    if vol <= 100 {
        vol
    } else {
        100
    }
}

impl AudioDevice {
    /// The device's endpoint identifier, as characters.
    pub closed spec fn id_text(&self) -> Seq<char> {
        self.id@
    }

    /// The device's friendly name, as characters.
    pub closed spec fn name_text(&self) -> Seq<char> {
        self.name@
    }

    /// The device for the endpoint with identifier `id` and friendly name `name`.
    pub fn from_endpoint(id: String, name: String) -> (d: AudioDevice)
        ensures
            d.id_text() == id@,
            d.name_text() == name@,
    {
        AudioDevice { id, name }
    }

    /// The first of `devices` (as `(identifier, name)` pairs, in listing
    /// order) whose name contains `name`, ignoring case; `DeviceNotFound`
    /// when none does.
    pub fn select_by_name(devices: Vec<(String, String)>, name: &str) -> (r: Result<
        AudioDevice,
        AudioError,
    >)
        ensures
            match r {
                Ok(d) => exists|i: int|
                    {
                        &&& #[trigger] first_match_at(pair_texts(devices@), name@, i)
                        &&& d.id_text() == devices@[i].0@
                        &&& d.name_text() == devices@[i].1@
                    },
                Err(e) => {
                    &&& e == AudioError::DeviceNotFound
                    &&& forall|i: int|
                        0 <= i < devices@.len() ==> !name_matches(#[trigger] devices@[i].1@, name@)
                },
            },
            r is Ok <==> exists|i: int, a: Seq<char>, b: Seq<char>|
                0 <= i < devices@.len() && #[trigger] (a + lowercase(name@) + b) == lowercase(
                    #[trigger] devices@[i].1@,
                ),
    {
        let needle = to_lowercase(name);
        let mut lowered: Vec<String> = Vec::new();
        let mut k: usize = 0;
        while k < devices.len()
            invariant
                k <= devices.len(),
                lowered@.len() == k,
                forall|j: int| 0 <= j < k ==> #[trigger] lowered@[j]@ == lowercase(devices@[j].1@),
            decreases devices.len() - k,
        {
            lowered.push(to_lowercase(devices[k].1.as_str()));
            k = k + 1;
        }
        let ghost texts = pair_texts(devices@);
        let ghost names = string_texts(lowered@);
        assert forall|j: int| 0 <= j < devices@.len() implies #[trigger] names[j] == lowercase(
            texts[j].1,
        ) && texts[j].1 == devices@[j].1@ by {
            assert(lowered@[j]@ == lowercase(devices@[j].1@));
        }
        match first_containing(&lowered, needle.as_str()) {
            Some(i) => {
                assert forall|j: int| 0 <= j < i implies !name_matches(#[trigger] texts[j].1, name@) by {
                    assert(!contains_seq(names[j], needle@));
                }
                assert(first_match_at(texts, name@, i as int));
                proof {
                    law_name_matches_iff_split(devices@[i as int].1@, name@);
                }
                Ok(AudioDevice { id: devices[i].0.clone(), name: devices[i].1.clone() })
            },
            None => {
                assert forall|j: int| 0 <= j < devices@.len() implies !name_matches(
                    #[trigger] devices@[j].1@,
                    name@,
                ) by {
                    assert(!contains_seq(names[j], needle@));
                }
                assert forall|i: int, a: Seq<char>, b: Seq<char>|
                    0 <= i < devices@.len() implies #[trigger] (a + lowercase(name@) + b)
                    != lowercase(#[trigger] devices@[i].1@) by {
                    law_name_matches_iff_split(devices@[i].1@, name@);
                    assert(!name_matches(devices@[i].1@, name@));
                }
                Err(AudioError::DeviceNotFound)
            },
        }
    }

    /// What looking up a device by name gives, from what listing the devices
    /// gave: a failed listing is a failed lookup (`InitializationFailed`,
    /// with the listing's message); otherwise the device that
    /// `select_by_name` selects.
    pub fn find_in_listing(devices: Result<Vec<(String, String)>, AudioError>, name: &str) -> (r:
        Result<AudioDevice, AudioError>)
        ensures
            match devices {
                Err(e) => r == Err::<AudioDevice, AudioError>(lookup_failure(e)),
                Ok(v) => match r {
                    Ok(d) => exists|i: int|
                        {
                            &&& #[trigger] first_match_at(pair_texts(v@), name@, i)
                            &&& d.id_text() == v@[i].0@
                            &&& d.name_text() == v@[i].1@
                        },
                    Err(e) => {
                        &&& e == AudioError::DeviceNotFound
                        &&& forall|i: int|
                            0 <= i < v@.len() ==> !name_matches(#[trigger] v@[i].1@, name@)
                    },
                },
            },
            devices is Ok ==> (r is Ok <==> exists|i: int, a: Seq<char>, b: Seq<char>|
                0 <= i < devices->Ok_0@.len() && #[trigger] (a + lowercase(name@) + b)
                    == lowercase(#[trigger] devices->Ok_0@[i].1@)),
    {
        match devices {
            Err(AudioError::ListFailed(message)) => Err(AudioError::InitializationFailed(message)),
            Err(e) => Err(e),
            Ok(v) => AudioDevice::select_by_name(v, name),
        }
    }

    /// The device's endpoint identifier.
    pub fn id(&self) -> (r: &str)
        ensures
            r@ == self.id_text(),
    {
        self.id.as_str()
    }

    /// The device's friendly name.
    pub fn name(&self) -> (r: &str)
        ensures
            r@ == self.name_text(),
    {
        self.name.as_str()
    }
}

impl AudioDeviceTrait for AudioDevice {
    /// Without a linked WASAPI service there is no default device.
    fn default() -> (r: Result<Self, AudioError>)
        ensures
            is_unsupported(r),
    {
        Err(AudioError::Unsupported)
    }

    fn from_id(id: &str) -> (r: Result<Self, AudioError>)
        ensures
            is_unsupported(r),
    {
        Err(AudioError::Unsupported)
    }

    fn from_name(name: &str) -> (r: Result<Self, AudioError>)
        ensures
            is_unsupported(r),
    {
        Err(AudioError::Unsupported)
    }

    fn list() -> (r: Result<Vec<(String, String)>, AudioError>)
        ensures
            is_unsupported(r),
    {
        Err(AudioError::Unsupported)
    }

    fn get_vol(&self) -> (r: Result<u8, AudioError>)
        ensures
            is_unsupported(r),
    {
        Err(AudioError::Unsupported)
    }

    fn set_vol(&self, vol: u8) -> (r: Result<(), AudioError>)
        ensures
            is_unsupported(r),
    {
        Err(AudioError::Unsupported)
    }

    fn is_mute(&self) -> (r: Result<bool, AudioError>)
        ensures
            is_unsupported(r),
    {
        Err(AudioError::Unsupported)
    }

    fn set_mute(&self, muted: bool) -> (r: Result<(), AudioError>)
        ensures
            is_unsupported(r),
    {
        Err(AudioError::Unsupported)
    }
}

} // verus!
