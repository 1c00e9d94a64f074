//! Opening a CoreAudio device, by identifier or as the system default.
//!
//! By identifier: the identifier text must name an object; listing the
//! system's devices must hold that object; the object's name is looked up;
//! the device is made.  As the default: the default object is asked for,
//! then its name.  Each answer from CoreAudio goes to the opening, which says
//! what to ask next; a failed answer ends the opening with its error.

use vstd::prelude::*;
use crate::error::AudioError;
use super::{AudioDevice, AudioObjectID, object_id_from_text, require_listed};
use super::object_id::{decimal_text, parse_u32};
use super::search::entries_name_objects;

verus! {

/// What to do next while opening a device.
pub enum OpenStep {
    /// List the system's devices and hand the outcome to `on_devices`.
    ListDevices(DeviceOpen),
    /// Look up the name of this object and hand the outcome to `on_name`.
    LookUpName(DeviceOpen, AudioObjectID),
    /// The opening ends with this outcome.
    Done(Result<AudioDevice, AudioError>),
}

/// An opening under way.
pub struct DeviceOpen {
    raw_id: AudioObjectID,
    awaiting_name: bool,
    requested: Ghost<Option<Seq<char>>>,
    listed: Ghost<Seq<AudioObjectID>>,
}

/// The `(identifier, name)` of the device that opening the identifier `id`
/// gives, when CoreAudio lists the objects `ids` and names the object `name`;
/// `None` where the opening ends with `DeviceNotFound`.
pub open spec fn opened_by_id(id: Seq<char>, ids: Seq<AudioObjectID>, name: Seq<char>) -> Option<
    (Seq<char>, Seq<char>),
> {
    match parse_u32(id) {
        Some(n) => if ids.contains(n) {
            Some((decimal_text(n as nat), name))
        } else {
            None
        },
        None => None,
    }
}

impl DeviceOpen {
    /// The object being opened.
    pub closed spec fn object(&self) -> AudioObjectID {
        self.raw_id
    }

    /// Whether the opening waits for the object's name (else for the listing).
    pub closed spec fn awaiting_name(&self) -> bool {
        self.awaiting_name
    }

    /// The identifier text asked for, when the opening is by identifier.
    pub closed spec fn requested(&self) -> Option<Seq<char>> {
        self.requested@
    }

    /// The objects that the listing held, once it has been checked.
    pub closed spec fn listed(&self) -> Seq<AudioObjectID> {
        self.listed@
    }

    /// An opening by identifier names the object of its text; once it waits
    /// for the name, the listing held that object.
    pub open spec fn wf(&self) -> bool {
        &&& self.requested() matches Some(t) ==> parse_u32(t) == Some(self.object())
        &&& (self.requested() is Some && self.awaiting_name()) ==> self.listed().contains(
            self.object(),
        )
        &&& self.requested() is None ==> self.awaiting_name()
    }

    /// Starts opening the device with identifier text `id`; a text that names
    /// no object ends it with `DeviceNotFound`.
    pub fn by_id(id: &str) -> (step: OpenStep)
        ensures
            match parse_u32(id@) {
                Some(n) => {
                    &&& step is ListDevices
                    &&& step->ListDevices_0.wf()
                    &&& step->ListDevices_0.object() == n
                    &&& step->ListDevices_0.requested() == Some(id@)
                    &&& !step->ListDevices_0.awaiting_name()
                },
                None => step == OpenStep::Done(Err(AudioError::DeviceNotFound)),
            },
    {
        match object_id_from_text(id) {
            Ok(n) => OpenStep::ListDevices(
                DeviceOpen {
                    raw_id: n,
                    awaiting_name: false,
                    requested: Ghost(Some(id@)),
                    listed: Ghost(Seq::empty()),
                },
            ),
            Err(e) => OpenStep::Done(Err(e)),
        }
    }

    /// Starts opening the default device, from what asking CoreAudio for the
    /// default object gave.
    pub fn by_default(default_id: Result<AudioObjectID, AudioError>) -> (step: OpenStep)
        ensures
            match default_id {
                Err(e) => step == OpenStep::Done(Err(e)),
                Ok(n) => {
                    &&& step is LookUpName
                    &&& step->LookUpName_0.wf()
                    &&& step->LookUpName_0.object() == n
                    &&& step->LookUpName_0.awaiting_name()
                    &&& step->LookUpName_0.requested() is None
                    &&& step->LookUpName_1 == n
                },
            },
    {
        match default_id {
            Err(e) => OpenStep::Done(Err(e)),
            Ok(n) => OpenStep::LookUpName(
                DeviceOpen {
                    raw_id: n,
                    awaiting_name: true,
                    requested: Ghost(None),
                    listed: Ghost(Seq::empty()),
                },
                n,
            ),
        }
    }

    /// Takes what listing the system's devices gave: an object that the
    /// listing does not hold is `DeviceNotFound`.
    pub fn on_devices(self, ids: Result<Vec<AudioObjectID>, AudioError>) -> (step: OpenStep)
        requires
            self.wf(),
            !self.awaiting_name(),
        ensures
            match ids {
                Err(e) => step == OpenStep::Done(Err(e)),
                Ok(v) => if v@.contains(self.object()) {
                    &&& step is LookUpName
                    &&& step->LookUpName_0.wf()
                    &&& step->LookUpName_0.object() == self.object()
                    &&& step->LookUpName_0.awaiting_name()
                    &&& step->LookUpName_0.requested() == self.requested()
                    &&& step->LookUpName_0.listed() == v@
                    &&& step->LookUpName_1 == self.object()
                } else {
                    step == OpenStep::Done(Err(AudioError::DeviceNotFound))
                },
            },
    {
        let ghost listed = if ids is Ok {
            ids->Ok_0@
        } else {
            Seq::empty()
        };
        match require_listed(self.raw_id, ids) {
            Ok(n) => OpenStep::LookUpName(
                DeviceOpen {
                    raw_id: n,
                    awaiting_name: true,
                    requested: self.requested,
                    listed: Ghost(listed),
                },
                n,
            ),
            Err(e) => OpenStep::Done(Err(e)),
        }
    }

    /// Takes the outcome of looking up the object's name: the device, or the
    /// lookup's error.  An opening by identifier ends as `opened_by_id` says.
    pub fn on_name(self, name: Result<String, AudioError>) -> (step: OpenStep)
        requires
            self.wf(),
            self.awaiting_name(),
        ensures
            match name {
                Err(e) => step == OpenStep::Done(Err(e)),
                Ok(n) => {
                    &&& step is Done
                    &&& step->Done_0 is Ok
                    &&& step->Done_0->Ok_0.id_text() == decimal_text(self.object() as nat)
                    &&& step->Done_0->Ok_0.name_text() == n@
                    &&& self.requested() matches Some(t) ==> opened_by_id(t, self.listed(), n@)
                        == Some((step->Done_0->Ok_0.id_text(), step->Done_0->Ok_0.name_text()))
                },
            },
    {
        OpenStep::Done(AudioDevice::from_raw_id(self.raw_id, name))
    }
}

/// An identifier taken from a listing opens the listed device again: with
/// the same objects listed and the same name reported, opening the
/// identifier of entry `i` gives entry `i`'s identifier and name.
pub proof fn law_listed_id_opens_listed_device(
    entries: Seq<(Seq<char>, Seq<char>)>,
    ids: Seq<AudioObjectID>,
    i: int,
)
    requires
        entries_name_objects(entries, ids),
        0 <= i < entries.len(),
    ensures
        opened_by_id(entries[i].0, ids, entries[i].1) == Some(entries[i]),
{
    assert(entries[i].0 == decimal_text(ids[i] as nat));
    super::object_id::lemma_object_id_text_round_trip(ids[i]);
    assert(ids.contains(ids[i]));
}

/// Opening an identifier fails with `DeviceNotFound` when the text names no
/// object, or when the listing does not hold the object it names; otherwise
/// it gives the object's decimal text and the reported name.
pub proof fn law_opened_by_id_outcomes(id: Seq<char>, ids: Seq<AudioObjectID>, name: Seq<char>)
    ensures
        parse_u32(id) is None ==> opened_by_id(id, ids, name) is None,
        parse_u32(id) is Some && !ids.contains(parse_u32(id)->Some_0) ==> opened_by_id(
            id,
            ids,
            name,
        ) is None,
        parse_u32(id) is Some && ids.contains(parse_u32(id)->Some_0) ==> opened_by_id(id, ids, name)
            == Some((decimal_text(parse_u32(id)->Some_0 as nat), name)),
{
}

} // verus!
