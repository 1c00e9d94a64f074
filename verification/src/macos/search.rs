//! The two walks over the system's devices that the CoreAudio backend makes:
//! the search for a device by name, and the listing of every device.
//!
//! Each walk asks for one device name at a time; the caller looks the name
//! up in CoreAudio and hands the outcome to the walk, which says what to do
//! next.  A failed lookup ends the walk with its error.

use vstd::prelude::*;
use crate::device::pair_texts;
use crate::error::AudioError;
use crate::text::{contains_seq, str_contains};
use super::AudioObjectID;
use super::object_id::decimal_text;

verus! {

/// What to do next while searching for a device by name.
pub enum SearchStep {
    /// Look up the name of this object and hand the outcome to `on_name`.
    LookUpName(NameSearch, AudioObjectID),
    /// This object's name matched: it is the device searched for.
    Open(AudioObjectID),
    /// The search ends with this error.
    Fail(AudioError),
}

/// A search, in listing order, for the first device whose name contains a
/// given text (case-sensitive).
pub struct NameSearch {
    ids: Vec<AudioObjectID>,
    needle: String,
    next: usize,
    seen: Ghost<Seq<Seq<char>>>,
}

impl NameSearch {
    /// The objects searched, in listing order.
    pub closed spec fn ids(&self) -> Seq<AudioObjectID> {
        self.ids@
    }

    /// The text searched for.
    pub closed spec fn needle(&self) -> Seq<char> {
        self.needle@
    }

    /// The position of the object whose name the search waits for.
    pub closed spec fn position(&self) -> nat {
        self.next as nat
    }

    /// The names looked at so far, one for each object at the front of `ids`.
    pub closed spec fn seen(&self) -> Seq<Seq<char>> {
        self.seen@
    }

    /// The search waits for the name of `ids()[seen().len()]`, and no name
    /// seen so far contains the text.
    pub open spec fn wf(&self) -> bool {
        &&& self.position() == self.seen().len()
        &&& self.seen().len() < self.ids().len()
        &&& forall|j: int|
            0 <= j < self.seen().len() ==> !contains_seq(#[trigger] self.seen()[j], self.needle())
    }

    /// Starts a search for `needle` over the objects that listing the
    /// devices gave, or passes on the listing's error.
    pub fn start(ids: Result<Vec<AudioObjectID>, AudioError>, needle: &str) -> (step: SearchStep)
        ensures
            match ids {
                Err(e) => step == SearchStep::Fail(e),
                Ok(v) => if v@.len() == 0 {
                    step == SearchStep::Fail(AudioError::DeviceNotFound)
                } else {
                    &&& step is LookUpName
                    &&& step->LookUpName_0.wf()
                    &&& step->LookUpName_0.ids() == v@
                    &&& step->LookUpName_0.needle() == needle@
                    &&& step->LookUpName_0.seen().len() == 0
                    &&& step->LookUpName_1 == v@[0]
                },
            },
    {
        match ids {
            Err(e) => SearchStep::Fail(e),
            Ok(v) => {
                if v.len() == 0 {
                    SearchStep::Fail(AudioError::DeviceNotFound)
                } else {
                    let first = v[0];
                    let needle_owned = needle.to_owned();
                    SearchStep::LookUpName(
                        NameSearch { ids: v, needle: needle_owned, next: 0, seen: Ghost(Seq::empty()) },
                        first,
                    )
                }
            },
        }
    }

    /// Takes the outcome of looking up the name of `ids()[seen().len()]`.
    ///
    /// A name that contains the text opens that object; otherwise the search
    /// goes on with the next object, and fails with `DeviceNotFound` after
    /// the last.
    pub fn on_name(self, name: Result<String, AudioError>) -> (step: SearchStep)
        requires
            self.wf(),
        ensures
            match name {
                Err(e) => step == SearchStep::Fail(e),
                Ok(n) => if contains_seq(n@, self.needle()) {
                    step == SearchStep::Open(self.ids()[self.seen().len() as int])
                } else if self.seen().len() + 1 < self.ids().len() {
                    &&& step is LookUpName
                    &&& step->LookUpName_0.wf()
                    &&& step->LookUpName_0.ids() == self.ids()
                    &&& step->LookUpName_0.needle() == self.needle()
                    &&& step->LookUpName_0.seen() == self.seen().push(n@)
                    &&& step->LookUpName_1 == self.ids()[self.seen().len() + 1int]
                } else {
                    step == SearchStep::Fail(AudioError::DeviceNotFound)
                },
            },
    {
        let ghost old_self = self;
        match name {
            Err(e) => SearchStep::Fail(e),
            Ok(n) => {
                let k: usize = self.next;
                assert(k < self.ids.len());
                if str_contains(n.as_str(), self.needle.as_str()) {
                    SearchStep::Open(self.ids[k])
                } else if k + 1 < self.ids.len() {
                    let next_id = self.ids[k + 1];
                    let ghost seen = self.seen@.push(n@);
                    let next = NameSearch {
                        ids: self.ids,
                        needle: self.needle,
                        next: k + 1,
                        seen: Ghost(seen),
                    };
                    assert forall|j: int| 0 <= j < next.seen().len() implies !contains_seq(
                        #[trigger] next.seen()[j],
                        next.needle(),
                    ) by {
                        if j < old_self.seen().len() {
                            assert(next.seen()[j] == old_self.seen()[j]);
                        }
                    }
                    SearchStep::LookUpName(next, next_id)
                } else {
                    SearchStep::Fail(AudioError::DeviceNotFound)
                }
            },
        }
    }
}

/// What to do next while listing the devices.
pub enum ListStep {
    /// Look up the name of this object and hand the outcome to `on_name`.
    LookUpName(DeviceListing, AudioObjectID),
    /// The listing ends with this outcome.
    Done(Result<Vec<(String, String)>, AudioError>),
}

/// The list of every device as `(identifier, name)` pairs, in listing order,
/// built one name lookup at a time.
pub struct DeviceListing {
    ids: Vec<AudioObjectID>,
    entries: Vec<(String, String)>,
}

/// The identifier of each entry is the decimal text of the object it lists.
pub open spec fn entries_name_objects(
    entries: Seq<(Seq<char>, Seq<char>)>,
    ids: Seq<AudioObjectID>,
) -> bool {
    &&& entries.len() <= ids.len()
    &&& forall|i: int| 0 <= i < entries.len() ==> #[trigger] entries[i].0 == decimal_text(ids[i] as nat)
}

impl DeviceListing {
    /// The objects listed, in listing order.
    pub closed spec fn ids(&self) -> Seq<AudioObjectID> {
        self.ids@
    }

    /// The entries made so far, one for each object at the front of `ids`.
    pub closed spec fn entries(&self) -> Seq<(Seq<char>, Seq<char>)> {
        pair_texts(self.entries@)
    }

    /// The listing waits for the name of `ids()[entries().len()]`.
    pub open spec fn wf(&self) -> bool {
        &&& self.entries().len() < self.ids().len()
        &&& entries_name_objects(self.entries(), self.ids())
    }

    /// Starts listing the objects that listing the devices gave, or passes
    /// on its error.
    pub fn start(ids: Result<Vec<AudioObjectID>, AudioError>) -> (step: ListStep)
        ensures
            match ids {
                Err(e) => step == ListStep::Done(Err(e)),
                Ok(v) => if v@.len() == 0 {
                    &&& step is Done
                    &&& step->Done_0 is Ok
                    &&& step->Done_0->Ok_0@.len() == 0
                } else {
                    &&& step is LookUpName
                    &&& step->LookUpName_0.wf()
                    &&& step->LookUpName_0.ids() == v@
                    &&& step->LookUpName_0.entries().len() == 0
                    &&& step->LookUpName_1 == v@[0]
                },
            },
    {
        match ids {
            Err(e) => ListStep::Done(Err(e)),
            Ok(v) => {
                if v.len() == 0 {
                    ListStep::Done(Ok(Vec::new()))
                } else {
                    let first = v[0];
                    let listing = DeviceListing { ids: v, entries: Vec::new() };
                    assert(listing.entries() =~= Seq::empty());
                    ListStep::LookUpName(listing, first)
                }
            },
        }
    }

    /// Takes the outcome of looking up the name of `ids()[entries().len()]`:
    /// the object joins the list under that name, and the listing goes on
    /// with the next object or ends with the whole list.
    pub fn on_name(self, name: Result<String, AudioError>) -> (step: ListStep)
        requires
            self.wf(),
        ensures
            match name {
                Err(e) => step == ListStep::Done(Err(e)),
                Ok(n) => {
                    let k = self.entries().len();
                    let entries = self.entries().push((decimal_text(self.ids()[k as int] as nat), n@));
                    if k + 1 < self.ids().len() {
                        &&& step is LookUpName
                        &&& step->LookUpName_0.wf()
                        &&& step->LookUpName_0.ids() == self.ids()
                        &&& step->LookUpName_0.entries() == entries
                        &&& step->LookUpName_1 == self.ids()[k + 1int]
                    } else {
                        &&& step is Done
                        &&& step->Done_0 is Ok
                        &&& pair_texts(step->Done_0->Ok_0@) == entries
                        &&& entries.len() == self.ids().len()
                        &&& entries_name_objects(entries, self.ids())
                    }
                },
            },
    {
        match name {
            Err(e) => ListStep::Done(Err(e)),
            Ok(n) => {
                let ghost old_entries = self.entries();
                let k: usize = self.entries.len();
                assert(k < self.ids.len());
                let raw_id = self.ids[k];
                let ids = self.ids;
                let mut entries = self.entries;
                let entry = super::list_entry(raw_id, n);
                entries.push(entry);
                assert(pair_texts(entries@) =~= old_entries.push(
                    (decimal_text(raw_id as nat), n@),
                ));
                if k + 1 < ids.len() {
                    let next_id = ids[k + 1];
                    ListStep::LookUpName(DeviceListing { ids, entries }, next_id)
                } else {
                    ListStep::Done(Ok(entries))
                }
            },
        }
    }
}

/// Every identifier that a listing gives reads back as the object it lists:
/// looking a listed identifier up finds the listed device again.
pub proof fn law_listed_ids_read_back(entries: Seq<(Seq<char>, Seq<char>)>, ids: Seq<AudioObjectID>)
    requires
        entries_name_objects(entries, ids),
    ensures
        forall|i: int|
            0 <= i < entries.len() ==> super::object_id_lookup(#[trigger] entries[i].0)
                == Ok::<AudioObjectID, AudioError>(ids[i]),
{
    assert forall|i: int| 0 <= i < entries.len() implies super::object_id_lookup(
        #[trigger] entries[i].0,
    ) == Ok::<AudioObjectID, AudioError>(ids[i]) by {
        super::object_id::lemma_object_id_text_round_trip(ids[i]);
    }
}

} // verus!
