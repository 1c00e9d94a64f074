//! The listing of the active render endpoints, one endpoint at a time.
//!
//! The caller counts the endpoints of the collection, then reads each
//! endpoint's identifier and friendly name in collection order and hands the
//! outcome to the listing, which says what to read next.  The first failure
//! ends the listing with its error.

use vstd::prelude::*;
use crate::device::pair_texts;
use crate::error::AudioError;

verus! {

/// What to do next while listing the endpoints.
pub enum EndpointStep {
    /// Read the identifier and name of the endpoint at this position of the
    /// collection and hand the outcome to `on_endpoint`.
    Read(EndpointListing, u32),
    /// The listing ends with this outcome.
    Done(Result<Vec<(String, String)>, AudioError>),
}

/// The `(identifier, name)` pairs of a collection of endpoints, in
/// collection order, built one endpoint at a time.
pub struct EndpointListing {
    count: u32,
    entries: Vec<(String, String)>,
}

impl EndpointListing {
    /// The number of endpoints in the collection.
    pub closed spec fn count(&self) -> nat {
        self.count as nat
    }

    /// The pairs read so far, one for each position at the front of the collection.
    pub closed spec fn entries(&self) -> Seq<(Seq<char>, Seq<char>)> {
        pair_texts(self.entries@)
    }

    /// The listing waits for the endpoint at position `entries().len()`.
    pub open spec fn wf(&self) -> bool {
        self.entries().len() < self.count()
    }

    /// Starts listing a collection of `count` endpoints, or passes on the
    /// error of counting them.
    pub fn start(count: Result<u32, AudioError>) -> (step: EndpointStep)
        ensures
            match count {
                Err(e) => step == EndpointStep::Done(Err(e)),
                Ok(n) => if n == 0 {
                    &&& step is Done
                    &&& step->Done_0 is Ok
                    &&& step->Done_0->Ok_0@.len() == 0
                } else {
                    &&& step is Read
                    &&& step->Read_0.wf()
                    &&& step->Read_0.count() == n
                    &&& step->Read_0.entries().len() == 0
                    &&& step->Read_1 == 0
                },
            },
    {
        match count {
            Err(e) => EndpointStep::Done(Err(e)),
            Ok(n) => {
                if n == 0 {
                    EndpointStep::Done(Ok(Vec::new()))
                } else {
                    let listing = EndpointListing { count: n, entries: Vec::new() };
                    assert(listing.entries() =~= Seq::empty());
                    EndpointStep::Read(listing, 0)
                }
            },
        }
    }

    /// Takes the outcome of reading the endpoint at position
    /// `entries().len()`: its pair joins the list, and the listing goes on
    /// with the next position or ends with the whole list.
    pub fn on_endpoint(self, entry: Result<(String, String), AudioError>) -> (step: EndpointStep)
        requires
            self.wf(),
        ensures
            match entry {
                Err(e) => step == EndpointStep::Done(Err(e)),
                Ok(p) => {
                    let entries = self.entries().push((p.0@, p.1@));
                    if entries.len() < self.count() {
                        &&& step is Read
                        &&& step->Read_0.wf()
                        &&& step->Read_0.count() == self.count()
                        &&& step->Read_0.entries() == entries
                        &&& step->Read_1 == entries.len()
                    } else {
                        &&& step is Done
                        &&& step->Done_0 is Ok
                        &&& pair_texts(step->Done_0->Ok_0@) == entries
                        &&& entries.len() == self.count()
                    }
                },
            },
    {
        match entry {
            Err(e) => EndpointStep::Done(Err(e)),
            Ok(p) => {
                let ghost old_entries = self.entries();
                let count = self.count;
                let mut entries = self.entries;
                let ghost pv = (p.0@, p.1@);
                entries.push(p);
                assert(pair_texts(entries@) =~= old_entries.push(pv));
                let k: usize = entries.len();
                if k < count as usize {
                    EndpointStep::Read(EndpointListing { count, entries }, k as u32)
                } else {
                    EndpointStep::Done(Ok(entries))
                }
            },
        }
    }
}

} // verus!
