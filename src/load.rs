use vstd::prelude::*;

use crate::record::Record;
use crate::store::{entries_of, Collection, Entry};

verus! {

/// What reading and decoding the backing file gave.
pub enum ReadOutcome {
    /// The file does not exist.
    Missing,
    /// The file exists but could not be read (permissions, a device error).
    Unreadable,
    /// The file was read but does not hold a valid collection; an empty file
    /// falls here too.
    Malformed,
    /// The file was read and decoded into these records, in file order.
    Parsed(Vec<Record>),
}

/// The one failure that the store reports: its backing file cannot be
/// created, opened, read or written.
#[derive(PartialEq, Eq, Structural, Debug)]
pub enum StoreError {
    Unavailable,
}

/// What loading gives for each outcome: `None` for a failure, otherwise the
/// entries of the loaded collection. A missing or malformed file counts as an
/// empty collection.
pub open spec fn loaded(outcome: ReadOutcome) -> Option<Seq<Entry>> {
    match outcome {
        ReadOutcome::Missing => Some(Seq::empty()),
        ReadOutcome::Unreadable => None,
        ReadOutcome::Malformed => Some(Seq::empty()),
        ReadOutcome::Parsed(records) => Some(entries_of(records@)),
    }
}

/// Turns the result of reading the backing file into the collection it
/// stands for. Only an unreadable file is an error; a missing or malformed
/// one degrades to an empty collection.
pub fn load(outcome: ReadOutcome) -> (r: Result<Collection, StoreError>)
    ensures
        match r {
            Ok(c) => loaded(outcome) == Some(c@),
            Err(e) => loaded(outcome) is None && e == StoreError::Unavailable,
        },
{
    match outcome {
        ReadOutcome::Missing => Ok(Collection::new()),
        ReadOutcome::Unreadable => Err(StoreError::Unavailable),
        ReadOutcome::Malformed => Ok(Collection::new()),
        ReadOutcome::Parsed(records) => Ok(Collection::from_records(records)),
    }
}

} // verus!
