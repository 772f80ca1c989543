use vstd::prelude::*;

verus! {

/// The errors that can occur when using the tracker.
#[derive(Debug)]
#[non_exhaustive]
pub enum Error {
    /// An error occurred when trying to build an event or payload
    BuilderError(String),
    /// An error occurred in the emitter
    EmitterError(String),
    /// An error occurred in the event store
    EventStoreError(String),
}

impl Error {
    /// The human readable message carried by the error.
    pub fn message(&self) -> (r: &String)
        ensures
            r == match self {
                Error::BuilderError(m) => m,
                Error::EmitterError(m) => m,
                Error::EventStoreError(m) => m,
            },
    {
        match self {
            Error::BuilderError(m) => m,
            Error::EmitterError(m) => m,
            Error::EventStoreError(m) => m,
        }
    }
}

} // verus!
