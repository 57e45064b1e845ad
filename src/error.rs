//! Errors of the library.

use vstd::prelude::*;

verus! {

/// What can go wrong while a level is set up.
#[derive(Debug, Clone, PartialEq, Eq)]
pub enum Error {
    /// The level file is not well-formed JSON.
    InvalidJson(String),
    /// The level file could not be read.
    Io(String),
    /// The graphics back end refused a request.
    Duku(String),
    /// The level data is JSON but not a level this game can build.
    InvalidLevel(String),
}

impl Error {
    /// An `InvalidLevel` error carrying `message`.
    pub fn invalid_level(message: &str) -> (r: Error)
        ensures
            r matches Error::InvalidLevel(m) && m@ == message@,
    {
        Error::InvalidLevel(message.to_owned())
    }
}

} // verus!
