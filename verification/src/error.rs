//! The errors that the library reports.

use vstd::prelude::*;

verus! {

/// What went wrong, with the message of the part that failed.
#[derive(Debug, PartialEq, Eq)]
pub enum Error {
    /// An event handler failed.
    Handler(String),
    /// The pixel buffer could not be copied to the surface.
    Upload(String),
    /// The surface could not be shown.
    Present(String),
}

} // verus!
