//! Errors reported by this library.

use vstd::prelude::*;

verus! {

/// An error of the virtual directory path reader.
#[derive(Debug, Clone, PartialEq, Eq)]
pub enum Error {
    /// The text could not be read as a virtual directory path.
    InvalidRegistryPath {
        /// The text that was given.
        path: String,
        /// What went wrong.
        error: String,
    },
}

} // verus!
