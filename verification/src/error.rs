//! The ways in which a scan can fail.

use vstd::prelude::*;

verus! {

/// Why a scan, or a step of it, produced no result.
#[derive(Clone, Copy, Debug, PartialEq, Eq, Structural)]
pub enum ScanError {
    /// The settings do not say where the captures are kept.
    ConfigurationMissing,
    /// No directory, or more than one, carries today's date.
    DirectoryNotFound,
    /// A directory could not be listed, or a file's size could not be read.
    IoError,
    /// A file name does not have two dot-separated parts.
    MalformedEntry,
}

} // verus!
