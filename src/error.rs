use vstd::prelude::*;

verus! {

/// Why an installation could not go ahead.
#[derive(Clone, Copy, Debug, PartialEq, Eq, Structural)]
pub enum InstallError {
    /// No member of the archive is the executable.
    NoMatchingEntry,
    /// A whole-archive install was asked of an asset that is no archive.
    NotAnArchive,
    /// The asset's suffix names no compression a tarball can carry.
    UnsupportedCompression,
    /// An entry of the install root has no path component.
    EmptyArchive,
    /// The compressed stream could not be decoded.
    CorruptStream,
    /// The archive, or the member picked from it, could not be read.
    UnreadableArchive,
}

} // verus!
