//! Reasons why a virtual file system operation fails.

use vstd::prelude::*;

verus! {

/// Reason why a virtual file system operation fails.
#[derive(Clone, Copy, Debug, Eq, PartialEq, Structural)]
pub enum VfsError {
    /// A file entry without sub file entries was asked for one.
    NoSubFileEntries,
    /// No image layer has the index that was asked for.
    MissingLayer(usize),
    /// A file entry was added at a path that was already set; the new entry replaced the old.
    PathAlreadySet,
    /// The file system has no root file entry.
    MissingRootFileEntry,
    /// A file entry of the file type has no data stream.
    MissingDataStream,
    /// The bytes per sector of a parent file system do not fit in 16 bits.
    BytesPerSectorOutOfBounds,
    /// The file mode is of a type that operating system file entries do not support.
    UnsupportedFileMode,
    /// Determining whether a file entry exists failed for another reason than its absence.
    UnableToDetermineExistence,
    /// File systems of the type are not opened from a location.
    UnsupportedType(super::enums::VfsType),
}

} // verus!
