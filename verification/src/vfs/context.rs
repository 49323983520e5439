//! Decisions of the context that opens file systems at locations and keeps them by the
//! location of the data they were opened from.

use vstd::prelude::*;

use super::enums::VfsType;
use super::error::VfsError;
use super::location::{new_os_vfs_location, parsed_path, LocationStep, VfsLocation};

verus! {

/// Determines the location under which the file system at a location is kept: the location
/// of its parent, or the operating system root for a base location. A fake file system is
/// not opened from a location.
pub fn file_system_lookup_key(location: &VfsLocation) -> (key: Result<VfsLocation, VfsError>)
    ensures
        location.steps().last().vfs_type == VfsType::Fake ==> key == Err::<VfsLocation, VfsError>(
            VfsError::UnsupportedType(VfsType::Fake),
        ),
        location.steps().last().vfs_type != VfsType::Fake ==> (key matches Ok(key_location)
            && key_location.steps() == if location is Layer {
            location.steps().drop_last()
        } else {
            seq![LocationStep { vfs_type: VfsType::Os, path: parsed_path("/"@) }]
        }),
{
    if *location.get_type() == VfsType::Fake {
        return Err(VfsError::UnsupportedType(VfsType::Fake));
    }
    match location.get_parent() {
        Some(parent) => Ok(parent.copy()),
        None => Ok(new_os_vfs_location("/")),
    }
}

} // verus!
