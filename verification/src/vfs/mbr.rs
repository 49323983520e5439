//! Master Boot Record (MBR) volume system opened in the virtual file system.

use vstd::prelude::*;

use super::enums::VfsType;
use super::error::VfsError;

verus! {

/// Whether a parent file system of a type is a storage media image, which knows the bytes
/// per sector of its media.
pub open spec fn has_bytes_per_sector(vfs_type: VfsType) -> bool {
    match vfs_type {
        VfsType::Ewf | VfsType::Qcow | VfsType::SparseImage | VfsType::Udif | VfsType::Vhd
        | VfsType::Vhdx => true,
        _ => false,
    }
}

/// Determines if a parent file system of a type knows the bytes per sector of its media.
pub fn parent_has_bytes_per_sector(vfs_type: VfsType) -> (known: bool)
    ensures
        known == has_bytes_per_sector(vfs_type),
{
    match vfs_type {
        VfsType::Ewf | VfsType::Qcow | VfsType::SparseImage | VfsType::Udif | VfsType::Vhd
        | VfsType::Vhdx => true,
        _ => false,
    }
}

/// Bytes per sector that an MBR volume system takes over from its parent file system: none
/// where the parent does not know them, an error where they do not fit in 16 bits.
pub fn bytes_per_sector_from_parent(parent_bytes_per_sector: Option<u32>) -> (result: Result<
    Option<u16>,
    VfsError,
>)
    ensures
        result == (match parent_bytes_per_sector {
            None => Ok::<Option<u16>, VfsError>(None),
            Some(bytes_per_sector) => if bytes_per_sector > u16::MAX {
                Err::<Option<u16>, VfsError>(VfsError::BytesPerSectorOutOfBounds)
            } else {
                Ok::<Option<u16>, VfsError>(Some(bytes_per_sector as u16))
            },
        }),
{
    match parent_bytes_per_sector {
        None => Ok(None),
        Some(bytes_per_sector) => {
            if bytes_per_sector > 0xffff {
                Err(VfsError::BytesPerSectorOutOfBounds)
            } else {
                Ok(Some(bytes_per_sector as u16))
            }
        },
    }
}

} // verus!
