//! What a file entry is, decided from what its back-end reports: its file type and its data
//! forks.

use std::sync::Arc;

use vstd::prelude::*;

use keramics_datetime::DateTime;

use super::enums::{VfsFileType, VfsType};
use super::error::VfsError;
use super::fake::FakeFileEntry;
use super::image::{image_entry_name, image_entry_of, ImageEntryView, ImageTarget, VfsImageFileEntry};
use super::path::{copy_component, ComponentView, Path, PathComponent};

verus! {

/// Mask of the file type bits of a POSIX file mode, as ext and HFS store it.
pub const FILE_MODE_TYPE_MASK: u16 = 0xf000;

/// File type bits of a named pipe (FIFO).
pub const FILE_MODE_TYPE_FIFO: u16 = 0x1000;

/// File type bits of a character device.
pub const FILE_MODE_TYPE_CHARACTER_DEVICE: u16 = 0x2000;

/// File type bits of a directory.
pub const FILE_MODE_TYPE_DIRECTORY: u16 = 0x4000;

/// File type bits of a block device.
pub const FILE_MODE_TYPE_BLOCK_DEVICE: u16 = 0x6000;

/// File type bits of a regular file.
pub const FILE_MODE_TYPE_REGULAR_FILE: u16 = 0x8000;

/// File type bits of a symbolic link.
pub const FILE_MODE_TYPE_SYMBOLIC_LINK: u16 = 0xa000;

/// File type bits of a socket.
pub const FILE_MODE_TYPE_SOCKET: u16 = 0xc000;

/// File type bits of an HFS whiteout.
pub const FILE_MODE_TYPE_WHITEOUT: u16 = 0xe000;

/// File type of the file type bits of a file mode; whiteouts are known only where the
/// format has them.
pub open spec fn file_type_of_bits(file_type: u16, has_whiteout: bool) -> VfsFileType {
    if file_type == FILE_MODE_TYPE_FIFO {
        VfsFileType::NamedPipe
    } else if file_type == FILE_MODE_TYPE_CHARACTER_DEVICE {
        VfsFileType::CharacterDevice
    } else if file_type == FILE_MODE_TYPE_DIRECTORY {
        VfsFileType::Directory
    } else if file_type == FILE_MODE_TYPE_BLOCK_DEVICE {
        VfsFileType::BlockDevice
    } else if file_type == FILE_MODE_TYPE_REGULAR_FILE {
        VfsFileType::File
    } else if file_type == FILE_MODE_TYPE_SYMBOLIC_LINK {
        VfsFileType::SymbolicLink
    } else if file_type == FILE_MODE_TYPE_SOCKET {
        VfsFileType::Socket
    } else if has_whiteout && file_type == FILE_MODE_TYPE_WHITEOUT {
        VfsFileType::Whiteout
    } else {
        VfsFileType::Unknown(file_type)
    }
}

/// File type of the file type bits of a file mode.
fn file_type_from_bits(file_type: u16, has_whiteout: bool) -> (vfs_file_type: VfsFileType)
    ensures
        vfs_file_type == file_type_of_bits(file_type, has_whiteout),
{
    if file_type == FILE_MODE_TYPE_FIFO {
        VfsFileType::NamedPipe
    } else if file_type == FILE_MODE_TYPE_CHARACTER_DEVICE {
        VfsFileType::CharacterDevice
    } else if file_type == FILE_MODE_TYPE_DIRECTORY {
        VfsFileType::Directory
    } else if file_type == FILE_MODE_TYPE_BLOCK_DEVICE {
        VfsFileType::BlockDevice
    } else if file_type == FILE_MODE_TYPE_REGULAR_FILE {
        VfsFileType::File
    } else if file_type == FILE_MODE_TYPE_SYMBOLIC_LINK {
        VfsFileType::SymbolicLink
    } else if file_type == FILE_MODE_TYPE_SOCKET {
        VfsFileType::Socket
    } else if has_whiteout && file_type == FILE_MODE_TYPE_WHITEOUT {
        VfsFileType::Whiteout
    } else {
        VfsFileType::Unknown(file_type)
    }
}

/// Retrieves the file type of an ext file entry from its file mode.
pub fn file_type_from_ext_file_mode(file_mode: u16) -> (file_type: VfsFileType)
    ensures
        file_type == file_type_of_bits(file_mode & FILE_MODE_TYPE_MASK, false),
{
    file_type_from_bits(file_mode & FILE_MODE_TYPE_MASK, false)
}

/// Retrieves the file type of an HFS file entry from its file mode, where it has one.
pub fn file_type_from_hfs_file_mode(file_mode: Option<u16>) -> (file_type: VfsFileType)
    ensures
        file_type == (match file_mode {
            Some(mode) => file_type_of_bits(mode & FILE_MODE_TYPE_MASK, true),
            None => VfsFileType::Unknown(0),
        }),
{
    match file_mode {
        Some(mode) => file_type_from_bits(mode & FILE_MODE_TYPE_MASK, true),
        None => VfsFileType::Unknown(0),
    }
}

/// Retrieves the file type of a FAT file entry: a directory or a file.
pub fn file_type_from_fat_directory_flag(is_directory: bool) -> (file_type: VfsFileType)
    ensures
        file_type == (if is_directory {
            VfsFileType::Directory
        } else {
            VfsFileType::File
        }),
{
    if is_directory {
        VfsFileType::Directory
    } else {
        VfsFileType::File
    }
}

/// Retrieves the file type of an NTFS file entry: a symbolic link before a directory, and a
/// file otherwise.
pub fn file_type_from_ntfs_flags(is_symbolic_link: bool, is_directory: bool) -> (file_type:
    VfsFileType)
    ensures
        file_type == (if is_symbolic_link {
            VfsFileType::SymbolicLink
        } else if is_directory {
            VfsFileType::Directory
        } else {
            VfsFileType::File
        }),
{
    if is_symbolic_link {
        VfsFileType::SymbolicLink
    } else if is_directory {
        VfsFileType::Directory
    } else {
        VfsFileType::File
    }
}

/// Retrieves the number of data forks of an ext file entry: one for a regular file, none
/// otherwise.
pub fn number_of_data_forks_from_ext_file_mode(file_mode: u16) -> (count: usize)
    ensures
        count == (if file_mode & FILE_MODE_TYPE_MASK == FILE_MODE_TYPE_REGULAR_FILE {
            1usize
        } else {
            0usize
        }),
{
    if file_mode & FILE_MODE_TYPE_MASK != FILE_MODE_TYPE_REGULAR_FILE {
        0
    } else {
        1
    }
}

/// Retrieves the number of data forks of a FAT file entry: none for a directory, one for a
/// file.
pub fn number_of_data_forks_from_fat_directory_flag(is_directory: bool) -> (count: usize)
    ensures
        count == (if is_directory {
            0usize
        } else {
            1usize
        }),
{
    if is_directory {
        0
    } else {
        1
    }
}

/// Retrieves the number of data forks of a file entry that has one exactly when it is a
/// file, as fake and operating system file entries.
pub fn number_of_data_forks_of_file_type(file_type: VfsFileType) -> (count: usize)
    ensures
        count == (if file_type == VfsFileType::File {
            1usize
        } else {
            0usize
        }),
{
    match file_type {
        VfsFileType::File => 1,
        _ => 0,
    }
}

/// Number of forks of an HFS file entry with or without a data fork and a resource fork.
pub open spec fn hfs_fork_count(has_data_fork: bool, has_resource_fork: bool) -> nat {
    (if has_data_fork {
        1nat
    } else {
        0nat
    }) + (if has_resource_fork {
        1nat
    } else {
        0nat
    })
}

/// Retrieves the number of data forks of an HFS file entry: its data fork and its resource
/// fork, where it has them.
pub fn number_of_data_forks_from_hfs_forks(has_data_fork: bool, has_resource_fork: bool) -> (count:
    usize)
    ensures
        count == hfs_fork_count(has_data_fork, has_resource_fork),
{
    if has_data_fork && has_resource_fork {
        2
    } else if has_data_fork || has_resource_fork {
        1
    } else {
        0
    }
}

/// Fork of an HFS file entry.
#[derive(Clone, Copy, Debug, Eq, PartialEq, Structural)]
pub enum HfsFork {
    /// The data fork.
    Data,
    /// The resource fork.
    Resource,
}

/// Fork of an HFS file entry at a data fork index: the data fork first, where there is one,
/// then the resource fork.
pub open spec fn hfs_fork_at(has_data_fork: bool, has_resource_fork: bool, index: nat) -> Option<
    HfsFork,
> {
    if has_data_fork && index == 0 {
        Some(HfsFork::Data)
    } else if has_resource_fork && index == (if has_data_fork {
        1nat
    } else {
        0nat
    }) {
        Some(HfsFork::Resource)
    } else {
        None
    }
}

/// Retrieves which fork of an HFS file entry a data fork index selects; none for an invalid
/// index.
pub fn hfs_fork_by_index(has_data_fork: bool, has_resource_fork: bool, data_fork_index: usize) -> (fork:
    Option<HfsFork>)
    ensures
        fork == hfs_fork_at(has_data_fork, has_resource_fork, data_fork_index as nat),
{
    let resource_fork_index: usize = if has_data_fork {
        1
    } else {
        0
    };
    if has_data_fork && data_fork_index == 0 {
        Some(HfsFork::Data)
    } else if has_resource_fork && data_fork_index == resource_fork_index {
        Some(HfsFork::Resource)
    } else {
        None
    }
}

/// Determines if a data fork index is valid for a file entry with at most one data fork,
/// which only index zero selects.
pub fn is_single_data_fork_index(data_fork_index: usize) -> (valid: bool)
    ensures
        valid == (data_fork_index == 0),
{
    data_fork_index == 0
}

/// The data fork indices of an HFS file entry select exactly as many forks as it has, each
/// a different one.
pub proof fn law_hfs_forks_by_index(
    has_data_fork: bool,
    has_resource_fork: bool,
    index: nat,
    other_index: nat,
)
    ensures
        hfs_fork_at(has_data_fork, has_resource_fork, index) is Some <==> index < hfs_fork_count(
            has_data_fork,
            has_resource_fork,
        ),
        index != other_index && hfs_fork_at(has_data_fork, has_resource_fork, index) is Some
            ==> hfs_fork_at(has_data_fork, has_resource_fork, index) != hfs_fork_at(
            has_data_fork,
            has_resource_fork,
            other_index,
        ),
{
}

/// An ext file entry has a data fork exactly when it is a regular file.
pub proof fn law_ext_data_fork_iff_file(file_mode: u16)
    ensures
        (file_type_of_bits(file_mode & FILE_MODE_TYPE_MASK, false) == VfsFileType::File) <==> (
        file_mode & FILE_MODE_TYPE_MASK == FILE_MODE_TYPE_REGULAR_FILE),
{
}

} // verus!

verus! {

/// Virtual File System (VFS) file entry of a back-end that the library holds.
pub enum VfsFileEntry {
    /// File entry of a fake file system.
    Fake(Arc<FakeFileEntry>),
    /// File entry of a storage media image or volume system of a type, presented as a file
    /// system of layers or partitions.
    Image(VfsType, VfsImageFileEntry),
}

impl VfsFileEntry {
    /// Retrieves the file type.
    pub fn get_file_type(&self) -> (file_type: VfsFileType)
        ensures
            file_type == (match self {
                VfsFileEntry::Fake(file_entry) => (**file_entry)@.file_type,
                VfsFileEntry::Image(_, file_entry) => if file_entry@ is Layer {
                    VfsFileType::File
                } else {
                    VfsFileType::Directory
                },
            }),
    {
        match self {
            VfsFileEntry::Fake(file_entry) => file_entry.get_file_type(),
            VfsFileEntry::Image(_, file_entry) => file_entry.get_file_type(),
        }
    }

    /// Retrieves the name.
    pub fn get_name(&self) -> (name: Option<PathComponent>)
        requires
            self matches VfsFileEntry::Image(_, file_entry) ==> (file_entry@ matches ImageEntryView::Layer { index, .. } ==> index < usize::MAX),
        ensures
            name matches Some(component) && component@ == (match self {
                VfsFileEntry::Fake(file_entry) => (**file_entry)@.name,
                VfsFileEntry::Image(_, file_entry) => image_entry_name(file_entry@),
            }),
    {
        match self {
            VfsFileEntry::Fake(file_entry) => Some(copy_component(file_entry.get_name())),
            VfsFileEntry::Image(_, file_entry) => Some(file_entry.get_name()),
        }
    }

    /// Retrieves the size.
    pub fn get_size(&self) -> (size: u64)
        ensures
            size == (match self {
                VfsFileEntry::Fake(file_entry) => (**file_entry)@.size,
                VfsFileEntry::Image(_, file_entry) => match file_entry@ {
                    ImageEntryView::Layer { layer, .. } => layer.media_size,
                    ImageEntryView::Root { .. } => 0,
                },
            }),
    {
        match self {
            VfsFileEntry::Fake(file_entry) => file_entry.get_size(),
            VfsFileEntry::Image(_, file_entry) => file_entry.get_size(),
        }
    }

    /// Retrieves the number of data forks: one for a file of a fake file system and for a
    /// layer, none otherwise.
    pub fn get_number_of_data_forks(&self) -> (result: Result<usize, VfsError>)
        ensures
            result == Ok::<usize, VfsError>(data_fork_count(self) as usize),
    {
        match self {
            VfsFileEntry::Fake(file_entry) => Ok(
                number_of_data_forks_of_file_type(file_entry.get_file_type()),
            ),
            VfsFileEntry::Image(_, file_entry) => match file_entry {
                VfsImageFileEntry::Layer { .. } => Ok(1),
                VfsImageFileEntry::Root { .. } => Ok(0),
            },
        }
    }

    /// Retrieves the number of sub file entries of an image file entry, or of a fake file entry
    /// that is no directory, which has none; the fake file system does not count the sub file
    /// entries of its directories.
    pub fn get_number_of_sub_file_entries(&self) -> (result: Result<usize, VfsError>)
        requires
            self matches VfsFileEntry::Fake(file_entry) ==> (**file_entry)@.file_type
                != VfsFileType::Directory,
        ensures
            result == Ok::<usize, VfsError>(
                match self {
                    VfsFileEntry::Fake(_) => 0,
                    VfsFileEntry::Image(_, file_entry) => match file_entry@ {
                        ImageEntryView::Layer { .. } => 0,
                        ImageEntryView::Root { layers, .. } => layers.len() as usize,
                    },
                },
            ),
    {
        match self {
            VfsFileEntry::Image(_, file_entry) => Ok(file_entry.get_number_of_sub_file_entries()),
            VfsFileEntry::Fake(_) => Ok(0),
        }
    }

    /// Retrieves a sub file entry of an image file entry by its index; a fake file entry that is
    /// no directory has none, and the fake file system does not index those of its
    /// directories.
    pub fn get_sub_file_entry_by_index(&self, sub_file_entry_index: usize) -> (result: Result<
        VfsFileEntry,
        VfsError,
    >)
        requires
            self matches VfsFileEntry::Fake(file_entry) ==> (**file_entry)@.file_type
                != VfsFileType::Directory,
        ensures
            self is Fake ==> result == Err::<VfsFileEntry, VfsError>(VfsError::NoSubFileEntries),
            self matches VfsFileEntry::Image(vfs_type, file_entry) ==> match file_entry@ {
                ImageEntryView::Layer { .. } => result == Err::<VfsFileEntry, VfsError>(
                    VfsError::NoSubFileEntries,
                ),
                ImageEntryView::Root { prefix, layers } => if sub_file_entry_index < layers.len() {
                    result matches Ok(VfsFileEntry::Image(sub_type, sub_entry)) && sub_type
                        == vfs_type && sub_entry@ == image_entry_of(
                        ImageTarget::Layer(sub_file_entry_index as nat),
                        prefix,
                        layers,
                    )
                } else {
                    result == Err::<VfsFileEntry, VfsError>(
                        VfsError::MissingLayer(sub_file_entry_index),
                    )
                },
            },
    {
        match self {
            VfsFileEntry::Image(vfs_type, file_entry) => {
                match file_entry.get_sub_file_entry_by_index(sub_file_entry_index) {
                    Ok(sub_file_entry) => Ok(VfsFileEntry::Image(*vfs_type, sub_file_entry)),
                    Err(error) => Err(error),
                }
            },
            VfsFileEntry::Fake(_) => Err(VfsError::NoSubFileEntries),
        }
    }

    /// Retrieves the number of extended attributes: fake and image file entries have none.
    pub fn get_number_of_extended_attributes(&self) -> (result: Result<usize, VfsError>)
        ensures
            result == Ok::<usize, VfsError>(0),
    {
        Ok(0)
    }

    /// Determines if the file entry is the root directory.
    pub fn is_root_directory(&self) -> (root: bool)
        ensures
            root == (match self {
                VfsFileEntry::Fake(file_entry) => (**file_entry)@.name == ComponentView::Root,
                VfsFileEntry::Image(_, file_entry) => file_entry@ is Root,
            }),
    {
        match self {
            VfsFileEntry::Fake(file_entry) => file_entry.is_root_file_entry(),
            VfsFileEntry::Image(_, file_entry) => file_entry.is_root_file_entry(),
        }
    }

    /// Determines if a data fork index selects the data fork of the file entry: index zero,
    /// where the file entry has a data fork.
    pub fn has_data_fork_at(&self, data_fork_index: usize) -> (valid: bool)
        ensures
            valid == (data_fork_index < data_fork_count(self)),
    {
        let count: usize = match self.get_number_of_data_forks() {
            Ok(count) => count,
            Err(_) => 0,
        };
        is_single_data_fork_index(data_fork_index) && count == 1
    }

    /// Retrieves the access time: that of a fake file entry; images have none.
    pub fn get_access_time(&self) -> (time: Option<&DateTime>)
        ensures
            self matches VfsFileEntry::Fake(file_entry) ==> match time {
                Some(value) => (**file_entry).stored_access_time() == Some(*value),
                None => (**file_entry).stored_access_time() is None,
            },
            self is Image ==> time is None,
    {
        match self {
            VfsFileEntry::Fake(file_entry) => file_entry.get_access_time(),
            VfsFileEntry::Image(..) => None,
        }
    }

    /// Retrieves the change time: that of a fake file entry; images have none.
    pub fn get_change_time(&self) -> (time: Option<&DateTime>)
        ensures
            self matches VfsFileEntry::Fake(file_entry) ==> match time {
                Some(value) => (**file_entry).stored_change_time() == Some(*value),
                None => (**file_entry).stored_change_time() is None,
            },
            self is Image ==> time is None,
    {
        match self {
            VfsFileEntry::Fake(file_entry) => file_entry.get_change_time(),
            VfsFileEntry::Image(..) => None,
        }
    }

    /// Retrieves the creation time: that of a fake file entry; images have none.
    pub fn get_creation_time(&self) -> (time: Option<&DateTime>)
        ensures
            self matches VfsFileEntry::Fake(file_entry) ==> match time {
                Some(value) => (**file_entry).stored_creation_time() == Some(*value),
                None => (**file_entry).stored_creation_time() is None,
            },
            self is Image ==> time is None,
    {
        match self {
            VfsFileEntry::Fake(file_entry) => file_entry.get_creation_time(),
            VfsFileEntry::Image(..) => None,
        }
    }

    /// Retrieves the modification time: that of a fake file entry; images have none.
    pub fn get_modification_time(&self) -> (time: Option<&DateTime>)
        ensures
            self matches VfsFileEntry::Fake(file_entry) ==> match time {
                Some(value) => (**file_entry).stored_modification_time() == Some(*value),
                None => (**file_entry).stored_modification_time() is None,
            },
            self is Image ==> time is None,
    {
        match self {
            VfsFileEntry::Fake(file_entry) => file_entry.get_modification_time(),
            VfsFileEntry::Image(..) => None,
        }
    }

    /// Retrieves the device identifier; these file entries have none.
    pub fn get_device_identifier(&self) -> (result: Result<Option<u64>, VfsError>)
        ensures
            result == Ok::<Option<u64>, VfsError>(None),
    {
        Ok(None)
    }

    /// Retrieves the file mode; these file entries have none.
    pub fn get_file_mode(&self) -> (file_mode: Option<u32>)
        ensures
            file_mode is None,
    {
        None
    }

    /// Retrieves the group identifier; these file entries have none.
    pub fn get_group_identifier(&self) -> (identifier: Option<u32>)
        ensures
            identifier is None,
    {
        None
    }

    /// Retrieves the inode number; these file entries have none.
    pub fn get_inode_number(&self) -> (inode_number: Option<u64>)
        ensures
            inode_number is None,
    {
        None
    }

    /// Retrieves the number of links; these file entries have none.
    pub fn get_number_of_links(&self) -> (number_of_links: Option<u64>)
        ensures
            number_of_links is None,
    {
        None
    }

    /// Retrieves the owner identifier; these file entries have none.
    pub fn get_owner_identifier(&self) -> (identifier: Option<u32>)
        ensures
            identifier is None,
    {
        None
    }

    /// Retrieves the symbolic link target; these file entries are no symbolic links.
    pub fn get_symbolic_link_target(&self) -> (result: Result<Option<Path>, VfsError>)
        ensures
            result matches Ok(None),
    {
        Ok(None)
    }
}

/// Number of data forks of a file entry: one for a file of a fake file system and for a
/// layer, none otherwise.
pub open spec fn data_fork_count(file_entry: &VfsFileEntry) -> nat {
    match file_entry {
        VfsFileEntry::Fake(file_entry) => if (**file_entry)@.file_type == VfsFileType::File {
            1nat
        } else {
            0nat
        },
        VfsFileEntry::Image(_, file_entry) => if file_entry@ is Layer {
            1nat
        } else {
            0nat
        },
    }
}

} // verus!
