//! Operating system file system.

use vstd::prelude::*;

use super::enums::VfsFileType;
use super::error::VfsError;
use super::file_entry::{
    file_type_of_bits, FILE_MODE_TYPE_DIRECTORY, FILE_MODE_TYPE_REGULAR_FILE,
};

verus! {

/// Outcome of looking up the metadata of a path in the operating system, without following a
/// final symbolic link.
#[derive(Clone, Copy, Debug, Eq, PartialEq, Structural)]
pub enum MetadataOutcome {
    /// The metadata was found.
    Found,
    /// Nothing is at the path.
    NotFound,
    /// The lookup failed for another reason.
    Failed,
}

/// Operating system file system.
pub struct OsFileSystem {}

impl OsFileSystem {
    /// Decides whether a file entry exists from the outcome of looking up its metadata: it
    /// exists where metadata was found, does not where nothing is at the path, and the
    /// question fails otherwise.
    pub fn file_entry_exists_from(outcome: MetadataOutcome) -> (result: Result<bool, VfsError>)
        ensures
            result == (match outcome {
                MetadataOutcome::Found => Ok::<bool, VfsError>(true),
                MetadataOutcome::NotFound => Ok::<bool, VfsError>(false),
                MetadataOutcome::Failed => Err::<bool, VfsError>(
                    VfsError::UnableToDetermineExistence,
                ),
            }),
    {
        match outcome {
            MetadataOutcome::Found => Ok(true),
            MetadataOutcome::NotFound => Ok(false),
            MetadataOutcome::Failed => Err(VfsError::UnableToDetermineExistence),
        }
    }
}

} // verus!

verus! {

/// Date and time of a POSIX timestamp, as the operating system file system reports it.
#[derive(Clone, Copy, Debug, Eq, PartialEq, Structural)]
pub enum PosixDateTime {
    /// Seconds and nanoseconds since the epoch.
    PosixTime64Ns { seconds: i64, nanoseconds: u32 },
    /// Seconds since the epoch, in 32 bits.
    PosixTime32(i32),
    /// Not set.
    NotSet,
}

/// Retrieves the date and time of a timestamp and its fraction: with nanoseconds where the
/// fraction is not zero, in 32-bit seconds where the timestamp is not zero, not set
/// otherwise. Values that do not fit are truncated.
pub fn get_posix_datetime_value(timestamp: i64, fraction: i64) -> (value: PosixDateTime)
    ensures
        value == get_posix_datetime_value_spec(timestamp, fraction),
{
    if fraction != 0 {
        PosixDateTime::PosixTime64Ns { seconds: timestamp, nanoseconds: fraction as u32 }
    } else if timestamp != 0 {
        PosixDateTime::PosixTime32(timestamp as i32)
    } else {
        PosixDateTime::NotSet
    }
}

/// Metadata of a path in a POSIX operating system.
#[derive(Clone, Copy, Debug)]
pub struct OsFileMetadata {
    pub mode: u32,
    pub device: u64,
    pub access_time: i64,
    pub access_time_nanoseconds: i64,
    pub change_time: i64,
    pub change_time_nanoseconds: i64,
    pub modification_time: i64,
    pub modification_time_nanoseconds: i64,
    pub group_identifier: u32,
    pub inode_number: u64,
    pub number_of_links: u64,
    pub owner_identifier: u32,
    pub size: u64,
}

/// What an operating system file entry holds of the metadata of its path.
#[derive(Clone, Copy, Debug)]
pub struct OsFileEntryInfo {
    pub file_type: VfsFileType,
    pub access_time: PosixDateTime,
    pub change_time: PosixDateTime,
    pub modification_time: PosixDateTime,
    pub device_identifier: Option<u64>,
    pub file_mode: Option<u32>,
    pub group_identifier: Option<u32>,
    pub inode_number: Option<u64>,
    pub number_of_links: Option<u64>,
    pub owner_identifier: Option<u32>,
    pub size: u64,
}

/// File type of the file type bits of a POSIX file mode, for the types an operating system
/// file entry supports; sockets and other types are not.
pub open spec fn os_file_type_of_mode(mode: u32) -> Option<VfsFileType> {
    let file_type: u32 = mode & 0xf000;
    if file_type == 0x1000 {
        Some(VfsFileType::NamedPipe)
    } else if file_type == 0x2000 {
        Some(VfsFileType::CharacterDevice)
    } else if file_type == 0x4000 {
        Some(VfsFileType::Directory)
    } else if file_type == 0x6000 {
        Some(VfsFileType::BlockDevice)
    } else if file_type == 0x8000 {
        Some(VfsFileType::File)
    } else if file_type == 0xa000 {
        Some(VfsFileType::SymbolicLink)
    } else {
        None
    }
}

impl OsFileSystem {
    /// Decides what a file entry holds of the metadata of its path: its file type from the
    /// file mode, where the mode is of a supported type; its device identifier for character
    /// and block devices only; its times; and its other values.
    pub fn file_entry_info_from(metadata: &OsFileMetadata) -> (result: Result<
        OsFileEntryInfo,
        VfsError,
    >)
        ensures
            match os_file_type_of_mode(metadata.mode) {
                None => result == Err::<OsFileEntryInfo, VfsError>(VfsError::UnsupportedFileMode),
                Some(file_type) => result matches Ok(info) && {
                    &&& info.file_type == file_type
                    &&& info.device_identifier == (if file_type == VfsFileType::CharacterDevice
                        || file_type == VfsFileType::BlockDevice {
                        Some(metadata.device)
                    } else {
                        None::<u64>
                    })
                    &&& info.access_time == get_posix_datetime_value_spec(
                        metadata.access_time,
                        metadata.access_time_nanoseconds,
                    )
                    &&& info.change_time == get_posix_datetime_value_spec(
                        metadata.change_time,
                        metadata.change_time_nanoseconds,
                    )
                    &&& info.modification_time == get_posix_datetime_value_spec(
                        metadata.modification_time,
                        metadata.modification_time_nanoseconds,
                    )
                    &&& info.file_mode == Some(metadata.mode)
                    &&& info.group_identifier == Some(metadata.group_identifier)
                    &&& info.inode_number == Some(metadata.inode_number)
                    &&& info.number_of_links == Some(metadata.number_of_links)
                    &&& info.owner_identifier == Some(metadata.owner_identifier)
                    &&& info.size == metadata.size
                },
            },
    {
        let file_type_bits: u32 = metadata.mode & 0xf000;
        let file_type: VfsFileType = if file_type_bits == 0x1000 {
            VfsFileType::NamedPipe
        } else if file_type_bits == 0x2000 {
            VfsFileType::CharacterDevice
        } else if file_type_bits == 0x4000 {
            VfsFileType::Directory
        } else if file_type_bits == 0x6000 {
            VfsFileType::BlockDevice
        } else if file_type_bits == 0x8000 {
            VfsFileType::File
        } else if file_type_bits == 0xa000 {
            VfsFileType::SymbolicLink
        } else {
            return Err(VfsError::UnsupportedFileMode);
        };
        let device_identifier: Option<u64> = if file_type_bits == 0x2000 || file_type_bits
            == 0x6000 {
            Some(metadata.device)
        } else {
            None
        };
        Ok(
            OsFileEntryInfo {
                file_type,
                access_time: get_posix_datetime_value(
                    metadata.access_time,
                    metadata.access_time_nanoseconds,
                ),
                change_time: get_posix_datetime_value(
                    metadata.change_time,
                    metadata.change_time_nanoseconds,
                ),
                modification_time: get_posix_datetime_value(
                    metadata.modification_time,
                    metadata.modification_time_nanoseconds,
                ),
                device_identifier,
                file_mode: Some(metadata.mode),
                group_identifier: Some(metadata.group_identifier),
                inode_number: Some(metadata.inode_number),
                number_of_links: Some(metadata.number_of_links),
                owner_identifier: Some(metadata.owner_identifier),
                size: metadata.size,
            },
        )
    }

    /// File type of an operating system file entry from Windows file attributes: a
    /// directory, a device, or a file otherwise.
    pub fn file_type_from_attributes(file_attributes: u32) -> (file_type: VfsFileType)
        ensures
            file_type == (if file_attributes & 0xf0 == 0x10 {
                VfsFileType::Directory
            } else if file_attributes & 0xf0 == 0x40 {
                VfsFileType::Device
            } else {
                VfsFileType::File
            }),
    {
        let bits: u32 = file_attributes & 0xf0;
        if bits == 0x10 {
            VfsFileType::Directory
        } else if bits == 0x40 {
            VfsFileType::Device
        } else {
            VfsFileType::File
        }
    }
}

/// Date and time of a timestamp and its fraction, as `get_posix_datetime_value` gives it.
pub open spec fn get_posix_datetime_value_spec(timestamp: i64, fraction: i64) -> PosixDateTime {
    if fraction != 0 {
        PosixDateTime::PosixTime64Ns { seconds: timestamp, nanoseconds: fraction as u32 }
    } else if timestamp != 0 {
        PosixDateTime::PosixTime32(timestamp as i32)
    } else {
        PosixDateTime::NotSet
    }
}

/// An operating system file entry takes its file type from the file type bits of the POSIX
/// file mode as ext file entries do, where it supports the type: a mode whose bits are those
/// of a directory is a directory, one whose bits are those of a regular file is a file, and
/// no other mode is either; sockets are not supported.
pub proof fn law_os_file_type_of_mode(mode: u32)
    ensures
        os_file_type_of_mode(mode) matches Some(file_type) ==> file_type == file_type_of_bits(
            (mode & 0xf000) as u16,
            false,
        ),
        (os_file_type_of_mode(mode) == Some(VfsFileType::Directory)) == ((mode & 0xf000)
            == FILE_MODE_TYPE_DIRECTORY as u32),
        (os_file_type_of_mode(mode) == Some(VfsFileType::File)) == ((mode & 0xf000)
            == FILE_MODE_TYPE_REGULAR_FILE as u32),
        os_file_type_of_mode(mode) != Some(VfsFileType::Socket),
{
    let bits: u32 = mode & 0xf000;
    assert(bits <= 0xf000) by (bit_vector)
        requires
            bits == mode & 0xf000,
    ;
    assert(bits as u16 as u32 == bits);
}

} // verus!
