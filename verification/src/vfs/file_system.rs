//! Virtual File System (VFS) file system of a back-end that the library holds: the fake file
//! system, and storage media images and volume systems presented as a file system of layers
//! or partitions.

use std::sync::Arc;

use vstd::prelude::*;

use super::enums::{vfs_type_name, VfsFileType, VfsType};
use super::error::VfsError;
use super::fake::{entry_at, root_path, FakeEntryView, FakeFileEntry, FakeFileSystem};
use super::file_entry::VfsFileEntry;
use super::image::{
    image_entry_exists, image_entry_of, image_target, ImageTarget, VfsImageFileEntry,
    VfsImageFileSystem,
};
use super::path::{ComponentView, Path};

verus! {

/// Prefix of the names of the layer or partition file entries of a back-end type, for the
/// types that present a storage media image or volume system as a file system.
pub open spec fn layer_name_prefix(vfs_type: VfsType) -> Option<Seq<char>> {
    match vfs_type {
        VfsType::Apm => Some("apm"@),
        VfsType::Ewf => Some("ewf"@),
        VfsType::Gpt => Some("gpt"@),
        VfsType::Mbr => Some("mbr"@),
        VfsType::Qcow => Some("qcow"@),
        VfsType::SparseImage => Some("sparseimage"@),
        VfsType::SplitRaw => Some("raw"@),
        VfsType::Udif => Some("udif"@),
        VfsType::Vhd => Some("vhd"@),
        VfsType::Vhdx => Some("vhdx"@),
        _ => None,
    }
}

/// Retrieves the prefix of the names of the layer or partition file entries of a back-end
/// type, for the types that present a storage media image or volume system.
pub fn get_layer_name_prefix(vfs_type: &VfsType) -> (prefix: Option<&'static str>)
    ensures
        match layer_name_prefix(*vfs_type) {
            Some(expected) => prefix matches Some(text) && text@ == expected,
            None => prefix is None,
        },
{
    match vfs_type {
        VfsType::Apm => Some("apm"),
        VfsType::Ewf => Some("ewf"),
        VfsType::Gpt => Some("gpt"),
        VfsType::Mbr => Some("mbr"),
        VfsType::Qcow => Some("qcow"),
        VfsType::SparseImage => Some("sparseimage"),
        VfsType::SplitRaw => Some("raw"),
        VfsType::Udif => Some("udif"),
        VfsType::Vhd => Some("vhd"),
        VfsType::Vhdx => Some("vhdx"),
        _ => None,
    }
}

/// Virtual File System (VFS) file system of a back-end that the library holds.
pub enum VfsFileSystem {
    /// Fake file system.
    Fake(FakeFileSystem),
    /// Storage media image or volume system of a type, presented as a file system of layers
    /// or partitions.
    Image(VfsType, VfsImageFileSystem),
}

impl VfsFileSystem {
    /// Creates a new file system of a back-end type: a fake file system that holds the root,
    /// or an image file system without layers whose names start with the prefix of the type.
    /// Nothing for the types whose file systems are read from their formats outside the
    /// library.
    pub fn new(location_type: &VfsType) -> (file_system: Option<Self>)
        ensures
            *location_type == VfsType::Fake ==> (file_system matches Some(
                VfsFileSystem::Fake(fake),
            ) && fake.wf() && fake.entries().len() == 1 && fake.entries()[0].0 == root_path()
                && fake.entries()[0].1@ == (FakeEntryView {
                name: ComponentView::Root,
                file_type: VfsFileType::Directory,
                data: None,
                size: 0,
            }) && fake.entries()[0].1.has_times()),
            *location_type != VfsType::Fake ==> match layer_name_prefix(*location_type) {
                Some(prefix) => file_system matches Some(VfsFileSystem::Image(vfs_type, image))
                    && vfs_type == *location_type && image.name_prefix() == prefix
                    && image.layers().len() == 0,
                None => file_system is None,
            },
    {
        if *location_type == VfsType::Fake {
            return Some(VfsFileSystem::Fake(FakeFileSystem::new()));
        }
        match get_layer_name_prefix(location_type) {
            Some(prefix) => Some(VfsFileSystem::Image(*location_type, VfsImageFileSystem::new(prefix))),
            None => None,
        }
    }

    /// Determines if the file entry with the specified path exists.
    pub fn file_entry_exists(&self, path: &Path) -> (result: Result<bool, VfsError>)
        ensures
            result == Ok::<bool, VfsError>(match self {
                VfsFileSystem::Fake(fake) => entry_at(fake.entries(), path@) is Some,
                VfsFileSystem::Image(_, image) => image_entry_exists(
                    path@,
                    image.name_prefix(),
                    image.layers().len(),
                ),
            }),
    {
        match self {
            VfsFileSystem::Fake(fake) => fake.file_entry_exists(path),
            VfsFileSystem::Image(_, image) => Ok(image.file_entry_exists(path)),
        }
    }

    /// Retrieves the file entry with the specified path.
    pub fn get_file_entry_by_path(&self, path: &Path) -> (result: Result<
        Option<VfsFileEntry>,
        VfsError,
    >)
        ensures
            result matches Ok(found) && match self {
                VfsFileSystem::Fake(fake) => match entry_at(fake.entries(), path@) {
                    Some(file_entry) => found matches Some(VfsFileEntry::Fake(entry)) && *entry
                        == file_entry,
                    None => found is None,
                },
                VfsFileSystem::Image(vfs_type, image) => match image_target(
                    path@,
                    image.name_prefix(),
                    image.layers().len(),
                ) {
                    Some(target) => found matches Some(VfsFileEntry::Image(entry_type, entry))
                        && entry_type == vfs_type && entry@ == image_entry_of(
                        target,
                        image.name_prefix(),
                        image.layers(),
                    ),
                    None => found is None,
                },
            },
    {
        match self {
            VfsFileSystem::Fake(fake) => {
                let found: Option<Arc<FakeFileEntry>> = match fake.get_file_entry_by_path(path) {
                    Ok(found) => found,
                    Err(error) => return Err(error),
                };
                match found {
                    Some(file_entry) => Ok(Some(VfsFileEntry::Fake(file_entry))),
                    None => Ok(None),
                }
            },
            VfsFileSystem::Image(vfs_type, image) => {
                let found: Option<VfsImageFileEntry> = match image.get_file_entry_by_path(path) {
                    Ok(found) => found,
                    Err(error) => return Err(error),
                };
                match found {
                    Some(file_entry) => Ok(Some(VfsFileEntry::Image(*vfs_type, file_entry))),
                    None => Ok(None),
                }
            },
        }
    }

    /// Retrieves the root file entry.
    pub fn get_root_file_entry(&self) -> (result: Result<Option<VfsFileEntry>, VfsError>)
        ensures
            match self {
                VfsFileSystem::Fake(fake) => match entry_at(fake.entries(), root_path()) {
                    Some(file_entry) => result matches Ok(Some(VfsFileEntry::Fake(entry)))
                        && *entry == file_entry,
                    None => result == Err::<Option<VfsFileEntry>, VfsError>(
                        VfsError::MissingRootFileEntry,
                    ),
                },
                VfsFileSystem::Image(vfs_type, image) => result matches Ok(
                    Some(VfsFileEntry::Image(entry_type, entry)),
                ) && entry_type == vfs_type && entry@ == image_entry_of(
                    ImageTarget::Root,
                    image.name_prefix(),
                    image.layers(),
                ),
            },
    {
        match self {
            VfsFileSystem::Fake(fake) => match fake.get_root_file_entry() {
                Ok(file_entry) => Ok(Some(VfsFileEntry::Fake(file_entry))),
                Err(error) => Err(error),
            },
            VfsFileSystem::Image(vfs_type, image) => Ok(
                Some(VfsFileEntry::Image(*vfs_type, image.get_root_file_entry())),
            ),
        }
    }
}

/// Text with its ASCII upper case letters in lower case.
pub open spec fn ascii_lowercase(text: Seq<char>) -> Seq<char> {
    text.map_values(
        |character: char|
            if 'A' <= character <= 'Z' {
                ((character as u32) + 0x20) as char
            } else {
                character
            },
    )
}

/// The names of the layer or partition file entries of a back-end type start with the name
/// of the type in lower case, "raw" for split raw images; no two types share a prefix.
pub proof fn law_layer_name_prefixes(vfs_type: VfsType, other: VfsType)
    ensures
        layer_name_prefix(vfs_type) matches Some(prefix) ==> prefix == (if vfs_type
            == VfsType::SplitRaw {
            "raw"@
        } else {
            ascii_lowercase(vfs_type_name(vfs_type))
        }),
        vfs_type != other && layer_name_prefix(vfs_type) is Some && layer_name_prefix(other) is Some
            ==> layer_name_prefix(vfs_type) != layer_name_prefix(other),
{
        reveal_strlit("apm");
        reveal_strlit("APM");
        reveal_strlit("ewf");
        reveal_strlit("EWF");
        reveal_strlit("gpt");
        reveal_strlit("GPT");
        reveal_strlit("mbr");
        reveal_strlit("MBR");
        reveal_strlit("qcow");
        reveal_strlit("QCOW");
        reveal_strlit("sparseimage");
        reveal_strlit("SPARSEIMAGE");
        reveal_strlit("udif");
        reveal_strlit("UDIF");
        reveal_strlit("vhd");
        reveal_strlit("VHD");
        reveal_strlit("vhdx");
        reveal_strlit("VHDX");
        reveal_strlit("raw");
    assert(ascii_lowercase("APM"@) =~= "apm"@);
    assert(ascii_lowercase("EWF"@) =~= "ewf"@);
    assert(ascii_lowercase("GPT"@) =~= "gpt"@);
    assert(ascii_lowercase("MBR"@) =~= "mbr"@);
    assert(ascii_lowercase("QCOW"@) =~= "qcow"@);
    assert(ascii_lowercase("SPARSEIMAGE"@) =~= "sparseimage"@);
    assert(ascii_lowercase("UDIF"@) =~= "udif"@);
    assert(ascii_lowercase("VHD"@) =~= "vhd"@);
    assert(ascii_lowercase("VHDX"@) =~= "vhdx"@);
    let first: Option<Seq<char>> = layer_name_prefix(vfs_type);
    let second: Option<Seq<char>> = layer_name_prefix(other);
    if vfs_type != other && first is Some && second is Some && first == second {
        let prefix: Seq<char> = first->Some_0;
        assert(prefix.len() == second->Some_0.len());
        assert(prefix[0] == second->Some_0[0]);
        assert(prefix[prefix.len() - 1] == second->Some_0[prefix.len() - 1]);
    }
}

} // verus!
