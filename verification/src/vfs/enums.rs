//! Virtual File System (VFS) file and back-end types.

use vstd::prelude::*;

verus! {

/// File type of a file entry.
#[derive(Clone, Copy, Debug, Eq, PartialEq, Structural)]
pub enum VfsFileType {
    BlockDevice,
    CharacterDevice,
    Device,
    Directory,
    File,
    NamedPipe,
    Socket,
    SymbolicLink,
    Unknown(u16),
    Whiteout,
}

/// Type of a VFS back-end.
#[derive(Clone, Copy, Debug, Eq, Hash, PartialEq, Structural)]
pub enum VfsType {
    Apm,
    Ext,
    Ewf,
    Fake,
    Fat,
    Gpt,
    Mbr,
    Ntfs,
    Os,
    Qcow,
    SparseImage,
    SplitRaw,
    Udif,
    Vhd,
    Vhdx,
}

/// Display name of a VFS type.
pub open spec fn vfs_type_name(vfs_type: VfsType) -> Seq<char> {
    match vfs_type {
        VfsType::Apm => "APM"@,
        VfsType::Ext => "EXT"@,
        VfsType::Ewf => "EWF"@,
        VfsType::Fake => "FAKE"@,
        VfsType::Fat => "FAT"@,
        VfsType::Gpt => "GPT"@,
        VfsType::Mbr => "MBR"@,
        VfsType::Ntfs => "NTFS"@,
        VfsType::Os => "OS"@,
        VfsType::Qcow => "QCOW"@,
        VfsType::SparseImage => "SPARSEIMAGE"@,
        VfsType::SplitRaw => "SPLITRAW"@,
        VfsType::Udif => "UDIF"@,
        VfsType::Vhd => "VHD"@,
        VfsType::Vhdx => "VHDX"@,
    }
}

impl VfsType {
    /// Retrieves the display name of the VFS type.
    pub fn as_str(&self) -> (name: &'static str)
        ensures
            name@ == vfs_type_name(*self),
    {
        match self {
            VfsType::Apm => "APM",
            VfsType::Ext => "EXT",
            VfsType::Ewf => "EWF",
            VfsType::Fake => "FAKE",
            VfsType::Fat => "FAT",
            VfsType::Gpt => "GPT",
            VfsType::Mbr => "MBR",
            VfsType::Ntfs => "NTFS",
            VfsType::Os => "OS",
            VfsType::Qcow => "QCOW",
            VfsType::SparseImage => "SPARSEIMAGE",
            VfsType::SplitRaw => "SPLITRAW",
            VfsType::Udif => "UDIF",
            VfsType::Vhd => "VHD",
            VfsType::Vhdx => "VHDX",
        }
    }

    /// Formats the VFS type for display.
    pub fn to_string(&self) -> (name: String)
        ensures
            name@ == vfs_type_name(*self),
    {
        String::from_str(self.as_str())
    }
}

} // verus!
