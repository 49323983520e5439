use std::sync::Arc;

use keramics::vfs::enums::{VfsFileType, VfsType};
use keramics::vfs::error::VfsError;
use keramics::vfs::fake::FakeFileEntry;
use keramics::vfs::file_entry::VfsFileEntry;
use keramics::vfs::file_system::{get_layer_name_prefix, VfsFileSystem};
use keramics::vfs::image::VfsImageLayer;
use keramics::vfs::path::{Path, PathComponent};

fn path_of(names: &[&str]) -> Path {
    let mut components: Vec<PathComponent> = vec![PathComponent::Root];
    for name in names {
        components.push(PathComponent::String(name.to_string()));
    }
    Path::from_components(components)
}

fn get_fake_file_system() -> VfsFileSystem {
    let mut vfs_file_system: VfsFileSystem = VfsFileSystem::new(&VfsType::Fake).unwrap();

    if let VfsFileSystem::Fake(fake_file_system) = &mut vfs_file_system {
        let path: Path = path_of(&[]);
        let fake_file_entry: FakeFileEntry = FakeFileEntry::new_directory("fake");
        fake_file_system.add_file_entry(path, fake_file_entry).unwrap();

        let path: Path = path_of(&["fake"]);
        let test_data: [u8; 4] = [0x74, 0x65, 0x73, 0x74];
        let fake_file_entry: FakeFileEntry = FakeFileEntry::new_file("file.txt", &test_data);
        fake_file_system.add_file_entry(path, fake_file_entry).unwrap();
    }
    vfs_file_system
}

#[test]
fn test_file_entry_exists_with_fake() {
    let vfs_file_system: VfsFileSystem = get_fake_file_system();

    let path: Path = path_of(&["fake", "file.txt"]);
    assert_eq!(vfs_file_system.file_entry_exists(&path), Ok(true));

    let path: Path = path_of(&["fake", "bogus.txt"]);
    assert_eq!(vfs_file_system.file_entry_exists(&path), Ok(false));
}

#[test]
fn test_get_file_entry_by_path_with_fake_file() {
    let vfs_file_system: VfsFileSystem = get_fake_file_system();

    let path: Path = path_of(&["fake", "file.txt"]);
    let vfs_file_entry: VfsFileEntry = vfs_file_system.get_file_entry_by_path(&path).unwrap().unwrap();

    assert_eq!(vfs_file_entry.get_file_type(), VfsFileType::File);
}

#[test]
fn test_get_file_entry_by_path_with_fake_non_existing() {
    let vfs_file_system: VfsFileSystem = get_fake_file_system();

    let path: Path = path_of(&["fake", "bogus.txt"]);
    let result: Option<VfsFileEntry> = vfs_file_system.get_file_entry_by_path(&path).unwrap();

    assert!(result.is_none());
}

#[test]
fn test_get_file_entry_by_path_with_fake_root() {
    let vfs_file_system: VfsFileSystem = get_fake_file_system();

    let path: Path = path_of(&[]);
    let vfs_file_entry: VfsFileEntry = vfs_file_system.get_file_entry_by_path(&path).unwrap().unwrap();

    assert_eq!(vfs_file_entry.get_file_type(), VfsFileType::Directory);
    assert!(vfs_file_entry.is_root_directory());
}

fn get_fake_file_entry() -> VfsFileEntry {
    let test_data: [u8; 4] = [0x74, 0x65, 0x73, 0x74];

    VfsFileEntry::Fake(Arc::new(FakeFileEntry::new_file("file.txt", &test_data)))
}

#[test]
fn test_get_access_time_with_fake() {
    let vfs_file_entry: VfsFileEntry = get_fake_file_entry();
    assert!(vfs_file_entry.get_access_time().is_some());
}

#[test]
fn test_get_change_time_with_fake() {
    let vfs_file_entry: VfsFileEntry = get_fake_file_entry();
    assert!(vfs_file_entry.get_change_time().is_some());
}

#[test]
fn test_get_creation_time_with_fake() {
    let vfs_file_entry: VfsFileEntry = get_fake_file_entry();
    assert!(vfs_file_entry.get_creation_time().is_some());
}

#[test]
fn test_get_device_identifier_with_fake() {
    let vfs_file_entry: VfsFileEntry = get_fake_file_entry();
    assert_eq!(vfs_file_entry.get_device_identifier(), Ok(None));
}

#[test]
fn test_get_file_mode_with_fake() {
    let vfs_file_entry: VfsFileEntry = get_fake_file_entry();
    assert_eq!(vfs_file_entry.get_file_mode(), None);
}

#[test]
fn test_get_file_type_with_fake() {
    let vfs_file_entry: VfsFileEntry = get_fake_file_entry();
    assert_eq!(vfs_file_entry.get_file_type(), VfsFileType::File);
}

#[test]
fn test_get_group_identifier_with_fake() {
    let vfs_file_entry: VfsFileEntry = get_fake_file_entry();
    assert_eq!(vfs_file_entry.get_group_identifier(), None);
}

#[test]
fn test_get_inode_number_with_fake() {
    let vfs_file_entry: VfsFileEntry = get_fake_file_entry();
    assert_eq!(vfs_file_entry.get_inode_number(), None);
}

#[test]
fn test_get_modification_time_with_fake() {
    let vfs_file_entry: VfsFileEntry = get_fake_file_entry();
    assert!(vfs_file_entry.get_modification_time().is_some());
}

#[test]
fn test_get_name_with_fake() {
    let vfs_file_entry: VfsFileEntry = get_fake_file_entry();
    assert_eq!(vfs_file_entry.get_name(), Some(PathComponent::from_name("file.txt")));
}

#[test]
fn test_get_number_of_links_with_fake() {
    let vfs_file_entry: VfsFileEntry = get_fake_file_entry();
    assert_eq!(vfs_file_entry.get_number_of_links(), None);
}

#[test]
fn test_get_owner_identifier_with_fake() {
    let vfs_file_entry: VfsFileEntry = get_fake_file_entry();
    assert_eq!(vfs_file_entry.get_owner_identifier(), None);
}

#[test]
fn test_get_size_with_fake() {
    let vfs_file_entry: VfsFileEntry = get_fake_file_entry();
    assert_eq!(vfs_file_entry.get_size(), 4);
}

#[test]
fn test_get_symbolic_link_target_with_fake() {
    let vfs_file_entry: VfsFileEntry = get_fake_file_entry();
    assert!(vfs_file_entry.get_symbolic_link_target().unwrap().is_none());
}

#[test]
fn test_vfs_file_system_new() {
    assert!(VfsFileSystem::new(&VfsType::Os).is_none());
    assert!(VfsFileSystem::new(&VfsType::Ntfs).is_none());
    assert_eq!(get_layer_name_prefix(&VfsType::SplitRaw), Some("raw"));
    assert_eq!(get_layer_name_prefix(&VfsType::Ext), None);

    let mut vfs_file_system: VfsFileSystem = VfsFileSystem::new(&VfsType::Vhdx).unwrap();
    if let VfsFileSystem::Image(vfs_type, image_file_system) = &mut vfs_file_system {
        assert!(*vfs_type == VfsType::Vhdx);
        image_file_system.open(
            512,
            vec![
                VfsImageLayer { media_size: 1024, identifier: None },
                VfsImageLayer { media_size: 2048, identifier: None },
            ],
        );
    }
    assert_eq!(vfs_file_system.file_entry_exists(&path_of(&["vhdx2"])), Ok(true));
    assert_eq!(vfs_file_system.file_entry_exists(&path_of(&["vhdx3"])), Ok(false));
    assert_eq!(vfs_file_system.file_entry_exists(&path_of(&["bogus2"])), Ok(false));

    let root: VfsFileEntry = vfs_file_system.get_root_file_entry().unwrap().unwrap();
    assert!(root.is_root_directory());
    assert_eq!(root.get_number_of_sub_file_entries(), Ok(2));
    assert_eq!(root.get_number_of_data_forks(), Ok(0));
    assert!(!root.has_data_fork_at(0));

    let layer: VfsFileEntry = root.get_sub_file_entry_by_index(1).unwrap();
    assert_eq!(layer.get_name(), Some(PathComponent::String("vhdx2".to_string())));
    assert_eq!(layer.get_size(), 2048);
    assert_eq!(layer.get_number_of_data_forks(), Ok(1));
    assert!(layer.has_data_fork_at(0));
    assert!(!layer.has_data_fork_at(1));
    assert!(layer.get_access_time().is_none());
    assert_eq!(
        layer.get_sub_file_entry_by_index(0).err(),
        Some(VfsError::NoSubFileEntries)
    );
    assert!(root.get_sub_file_entry_by_index(2).is_err());

    let found: VfsFileEntry = vfs_file_system
        .get_file_entry_by_path(&path_of(&["vhdx1"]))
        .unwrap()
        .unwrap();
    assert_eq!(found.get_size(), 1024);
}

#[test]
fn test_fake_file_has_no_sub_file_entries() {
    let file_entry: VfsFileEntry = VfsFileEntry::Fake(Arc::new(FakeFileEntry::new_file(
        "file.txt",
        &[0x74, 0x65, 0x73, 0x74],
    )));
    assert_eq!(file_entry.get_number_of_sub_file_entries(), Ok(0));
    assert!(matches!(
        file_entry.get_sub_file_entry_by_index(0),
        Err(VfsError::NoSubFileEntries)
    ));
}

#[test]
fn test_new_fake_file_system_root() {
    let file_system: VfsFileSystem = VfsFileSystem::new(&VfsType::Fake).unwrap();
    let root: VfsFileEntry = file_system.get_root_file_entry().unwrap().unwrap();
    assert_eq!(root.get_file_type(), VfsFileType::Directory);
    assert!(root.is_root_directory());
    assert_eq!(root.get_name(), Some(PathComponent::Root));
}

#[test]
fn test_fake_data_stream_by_name() {
    let file_entry: FakeFileEntry = FakeFileEntry::new_file("file.txt", &[0x74, 0x65, 0x73, 0x74]);
    assert_eq!(file_entry.get_data_stream_by_name(None), Ok(Some(&[0x74u8, 0x65, 0x73, 0x74][..])));
    let name: PathComponent = PathComponent::String(String::from("stream"));
    assert_eq!(file_entry.get_data_stream_by_name(Some(&name)), Ok(None));
    let directory: FakeFileEntry = FakeFileEntry::new_directory("directory");
    assert_eq!(directory.get_data_stream_by_name(None), Ok(None));
}

#[test]
fn test_number_of_extended_attributes() {
    let file_entry: VfsFileEntry = VfsFileEntry::Fake(Arc::new(FakeFileEntry::new_file(
        "file.txt",
        &[0x74],
    )));
    assert_eq!(file_entry.get_number_of_extended_attributes(), Ok(0));
}
