use keramics::utf16_string::Utf16CharacterMappings;
use keramics::vfs::enums::VfsFileType;
use keramics::vfs::file_entry::{
    file_type_from_ext_file_mode, file_type_from_fat_directory_flag,
    file_type_from_hfs_file_mode, file_type_from_ntfs_flags, hfs_fork_by_index,
    is_single_data_fork_index, number_of_data_forks_from_ext_file_mode,
    number_of_data_forks_from_fat_directory_flag, number_of_data_forks_from_hfs_forks,
    number_of_data_forks_of_file_type, HfsFork,
};
use keramics::vfs::path::{Path, PathComponent};

#[test]
fn test_file_type_from_ext_file_mode() {
    assert_eq!(file_type_from_ext_file_mode(0o100644), VfsFileType::File);
    assert_eq!(file_type_from_ext_file_mode(0o040755), VfsFileType::Directory);
    assert_eq!(file_type_from_ext_file_mode(0o120777), VfsFileType::SymbolicLink);
    assert_eq!(file_type_from_ext_file_mode(0o010644), VfsFileType::NamedPipe);
    assert_eq!(file_type_from_ext_file_mode(0o020644), VfsFileType::CharacterDevice);
    assert_eq!(file_type_from_ext_file_mode(0o060644), VfsFileType::BlockDevice);
    assert_eq!(file_type_from_ext_file_mode(0o140755), VfsFileType::Socket);
    assert_eq!(file_type_from_ext_file_mode(0xe1ff), VfsFileType::Unknown(0xe000));
    assert_eq!(file_type_from_ext_file_mode(0x01ff), VfsFileType::Unknown(0));
}

#[test]
fn test_file_type_from_hfs_file_mode() {
    assert_eq!(file_type_from_hfs_file_mode(Some(0o100644)), VfsFileType::File);
    assert_eq!(file_type_from_hfs_file_mode(Some(0xe1ff)), VfsFileType::Whiteout);
    assert_eq!(file_type_from_hfs_file_mode(None), VfsFileType::Unknown(0));
}

#[test]
fn test_file_type_from_fat_and_ntfs() {
    assert_eq!(file_type_from_fat_directory_flag(true), VfsFileType::Directory);
    assert_eq!(file_type_from_fat_directory_flag(false), VfsFileType::File);
    assert_eq!(file_type_from_ntfs_flags(true, true), VfsFileType::SymbolicLink);
    assert_eq!(file_type_from_ntfs_flags(false, true), VfsFileType::Directory);
    assert_eq!(file_type_from_ntfs_flags(false, false), VfsFileType::File);
}

#[test]
fn test_number_of_data_forks() {
    assert_eq!(number_of_data_forks_from_ext_file_mode(0o100644), 1);
    assert_eq!(number_of_data_forks_from_ext_file_mode(0o040755), 0);
    assert_eq!(number_of_data_forks_of_file_type(VfsFileType::File), 1);
    assert_eq!(number_of_data_forks_of_file_type(VfsFileType::Directory), 0);
    assert_eq!(number_of_data_forks_from_hfs_forks(true, true), 2);
    assert_eq!(number_of_data_forks_from_hfs_forks(false, true), 1);
    assert_eq!(number_of_data_forks_from_hfs_forks(true, false), 1);
    assert_eq!(number_of_data_forks_from_hfs_forks(false, false), 0);
    assert!(is_single_data_fork_index(0));
    assert!(!is_single_data_fork_index(1));
}

#[test]
fn test_hfs_fork_by_index() {
    assert_eq!(hfs_fork_by_index(true, true, 0), Some(HfsFork::Data));
    assert_eq!(hfs_fork_by_index(true, true, 1), Some(HfsFork::Resource));
    assert_eq!(hfs_fork_by_index(true, true, 2), None);
    assert_eq!(hfs_fork_by_index(false, true, 0), Some(HfsFork::Resource));
    assert_eq!(hfs_fork_by_index(false, true, 1), None);
    assert_eq!(hfs_fork_by_index(true, false, 0), Some(HfsFork::Data));
    assert_eq!(hfs_fork_by_index(true, false, 1), None);
    assert_eq!(hfs_fork_by_index(false, false, 0), None);
}

#[test]
fn test_mapping_after_add() {
    let mut mappings: Utf16CharacterMappings = Utf16CharacterMappings::from(&[(0x41u32, 0x61u32)][..]);
    assert_eq!(mappings.get_code_point(&0x42), 0x42);
    mappings.add(0x42, 0x62);
    assert_eq!(mappings.get_code_point(&0x42), 0x62);
    assert_eq!(mappings.get_code_point(&0x41), 0x61);
    assert_eq!(mappings.get_code_point(&0x43), 0x43);
}

#[test]
fn test_parent_of_appended_name() {
    let path: Path = Path::from_components(vec![
        PathComponent::Root,
        PathComponent::String("a".to_string()),
    ]);
    let joined: Path = path.new_with_name(PathComponent::String("b".to_string()));
    assert_eq!(joined.new_with_parent_directory(), path);
}

#[test]
fn test_join_components_in_batches() {
    let path: Path = Path::from_components(vec![
        PathComponent::Root,
        PathComponent::String("a".to_string()),
    ]);
    let first: Vec<PathComponent> = vec![PathComponent::Parent, PathComponent::String("b".to_string())];
    let second: Vec<PathComponent> = vec![PathComponent::Current, PathComponent::String("c".to_string())];
    let mut all: Vec<PathComponent> = vec![PathComponent::Parent, PathComponent::String("b".to_string())];
    all.push(PathComponent::Current);
    all.push(PathComponent::String("c".to_string()));
    assert_eq!(
        path.new_with_join_path_components(&first)
            .new_with_join_path_components(&second),
        path.new_with_join_path_components(&all)
    );
}

use keramics::vfs::error::VfsError;
use keramics::vfs::os::{get_posix_datetime_value, OsFileEntryInfo, OsFileMetadata, OsFileSystem, PosixDateTime};

fn metadata_with_mode(mode: u32) -> OsFileMetadata {
    OsFileMetadata {
        mode,
        device: 0x0801,
        access_time: 1700000000,
        access_time_nanoseconds: 5,
        change_time: 1700000001,
        change_time_nanoseconds: 0,
        modification_time: 0,
        modification_time_nanoseconds: 0,
        group_identifier: 100,
        inode_number: 42,
        number_of_links: 1,
        owner_identifier: 1000,
        size: 11,
    }
}

#[test]
fn test_get_posix_datetime_value() {
    assert_eq!(
        get_posix_datetime_value(1700000000, 5),
        PosixDateTime::PosixTime64Ns { seconds: 1700000000, nanoseconds: 5 }
    );
    assert_eq!(get_posix_datetime_value(1700000000, 0), PosixDateTime::PosixTime32(1700000000));
    assert_eq!(get_posix_datetime_value(0, 0), PosixDateTime::NotSet);
    assert_eq!(get_posix_datetime_value(0x1_0000_0001, 0), PosixDateTime::PosixTime32(1));
}

#[test]
fn test_os_file_entry_info_from() {
    let info: OsFileEntryInfo = OsFileSystem::file_entry_info_from(&metadata_with_mode(0o100644)).unwrap();
    assert_eq!(info.file_type, VfsFileType::File);
    assert_eq!(info.device_identifier, None);
    assert_eq!(info.file_mode, Some(0o100644));
    assert_eq!(info.size, 11);
    assert_eq!(info.access_time, PosixDateTime::PosixTime64Ns { seconds: 1700000000, nanoseconds: 5 });
    assert_eq!(info.change_time, PosixDateTime::PosixTime32(1700000001));
    assert_eq!(info.modification_time, PosixDateTime::NotSet);
    assert_eq!(info.inode_number, Some(42));

    let info: OsFileEntryInfo = OsFileSystem::file_entry_info_from(&metadata_with_mode(0o060660)).unwrap();
    assert_eq!(info.file_type, VfsFileType::BlockDevice);
    assert_eq!(info.device_identifier, Some(0x0801));

    assert_eq!(
        OsFileSystem::file_entry_info_from(&metadata_with_mode(0o140755)).err(),
        Some(VfsError::UnsupportedFileMode)
    );
}

#[test]
fn test_os_file_type_from_attributes() {
    assert_eq!(OsFileSystem::file_type_from_attributes(0x10), VfsFileType::Directory);
    assert_eq!(OsFileSystem::file_type_from_attributes(0x40), VfsFileType::Device);
    assert_eq!(OsFileSystem::file_type_from_attributes(0x20), VfsFileType::File);
}

use keramics::vfs::iteration::{IndexedIteration, IterationAction};

#[test]
fn test_indexed_iteration() {
    let mut iteration: IndexedIteration = IndexedIteration::new();
    assert_eq!(iteration.next_action(), IterationAction::RetrieveCount);
    assert_eq!(iteration.next_action(), IterationAction::RetrieveCount);
    iteration.set_number_of_items(2);
    assert_eq!(iteration.next_action(), IterationAction::RetrieveItem(0));
    assert_eq!(iteration.next_action(), IterationAction::RetrieveItem(1));
    assert_eq!(iteration.next_action(), IterationAction::Finished);
    assert_eq!(iteration.next_action(), IterationAction::Finished);
}

#[test]
fn test_number_of_data_forks_from_fat_directory_flag() {
    assert_eq!(number_of_data_forks_from_fat_directory_flag(true), 0);
    assert_eq!(number_of_data_forks_from_fat_directory_flag(false), 1);
}

#[test]
fn test_mappings_len_after_add() {
    let mut mappings: Utf16CharacterMappings = Utf16CharacterMappings::new(&[]);
    mappings.add(0x41, 0x61);
    mappings.add(0x42, 0x62);
    assert_eq!(mappings.len(), 2);
    mappings.add(0x41, 0x7a);
    assert_eq!(mappings.len(), 2);
    assert_eq!(mappings.get_code_point(&0x41), 0x7a);
    assert_eq!(mappings.get_code_point(&0x42), 0x62);
}
