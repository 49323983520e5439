use std::sync::Arc;

use keramics::uuid::Uuid;
use keramics::vfs::credential_store::{VfsCredential, VfsCredentialStore};
use keramics::vfs::enums::{VfsFileType, VfsType};
use keramics::vfs::error::VfsError;
use keramics::vfs::fake::{FakeFileEntry, FakeFileSystem};
use keramics::vfs::file_system::VfsFileSystem;
use keramics::vfs::file_system_finder::VfsFileSystemFinder;
use keramics::vfs::finder::{FinderAction, FinderEvent, FinderFailure, VfsFinder};
use keramics::vfs::image::{
    VfsImageFileEntry, VfsImageFileSystem, VfsImageIdentifier, VfsImageLayer,
};
use keramics::vfs::mbr::{bytes_per_sector_from_parent, parent_has_bytes_per_sector};
use keramics::vfs::os::{MetadataOutcome, OsFileSystem};
use keramics::vfs::path::{copy_component, Path, PathComponent};

fn name(text: &str) -> PathComponent {
    PathComponent::String(text.to_string())
}

fn root_and(text: &str) -> Path {
    Path::from_components(vec![PathComponent::Root, name(text)])
}

fn get_image_file_system() -> VfsImageFileSystem {
    let mut file_system: VfsImageFileSystem = VfsImageFileSystem::new("qcow");
    let layers: Vec<VfsImageLayer> = vec![
        VfsImageLayer {
            media_size: 4194304,
            identifier: None,
        },
        VfsImageLayer {
            media_size: 8388608,
            identifier: Some(VfsImageIdentifier::Uuid(Uuid::new())),
        },
    ];
    file_system.open(512, layers);
    file_system
}

#[test]
fn test_image_file_entry_exists() {
    let file_system: VfsImageFileSystem = get_image_file_system();

    assert!(file_system.file_entry_exists(&Path::from_components(vec![PathComponent::Root])));
    assert!(file_system.file_entry_exists(&root_and("qcow1")));
    assert!(file_system.file_entry_exists(&root_and("qcow2")));
    assert!(!file_system.file_entry_exists(&root_and("qcow0")));
    assert!(!file_system.file_entry_exists(&root_and("qcow3")));
    assert!(!file_system.file_entry_exists(&root_and("bogus")));
    assert!(!file_system.file_entry_exists(&Path::from_components(vec![])));
    assert!(!file_system.file_entry_exists(&Path::from_components(vec![name("qcow1")])));
    assert!(!file_system.file_entry_exists(&Path::from_components(vec![
        PathComponent::Root,
        name("qcow1"),
        name("qcow1")
    ])));
}

#[test]
fn test_image_get_file_entry_by_path() {
    let file_system: VfsImageFileSystem = get_image_file_system();

    let entry: VfsImageFileEntry = file_system
        .get_file_entry_by_path(&root_and("qcow2"))
        .unwrap()
        .unwrap();
    assert!(!entry.is_root_file_entry());
    assert_eq!(entry.get_layer_number(), Some(2));
    assert_eq!(entry.get_size(), 8388608);
    assert_eq!(entry.get_file_type(), VfsFileType::File);
    assert_eq!(entry.get_name(), name("qcow2"));
    assert_eq!(entry.get_number_of_sub_file_entries(), 0);
    assert!(entry.get_identifier().is_some());
    assert_eq!(
        entry.get_sub_file_entry_by_index(0).err(),
        Some(VfsError::NoSubFileEntries)
    );

    let result: Option<VfsImageFileEntry> =
        file_system.get_file_entry_by_path(&root_and("qcow3")).unwrap();
    assert!(result.is_none());

    let root: VfsImageFileEntry = file_system
        .get_file_entry_by_path(&Path::from_components(vec![PathComponent::Root]))
        .unwrap()
        .unwrap();
    assert!(root.is_root_file_entry());
    assert_eq!(root.get_file_type(), VfsFileType::Directory);
    assert_eq!(root.get_name(), PathComponent::Root);
    assert_eq!(root.get_layer_number(), None);
    assert_eq!(root.get_size(), 0);
    assert!(root.get_identifier().is_none());
}

#[test]
fn test_image_get_root_file_entry() {
    let file_system: VfsImageFileSystem = get_image_file_system();
    assert_eq!(file_system.get_bytes_per_sector(), 512);

    let root: VfsImageFileEntry = file_system.get_root_file_entry();
    assert_eq!(root.get_number_of_sub_file_entries(), 2);

    let first: VfsImageFileEntry = root.get_sub_file_entry_by_index(0).unwrap();
    assert_eq!(first.get_name(), name("qcow1"));
    assert_eq!(first.get_size(), 4194304);
    assert!(first.get_identifier().is_none());

    assert_eq!(
        root.get_sub_file_entry_by_index(2).err(),
        Some(VfsError::MissingLayer(2))
    );
}

#[test]
fn test_image_sub_entry_name_resolves() {
    let file_system: VfsImageFileSystem = get_image_file_system();
    let root: VfsImageFileEntry = file_system.get_root_file_entry();
    for index in 0..root.get_number_of_sub_file_entries() {
        let entry: VfsImageFileEntry = root.get_sub_file_entry_by_index(index).unwrap();
        let path: Path = Path::from_components(vec![PathComponent::Root, entry.get_name()]);
        assert!(file_system.file_entry_exists(&path));
        let found: VfsImageFileEntry = file_system.get_file_entry_by_path(&path).unwrap().unwrap();
        assert_eq!(found.get_layer_number(), Some(index + 1));
    }
}

#[test]
fn test_image_new_file_system() {
    let file_system: VfsImageFileSystem = VfsImageFileSystem::new("ewf");
    assert_eq!(file_system.get_bytes_per_sector(), 0);
    assert!(!file_system.file_entry_exists(&root_and("ewf1")));
    assert!(file_system.file_entry_exists(&Path::from_components(vec![PathComponent::Root])));
    assert_eq!(file_system.get_root_file_entry().get_number_of_sub_file_entries(), 0);
}

#[test]
fn test_add_file_entry() {
    let mut file_system: FakeFileSystem = FakeFileSystem::new();

    let path: Path = Path::from_components(vec![PathComponent::Root]);
    let file_entry: FakeFileEntry = FakeFileEntry::new_directory("fake");
    assert_eq!(file_system.add_file_entry(path, file_entry), Ok(()));

    let path: Path = root_and("fake");
    let test_data: [u8; 4] = [0x74, 0x65, 0x73, 0x74];
    let file_entry: FakeFileEntry = FakeFileEntry::new_file("file.txt", &test_data);
    assert_eq!(file_system.add_file_entry(path, file_entry), Ok(()));
}

fn get_fake_file_system() -> FakeFileSystem {
    let mut file_system: FakeFileSystem = FakeFileSystem::new();

    let path: Path = Path::from_components(vec![PathComponent::Root]);
    let file_entry: FakeFileEntry = FakeFileEntry::new_directory("fake");
    assert_eq!(file_system.add_file_entry(path, file_entry), Ok(()));

    let path: Path = root_and("fake");
    let test_data: [u8; 4] = [0x74, 0x65, 0x73, 0x74];
    let file_entry: FakeFileEntry = FakeFileEntry::new_file("file.txt", &test_data);
    assert_eq!(file_system.add_file_entry(path, file_entry), Ok(()));

    file_system
}

#[test]
fn file_system_test_file_entry_exists() {
    let file_system: FakeFileSystem = get_fake_file_system();

    let path: Path = Path::from_components(vec![
        PathComponent::Root,
        name("fake"),
        name("file.txt"),
    ]);
    assert_eq!(file_system.file_entry_exists(&path), Ok(true));

    let path: Path = Path::from_components(vec![
        PathComponent::Root,
        name("fake"),
        name("bogus.txt"),
    ]);
    assert_eq!(file_system.file_entry_exists(&path), Ok(false));
}

#[test]
fn file_system_test_get_file_entry_by_path() {
    let file_system: FakeFileSystem = get_fake_file_system();

    let path: Path = Path::from_components(vec![PathComponent::Root]);
    let file_entry: Arc<FakeFileEntry> = file_system.get_file_entry_by_path(&path).unwrap().unwrap();
    assert_eq!(file_entry.get_name(), &PathComponent::Root);
    assert_eq!(file_entry.get_file_type(), VfsFileType::Directory);
    assert!(file_entry.is_root_file_entry());

    let path: Path = Path::from_components(vec![
        PathComponent::Root,
        name("fake"),
        name("file.txt"),
    ]);
    let file_entry: Arc<FakeFileEntry> = file_system.get_file_entry_by_path(&path).unwrap().unwrap();
    assert_eq!(file_entry.get_name(), &name("file.txt"));
    assert_eq!(file_entry.get_file_type(), VfsFileType::File);
    assert_eq!(file_entry.get_size(), 4);
    assert_eq!(
        file_entry.get_data_stream(),
        Ok(Some(&[0x74u8, 0x65, 0x73, 0x74][..]))
    );

    let path: Path = Path::from_components(vec![
        PathComponent::Root,
        name("fake"),
        name("bogus.txt"),
    ]);
    assert!(file_system.get_file_entry_by_path(&path).unwrap().is_none());
}

#[test]
fn file_system_test_get_root_file_entry() {
    let file_system: FakeFileSystem = get_fake_file_system();
    let file_entry: Arc<FakeFileEntry> = file_system.get_root_file_entry().unwrap();
    assert_eq!(file_entry.get_file_type(), VfsFileType::Directory);
}

#[test]
fn test_fake_add_file_entry_at_set_path() {
    let mut file_system: FakeFileSystem = get_fake_file_system();

    let path: Path = root_and("fake");
    let file_entry: FakeFileEntry = FakeFileEntry::new_file("file.txt", &[0x41]);
    assert_eq!(
        file_system.add_file_entry(path, file_entry),
        Err(VfsError::PathAlreadySet)
    );

    let path: Path = Path::from_components(vec![
        PathComponent::Root,
        name("fake"),
        name("file.txt"),
    ]);
    let file_entry: Arc<FakeFileEntry> = file_system.get_file_entry_by_path(&path).unwrap().unwrap();
    assert_eq!(file_entry.get_size(), 1);
}

fn get_test_data() -> Vec<u8> {
    [
        "A ceramic is any of the various hard, brittle, heat-resistant, and ",
        "corrosion-resistant materials made by shaping and then firing an inorganic, ",
        "nonmetallic material, such as clay, at a high temperature.\n",
    ]
    .join("")
    .into_bytes()
}

fn get_fake_file_entry() -> FakeFileEntry {
    let test_data: Vec<u8> = get_test_data();

    FakeFileEntry::new_file("file.txt", &test_data)
}

#[test]
fn file_entry_test_get_access_time() {
    let file_entry: FakeFileEntry = get_fake_file_entry();
    assert!(file_entry.get_access_time().is_some());
}

#[test]
fn file_entry_test_get_change_time() {
    let file_entry: FakeFileEntry = get_fake_file_entry();
    assert!(file_entry.get_change_time().is_some());
}

#[test]
fn file_entry_test_get_creation_time() {
    let file_entry: FakeFileEntry = get_fake_file_entry();
    assert!(file_entry.get_creation_time().is_some());
}

#[test]
fn file_entry_test_get_data_stream() {
    let file_entry: FakeFileEntry = get_fake_file_entry();

    let result: Option<&[u8]> = file_entry.get_data_stream().unwrap();
    assert!(result.is_some());

    let test_data: &[u8] = result.unwrap();
    assert_eq!(test_data.len(), 202);

    let expected_data: String = [
        "A ceramic is any of the various hard, brittle, heat-resistant, and ",
        "corrosion-resistant materials made by shaping and then firing an inorganic, ",
        "nonmetallic material, such as clay, at a high temperature.\n",
    ]
    .join("");
    assert_eq!(test_data, expected_data.as_bytes());
}

#[test]
fn file_entry_test_get_file_type() {
    let file_entry: FakeFileEntry = get_fake_file_entry();
    assert_eq!(file_entry.get_file_type(), VfsFileType::File);
}

#[test]
fn file_entry_test_get_modification_time() {
    let file_entry: FakeFileEntry = get_fake_file_entry();
    assert!(file_entry.get_modification_time().is_some());
}

#[test]
fn file_entry_test_get_name() {
    let file_entry: FakeFileEntry = get_fake_file_entry();
    assert_eq!(file_entry.get_name(), &PathComponent::from_name("file.txt"));
}

#[test]
fn file_entry_test_get_size() {
    let file_entry: FakeFileEntry = get_fake_file_entry();
    assert_eq!(file_entry.get_size(), 202);
}

#[test]
fn test_fake_directory_and_root_entries() {
    let directory: FakeFileEntry = FakeFileEntry::new_directory("directory");
    assert_eq!(directory.get_data_stream(), Ok(None));
    assert_eq!(directory.get_size(), 0);
    assert_eq!(directory.get_file_type(), VfsFileType::Directory);
    assert!(!directory.is_root_file_entry());

    let root: FakeFileEntry = FakeFileEntry::new_root();
    assert!(root.is_root_file_entry());
    assert_eq!(root.get_name(), &PathComponent::Root);
}

#[test]
fn test_fake_add_directory_named_parent() {
    let mut file_system: FakeFileSystem = FakeFileSystem::new();
    let path: Path = Path::from_components(vec![PathComponent::Root, name("a")]);
    let file_entry: FakeFileEntry = FakeFileEntry::new_directory("..");
    assert_eq!(file_system.add_file_entry(path, file_entry), Err(VfsError::PathAlreadySet));
    let root: Arc<FakeFileEntry> = file_system.get_root_file_entry().unwrap();
    assert_eq!(root.get_name(), &PathComponent::Parent);
}

/// Walks an image file system with the finder, keeping the file entries on a stack.
fn walk_image(file_system: &VfsImageFileSystem) -> Vec<(Option<usize>, String)> {
    let mut finder: VfsFinder = VfsFinder::new();
    let mut entries: Vec<VfsImageFileEntry> = Vec::new();
    let mut found: Vec<(Option<usize>, String)> = Vec::new();
    loop {
        let mut action: FinderAction = finder.step(FinderEvent::NextRequest);
        loop {
            action = match action {
                FinderAction::RetrieveRootFileEntry => {
                    entries.push(file_system.get_root_file_entry());
                    finder.step(FinderEvent::RootFileEntry(true))
                }
                FinderAction::RetrieveNumberOfSubFileEntries => {
                    let count: usize = entries.last().unwrap().get_number_of_sub_file_entries();
                    finder.step(FinderEvent::NumberOfSubFileEntries(count))
                }
                FinderAction::RetrieveSubFileEntry(index) => {
                    match entries.last().unwrap().get_sub_file_entry_by_index(index) {
                        Ok(entry) => {
                            let entry_name: PathComponent = entry.get_name();
                            entries.push(entry);
                            finder.step(FinderEvent::SubFileEntry(Some(entry_name)))
                        }
                        Err(_) => finder.step(FinderEvent::RetrievalFailed),
                    }
                }
                FinderAction::HandOut(path) => {
                    let entry: VfsImageFileEntry = entries.pop().unwrap();
                    found.push((entry.get_layer_number(), path.to_string()));
                    break;
                }
                FinderAction::Fail(failure) => panic!("walk failed: {:?}", failure),
                FinderAction::Finished => return found,
            };
        }
    }
}

#[test]
fn test_finder_walks_image() {
    let file_system: VfsImageFileSystem = get_image_file_system();
    let found: Vec<(Option<usize>, String)> = walk_image(&file_system);
    assert_eq!(
        found,
        vec![
            (Some(1), String::from("/qcow1")),
            (Some(2), String::from("/qcow2")),
            (None, String::from("/")),
        ]
    );
}

#[test]
fn test_finder_new() {
    let finder: VfsFinder = VfsFinder::new();
    assert_eq!(finder.get_path(), &Path::from_components(vec![PathComponent::Root]));
}

#[test]
fn test_finder_failures() {
    let mut finder: VfsFinder = VfsFinder::new();
    assert!(matches!(
        finder.step(FinderEvent::NextRequest),
        FinderAction::RetrieveRootFileEntry
    ));
    assert!(matches!(
        finder.step(FinderEvent::RetrievalFailed),
        FinderAction::Fail(FinderFailure::RootFileEntry)
    ));
    assert!(matches!(
        finder.step(FinderEvent::NextRequest),
        FinderAction::Finished
    ));

    let mut finder: VfsFinder = VfsFinder::new();
    finder.step(FinderEvent::NextRequest);
    assert!(matches!(
        finder.step(FinderEvent::RootFileEntry(true)),
        FinderAction::RetrieveNumberOfSubFileEntries
    ));
    assert!(matches!(
        finder.step(FinderEvent::RetrievalFailed),
        FinderAction::Fail(FinderFailure::NumberOfSubFileEntries)
    ));
    assert!(matches!(
        finder.step(FinderEvent::NextRequest),
        FinderAction::Finished
    ));
    assert_eq!(finder.get_path(), &Path::from_components(vec![]));

    let mut finder: VfsFinder = VfsFinder::new();
    finder.step(FinderEvent::NextRequest);
    finder.step(FinderEvent::RootFileEntry(true));
    assert!(matches!(
        finder.step(FinderEvent::NumberOfSubFileEntries(1)),
        FinderAction::RetrieveSubFileEntry(0)
    ));
    assert!(matches!(
        finder.step(FinderEvent::SubFileEntry(None)),
        FinderAction::Fail(FinderFailure::MissingName)
    ));
    match finder.step(FinderEvent::NextRequest) {
        FinderAction::HandOut(path) => assert_eq!(path.to_string(), "/"),
        _ => panic!("expected the root"),
    }
    let mut finder: VfsFinder = VfsFinder::new();
    finder.step(FinderEvent::NextRequest);
    assert!(matches!(
        finder.step(FinderEvent::RootFileEntry(false)),
        FinderAction::Finished
    ));
}

#[test]
fn test_add_passphrase() {
    let mut credential_store: VfsCredentialStore = VfsCredentialStore::new();
    assert_eq!(credential_store.iter().len(), 0);

    credential_store.add_passphrase("KeRaMiCs".as_bytes());
    let credentials: Vec<VfsCredential> = credential_store.iter();
    assert_eq!(credentials.len(), 1);
    match &credentials[0] {
        VfsCredential::Passphrase(passphrase) => assert_eq!(passphrase, b"KeRaMiCs"),
    }
}

#[test]
fn test_mbr_bytes_per_sector_from_parent() {
    assert_eq!(bytes_per_sector_from_parent(None), Ok(None));
    assert_eq!(bytes_per_sector_from_parent(Some(512)), Ok(Some(512)));
    assert_eq!(bytes_per_sector_from_parent(Some(65535)), Ok(Some(65535)));
    assert_eq!(
        bytes_per_sector_from_parent(Some(65536)),
        Err(VfsError::BytesPerSectorOutOfBounds)
    );
    assert!(parent_has_bytes_per_sector(VfsType::Qcow));
    assert!(parent_has_bytes_per_sector(VfsType::Ewf));
    assert!(!parent_has_bytes_per_sector(VfsType::Os));
    assert!(!parent_has_bytes_per_sector(VfsType::Gpt));
}

#[test]
fn test_os_file_entry_exists_from() {
    assert_eq!(OsFileSystem::file_entry_exists_from(MetadataOutcome::Found), Ok(true));
    assert_eq!(OsFileSystem::file_entry_exists_from(MetadataOutcome::NotFound), Ok(false));
    assert_eq!(
        OsFileSystem::file_entry_exists_from(MetadataOutcome::Failed),
        Err(VfsError::UnableToDetermineExistence)
    );
}

#[test]
fn test_fake_file_entry_times_are_equal() {
    let file_entry: FakeFileEntry = FakeFileEntry::new_directory("directory");
    let access_time = file_entry.get_access_time().unwrap();
    assert!(file_entry.get_change_time().unwrap() == access_time);
    assert!(file_entry.get_creation_time().unwrap() == access_time);
    assert!(file_entry.get_modification_time().unwrap() == access_time);
}

/// A file system tree for driving the finder by hand.
struct TreeEntry {
    name: PathComponent,
    sub_entries: Vec<TreeEntry>,
}

fn tree_entry(text: &str, sub_entries: Vec<TreeEntry>) -> TreeEntry {
    TreeEntry {
        name: name(text),
        sub_entries,
    }
}

/// Walks a tree with the finder, keeping the file entries on a stack of references.
fn walk_tree(root: &TreeEntry) -> Vec<String> {
    let mut finder: VfsFinder = VfsFinder::new();
    let mut entries: Vec<&TreeEntry> = Vec::new();
    let mut found: Vec<String> = Vec::new();
    let mut event: FinderEvent = FinderEvent::NextRequest;
    loop {
        event = match finder.step(event) {
            FinderAction::RetrieveRootFileEntry => {
                entries.push(root);
                FinderEvent::RootFileEntry(true)
            }
            FinderAction::RetrieveNumberOfSubFileEntries => {
                FinderEvent::NumberOfSubFileEntries(entries.last().unwrap().sub_entries.len())
            }
            FinderAction::RetrieveSubFileEntry(index) => {
                let sub_entry: &TreeEntry = &entries.last().unwrap().sub_entries[index];
                entries.push(sub_entry);
                FinderEvent::SubFileEntry(Some(copy_component(&sub_entry.name)))
            }
            FinderAction::HandOut(path) => {
                entries.pop();
                found.push(path.to_string());
                FinderEvent::NextRequest
            }
            FinderAction::Fail(failure) => panic!("walk failed: {:?}", failure),
            FinderAction::Finished => return found,
        };
    }
}

#[test]
fn test_finder_walks_nested_tree_in_postorder() {
    let root: TreeEntry = TreeEntry {
        name: PathComponent::Root,
        sub_entries: vec![
            tree_entry("a", vec![tree_entry("c", vec![]), tree_entry("d", vec![])]),
            tree_entry("b", vec![]),
        ],
    };
    assert_eq!(
        walk_tree(&root),
        vec![
            String::from("/a/c"),
            String::from("/a/d"),
            String::from("/a"),
            String::from("/b"),
            String::from("/"),
        ]
    );
}

#[test]
fn test_file_system_finder_walks_image() {
    let file_system: VfsFileSystem = VfsFileSystem::Image(VfsType::Qcow, get_image_file_system());
    let mut finder: VfsFileSystemFinder = VfsFileSystemFinder::new(&file_system);
    let mut found: Vec<(String, Option<PathComponent>)> = Vec::new();
    while let Some(item) = finder.next(&file_system) {
        let (file_entry, path) = item.unwrap();
        found.push((path.to_string(), file_entry.get_name()));
    }
    assert_eq!(
        found,
        vec![
            (String::from("/qcow1"), Some(name("qcow1"))),
            (String::from("/qcow2"), Some(name("qcow2"))),
            (String::from("/"), Some(PathComponent::Root)),
        ]
    );
    assert!(finder.next(&file_system).is_none());
}
