use keramics::vfs::context::file_system_lookup_key;
use keramics::vfs::enums::VfsType;
use keramics::vfs::error::VfsError;
use keramics::vfs::file_resolver::VfsFileResolver;
use keramics::vfs::location::{new_os_vfs_location, VfsLocation};
use keramics::vfs::path::{Path, PathComponent};

fn name(text: &str) -> PathComponent {
    PathComponent::String(text.to_string())
}

fn path_of(components: Vec<PathComponent>) -> Path {
    Path::from_components(components)
}

#[test]
fn test_vfs_type_fmt() {
    assert_eq!(VfsType::Apm.to_string(), "APM");
    assert_eq!(VfsType::Ext.to_string(), "EXT");
    assert_eq!(VfsType::Ewf.to_string(), "EWF");
    assert_eq!(VfsType::Fake.to_string(), "FAKE");
    assert_eq!(VfsType::Fat.to_string(), "FAT");
    assert_eq!(VfsType::Gpt.to_string(), "GPT");
    assert_eq!(VfsType::Mbr.to_string(), "MBR");
    assert_eq!(VfsType::Ntfs.to_string(), "NTFS");
    assert_eq!(VfsType::Os.to_string(), "OS");
    assert_eq!(VfsType::Qcow.to_string(), "QCOW");
    assert_eq!(VfsType::SparseImage.to_string(), "SPARSEIMAGE");
    assert_eq!(VfsType::SplitRaw.to_string(), "SPLITRAW");
    assert_eq!(VfsType::Udif.to_string(), "UDIF");
    assert_eq!(VfsType::Vhd.to_string(), "VHD");
    assert_eq!(VfsType::Vhdx.to_string(), "VHDX");
}

#[test]
fn test_path_queries() {
    let empty: Path = path_of(vec![]);
    assert!(empty.is_empty());
    assert!(!empty.is_relative());
    assert!(!empty.is_root());
    assert!(empty.file_name().is_none());

    let root: Path = path_of(vec![PathComponent::Root]);
    assert!(root.is_root());
    assert!(!root.is_relative());
    assert!(root.file_name().is_none());
    assert_eq!(root.get_number_of_components(), 1);

    let relative: Path = path_of(vec![name("directory"), name("file.txt")]);
    assert!(relative.is_relative());
    assert_eq!(relative.file_name(), Some(&name("file.txt")));
    assert_eq!(relative.get_component_by_index(0), Some(&name("directory")));
    assert_eq!(relative.get_component_by_index(2), None);
}

#[test]
fn test_path_push_pop() {
    let mut path: Path = path_of(vec![PathComponent::Root]);
    path.push(name("a"));
    assert_eq!(path, path_of(vec![PathComponent::Root, name("a")]));
    assert_eq!(path.pop(), Some(name("a")));
    assert_eq!(path.pop(), Some(PathComponent::Root));
    assert_eq!(path.pop(), None);
}

#[test]
fn test_path_to_string() {
    assert_eq!(path_of(vec![PathComponent::Root]).to_string(), "/");
    assert_eq!(path_of(vec![]).to_string(), "");
    assert_eq!(
        path_of(vec![PathComponent::Root, name("directory"), name("file.txt")]).to_string(),
        "/directory/file.txt"
    );
    assert_eq!(
        path_of(vec![PathComponent::Current, name("a")]).to_string(),
        "./a"
    );
    assert_eq!(
        path_of(vec![PathComponent::Parent, PathComponent::Parent, name("b")]).to_string(),
        "../../b"
    );
}

#[test]
fn test_path_new_with_parent_directory() {
    let path: Path = path_of(vec![PathComponent::Root, name("a"), name("b")]);
    assert_eq!(
        path.new_with_parent_directory(),
        path_of(vec![PathComponent::Root, name("a")])
    );
    let single: Path = path_of(vec![name("a")]);
    assert_eq!(
        single.new_with_parent_directory(),
        path_of(vec![PathComponent::Current])
    );
    let root: Path = path_of(vec![PathComponent::Root]);
    assert_eq!(root.new_with_parent_directory(), path_of(vec![]));
    assert_eq!(path_of(vec![]).new_with_parent_directory(), path_of(vec![]));
}

#[test]
fn test_path_new_with_join_path_components() {
    let base: Path = path_of(vec![PathComponent::Root, name("a"), name("b")]);
    let joined: Path = base.new_with_join_path_components(&[
        PathComponent::Parent,
        PathComponent::Current,
        name("c"),
        PathComponent::Root,
    ]);
    assert_eq!(joined, path_of(vec![PathComponent::Root, name("a"), name("c")]));

    let root: Path = path_of(vec![PathComponent::Root]);
    let joined: Path = root.new_with_join_path_components(&[PathComponent::Parent, name("x")]);
    assert_eq!(joined, path_of(vec![PathComponent::Root, name("x")]));

    let current: Path = path_of(vec![PathComponent::Current]);
    let joined: Path = current.new_with_join_path_components(&[PathComponent::Parent]);
    assert_eq!(joined, path_of(vec![PathComponent::Parent]));

    let empty: Path = path_of(vec![]);
    let joined: Path =
        empty.new_with_join_path_components(&[PathComponent::Current, name("y")]);
    assert_eq!(joined, path_of(vec![name("y")]));
}

#[test]
fn test_path_component_from_name() {
    assert_eq!(PathComponent::from_name("."), PathComponent::Current);
    assert_eq!(PathComponent::from_name(".."), PathComponent::Parent);
    assert_eq!(PathComponent::from_name("..."), name("..."));
    assert_eq!(PathComponent::from_name("file.txt"), name("file.txt"));
}

#[test]
fn test_get_numeric_suffix() {
    assert_eq!(Path::get_numeric_suffix(&name("qcow1"), "qcow"), Some(1));
    assert_eq!(Path::get_numeric_suffix(&name("qcow12"), "qcow"), Some(12));
    assert_eq!(Path::get_numeric_suffix(&name("qcow007"), "qcow"), Some(7));
    assert_eq!(Path::get_numeric_suffix(&name("qcow"), "qcow"), None);
    assert_eq!(Path::get_numeric_suffix(&name("qcow1a"), "qcow"), None);
    assert_eq!(Path::get_numeric_suffix(&name("vhd1"), "qcow"), None);
    assert_eq!(Path::get_numeric_suffix(&PathComponent::Root, "qcow"), None);
    assert_eq!(
        Path::get_numeric_suffix(&name("qcow99999999999999999999999"), "qcow"),
        None
    );
}

fn get_test_data_path(path: &str) -> String {
    format!("../test_data/{}", path)
}

fn parent_path(text: &str) -> Path {
    new_os_vfs_location(text).get_path().copy()
}

#[test]
fn test_new_with_layer() {
    let path_string: String = get_test_data_path("qcow/ext2.qcow2");
    let os_vfs_location: VfsLocation = new_os_vfs_location(path_string.as_str());
    let path: Path = path_of(vec![PathComponent::Root]);
    let test_location: VfsLocation = os_vfs_location.new_with_layer(&VfsType::Qcow, path);

    let vfs_type: &VfsType = test_location.get_type();
    assert!(vfs_type == &VfsType::Qcow);

    let path: &Path = test_location.get_path();
    let expected_path: Path = path_of(vec![PathComponent::Root]);
    assert_eq!(path, &expected_path);
}

#[test]
fn test_new_with_parent() {
    let path_string: String = get_test_data_path("directory/file.txt");
    let vfs_location: VfsLocation = new_os_vfs_location(path_string.as_str());

    let path_string: String = get_test_data_path("directory/bogus.txt");
    let path: Path = parent_path(path_string.as_str());
    let test_location: VfsLocation = vfs_location.new_with_parent(path);

    let path: &Path = test_location.get_path();
    let expected_path_string: String = get_test_data_path("directory/bogus.txt");
    let expected_path: Path = parent_path(expected_path_string.as_str());
    assert_eq!(path, &expected_path);
    assert_eq!(
        path,
        &path_of(vec![
            PathComponent::Parent,
            name("test_data"),
            name("directory"),
            name("bogus.txt")
        ])
    );

    let vfs_type: &VfsType = test_location.get_type();
    assert!(vfs_type == &VfsType::Os);

    let path_string: String = get_test_data_path("qcow/ext2.qcow2");
    let os_vfs_location: VfsLocation = new_os_vfs_location(path_string.as_str());
    let path: Path = path_of(vec![PathComponent::Root]);
    let vfs_location: VfsLocation = os_vfs_location.new_with_layer(&VfsType::Qcow, path);

    let path: Path = path_of(vec![PathComponent::Root, name("qcow1")]);
    let test_location: VfsLocation = vfs_location.new_with_parent(path);

    let path: &Path = test_location.get_path();
    let expected_path: Path = path_of(vec![PathComponent::Root, name("qcow1")]);
    assert_eq!(path, &expected_path);

    let vfs_type: &VfsType = test_location.get_type();
    assert!(vfs_type == &VfsType::Qcow);
}

#[test]
fn test_get_parent() {
    let path_string: String = get_test_data_path("directory/file.txt");
    let test_location: VfsLocation = new_os_vfs_location(path_string.as_str());

    let parent: Option<&VfsLocation> = test_location.get_parent();
    assert!(parent.is_none());

    let path_string: String = get_test_data_path("qcow/ext2.qcow2");
    let os_vfs_location: VfsLocation = new_os_vfs_location(path_string.as_str());
    let path: Path = path_of(vec![PathComponent::Root]);
    let test_location: VfsLocation = os_vfs_location.new_with_layer(&VfsType::Qcow, path);

    let parent: Option<&VfsLocation> = test_location.get_parent();
    assert!(parent.is_some());
}

#[test]
fn test_location_to_string() {
    let os_location: VfsLocation = new_os_vfs_location("/test_data/qcow/ext2.qcow2");
    assert_eq!(
        os_location.get_path(),
        &path_of(vec![
            PathComponent::Root,
            name("test_data"),
            name("qcow"),
            name("ext2.qcow2")
        ])
    );
    let layer: VfsLocation =
        os_location.new_with_layer(&VfsType::Qcow, path_of(vec![PathComponent::Root]));
    let sibling: VfsLocation =
        layer.new_with_parent(path_of(vec![PathComponent::Root, name("qcow1")]));
    assert_eq!(
        sibling.to_string(),
        "OS: /test_data/qcow/ext2.qcow2\nQCOW: /qcow1\n"
    );
}

#[test]
fn test_location_new_base() {
    let location: VfsLocation =
        VfsLocation::new_base(&VfsType::Fake, path_of(vec![PathComponent::Root]));
    assert!(location.get_parent().is_none());
    assert_eq!(location.to_string(), "FAKE: /\n");

    let relative: VfsLocation = new_os_vfs_location("directory/./file.txt");
    assert_eq!(
        relative.get_path(),
        &path_of(vec![name("directory"), name("file.txt")])
    );
}

#[test]
fn test_file_resolver_get_path() {
    let resolver: VfsFileResolver =
        VfsFileResolver::new(path_of(vec![PathComponent::Root, name("images")]));
    let path: Path = resolver.get_path(&[name("image.E02")]);
    assert_eq!(
        path,
        path_of(vec![PathComponent::Root, name("images"), name("image.E02")])
    );
    let path: Path = resolver.get_path(&[PathComponent::Parent, name("other.E01")]);
    assert_eq!(path, path_of(vec![PathComponent::Root, name("other.E01")]));
}

#[test]
fn test_file_system_lookup_key() {
    let os_location: VfsLocation = new_os_vfs_location("/images/disk.qcow2");
    let layer_location: VfsLocation =
        os_location.new_with_layer(&VfsType::Qcow, path_of(vec![PathComponent::Root]));
    let key: VfsLocation = file_system_lookup_key(&layer_location).unwrap();
    assert_eq!(key.to_string(), os_location.to_string());

    let key: VfsLocation = file_system_lookup_key(&os_location).unwrap();
    assert_eq!(key.to_string(), new_os_vfs_location("/").to_string());

    let fake_location: VfsLocation =
        VfsLocation::new_base(&VfsType::Fake, path_of(vec![PathComponent::Root]));
    assert!(matches!(
        file_system_lookup_key(&fake_location),
        Err(VfsError::UnsupportedType(VfsType::Fake))
    ));
}
