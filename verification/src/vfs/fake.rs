//! Fake file system: file entries kept in memory by path, for tests and examples.

use std::sync::Arc;

use vstd::prelude::*;

use keramics_datetime::DateTime;

use crate::bytes::copy_bytes;

use super::enums::VfsFileType;
use super::error::VfsError;
use super::path::{component_of_name, joined_with_component, ComponentView, Path, PathComponent};

verus! {

/// Date and time value of the keramics_datetime crate.
#[verifier::external_type_specification]
#[verifier::external_body]
pub struct ExDateTime(DateTime);

/// The current time as a fake date and time value: keramics_datetime's
/// `DateTime::FakeTime` of std's `SystemTime::now`. Nothing is stated of the value, which
/// depends on the clock.
#[verifier::external_body]
fn current_fake_time() -> (time: DateTime) {
    DateTime::FakeTime(std::time::SystemTime::now())
}

/// Copy of a date and time value (the derived `Clone` of keramics_datetime's `DateTime`),
/// which is equal to the value.
#[verifier::external_body]
fn copy_date_time(time: &DateTime) -> (copy: DateTime)
    ensures
        copy == *time,
{
    time.clone()
}

/// Fake file entry.
pub struct FakeFileEntry {
    name: PathComponent,
    file_type: VfsFileType,
    data: Option<Vec<u8>>,
    access_time: Option<DateTime>,
    change_time: Option<DateTime>,
    creation_time: Option<DateTime>,
    modification_time: Option<DateTime>,
    size: u64,
}

/// Model of a fake file entry, without its time values.
pub ghost struct FakeEntryView {
    pub name: ComponentView,
    pub file_type: VfsFileType,
    pub data: Option<Seq<u8>>,
    pub size: u64,
}

impl View for FakeFileEntry {
    type V = FakeEntryView;

    closed spec fn view(&self) -> FakeEntryView {
        FakeEntryView {
            name: self.name@,
            file_type: self.file_type,
            data: match self.data {
                Some(data) => Some(data@),
                None => None,
            },
            size: self.size,
        }
    }
}

impl FakeFileEntry {
    /// The stored access time.
    pub closed spec fn stored_access_time(&self) -> Option<DateTime> {
        self.access_time
    }

    /// The stored change time.
    pub closed spec fn stored_change_time(&self) -> Option<DateTime> {
        self.change_time
    }

    /// The stored creation time.
    pub closed spec fn stored_creation_time(&self) -> Option<DateTime> {
        self.creation_time
    }

    /// The stored modification time.
    pub closed spec fn stored_modification_time(&self) -> Option<DateTime> {
        self.modification_time
    }

    /// Whether the four time values are set, all to the same value.
    pub closed spec fn has_times(&self) -> bool {
        &&& self.access_time is Some
        &&& self.change_time == self.access_time
        &&& self.creation_time == self.access_time
        &&& self.modification_time == self.access_time
    }

    /// Creates a file entry with a name, a file type, data and a size, with all four time
    /// values set to the current time.
    fn new_with_current_time(
        name: PathComponent,
        file_type: VfsFileType,
        data: Option<Vec<u8>>,
        size: u64,
    ) -> (file_entry: Self)
        ensures
            file_entry@ == (FakeEntryView {
                name: name@,
                file_type,
                data: match data {
                    Some(data) => Some(data@),
                    None => None,
                },
                size,
            }),
            file_entry.has_times(),
    {
        let current_time: DateTime = current_fake_time();
        FakeFileEntry {
            name,
            file_type,
            data,
            access_time: Some(copy_date_time(&current_time)),
            change_time: Some(copy_date_time(&current_time)),
            creation_time: Some(copy_date_time(&current_time)),
            modification_time: Some(current_time),
            size,
        }
    }

    /// Creates a new directory file entry.
    pub fn new_directory(name: &str) -> (file_entry: Self)
        ensures
            file_entry@ == (FakeEntryView {
                name: component_of_name(name@),
                file_type: VfsFileType::Directory,
                data: None,
                size: 0,
            }),
            file_entry.has_times(),
    {
        Self::new_with_current_time(PathComponent::from_name(name), VfsFileType::Directory, None, 0)
    }

    /// Creates a new file file entry that holds a copy of data.
    pub fn new_file(name: &str, data: &[u8]) -> (file_entry: Self)
        ensures
            file_entry@ == (FakeEntryView {
                name: component_of_name(name@),
                file_type: VfsFileType::File,
                data: Some(data@),
                size: data@.len() as u64,
            }),
            file_entry.has_times(),
    {
        let data_size: u64 = data.len() as u64;
        let copy: Vec<u8> = copy_bytes(data);
        Self::new_with_current_time(
            PathComponent::from_name(name),
            VfsFileType::File,
            Some(copy),
            data_size,
        )
    }

    /// Creates a new root directory file entry.
    pub fn new_root() -> (file_entry: Self)
        ensures
            file_entry@ == (FakeEntryView {
                name: ComponentView::Root,
                file_type: VfsFileType::Directory,
                data: None,
                size: 0,
            }),
            file_entry.has_times(),
    {
        Self::new_with_current_time(PathComponent::Root, VfsFileType::Directory, None, 0)
    }

    /// Retrieves the access time.
    pub fn get_access_time(&self) -> (time: Option<&DateTime>)
        ensures
            match time {
                Some(value) => self.stored_access_time() == Some(*value),
                None => self.stored_access_time() is None,
            },
            self.has_times() ==> time is Some,
    {
        self.access_time.as_ref()
    }

    /// Retrieves the change time.
    pub fn get_change_time(&self) -> (time: Option<&DateTime>)
        ensures
            match time {
                Some(value) => self.stored_change_time() == Some(*value),
                None => self.stored_change_time() is None,
            },
            self.has_times() ==> time is Some,
    {
        self.change_time.as_ref()
    }

    /// Retrieves the creation time.
    pub fn get_creation_time(&self) -> (time: Option<&DateTime>)
        ensures
            match time {
                Some(value) => self.stored_creation_time() == Some(*value),
                None => self.stored_creation_time() is None,
            },
            self.has_times() ==> time is Some,
    {
        self.creation_time.as_ref()
    }

    /// Retrieves the modification time.
    pub fn get_modification_time(&self) -> (time: Option<&DateTime>)
        ensures
            match time {
                Some(value) => self.stored_modification_time() == Some(*value),
                None => self.stored_modification_time() is None,
            },
            self.has_times() ==> time is Some,
    {
        self.modification_time.as_ref()
    }

    /// Retrieves the data that the data stream of a file reads: none for another file type,
    /// an error for a file without data.
    pub fn get_data_stream(&self) -> (result: Result<Option<&[u8]>, VfsError>)
        ensures
            self@.file_type != VfsFileType::File ==> result matches Ok(None),
            self@.file_type == VfsFileType::File ==> match self@.data {
                Some(data) => result matches Ok(Some(stream)) && stream@ == data,
                None => result == Err::<Option<&[u8]>, VfsError>(VfsError::MissingDataStream),
            },
    {
        if self.file_type != VfsFileType::File {
            return Ok(None);
        }
        match &self.data {
            Some(data) => Ok(Some(data.as_slice())),
            None => Err(VfsError::MissingDataStream),
        }
    }

    /// Retrieves the data of a data stream by its name: that of the unnamed data stream, as
    /// `get_data_stream` gives it; fake file entries have no named data streams.
    pub fn get_data_stream_by_name(&self, name: Option<&PathComponent>) -> (result: Result<
        Option<&[u8]>,
        VfsError,
    >)
        ensures
            name is Some ==> result matches Ok(None),
            name is None ==> (self@.file_type != VfsFileType::File ==> result matches Ok(None)),
            name is None && self@.file_type == VfsFileType::File ==> match self@.data {
                Some(data) => result matches Ok(Some(stream)) && stream@ == data,
                None => result == Err::<Option<&[u8]>, VfsError>(VfsError::MissingDataStream),
            },
    {
        match name {
            Some(_) => Ok(None),
            None => self.get_data_stream(),
        }
    }

    /// Retrieves the file type.
    pub fn get_file_type(&self) -> (file_type: VfsFileType)
        ensures
            file_type == self@.file_type,
    {
        self.file_type
    }

    /// Retrieves the name.
    pub fn get_name(&self) -> (name: &PathComponent)
        ensures
            name@ == self@.name,
    {
        &self.name
    }

    /// Retrieves the size.
    pub fn get_size(&self) -> (size: u64)
        ensures
            size == self@.size,
    {
        self.size
    }

    /// Determines if the file entry is the root directory.
    pub fn is_root_file_entry(&self) -> (root: bool)
        ensures
            root == (self@.name == ComponentView::Root),
    {
        self.name.is_root()
    }
}

} // verus!

verus! {

/// Paths with their file entries, in the order they were first added.
pub type FakeEntries = Seq<(Seq<ComponentView>, FakeFileEntry)>;

/// Index of the last pair with a path, or -1 where none has it.
pub open spec fn last_index_of(entries: FakeEntries, path: Seq<ComponentView>) -> int
    decreases entries.len(),
{
    if entries.len() == 0 {
        -1
    } else if entries.last().0 == path {
        entries.len() - 1
    } else {
        last_index_of(entries.drop_last(), path)
    }
}

/// The file entry at a path: that of the last pair with the path.
pub open spec fn entry_at(entries: FakeEntries, path: Seq<ComponentView>) -> Option<FakeFileEntry> {
    let index: int = last_index_of(entries, path);
    if index >= 0 {
        Some(entries[index].1)
    } else {
        None
    }
}

/// The pairs with a file entry set at a path: the last pair with the path gets the file
/// entry, or a pair is appended where none has the path.
pub open spec fn with_entry_at(
    entries: FakeEntries,
    path: Seq<ComponentView>,
    file_entry: FakeFileEntry,
) -> FakeEntries {
    let index: int = last_index_of(entries, path);
    if index >= 0 {
        entries.update(index, (path, file_entry))
    } else {
        entries.push((path, file_entry))
    }
}

/// Whether no path occurs twice.
pub open spec fn has_unique_paths(entries: FakeEntries) -> bool {
    forall|i: int, j: int| 0 <= i < j < entries.len() ==> entries[i].0 != entries[j].0
}

/// Path of the root directory.
pub open spec fn root_path() -> Seq<ComponentView> {
    seq![ComponentView::Root]
}

/// Path at which a file entry is added under a path: the path itself for a root entry,
/// otherwise the path joined with the name of the entry.
pub open spec fn added_entry_path(path: Seq<ComponentView>, name: ComponentView) -> Seq<ComponentView> {
    if name == ComponentView::Root {
        path
    } else {
        joined_with_component(path, name)
    }
}

/// Models of the stored pairs.
pub open spec fn entry_views(paths: Seq<(Path, Arc<FakeFileEntry>)>) -> FakeEntries {
    paths.map_values(|pair: (Path, Arc<FakeFileEntry>)| (pair.0@, *pair.1))
}

/// The last index of a path is where it occurs and no later pair has it; -1 where no pair
/// has it.
pub proof fn lemma_last_index_of(entries: FakeEntries, path: Seq<ComponentView>)
    ensures
        -1 <= last_index_of(entries, path) < entries.len(),
        last_index_of(entries, path) >= 0 ==> entries[last_index_of(entries, path)].0 == path,
        forall|j: int|
            last_index_of(entries, path) < j < entries.len() ==> #[trigger] entries[j].0 != path,
    decreases entries.len(),
{
    if entries.len() > 0 && entries.last().0 != path {
        lemma_last_index_of(entries.drop_last(), path);
        assert forall|j: int| last_index_of(entries, path) < j < entries.len() implies #[trigger] entries[j].0 != path by {
            if j < entries.len() - 1 {
                assert(entries.drop_last()[j] == entries[j]);
            }
        }
    }
}

/// A pair with the path, after which no pair has it, is at the last index of the path.
proof fn lemma_last_index_of_at(entries: FakeEntries, path: Seq<ComponentView>, index: int)
    requires
        -1 <= index < entries.len(),
        index >= 0 ==> entries[index].0 == path,
        forall|j: int| index < j < entries.len() ==> #[trigger] entries[j].0 != path,
    ensures
        last_index_of(entries, path) == index,
    decreases entries.len(),
{
    if entries.len() > 0 && index < entries.len() - 1 {
        assert(entries[entries.len() - 1].0 != path);
        lemma_last_index_of_at(entries.drop_last(), path, index);
    }
}

/// Pairs with the same paths, position by position, have the same last indices.
proof fn lemma_last_index_of_same_paths(
    entries: FakeEntries,
    other_entries: FakeEntries,
    path: Seq<ComponentView>,
)
    requires
        entries.len() == other_entries.len(),
        forall|j: int| 0 <= j < entries.len() ==> #[trigger] entries[j].0 == other_entries[j].0,
    ensures
        last_index_of(entries, path) == last_index_of(other_entries, path),
{
    lemma_last_index_of(entries, path);
    let index: int = last_index_of(entries, path);
    assert forall|j: int| index < j < other_entries.len() implies #[trigger] other_entries[j].0
        != path by {
        assert(entries[j].0 == other_entries[j].0);
    }
    lemma_last_index_of_at(other_entries, path, index);
}

/// What a read gives back of a write: after the file entry at a path is set, the path has
/// that file entry and every other path keeps its file entry.
pub proof fn law_entry_at_after_set(
    entries: FakeEntries,
    path: Seq<ComponentView>,
    file_entry: FakeFileEntry,
    other: Seq<ComponentView>,
)
    ensures
        entry_at(with_entry_at(entries, path, file_entry), path) == Some(file_entry),
        other != path ==> entry_at(with_entry_at(entries, path, file_entry), other) == entry_at(
            entries,
            other,
        ),
{
    lemma_last_index_of(entries, path);
    let index: int = last_index_of(entries, path);
    let updated: FakeEntries = with_entry_at(entries, path, file_entry);
    if index >= 0 {
        assert forall|j: int| index < j < updated.len() implies #[trigger] updated[j].0 != path by {
            assert(updated[j] == entries[j]);
        }
        lemma_last_index_of_at(updated, path, index);
        assert forall|j: int| 0 <= j < entries.len() implies #[trigger] entries[j].0 == updated[j].0 by {
        }
        lemma_last_index_of_same_paths(entries, updated, other);
        lemma_last_index_of(entries, other);
        let other_index: int = last_index_of(entries, other);
        if other != path && other_index >= 0 {
            assert(other_index != index);
            assert(updated[other_index] == entries[other_index]);
        }
    } else {
        lemma_last_index_of_at(updated, path, entries.len() as int);
        if other != path {
            assert(updated.drop_last() =~= entries);
            assert(last_index_of(updated, other) == last_index_of(entries, other));
            lemma_last_index_of(entries, other);
            let other_index: int = last_index_of(entries, other);
            if other_index >= 0 {
                assert(updated[other_index] == entries[other_index]);
            }
        }
    }
}

/// Setting the file entry at a path keeps paths unique.
pub proof fn law_unique_paths_after_set(
    entries: FakeEntries,
    path: Seq<ComponentView>,
    file_entry: FakeFileEntry,
)
    requires
        has_unique_paths(entries),
    ensures
        has_unique_paths(with_entry_at(entries, path, file_entry)),
{
    lemma_last_index_of(entries, path);
    let index: int = last_index_of(entries, path);
    let updated: FakeEntries = with_entry_at(entries, path, file_entry);
    if index >= 0 {
        assert forall|i: int, j: int| 0 <= i < j < updated.len() implies updated[i].0 != updated[j].0 by {
            assert(updated[i].0 == entries[i].0);
            assert(updated[j].0 == entries[j].0);
        }
    } else {
        assert forall|i: int, j: int| 0 <= i < j < updated.len() implies updated[i].0 != updated[j].0 by {
            if j < entries.len() {
                assert(updated[i] == entries[i]);
                assert(updated[j] == entries[j]);
            } else {
                assert(updated[i] == entries[i]);
            }
        }
    }
}

} // verus!

verus! {

/// Fake file system: file entries kept in memory by path.
pub struct FakeFileSystem {
    paths: Vec<(Path, Arc<FakeFileEntry>)>,
}

impl FakeFileSystem {
    /// Paths with their file entries.
    pub closed spec fn entries(&self) -> FakeEntries {
        entry_views(self.paths@)
    }

    /// Whether no path occurs twice and the root directory has a file entry.
    pub open spec fn wf(&self) -> bool {
        &&& has_unique_paths(self.entries())
        &&& entry_at(self.entries(), root_path()) is Some
    }

    /// Index of the last stored pair with a path.
    fn find_path(&self, path: &Path) -> (index: Option<usize>)
        ensures
            index is Some <==> last_index_of(self.entries(), path@) >= 0,
            index matches Some(i) ==> i as int == last_index_of(self.entries(), path@) && i
                < self.paths@.len() && self.entries()[i as int] == (
                self.paths@[i as int].0@,
                *self.paths@[i as int].1,
            ),
    {
        let ghost entries: FakeEntries = self.entries();
        let mut index: usize = self.paths.len();
        while index > 0
            invariant
                index <= self.paths.len(),
                entries == self.entries(),
                entries.len() == self.paths.len(),
                forall|j: int| index <= j < entries.len() ==> #[trigger] entries[j].0 != path@,
            decreases index,
        {
            if self.paths[index - 1].0.equals(path) {
                proof {
                    lemma_last_index_of_at(entries, path@, index - 1);
                }
                return Some(index - 1);
            }
            index -= 1;
        }
        proof {
            lemma_last_index_of_at(entries, path@, -1);
        }
        None
    }

    /// Creates a new file system that holds the root directory.
    pub fn new() -> (file_system: Self)
        ensures
            file_system.wf(),
            file_system.entries().len() == 1,
            file_system.entries()[0].0 == root_path(),
            file_system.entries()[0].1@ == (FakeEntryView {
                name: ComponentView::Root,
                file_type: VfsFileType::Directory,
                data: None,
                size: 0,
            }),
            file_system.entries()[0].1.has_times(),
    {
        let root_path_value: Path = Path { components: vec![PathComponent::Root] };
        let root_file_entry: FakeFileEntry = FakeFileEntry::new_root();
        let file_system: FakeFileSystem = FakeFileSystem {
            paths: vec![(root_path_value, Arc::new(root_file_entry))],
        };
        assert(root_path_value@ =~= root_path());
        assert(file_system.entries().len() == 1);
        assert(file_system.entries()[0].0 == root_path());
        file_system
    }

    /// Adds a file entry under a path: at the path itself for a root entry, otherwise at the
    /// path joined with the name of the entry. Where that path already has a file entry, the
    /// new entry replaces it and the result is `PathAlreadySet`.
    pub fn add_file_entry(&mut self, path: Path, file_entry: FakeFileEntry) -> (result: Result<
        (),
        VfsError,
    >)
        ensures
            final(self).entries() == with_entry_at(
                old(self).entries(),
                added_entry_path(path@, file_entry@.name),
                file_entry,
            ),
            result == (if entry_at(
                old(self).entries(),
                added_entry_path(path@, file_entry@.name),
            ) is Some {
                Err::<(), VfsError>(VfsError::PathAlreadySet)
            } else {
                Ok::<(), VfsError>(())
            }),
            old(self).wf() ==> final(self).wf(),
    {
        let file_entry_path: Path = if file_entry.get_name().is_root() {
            path
        } else {
            path.new_with_join_component(file_entry.get_name())
        };
        let ghost entries: FakeEntries = self.entries();
        let ghost target: Seq<ComponentView> = file_entry_path@;
        proof {
            lemma_last_index_of(entries, target);
            law_entry_at_after_set(entries, target, file_entry, root_path());
            if has_unique_paths(entries) {
                law_unique_paths_after_set(entries, target, file_entry);
            }
        }
        match self.find_path(&file_entry_path) {
            Some(index) => {
                self.paths.set(index, (file_entry_path, Arc::new(file_entry)));
                assert(self.entries() =~= with_entry_at(entries, target, file_entry));
                Err(VfsError::PathAlreadySet)
            },
            None => {
                self.paths.push((file_entry_path, Arc::new(file_entry)));
                assert(self.entries() =~= with_entry_at(entries, target, file_entry));
                Ok(())
            },
        }
    }

    /// Determines if the file entry with the specified path exists.
    pub fn file_entry_exists(&self, path: &Path) -> (result: Result<bool, VfsError>)
        ensures
            result == Ok::<bool, VfsError>(entry_at(self.entries(), path@) is Some),
    {
        match self.find_path(path) {
            Some(_) => Ok(true),
            None => Ok(false),
        }
    }

    /// Retrieves the file entry with the specified path.
    pub fn get_file_entry_by_path(&self, path: &Path) -> (result: Result<
        Option<Arc<FakeFileEntry>>,
        VfsError,
    >)
        ensures
            result matches Ok(found) && match entry_at(self.entries(), path@) {
                Some(file_entry) => found matches Some(entry) && *entry == file_entry,
                None => found is None,
            },
    {
        match self.find_path(path) {
            Some(index) => {
                let entry: Arc<FakeFileEntry> = self.paths[index].1.clone();
                Ok(Some(entry))
            },
            None => Ok(None),
        }
    }

    /// Retrieves the root file entry.
    pub fn get_root_file_entry(&self) -> (result: Result<Arc<FakeFileEntry>, VfsError>)
        ensures
            match entry_at(self.entries(), root_path()) {
                Some(file_entry) => result matches Ok(entry) && *entry == file_entry,
                None => result == Err::<Arc<FakeFileEntry>, VfsError>(
                    VfsError::MissingRootFileEntry,
                ),
            },
    {
        let path: Path = Path { components: vec![PathComponent::Root] };
        assert(path@ =~= root_path());
        match self.find_path(&path) {
            Some(index) => Ok(self.paths[index].1.clone()),
            None => Err(VfsError::MissingRootFileEntry),
        }
    }
}

} // verus!
