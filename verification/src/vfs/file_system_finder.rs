//! Finder over the file entries of an image file system: it drives the walk of `VfsFinder`
//! and retrieves the file entries that the walk asks for, handing out every file entry after
//! its sub file entries, with its path.

use vstd::prelude::*;

use super::enums::VfsType;
use super::file_entry::VfsFileEntry;
use super::file_system::VfsFileSystem;
use super::finder::{
    answered, finder_accepts, finder_wf, forest_fits, initial_finder, law_finished_stays_finished,
    law_walk_hands_out_every_path, postorder_paths, stepped, tree_fits, walk, walk_steps,
    forest_paths, EntryTree, FinderAction, FinderActionView, FinderEvent, FinderEventView, FinderFailure,
    FinderPending, FinderView, VfsFinder,
};
use super::image::{image_entry_name, image_entry_of, ImageEntryView, ImageTarget};
use super::path::{ComponentView, Path, PathComponent};

verus! {

/// Tree of a layer file entry: its name, and no sub file entries.
pub open spec fn layer_tree(entry: ImageEntryView) -> EntryTree {
    EntryTree::Entry { name: image_entry_name(entry), sub_entries: seq![] }
}

/// Tree of an image with a prefix and layers: the root, with one layer file entry per layer.
pub open spec fn image_tree(prefix: Seq<char>, layers: Seq<crate::vfs::image::VfsImageLayer>) -> EntryTree {
    EntryTree::Entry {
        name: ComponentView::Root,
        sub_entries: Seq::new(
            layers.len(),
            |index: int| layer_tree(image_entry_of(ImageTarget::Layer(index as nat), prefix, layers)),
        ),
    }
}

/// Tree below an image file entry.
pub open spec fn entry_tree(entry: ImageEntryView) -> EntryTree {
    match entry {
        ImageEntryView::Root { prefix, layers } => image_tree(prefix, layers),
        ImageEntryView::Layer { .. } => layer_tree(entry),
    }
}

/// Tree of the file entries of a file system; that of an image file system.
pub open spec fn file_system_tree(file_system: VfsFileSystem) -> EntryTree {
    match file_system {
        VfsFileSystem::Image(_, image) => image_tree(image.name_prefix(), image.layers()),
        VfsFileSystem::Fake(_) => EntryTree::Entry { name: ComponentView::Root, sub_entries: seq![] },
    }
}

/// Whether file entries are those of a stack of trees, each an image file entry of a type.
pub open spec fn entries_match(entries: Seq<VfsFileEntry>, stack: Seq<EntryTree>, vfs_type: VfsType) -> bool {
    &&& entries.len() == stack.len()
    &&& forall|index: int|
        0 <= index < entries.len() ==> (#[trigger] entries[index] matches VfsFileEntry::Image(
            entry_type,
            entry,
        ) && entry_type == vfs_type && entry_tree(entry@) == stack[index])
}

/// Whether a finder agrees with the stack of trees that a walk over a tree keeps: before the
/// walk nothing is on the stack; the tree is on it alone while the root file entry is asked
/// for; a sub file entry is on it, over the file entry it belongs to, while it is asked for;
/// otherwise there is one tree per walk state and per path component. Every path component
/// is the name of its tree, every retrieved count is that of the tree's sub file entries, and
/// every count fits in a usize.
pub open spec fn walk_agrees(tree: EntryTree, finder: FinderView, stack: Seq<EntryTree>) -> bool {
    let count: int = finder.states.len() as int;
    &&& !finder.failed_on_entry
    &&& !finder.started ==> stack.len() == 0 && finder.pending == FinderPending::NextRequest
    &&& finder.started ==> match finder.pending {
        FinderPending::RootFileEntry => stack == seq![tree],
        FinderPending::SubFileEntry(index) => {
            &&& stack.len() == count + 1
            &&& finder.path.len() == count
            &&& count > 0
            &&& index < stack[count - 1]->sub_entries.len()
            &&& stack.last() == stack[count - 1]->sub_entries[index as int]
        },
        _ => stack.len() == count && finder.path.len() == count,
    }
    &&& tree->sub_entries.len() <= usize::MAX
    &&& forall|index: int|
        0 <= index < stack.len() ==> (#[trigger] stack[index])->sub_entries.len() <= usize::MAX
    &&& forall|index: int|
        0 <= index < count && index < finder.path.len() ==> #[trigger] finder.path[index]
            == stack[index]->name
    &&& forall|index: int|
        0 <= index < count ==> (#[trigger] finder.states[index]).is_initialized ==> finder.states[index].number_of_sub_file_entries
            == stack[index]->sub_entries.len()
}

/// Whether an event is the one that the walk answers with.
pub open spec fn event_agrees(finder: FinderView, stack: Seq<EntryTree>, event: FinderEventView) -> bool {
    match finder.pending {
        FinderPending::NextRequest => event == FinderEventView::NextRequest,
        FinderPending::RootFileEntry => event == FinderEventView::RootFileEntry(true),
        FinderPending::NumberOfSubFileEntries => event == FinderEventView::NumberOfSubFileEntries(
            stack.last()->sub_entries.len() as usize,
        ),
        FinderPending::SubFileEntry(_) => event == FinderEventView::SubFileEntry(
            Some(stack.last()->name),
        ),
    }
}

/// Finder over the file entries of an image file system.
pub struct VfsFileSystemFinder {
    finder: VfsFinder,
    file_entries: Vec<VfsFileEntry>,
    tree: Ghost<EntryTree>,
    vfs_type: Ghost<VfsType>,
    stack: Ghost<Seq<EntryTree>>,
    remaining: Ghost<Seq<Seq<ComponentView>>>,
    steps: Ghost<nat>,
}

impl VfsFileSystemFinder {
    /// Paths that the finder still hands out, in order.
    pub closed spec fn remaining(&self) -> Seq<Seq<ComponentView>> {
        self.remaining@
    }

    /// Whether the finder walks a file system: an image file system of its type and tree.
    pub closed spec fn walks(&self, file_system: VfsFileSystem) -> bool {
        &&& file_system matches VfsFileSystem::Image(vfs_type, _)
        &&& vfs_type == self.vfs_type@
        &&& file_system_tree(file_system) == self.tree@
    }

    /// Whether the finder is consistent: its walk hands out the remaining paths, and its file
    /// entries are those of the walk's stack.
    pub closed spec fn wf(&self) -> bool {
        &&& finder_wf(self.finder@)
        &&& self.finder@.pending == FinderPending::NextRequest
        &&& walk_agrees(self.tree@, self.finder@, self.stack@)
        &&& entries_match(self.file_entries@, self.stack@, self.vfs_type@)
        &&& walk(self.tree@, self.finder@, self.stack@, FinderEventView::NextRequest, self.steps@)
            == Some(self.remaining@)
    }

    /// Creates a new finder over an image file system.
    pub fn new(file_system: &VfsFileSystem) -> (finder: Self)
        requires
            file_system is Image,
        ensures
            finder.wf(),
            finder.walks(*file_system),
            finder.remaining() == postorder_paths(
                file_system_tree(*file_system),
                seq![ComponentView::Root],
            ),
    {
        let ghost tree: EntryTree = file_system_tree(*file_system);
        let ghost vfs_type: VfsType = match file_system {
            VfsFileSystem::Image(vfs_type, _) => *vfs_type,
            VfsFileSystem::Fake(_) => VfsType::Fake,
        };
        match file_system {
            VfsFileSystem::Image(_, image) => {
                let count: usize = image.get_root_file_entry().get_number_of_sub_file_entries();
                proof {
                    lemma_leaves_fit(tree->sub_entries, 0);
                }
            },
            VfsFileSystem::Fake(_) => {},
        }
        proof {
            law_walk_hands_out_every_path(tree);
        }
        let ghost empty: Seq<EntryTree> = seq![];
        let ghost remaining: Seq<Seq<ComponentView>> = postorder_paths(
            tree,
            seq![ComponentView::Root],
        );
        let ghost steps: nat = walk_steps(tree) + 2;
        let file_entries: Vec<VfsFileEntry> = Vec::new();
        proof {
            assert(file_entries@ =~= Seq::<VfsFileEntry>::empty());
        }
        VfsFileSystemFinder {
            finder: VfsFinder::new(),
            file_entries,
            tree: Ghost(tree),
            vfs_type: Ghost(vfs_type),
            stack: Ghost(empty),
            remaining: Ghost(remaining),
            steps: Ghost(steps),
        }
    }

    /// Retrieves the next file entry of the walk with its path: each file entry after its sub
    /// file entries, the root last; nothing once the walk is over.
    pub fn next(&mut self, file_system: &VfsFileSystem) -> (item: Option<
        Result<(VfsFileEntry, Path), FinderFailure>,
    >)
        requires
            old(self).wf(),
            old(self).walks(*file_system),
        ensures
            final(self).wf(),
            final(self).walks(*file_system),
            old(self).remaining().len() > 0 ==> {
                &&& item matches Some(Ok((entry, path)))
                &&& path@ == old(self).remaining()[0]
                &&& entry matches VfsFileEntry::Image(_, image_entry) && image_entry_name(
                    image_entry@,
                ) == path@.last()
                &&& final(self).remaining() == old(self).remaining().drop_first()
            },
            old(self).remaining().len() == 0 ==> item is None && final(self).remaining().len()
                == 0,
    {
        let mut event: FinderEvent = FinderEvent::NextRequest;
        loop
            invariant
                finder_wf(self.finder@),
                finder_accepts(self.finder@, event@),
                event_agrees(self.finder@, self.stack@, event@),
                walk_agrees(self.tree@, self.finder@, self.stack@),
                entries_match(self.file_entries@, self.stack@, self.vfs_type@),
                self.walks(*file_system),
                walk(self.tree@, self.finder@, self.stack@, event@, self.steps@) == Some(
                    old(self).remaining(),
                ),
                self.remaining@ == old(self).remaining(),
            decreases self.steps@,
        {
            let ghost before: FinderView = self.finder@;
            let ghost stack: Seq<EntryTree> = self.stack@;
            let ghost tree: EntryTree = self.tree@;
            let ghost steps: nat = self.steps@;
            let ghost event_view: FinderEventView = event@;
            let action: FinderAction = self.finder.step(event);
            let ghost after: FinderView = self.finder@;
            let ghost answer: (FinderEventView, Seq<EntryTree>) = answered(tree, stack, action@);
            assert(steps > 0);
            assert(stepped(before, event_view) == (after, action@));
            match action {
                FinderAction::RetrieveRootFileEntry => {
                    let root: VfsFileEntry = match file_system.get_root_file_entry() {
                        Ok(Some(root)) => root,
                        _ => return None,
                    };
                    self.file_entries.push(root);
                    event = FinderEvent::RootFileEntry(true);
                    proof {
                        self.stack@ = answer.1;
                        self.steps@ = (steps - 1) as nat;
                        assert(self.file_entries@[0] == root);
                        assert(walk_agrees(self.tree@, self.finder@, self.stack@));
                    }
                },
                FinderAction::RetrieveNumberOfSubFileEntries => {
                    let number_of_entries: usize = self.file_entries.len();
                    let count: usize = match self.file_entries[number_of_entries - 1].get_number_of_sub_file_entries() {
                        Ok(count) => count,
                        Err(_) => return None,
                    };
                    event = FinderEvent::NumberOfSubFileEntries(count);
                    proof {
                        self.steps@ = (steps - 1) as nat;
                        assert(self.file_entries@[number_of_entries - 1] matches VfsFileEntry::Image(_, e) && entry_tree(e@) == stack.last());
                        assert(walk_agrees(self.tree@, self.finder@, self.stack@));
                    }
                },
                FinderAction::RetrieveSubFileEntry(index) => {
                    let number_of_entries: usize = self.file_entries.len();
                    proof {
                        assert(self.file_entries@[number_of_entries - 1] matches VfsFileEntry::Image(_, e) && entry_tree(e@) == stack.last());
                    }
                    let sub_file_entry: VfsFileEntry = match self.file_entries[number_of_entries
                        - 1].get_sub_file_entry_by_index(index) {
                        Ok(sub_file_entry) => sub_file_entry,
                        Err(_) => return None,
                    };
                    let name: PathComponent = match sub_file_entry.get_name() {
                        Some(name) => name,
                        None => return None,
                    };
                    self.file_entries.push(sub_file_entry);
                    event = FinderEvent::SubFileEntry(Some(name));
                    proof {
                        self.stack@ = answer.1;
                        self.steps@ = (steps - 1) as nat;
                        assert(walk_agrees(self.tree@, self.finder@, self.stack@));
                    }
                },
                FinderAction::HandOut(path) => {
                    let file_entry: VfsFileEntry = match self.file_entries.pop() {
                        Some(file_entry) => file_entry,
                        None => return None,
                    };
                    proof {
                        self.stack@ = answer.1;
                        self.steps@ = (steps - 1) as nat;
                        let rest = walk(tree, after, answer.1, FinderEventView::NextRequest, self.steps@);
                        assert(rest is Some);
                        assert(seq![path@] + rest->Some_0 == old(self).remaining());
                        assert(rest->Some_0 =~= (seq![path@] + rest->Some_0).drop_first());
                        self.remaining@ = old(self).remaining().drop_first();
                    }
                    return Some(Ok((file_entry, path)));
                },
                FinderAction::Fail(failure) => {
                    return Some(Err(failure));
                },
                FinderAction::Finished => {
                    proof {
                        law_finished_stays_finished(before, event_view);
                        self.steps@ = 1;
                    }
                    return None;
                },
            }
        }
    }
}

/// Leaves fit, as `tree_fits` says, from an index on.
proof fn lemma_leaves_fit(trees: Seq<EntryTree>, from: int)
    requires
        forall|index: int| 0 <= index < trees.len() ==> (#[trigger] trees[index])->sub_entries.len() == 0,
    ensures
        forest_fits(trees, from),
    decreases trees.len() - from,
{
    if 0 <= from < trees.len() {
        lemma_leaves_fit(trees, from + 1);
        assert(trees[from]->sub_entries.len() == 0);
        assert(forest_fits(trees[from]->sub_entries, 0));
        assert(tree_fits(trees[from]));
    }
}

/// Path of a layer file entry: the root and the layer's name.
pub open spec fn layer_path(prefix: Seq<char>, layers: Seq<crate::vfs::image::VfsImageLayer>, index: int) -> Seq<ComponentView> {
    seq![
        ComponentView::Root,
        image_entry_name(image_entry_of(ImageTarget::Layer(index as nat), prefix, layers)),
    ]
}

/// Paths of the leaves under the root, from an index on, are the layer paths.
proof fn lemma_leaf_paths(prefix: Seq<char>, layers: Seq<crate::vfs::image::VfsImageLayer>, from: int)
    requires
        0 <= from <= layers.len(),
    ensures
        forest_paths(image_tree(prefix, layers)->sub_entries, seq![ComponentView::Root], from)
            =~= Seq::new(
            (layers.len() - from) as nat,
            |index: int| layer_path(prefix, layers, index + from),
        ),
    decreases layers.len() - from,
{
    let trees: Seq<EntryTree> = image_tree(prefix, layers)->sub_entries;
    if from < layers.len() {
        lemma_leaf_paths(prefix, layers, from + 1);
        let leaf: EntryTree = trees[from];
        let path: Seq<ComponentView> = seq![ComponentView::Root].push(leaf->name);
        assert(forest_paths(leaf->sub_entries, path, 0) =~= Seq::<Seq<ComponentView>>::empty());
        assert(postorder_paths(leaf, path) =~= seq![path]);
        assert(path =~= layer_path(prefix, layers, from));
    }
}

/// An image file system hands out the paths of its layers in layer order, and the root last.
pub proof fn law_image_walk_order(prefix: Seq<char>, layers: Seq<crate::vfs::image::VfsImageLayer>)
    ensures
        postorder_paths(image_tree(prefix, layers), seq![ComponentView::Root]) == Seq::new(
            layers.len(),
            |index: int| layer_path(prefix, layers, index),
        ).push(seq![ComponentView::Root]),
{
    lemma_leaf_paths(prefix, layers, 0);
    assert(Seq::new((layers.len() - 0) as nat, |index: int| layer_path(prefix, layers, index + 0))
        =~= Seq::new(layers.len(), |index: int| layer_path(prefix, layers, index)));
    assert(postorder_paths(image_tree(prefix, layers), seq![ComponentView::Root]) =~= Seq::new(
        layers.len(),
        |index: int| layer_path(prefix, layers, index),
    ).push(seq![ComponentView::Root]));
}

} // verus!
