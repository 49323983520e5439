//! Finder that walks a file system depth first and hands out every file entry after its sub
//! file entries, with its path.
//!
//! The walk needs file entries, which live with the file system; the finder holds what the
//! walk decides on and tells its caller, step by step, what to retrieve. The caller keeps the
//! file entries on a stack of its own: it pushes the root file entry and each sub file entry
//! that has a name, pops the top one when it is handed out, and drops it where retrieving its
//! number of sub file entries failed.

use vstd::prelude::*;

use super::path::{ComponentView, Path, PathComponent};

verus! {

/// Where the walk stands at one file entry.
#[derive(Clone, Copy, Debug)]
pub struct VfsFinderState {
    /// Number of sub file entries, once retrieved.
    pub number_of_sub_file_entries: usize,
    /// Index of the next sub file entry to walk.
    pub sub_file_entry_index: usize,
    /// Whether the number of sub file entries was retrieved.
    pub is_initialized: bool,
}

/// What the finder waits for.
#[derive(Clone, Copy, Debug, PartialEq, Eq, Structural)]
pub enum FinderPending {
    /// A request for the next file entry.
    NextRequest,
    /// The root file entry.
    RootFileEntry,
    /// The number of sub file entries of the file entry on top of the stack.
    NumberOfSubFileEntries,
    /// The sub file entry with an index of the file entry on top of the stack.
    SubFileEntry(usize),
}

/// What happened since the finder's last action.
pub enum FinderEvent {
    /// The next file entry is asked for.
    NextRequest,
    /// The root file entry was retrieved; whether the file system has one.
    RootFileEntry(bool),
    /// The number of sub file entries was retrieved.
    NumberOfSubFileEntries(usize),
    /// The sub file entry was retrieved, with its name where it has one.
    SubFileEntry(Option<PathComponent>),
    /// Retrieving what the finder waited for failed.
    RetrievalFailed,
}

/// What the walk failed on.
#[derive(Clone, Copy, Debug, PartialEq, Eq, Structural)]
pub enum FinderFailure {
    /// Retrieving the root file entry.
    RootFileEntry,
    /// Retrieving the number of sub file entries; the file entry is dropped.
    NumberOfSubFileEntries,
    /// Retrieving the sub file entry with an index.
    SubFileEntry(usize),
    /// The sub file entry has no name; it is dropped.
    MissingName,
}

/// What the caller is to do next.
pub enum FinderAction {
    /// Retrieve the root file entry and push it, where there is one.
    RetrieveRootFileEntry,
    /// Retrieve the number of sub file entries of the file entry on top of the stack.
    RetrieveNumberOfSubFileEntries,
    /// Retrieve the sub file entry with an index of the file entry on top of the stack, and
    /// push it where it has a name.
    RetrieveSubFileEntry(usize),
    /// Pop the file entry on top of the stack and hand it out with this path.
    HandOut(Path),
    /// Hand out the failure.
    Fail(FinderFailure),
    /// The walk is over.
    Finished,
}

/// Virtual File System (VFS) finder.
pub struct VfsFinder {
    path: Path,
    states: Vec<VfsFinderState>,
    search_started: bool,
    error_encountered: bool,
    pending: FinderPending,
}

/// Whether a walk state is consistent: a retrieved count is never passed by the index, and
/// the index stays at zero before the count is retrieved.
pub open spec fn state_is_consistent(state: VfsFinderState) -> bool {
    if state.is_initialized {
        state.sub_file_entry_index <= state.number_of_sub_file_entries
    } else {
        state.sub_file_entry_index == 0
    }
}

/// Walk state of a file entry that was just pushed.
pub open spec fn fresh_state() -> VfsFinderState {
    VfsFinderState { number_of_sub_file_entries: 0, sub_file_entry_index: 0, is_initialized: false }
}

/// Model of a finder.
pub ghost struct FinderView {
    /// Path of the file entry on top of the stack.
    pub path: Seq<ComponentView>,
    /// Walk states, from the root down to the file entry on top of the stack.
    pub states: Seq<VfsFinderState>,
    /// Whether the walk has started.
    pub started: bool,
    /// Whether the last step failed on a file entry that was dropped.
    pub failed_on_entry: bool,
    /// What the finder waits for.
    pub pending: FinderPending,
}

/// Whether a finder is consistent: before the walk, and while no file entry is on the stack
/// yet, the path is the root alone; otherwise the path has one component per file entry on
/// the stack (one more right after a file entry was dropped); the path starts at the root;
/// what the finder waits for concerns the file entry on top of the stack.
pub open spec fn finder_wf(finder: FinderView) -> bool {
    &&& !finder.started ==> {
        &&& finder.states.len() == 0
        &&& finder.path == seq![ComponentView::Root]
        &&& !finder.failed_on_entry
        &&& finder.pending == FinderPending::NextRequest
    }
    &&& finder.started ==> {
        ||| finder.path.len() == finder.states.len() + (if finder.failed_on_entry {
            1int
        } else {
            0int
        })
        ||| finder.states.len() == 0 && finder.path == seq![ComponentView::Root]
            && !finder.failed_on_entry
    }
    &&& finder.path.len() > 0 ==> finder.path[0] == ComponentView::Root
    &&& forall|i: int|
        0 <= i < finder.states.len() ==> state_is_consistent(#[trigger] finder.states[i])
    &&& finder.failed_on_entry ==> finder.pending == FinderPending::NextRequest
    &&& finder.pending == FinderPending::RootFileEntry ==> {
        &&& finder.states.len() == 0
        &&& finder.started
        &&& finder.path == seq![ComponentView::Root]
    }
    &&& finder.pending == FinderPending::NumberOfSubFileEntries ==> {
        &&& finder.states.len() > 0
        &&& !finder.states.last().is_initialized
    }
    &&& finder.pending is SubFileEntry ==> finder.states.len() > 0
}

/// Model of an event.
pub ghost enum FinderEventView {
    NextRequest,
    RootFileEntry(bool),
    NumberOfSubFileEntries(usize),
    SubFileEntry(Option<ComponentView>),
    RetrievalFailed,
}

/// Model of an action.
pub ghost enum FinderActionView {
    RetrieveRootFileEntry,
    RetrieveNumberOfSubFileEntries,
    RetrieveSubFileEntry(usize),
    HandOut(Seq<ComponentView>),
    Fail(FinderFailure),
    Finished,
}

impl View for FinderEvent {
    type V = FinderEventView;

    open spec fn view(&self) -> FinderEventView {
        match self {
            FinderEvent::NextRequest => FinderEventView::NextRequest,
            FinderEvent::RootFileEntry(found) => FinderEventView::RootFileEntry(*found),
            FinderEvent::NumberOfSubFileEntries(count) => FinderEventView::NumberOfSubFileEntries(
                *count,
            ),
            FinderEvent::SubFileEntry(name) => FinderEventView::SubFileEntry(
                match name {
                    Some(name) => Some(name@),
                    None => None,
                },
            ),
            FinderEvent::RetrievalFailed => FinderEventView::RetrievalFailed,
        }
    }
}

impl View for FinderAction {
    type V = FinderActionView;

    open spec fn view(&self) -> FinderActionView {
        match self {
            FinderAction::RetrieveRootFileEntry => FinderActionView::RetrieveRootFileEntry,
            FinderAction::RetrieveNumberOfSubFileEntries => {
                FinderActionView::RetrieveNumberOfSubFileEntries
            },
            FinderAction::RetrieveSubFileEntry(index) => FinderActionView::RetrieveSubFileEntry(
                *index,
            ),
            FinderAction::HandOut(path) => FinderActionView::HandOut(path@),
            FinderAction::Fail(failure) => FinderActionView::Fail(*failure),
            FinderAction::Finished => FinderActionView::Finished,
        }
    }
}

/// Whether a finder accepts an event: the answer to what it waits for, or a failure to
/// retrieve it.
pub open spec fn finder_accepts(finder: FinderView, event: FinderEventView) -> bool {
    match event {
        FinderEventView::NextRequest => finder.pending == FinderPending::NextRequest,
        FinderEventView::RootFileEntry(_) => finder.pending == FinderPending::RootFileEntry,
        FinderEventView::NumberOfSubFileEntries(_) => finder.pending
            == FinderPending::NumberOfSubFileEntries,
        FinderEventView::SubFileEntry(_) => finder.pending is SubFileEntry,
        FinderEventView::RetrievalFailed => finder.pending != FinderPending::NextRequest,
    }
}

/// The walk taken forward from the file entry on top of the stack, with the action: the walk
/// is over without file entries; an entry whose number of sub file entries is unknown asks for
/// it; an entry whose sub file entries were all walked is handed out with the path and popped;
/// otherwise its next sub file entry is asked for.
pub open spec fn advanced(before: FinderView) -> (FinderView, FinderActionView) {
    let states: Seq<VfsFinderState> = before.states;
    if states.len() == 0 {
        (before, FinderActionView::Finished)
    } else if !states.last().is_initialized {
        (
            FinderView { pending: FinderPending::NumberOfSubFileEntries, ..before },
            FinderActionView::RetrieveNumberOfSubFileEntries,
        )
    } else if states.last().sub_file_entry_index >= states.last().number_of_sub_file_entries {
        (
            FinderView { path: before.path.drop_last(), states: states.drop_last(), ..before },
            FinderActionView::HandOut(before.path),
        )
    } else {
        let index: usize = states.last().sub_file_entry_index;
        (
            FinderView {
                states: states.update(
                    states.len() - 1,
                    VfsFinderState { sub_file_entry_index: (index + 1) as usize, ..states.last() },
                ),
                pending: FinderPending::SubFileEntry(index),
                ..before
            },
            FinderActionView::RetrieveSubFileEntry(index),
        )
    }
}

/// One step of the walk on an event, with the action.
pub open spec fn stepped(before: FinderView, event: FinderEventView) -> (
    FinderView,
    FinderActionView,
) {
    let waiting: FinderView = FinderView { pending: FinderPending::NextRequest, ..before };
    match event {
        FinderEventView::NextRequest => if !before.started {
            (
                FinderView { started: true, pending: FinderPending::RootFileEntry, ..before },
                FinderActionView::RetrieveRootFileEntry,
            )
        } else if before.failed_on_entry {
            advanced(FinderView { path: before.path.drop_last(), failed_on_entry: false, ..before })
        } else {
            advanced(before)
        },
        FinderEventView::RootFileEntry(found) => if found {
            advanced(FinderView { states: before.states.push(fresh_state()), ..waiting })
        } else {
            (waiting, FinderActionView::Finished)
        },
        FinderEventView::NumberOfSubFileEntries(count) => advanced(
            FinderView {
                states: before.states.update(
                    before.states.len() - 1,
                    VfsFinderState {
                        number_of_sub_file_entries: count,
                        sub_file_entry_index: 0,
                        is_initialized: true,
                    },
                ),
                ..waiting
            },
        ),
        FinderEventView::SubFileEntry(name) => match name {
            Some(name) => advanced(
                FinderView {
                    path: before.path.push(name),
                    states: before.states.push(fresh_state()),
                    ..waiting
                },
            ),
            None => (waiting, FinderActionView::Fail(FinderFailure::MissingName)),
        },
        FinderEventView::RetrievalFailed => match before.pending {
            FinderPending::NumberOfSubFileEntries => (
                FinderView { states: before.states.drop_last(), failed_on_entry: true, ..waiting },
                FinderActionView::Fail(FinderFailure::NumberOfSubFileEntries),
            ),
            FinderPending::RootFileEntry => (
                waiting,
                FinderActionView::Fail(FinderFailure::RootFileEntry),
            ),
            FinderPending::SubFileEntry(index) => (
                waiting,
                FinderActionView::Fail(FinderFailure::SubFileEntry(index)),
            ),
            FinderPending::NextRequest => (before, FinderActionView::Finished),
        },
    }
}


impl View for VfsFinder {
    type V = FinderView;

    closed spec fn view(&self) -> FinderView {
        FinderView {
            path: self.path@,
            states: self.states@,
            started: self.search_started,
            failed_on_entry: self.error_encountered,
            pending: self.pending,
        }
    }
}

impl VfsFinder {
    /// Creates a new finder, which starts at the root.
    pub fn new() -> (finder: Self)
        ensures
            finder_wf(finder@),
            finder@ == initial_finder(),
    {
        let path: Path = Path { components: vec![PathComponent::Root] };
        assert(path@ =~= seq![ComponentView::Root]);
        let states: Vec<VfsFinderState> = Vec::new();
        assert(states@ =~= Seq::<VfsFinderState>::empty());
        VfsFinder {
            path,
            states,
            search_started: false,
            error_encountered: false,
            pending: FinderPending::NextRequest,
        }
    }

    /// Retrieves the path of the file entry on top of the stack.
    pub fn get_path(&self) -> (path: &Path)
        ensures
            path@ == self@.path,
    {
        &self.path
    }

    /// Retrieves what the finder waits for.
    pub fn get_pending(&self) -> (pending: FinderPending)
        ensures
            pending == self@.pending,
    {
        self.pending
    }

    /// Determines if the finder accepts an event.
    pub fn accepts_event(&self, event: &FinderEvent) -> (accepted: bool)
        ensures
            accepted == finder_accepts(self@, event@),
    {
        match event {
            FinderEvent::NextRequest => match self.pending {
                FinderPending::NextRequest => true,
                _ => false,
            },
            FinderEvent::RootFileEntry(_) => match self.pending {
                FinderPending::RootFileEntry => true,
                _ => false,
            },
            FinderEvent::NumberOfSubFileEntries(_) => match self.pending {
                FinderPending::NumberOfSubFileEntries => true,
                _ => false,
            },
            FinderEvent::SubFileEntry(_) => match self.pending {
                FinderPending::SubFileEntry(_) => true,
                _ => false,
            },
            FinderEvent::RetrievalFailed => match self.pending {
                FinderPending::NextRequest => false,
                _ => true,
            },
        }
    }

    /// Takes the walk forward from the file entry on top of the stack, up to the next
    /// retrieval or hand-out.
    fn advance(&mut self) -> (action: FinderAction)
        requires
            finder_wf(old(self)@),
            old(self)@.started,
            !old(self)@.failed_on_entry,
            old(self)@.pending == FinderPending::NextRequest,
        ensures
            finder_wf(final(self)@),
            final(self)@ == advanced(old(self)@).0,
            action@ == advanced(old(self)@).1,
    {
        let number_of_states: usize = self.states.len();
        if number_of_states == 0 {
            return FinderAction::Finished;
        }
        let state: VfsFinderState = self.states[number_of_states - 1];
        if !state.is_initialized {
            self.pending = FinderPending::NumberOfSubFileEntries;
            return FinderAction::RetrieveNumberOfSubFileEntries;
        }
        if state.sub_file_entry_index >= state.number_of_sub_file_entries {
            let path: Path = self.path.copy();
            self.states.pop();
            let _ = self.path.pop();
            assert(self.states@.len() > 0 ==> self.states@ =~= old(self).states@.drop_last());
            return FinderAction::HandOut(path);
        }
        let sub_file_entry_index: usize = state.sub_file_entry_index;
        let next_state: VfsFinderState = VfsFinderState {
            number_of_sub_file_entries: state.number_of_sub_file_entries,
            sub_file_entry_index: sub_file_entry_index + 1,
            is_initialized: true,
        };
        self.states.set(number_of_states - 1, next_state);
        self.pending = FinderPending::SubFileEntry(sub_file_entry_index);
        FinderAction::RetrieveSubFileEntry(sub_file_entry_index)
    }

    /// Takes one step of the walk: updates the finder with an event and says what the caller
    /// is to do next.
    pub fn step(&mut self, event: FinderEvent) -> (action: FinderAction)
        requires
            finder_wf(old(self)@),
            finder_accepts(old(self)@, event@),
        ensures
            finder_wf(final(self)@),
            final(self)@ == stepped(old(self)@, event@).0,
            action@ == stepped(old(self)@, event@).1,
    {
        match event {
            FinderEvent::NextRequest => {
                if !self.search_started {
                    self.search_started = true;
                    self.pending = FinderPending::RootFileEntry;
                    return FinderAction::RetrieveRootFileEntry;
                }
                if self.error_encountered {
                    let _ = self.path.pop();
                    self.error_encountered = false;
                }
                self.advance()
            },
            FinderEvent::RootFileEntry(found) => {
                self.pending = FinderPending::NextRequest;
                if !found {
                    return FinderAction::Finished;
                }
                self.states.push(
                    VfsFinderState {
                        number_of_sub_file_entries: 0,
                        sub_file_entry_index: 0,
                        is_initialized: false,
                    },
                );
                self.advance()
            },
            FinderEvent::NumberOfSubFileEntries(number_of_sub_file_entries) => {
                let number_of_states: usize = self.states.len();
                self.states.set(
                    number_of_states - 1,
                    VfsFinderState {
                        number_of_sub_file_entries,
                        sub_file_entry_index: 0,
                        is_initialized: true,
                    },
                );
                self.pending = FinderPending::NextRequest;
                self.advance()
            },
            FinderEvent::SubFileEntry(name) => {
                self.pending = FinderPending::NextRequest;
                match name {
                    Some(name) => {
                        self.path.push(name);
                        self.states.push(
                            VfsFinderState {
                                number_of_sub_file_entries: 0,
                                sub_file_entry_index: 0,
                                is_initialized: false,
                            },
                        );
                        self.advance()
                    },
                    None => FinderAction::Fail(FinderFailure::MissingName),
                }
            },
            FinderEvent::RetrievalFailed => {
                let pending: FinderPending = self.pending;
                self.pending = FinderPending::NextRequest;
                match pending {
                    FinderPending::RootFileEntry => FinderAction::Fail(FinderFailure::RootFileEntry),
                    FinderPending::NumberOfSubFileEntries => {
                        self.states.pop();
                        self.error_encountered = true;
                        FinderAction::Fail(FinderFailure::NumberOfSubFileEntries)
                    },
                    FinderPending::SubFileEntry(index) => FinderAction::Fail(
                        FinderFailure::SubFileEntry(index),
                    ),
                    FinderPending::NextRequest => FinderAction::Finished,
                }
            },
        }
    }
}

} // verus!

verus! {

/// Every path that a step hands out starts at the root, and has one component per file entry
/// that was on the stack: the file entry handed out and those it lies under.
pub proof fn law_handed_out_path(before: FinderView, event: FinderEventView)
    requires
        finder_wf(before),
        finder_accepts(before, event),
        stepped(before, event).1 is HandOut,
    ensures
        stepped(before, event).1 matches FinderActionView::HandOut(path) && path.len() > 0
            && path[0] == ComponentView::Root && path.len() == stepped(before, event).0.states.len()
            + 1,
{
}

} // verus!

verus! {

/// A file system as a walk sees it: a file entry with its name and its sub file entries, in
/// index order.
pub ghost enum EntryTree {
    Entry { name: ComponentView, sub_entries: Seq<EntryTree> },
}

/// Whether every file entry of a tree has a number of sub file entries that fits in a usize.
pub open spec fn tree_fits(tree: EntryTree) -> bool
    decreases tree, 0int,
{
    &&& tree->sub_entries.len() <= usize::MAX
    &&& forest_fits(tree->sub_entries, 0)
}

/// Whether the trees from an index on fit, as `tree_fits` says.
pub open spec fn forest_fits(trees: Seq<EntryTree>, from: int) -> bool
    decreases trees, trees.len() - from,
{
    if 0 <= from < trees.len() {
        tree_fits(trees[from]) && forest_fits(trees, from + 1)
    } else {
        true
    }
}

/// Paths of the file entries of a tree whose top file entry has a path, each after those of
/// its sub file entries, sub file entries in index order.
pub open spec fn postorder_paths(tree: EntryTree, path: Seq<ComponentView>) -> Seq<
    Seq<ComponentView>,
>
    decreases tree, 0int,
{
    forest_paths(tree->sub_entries, path, 0) + seq![path]
}

/// Paths, as `postorder_paths` says, of the trees from an index on, under a path.
pub open spec fn forest_paths(trees: Seq<EntryTree>, path: Seq<ComponentView>, from: int) -> Seq<
    Seq<ComponentView>,
>
    decreases trees, trees.len() - from,
{
    if 0 <= from < trees.len() {
        postorder_paths(trees[from], path.push(trees[from]->name)) + forest_paths(
            trees,
            path,
            from + 1,
        )
    } else {
        seq![]
    }
}

/// Number of steps that the walk takes over a tree: one to learn the number of sub file
/// entries, one to retrieve each sub file entry and the steps over it, and one to hand out.
pub open spec fn walk_steps(tree: EntryTree) -> nat
    decreases tree, 0int,
{
    forest_steps(tree->sub_entries, 0) + 2
}

/// Steps, as `walk_steps` says, over the trees from an index on.
pub open spec fn forest_steps(trees: Seq<EntryTree>, from: int) -> nat
    decreases trees, trees.len() - from,
{
    if 0 <= from < trees.len() {
        1 + walk_steps(trees[from]) + forest_steps(trees, from + 1)
    } else {
        0
    }
}

/// A new finder.
pub open spec fn initial_finder() -> FinderView {
    FinderView {
        path: seq![ComponentView::Root],
        states: seq![],
        started: false,
        failed_on_entry: false,
        pending: FinderPending::NextRequest,
    }
}

/// What a caller that holds a tree, and a stack of its file entries, answers to an action:
/// the next event and the new stack. Every retrieval succeeds.
pub open spec fn answered(tree: EntryTree, stack: Seq<EntryTree>, action: FinderActionView) -> (
    FinderEventView,
    Seq<EntryTree>,
) {
    match action {
        FinderActionView::RetrieveRootFileEntry => (
            FinderEventView::RootFileEntry(true),
            seq![tree],
        ),
        FinderActionView::RetrieveNumberOfSubFileEntries => (
            FinderEventView::NumberOfSubFileEntries(stack.last()->sub_entries.len() as usize),
            stack,
        ),
        FinderActionView::RetrieveSubFileEntry(index) => {
            let sub_entry: EntryTree = stack.last()->sub_entries[index as int];
            (FinderEventView::SubFileEntry(Some(sub_entry->name)), stack.push(sub_entry))
        },
        FinderActionView::HandOut(_) => (FinderEventView::NextRequest, stack.drop_last()),
        _ => (FinderEventView::NextRequest, stack),
    }
}

/// Paths after others, where there are any.
pub open spec fn paths_after(
    first: Seq<Seq<ComponentView>>,
    rest: Option<Seq<Seq<ComponentView>>>,
) -> Option<Seq<Seq<ComponentView>>> {
    match rest {
        Some(paths) => Some(first + paths),
        None => None,
    }
}

/// The paths that a walk over a tree hands out, from a finder, a stack and an event on, when
/// the finder takes at most a number of steps; none where the walk is not over by then.
pub open spec fn walk(
    tree: EntryTree,
    finder: FinderView,
    stack: Seq<EntryTree>,
    event: FinderEventView,
    steps: nat,
) -> Option<Seq<Seq<ComponentView>>>
    decreases steps,
{
    if steps == 0 {
        None
    } else {
        let (after, action) = stepped(finder, event);
        let (next_event, next_stack) = answered(tree, stack, action);
        match action {
            FinderActionView::Finished => Some(seq![]),
            FinderActionView::HandOut(path) => paths_after(
                seq![path],
                walk(tree, after, next_stack, next_event, (steps - 1) as nat),
            ),
            _ => walk(tree, after, next_stack, next_event, (steps - 1) as nat),
        }
    }
}

/// Whether a finder waits for a request, after the walk started and with no file entry
/// dropped.
pub open spec fn is_ready(finder: FinderView) -> bool {
    &&& finder.started
    &&& !finder.failed_on_entry
    &&& finder.pending == FinderPending::NextRequest
}

/// Two finders and events that step alike walk alike.
proof fn lemma_walk_same_step(
    tree: EntryTree,
    first: FinderView,
    first_event: FinderEventView,
    second: FinderView,
    second_event: FinderEventView,
    stack: Seq<EntryTree>,
    steps: nat,
)
    requires
        stepped(first, first_event) == stepped(second, second_event),
    ensures
        walk(tree, first, stack, first_event, steps) == walk(
            tree,
            second,
            stack,
            second_event,
            steps,
        ),
{
}

/// Paths after paths after others.
proof fn lemma_paths_after_twice(
    first: Seq<Seq<ComponentView>>,
    second: Seq<Seq<ComponentView>>,
    rest: Option<Seq<Seq<ComponentView>>>,
)
    ensures
        paths_after(first, paths_after(second, rest)) == paths_after(first + second, rest),
{
    match rest {
        Some(paths) => {
            assert(first + (second + paths) =~= (first + second) + paths);
        },
        None => {},
    }
}

/// The walk over a file entry just pushed: its steps hand out the paths of the tree below it,
/// and leave the finder and the stack as they were before the push.
proof fn lemma_walk_tree(
    tree: EntryTree,
    sub_tree: EntryTree,
    finder: FinderView,
    stack: Seq<EntryTree>,
    steps: nat,
)
    requires
        tree_fits(sub_tree),
        is_ready(finder),
        finder.states.len() > 0,
        finder.states.last() == fresh_state(),
        stack.len() > 0,
        stack.last() == sub_tree,
    ensures
        walk(tree, finder, stack, FinderEventView::NextRequest, walk_steps(sub_tree) + steps)
            == paths_after(
            postorder_paths(sub_tree, finder.path),
            walk(
                tree,
                FinderView {
                    path: finder.path.drop_last(),
                    states: finder.states.drop_last(),
                    ..finder
                },
                stack.drop_last(),
                FinderEventView::NextRequest,
                steps,
            ),
        ),
    decreases sub_tree, 1int,
{
    let trees: Seq<EntryTree> = sub_tree->sub_entries;
    let count: usize = trees.len() as usize;
    let total: nat = walk_steps(sub_tree) + steps;
    let asked: FinderView = FinderView {
        pending: FinderPending::NumberOfSubFileEntries,
        ..finder
    };
    assert(stepped(finder, FinderEventView::NextRequest) == (
        asked,
        FinderActionView::RetrieveNumberOfSubFileEntries,
    ));
    let counted: FinderView = FinderView {
        states: finder.states.update(
            finder.states.len() - 1,
            VfsFinderState {
                number_of_sub_file_entries: count,
                sub_file_entry_index: 0,
                is_initialized: true,
            },
        ),
        ..finder
    };
    assert(stepped(asked, FinderEventView::NumberOfSubFileEntries(count)) == stepped(
        counted,
        FinderEventView::NextRequest,
    ));
    lemma_walk_same_step(
        tree,
        asked,
        FinderEventView::NumberOfSubFileEntries(count),
        counted,
        FinderEventView::NextRequest,
        stack,
        (total - 1) as nat,
    );
    lemma_walk_sub_trees(tree, trees, counted, stack, 0, steps);
    assert(counted.states.drop_last() =~= finder.states.drop_last());
}

/// The walk over the sub file entries of the file entry on top of the stack, from an index
/// on: it hands out their paths, then that of the file entry, and pops it.
proof fn lemma_walk_sub_trees(
    tree: EntryTree,
    trees: Seq<EntryTree>,
    finder: FinderView,
    stack: Seq<EntryTree>,
    from: int,
    steps: nat,
)
    requires
        trees.len() <= usize::MAX,
        forest_fits(trees, from),
        0 <= from <= trees.len(),
        is_ready(finder),
        finder.states.len() > 0,
        finder.states.last() == (VfsFinderState {
            number_of_sub_file_entries: trees.len() as usize,
            sub_file_entry_index: from as usize,
            is_initialized: true,
        }),
        stack.len() > 0,
        stack.last()->sub_entries == trees,
    ensures
        walk(tree, finder, stack, FinderEventView::NextRequest, forest_steps(trees, from) + 1 + steps)
            == paths_after(
            forest_paths(trees, finder.path, from) + seq![finder.path],
            walk(
                tree,
                FinderView {
                    path: finder.path.drop_last(),
                    states: finder.states.drop_last(),
                    ..finder
                },
                stack.drop_last(),
                FinderEventView::NextRequest,
                steps,
            ),
        ),
    decreases trees, trees.len() - from,
{
    let path: Seq<ComponentView> = finder.path;
    if from == trees.len() {
        assert(forest_paths(trees, path, from) + seq![path] =~= seq![path]);
    } else {
        let sub_tree: EntryTree = trees[from];
        let index: usize = from as usize;
        let top: VfsFinderState = finder.states.last();
        let asked: FinderView = FinderView {
            states: finder.states.update(
                finder.states.len() - 1,
                VfsFinderState { sub_file_entry_index: (index + 1) as usize, ..top },
            ),
            pending: FinderPending::SubFileEntry(index),
            ..finder
        };
        assert(stepped(finder, FinderEventView::NextRequest) == (
            asked,
            FinderActionView::RetrieveSubFileEntry(index),
        ));
        let pushed: FinderView = FinderView {
            path: path.push(sub_tree->name),
            states: asked.states.push(fresh_state()),
            pending: FinderPending::NextRequest,
            ..asked
        };
        let rest: nat = forest_steps(trees, from + 1) + 1 + steps;
        assert(stepped(asked, FinderEventView::SubFileEntry(Some(sub_tree->name))) == stepped(
            pushed,
            FinderEventView::NextRequest,
        ));
        lemma_walk_same_step(
            tree,
            asked,
            FinderEventView::SubFileEntry(Some(sub_tree->name)),
            pushed,
            FinderEventView::NextRequest,
            stack.push(sub_tree),
            walk_steps(sub_tree) + rest,
        );
        lemma_walk_tree(tree, sub_tree, pushed, stack.push(sub_tree), rest);
        let next: FinderView = FinderView {
            path: pushed.path.drop_last(),
            states: pushed.states.drop_last(),
            ..pushed
        };
        assert(next.path =~= path);
        assert(next.states =~= asked.states);
        assert(stack.push(sub_tree).drop_last() =~= stack);
        lemma_walk_sub_trees(tree, trees, next, stack, from + 1, steps);
        assert(next.states.drop_last() =~= finder.states.drop_last());
        lemma_paths_after_twice(
            postorder_paths(sub_tree, path.push(sub_tree->name)),
            forest_paths(trees, path, from + 1) + seq![path],
            walk(
                tree,
                FinderView {
                    path: path.drop_last(),
                    states: finder.states.drop_last(),
                    ..finder
                },
                stack.drop_last(),
                FinderEventView::NextRequest,
                steps,
            ),
        );
        assert(postorder_paths(sub_tree, path.push(sub_tree->name)) + (forest_paths(
            trees,
            path,
            from + 1,
        ) + seq![path]) =~= forest_paths(trees, path, from) + seq![path]);
    }
}

/// A walk over a file system in which every retrieval succeeds hands out every file entry
/// once, each after its sub file entries, with its path from the root, and is then over.
pub proof fn law_walk_hands_out_every_path(tree: EntryTree)
    requires
        tree_fits(tree),
    ensures
        walk(
            tree,
            initial_finder(),
            seq![],
            FinderEventView::NextRequest,
            walk_steps(tree) + 2,
        ) == Some(postorder_paths(tree, seq![ComponentView::Root])),
{
    let started: FinderView = FinderView {
        started: true,
        pending: FinderPending::RootFileEntry,
        ..initial_finder()
    };
    let pushed: FinderView = FinderView {
        states: seq![fresh_state()],
        pending: FinderPending::NextRequest,
        ..started
    };
    assert(initial_finder().states.push(fresh_state()) =~= seq![fresh_state()]);
    assert(stepped(started, FinderEventView::RootFileEntry(true)) == stepped(
        pushed,
        FinderEventView::NextRequest,
    ));
    lemma_walk_same_step(
        tree,
        started,
        FinderEventView::RootFileEntry(true),
        pushed,
        FinderEventView::NextRequest,
        seq![tree],
        walk_steps(tree) + 1,
    );
    lemma_walk_tree(tree, tree, pushed, seq![tree], 1);
    let emptied: FinderView = FinderView {
        path: pushed.path.drop_last(),
        states: pushed.states.drop_last(),
        ..pushed
    };
    assert(emptied.states =~= Seq::<VfsFinderState>::empty());
    assert(walk(tree, emptied, seq![tree].drop_last(), FinderEventView::NextRequest, 1) == Some(
        Seq::<Seq<ComponentView>>::empty(),
    ));
    assert(postorder_paths(tree, seq![ComponentView::Root]) + Seq::<Seq<ComponentView>>::empty()
        =~= postorder_paths(tree, seq![ComponentView::Root]));
}

/// Once a step finishes the walk, every further request finishes it again and leaves the
/// finder as it is.
pub proof fn law_finished_stays_finished(before: FinderView, event: FinderEventView)
    requires
        finder_wf(before),
        finder_accepts(before, event),
        stepped(before, event).1 is Finished,
    ensures
        stepped(stepped(before, event).0, FinderEventView::NextRequest) == (
            stepped(before, event).0,
            FinderActionView::Finished,
        ),
{
}

} // verus!
