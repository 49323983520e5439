//! Iteration over the data forks or the extended attributes of a file entry: the number of
//! items is retrieved first, then each item by its index, in order.

use vstd::prelude::*;

verus! {

/// What the caller of an iteration is to retrieve next.
#[derive(Clone, Copy, Debug, Eq, PartialEq, Structural)]
pub enum IterationAction {
    /// The number of items.
    RetrieveCount,
    /// The item with an index.
    RetrieveItem(usize),
    /// Nothing: the iteration is over.
    Finished,
}

/// Where an iteration over indexed items stands.
pub struct IndexedIteration {
    number_of_items: usize,
    item_index: usize,
    is_initialized: bool,
}

/// Model of an iteration: the number of items once retrieved, and the index of the next item.
pub ghost struct IterationView {
    pub number_of_items: Option<nat>,
    pub item_index: nat,
}

impl View for IndexedIteration {
    type V = IterationView;

    closed spec fn view(&self) -> IterationView {
        IterationView {
            number_of_items: if self.is_initialized {
                Some(self.number_of_items as nat)
            } else {
                None
            },
            item_index: self.item_index as nat,
        }
    }
}

/// Whether an iteration is consistent: the index starts at zero and does not pass the
/// number of items.
pub open spec fn iteration_wf(iteration: IterationView) -> bool {
    match iteration.number_of_items {
        Some(count) => iteration.item_index <= count,
        None => iteration.item_index == 0,
    }
}

/// What one decision of an iteration gives: the next state and the action.
pub open spec fn iteration_step(iteration: IterationView) -> (IterationView, IterationAction) {
    match iteration.number_of_items {
        None => (iteration, IterationAction::RetrieveCount),
        Some(count) => if iteration.item_index < count {
            (
                IterationView { item_index: iteration.item_index + 1, ..iteration },
                IterationAction::RetrieveItem(iteration.item_index as usize),
            )
        } else {
            (iteration, IterationAction::Finished)
        },
    }
}

/// Actions of a number of decisions in a row, where a request for the number of items is
/// answered with a count.
pub open spec fn iteration_actions(iteration: IterationView, count: usize, calls: nat) -> Seq<
    IterationAction,
>
    decreases calls,
{
    if calls == 0 {
        seq![]
    } else {
        let (after, action) = iteration_step(iteration);
        let next: IterationView = if action is RetrieveCount {
            IterationView { number_of_items: Some(count as nat), item_index: 0 }
        } else {
            after
        };
        seq![action] + iteration_actions(next, count, (calls - 1) as nat)
    }
}

impl IndexedIteration {
    /// Creates an iteration that has not retrieved the number of items yet.
    pub fn new() -> (iteration: Self)
        ensures
            iteration@ == (IterationView { number_of_items: None, item_index: 0 }),
    {
        IndexedIteration { number_of_items: 0, item_index: 0, is_initialized: false }
    }

    /// Decides what to retrieve next: the number of items until it is known, then the item
    /// at the index, which moves on, until all were retrieved.
    pub fn next_action(&mut self) -> (action: IterationAction)
        requires
            iteration_wf(old(self)@),
        ensures
            iteration_wf(final(self)@),
            (final(self)@, action) == iteration_step(old(self)@),
            match old(self)@.number_of_items {
                None => action == IterationAction::RetrieveCount && final(self)@ == old(self)@,
                Some(count) => if old(self)@.item_index < count {
                    &&& action == IterationAction::RetrieveItem(old(self)@.item_index as usize)
                    &&& final(self)@ == (IterationView {
                        item_index: old(self)@.item_index + 1,
                        ..old(self)@
                    })
                } else {
                    action == IterationAction::Finished && final(self)@ == old(self)@
                },
            },
    {
        if !self.is_initialized {
            return IterationAction::RetrieveCount;
        }
        if self.item_index >= self.number_of_items {
            return IterationAction::Finished;
        }
        let item_index: usize = self.item_index;
        self.item_index += 1;
        IterationAction::RetrieveItem(item_index)
    }

    /// Records the number of items, once it is retrieved.
    pub fn set_number_of_items(&mut self, number_of_items: usize)
        requires
            old(self)@.number_of_items is None,
            iteration_wf(old(self)@),
        ensures
            final(self)@ == (IterationView {
                number_of_items: Some(number_of_items as nat),
                item_index: 0,
            }),
            iteration_wf(final(self)@),
    {
        self.number_of_items = number_of_items;
        self.is_initialized = true;
    }
}

/// From an index on, the decisions hand out the remaining indices in order, then only finish.
proof fn lemma_iteration_items(count: usize, index: nat, extra: nat)
    requires
        index <= count,
    ensures
        iteration_actions(
            IterationView { number_of_items: Some(count as nat), item_index: index },
            count,
            (count - index + extra) as nat,
        ) =~= Seq::new((count - index) as nat, |i: int| IterationAction::RetrieveItem((i + index) as usize))
            + Seq::new(extra, |i: int| IterationAction::Finished),
    decreases count - index + extra,
{
    let iteration: IterationView = IterationView { number_of_items: Some(count as nat), item_index: index };
    if index < count {
        lemma_iteration_items(count, index + 1, extra);
    } else if extra > 0 {
        lemma_iteration_items(count, index, (extra - 1) as nat);
    }
}

/// An iteration over items whose number is retrieved as a count asks for the count, then
/// for the item of every index below it in order, then only finishes.
pub proof fn law_iteration_hands_out_every_index(count: usize, extra: nat)
    ensures
        iteration_actions(
            IterationView { number_of_items: None, item_index: 0 },
            count,
            (count + 1 + extra) as nat,
        ) =~= seq![IterationAction::RetrieveCount] + Seq::new(
            count as nat,
            |i: int| IterationAction::RetrieveItem(i as usize),
        ) + Seq::new(extra, |i: int| IterationAction::Finished),
{
    lemma_iteration_items(count, 0, extra);
    assert(Seq::new((count - 0) as nat, |i: int| IterationAction::RetrieveItem((i + 0) as usize))
        =~= Seq::new(count as nat, |i: int| IterationAction::RetrieveItem(i as usize)));
}

} // verus!
