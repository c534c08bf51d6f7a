//! The pane system: a grid of panes, each of which may hold a nested pane
//! system of its own.

use crate::grid::{
    grid_after_split, grid_last_id, grid_layout, grid_len, grid_maximized, grid_new, grid_panes,
    grid_split, pane_number, PaneId,
};
use crate::message::PaneMessage;
use iced::widget::pane_grid::{Pane, State};
use std::collections::HashMap;
use vstd::prelude::*;

verus! {

broadcast use vstd::std_specs::hash::group_hash_axioms;

/// A grid of panes and, for some pane identifiers, a nested pane system.
///
/// The panes of a system are numbered in the order in which they were made:
/// the first carries 0, and a split gives the new pane the number of panes
/// that the grid held before it. Nothing reaches into a nested system once it
/// is inserted, so each one stays as `new` made it.
pub struct PaneSystem {
    panes: State<PaneId>,
    children: HashMap<PaneId, PaneSystem>,
}

impl PaneSystem {
    /// The grid of the system.
    pub closed spec fn state(&self) -> State<PaneId> {
        self.panes
    }

    /// The panes of the grid: each handle with the identifier of its pane.
    pub open spec fn grid(&self) -> Map<Pane, PaneId> {
        grid_panes(self.state())
    }

    /// The nested pane systems, by the identifier of the pane that shows them.
    pub closed spec fn children(&self) -> Map<PaneId, PaneSystem> {
        self.children@
    }

    /// The number of panes of the grid.
    pub open spec fn len(&self) -> nat {
        self.grid().len()
    }

    /// The grid is finite, no two panes carry one identifier, and the
    /// identifiers in use are those below the number of panes.
    pub open spec fn numbered(&self) -> bool {
        &&& self.grid().dom().finite()
        &&& self.grid().is_injective()
        &&& forall|id: PaneId| #[trigger] self.grid().contains_value(id) <==> id < self.len()
    }

    /// The grid's counter stands where the splits so far have left it: it
    /// starts at 1, and every split adds one pane and steps it by two.
    pub open spec fn counter_in_step(&self) -> bool {
        grid_last_id(self.state()) + 1 == 2 * self.len()
    }

    /// The grid lays out the panes that it holds and no others, and has
    /// numbered each of their handles below its counter.
    pub open spec fn laid_out(&self) -> bool {
        &&& grid_layout(self.state()) == self.grid().dom()
        &&& forall|handle: Pane| #[trigger]
            self.grid().contains_key(handle) ==> pane_number(handle) < grid_last_id(self.state())
    }

    /// What holds of the grid of every pane system that `new` and `update`
    /// produce: its panes are numbered from 0, it lays out just these panes,
    /// its counter is in step with them and above their handles, and none of
    /// them is maximized.
    pub open spec fn grid_wf(&self) -> bool {
        &&& self.numbered()
        &&& self.counter_in_step()
        &&& self.laid_out()
        &&& grid_maximized(self.state()) is None
    }

    /// The system is as `new` makes one: a single pane, which carries 0, and
    /// no nested system.
    pub open spec fn is_fresh(&self) -> bool {
        &&& self.grid_wf()
        &&& self.len() == 1
        &&& self.children() == Map::<PaneId, PaneSystem>::empty()
    }

    /// Every nested system is as `new` makes one.
    pub open spec fn nested_fresh(&self) -> bool {
        forall|id: PaneId| #[trigger]
            self.children().contains_key(id) ==> self.children()[id].is_fresh()
    }

    /// What holds of every pane system that `new` and `update` produce: the
    /// grid is in order, and the nested systems are finitely many and fresh.
    pub open spec fn wf(&self) -> bool {
        &&& self.grid_wf()
        &&& self.children().dom().finite()
        &&& self.nested_fresh()
    }

    /// Whether a split of the pane under `pane` goes through: the grid must
    /// hold that pane, and its counter must have room for two more numbers.
    pub open spec fn can_split(&self, pane: Pane) -> bool {
        self.grid().contains_key(pane) && 2 * self.len() + 1 <= usize::MAX
    }

    /// What `message` makes of the system `self`, where its grid is in
    /// order: whether `next` is a system that it may leave.
    ///
    /// A split hands the grid the axis and the handle of the message, and the
    /// number of panes as the identifier of the new pane. Where `can_split`
    /// holds the grid gains that one pane, under a handle that it did not
    /// hold; otherwise the grid is as it was. The nested systems stay.
    ///
    /// An insertion puts a fresh system under the identifier, in place of the
    /// one that may be there. A removal takes away the one under the
    /// identifier, if there is one. Neither touches the grid.
    pub open spec fn steps_to(&self, message: PaneMessage, next: PaneSystem) -> bool {
        match message {
            PaneMessage::Split(axis, pane) => {
                &&& next.state() == grid_after_split(
                    self.state(),
                    axis,
                    pane,
                    self.len() as PaneId,
                )
                &&& next.children() == self.children()
                &&& if self.can_split(pane) {
                    exists|handle: Pane|
                        !self.grid().contains_key(handle) && next.grid() == self.grid().insert(
                            handle,
                            self.len() as PaneId,
                        )
                } else {
                    next.state() == self.state()
                }
            },
            PaneMessage::InsertChild(pane_id) => {
                &&& next.state() == self.state()
                &&& next.children()[pane_id].is_fresh()
                &&& next.children() == self.children().insert(pane_id, next.children()[pane_id])
            },
            PaneMessage::RemoveChild(pane_id) => {
                &&& next.state() == self.state()
                &&& next.children() == self.children().remove(pane_id)
            },
        }
    }

    /// A pane system of one pane, with the identifier 0 and nothing nested.
    pub fn new() -> (system: Self)
        ensures
            system.is_fresh(),
            system.wf(),
    {
        let made = grid_new(0);
        let system = PaneSystem { panes: made.0, children: HashMap::new() };
        proof {
            let first = made.1;
            let grid = system.grid();
            assert(grid.dom() =~= set![first]);
            assert(grid_layout(system.state()) =~= grid.dom());
            assert(grid.contains_key(first));
            assert forall|id: PaneId| #[trigger] grid.contains_value(id) <==> id < 1 by {
                if grid.contains_value(id) {
                    let handle = choose|handle: Pane| grid.contains_key(handle) && grid[handle] == id;
                    assert(handle == first);
                }
            }
        }
        system
    }

    /// The grid, for drawing.
    pub fn panes(&self) -> (grid: &State<PaneId>)
        ensures
            *grid == self.state(),
    {
        &self.panes
    }

    /// The pane system nested in the pane with the identifier `pane_id`, if
    /// there is one.
    pub fn child(&self, pane_id: PaneId) -> (child: Option<&PaneSystem>)
        ensures
            match child {
                Some(nested) => self.children().contains_key(pane_id) && *nested
                    == self.children()[pane_id],
                None => !self.children().contains_key(pane_id),
            },
    {
        self.children.get(&pane_id)
    }

    /// Carries out `message`, as `steps_to` says.
    ///
    /// It asks only that the grid be in order, and reads no nested system.
    /// Where the nested systems were all fresh they still are, so a
    /// well-formed system stays well formed.
    pub fn update(&mut self, message: PaneMessage)
        requires
            old(self).grid_wf(),
        ensures
            final(self).grid_wf(),
            final(self).children().dom().finite(),
            old(self).steps_to(message, *final(self)),
            old(self).nested_fresh() ==> final(self).nested_fresh(),
            old(self).wf() ==> final(self).wf(),
    {
        match message {
            PaneMessage::Split(axis, pane) => {
                let count = grid_len(&self.panes);
                let added = grid_split(&mut self.panes, axis, &pane, count);
                proof {
                    if let Some(handle) = added {
                        assert(!old(self).grid().contains_key(handle));
                        Self::lemma_numbered_after_split(old(self).grid(), handle);
                        assert(grid_layout(self.state()) =~= self.grid().dom());
                    }
                    assert(self.children() == old(self).children());
                }
            },
            PaneMessage::InsertChild(pane_id) => {
                let nested = PaneSystem::new();
                self.children.insert(pane_id, nested);
                assert(self.children() == old(self).children().insert(pane_id, nested));
            },
            PaneMessage::RemoveChild(pane_id) => {
                self.children.remove(&pane_id);
                assert(self.children() == old(self).children().remove(pane_id));
            },
        }
    }

    /// The nested systems of a pane system are finitely many, whatever state
    /// it is in, so they can be counted.
    pub proof fn lemma_children_finite(self)
        ensures
            self.children().dom().finite(),
    {
    }

    /// A grid whose panes are numbered from 0 stays so when a pane that
    /// carries the number of its panes joins it under a new handle.
    proof fn lemma_numbered_after_split(grid: Map<Pane, PaneId>, handle: Pane)
        requires
            grid.dom().finite(),
            grid.is_injective(),
            forall|id: PaneId| #[trigger] grid.contains_value(id) <==> id < grid.len(),
            !grid.contains_key(handle),
            grid.len() <= usize::MAX,
        ensures
            ({
                let grown = grid.insert(handle, grid.len() as PaneId);
                &&& grown.dom().finite()
                &&& grown.len() == grid.len() + 1
                &&& grown.is_injective()
                &&& forall|id: PaneId| #[trigger] grown.contains_value(id) <==> id < grown.len()
            }),
    {
        let count = grid.len() as PaneId;
        let grown = grid.insert(handle, count);
        assert(grown.contains_key(handle));
        assert forall|id: PaneId| #[trigger] grown.contains_value(id) <==> id < grown.len() by {
            if grown.contains_value(id) {
                let at = choose|at: Pane| grown.contains_key(at) && grown[at] == id;
                if at != handle {
                    assert(grid.contains_key(at));
                    assert(grid.contains_value(id));
                }
            }
            if id < grid.len() {
                assert(grid.contains_value(id));
                let at = choose|at: Pane| grid.contains_key(at) && grid[at] == id;
                assert(grown.contains_key(at) && grown[at] == id);
            }
        }
        assert forall|x: Pane, y: Pane|
            x != y && grown.dom().contains(x) && grown.dom().contains(y) implies #[trigger] grown[x]
            != #[trigger] grown[y] by {
            if x == handle {
                assert(grid.contains_key(y));
                assert(grid.contains_value(grid[y]));
            } else if y == handle {
                assert(grid.contains_key(x));
                assert(grid.contains_value(grid[x]));
            }
        }
    }
}

} // verus!
