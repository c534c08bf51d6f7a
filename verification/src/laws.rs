//! What holds of every pane system, and of every step that a message makes.

use crate::grid::PaneId;
use crate::message::PaneMessage;
use crate::system::PaneSystem;
use iced::widget::pane_grid::{Axis, Pane};
use vstd::prelude::*;

verus! {

/// A fresh pane system is well formed.
pub proof fn lemma_fresh_is_wf(system: PaneSystem)
    requires
        system.is_fresh(),
    ensures
        system.wf(),
{
}

/// A nested pane system has a single pane, which carries 0, and holds no
/// nested system itself: a system whose nested systems are fresh is at most
/// two levels deep.
pub proof fn lemma_nested_is_flat(system: PaneSystem, pane_id: PaneId)
    requires
        system.nested_fresh(),
        system.children().contains_key(pane_id),
    ensures
        system.children()[pane_id].len() == 1,
        system.children()[pane_id].grid().contains_value(0),
        system.children()[pane_id].children() == Map::<PaneId, PaneSystem>::empty(),
{
}

/// A split that goes through adds exactly one pane. The new pane carries the
/// number of panes that the grid held, and every pane that was there keeps
/// its handle and its identifier.
pub proof fn lemma_split_adds_one_pane(before: PaneSystem, axis: Axis, pane: Pane, after: PaneSystem)
    requires
        before.grid_wf(),
        before.can_split(pane),
        before.steps_to(PaneMessage::Split(axis, pane), after),
    ensures
        after.len() == before.len() + 1,
        after.grid().contains_value(before.len() as PaneId),
        forall|handle: Pane| #[trigger]
            before.grid().contains_key(handle) ==> after.grid().contains_key(handle)
                && after.grid()[handle] == before.grid()[handle],
{
    let handle = choose|handle: Pane|
        !before.grid().contains_key(handle) && after.grid() == before.grid().insert(
            handle,
            before.len() as PaneId,
        );
    assert(after.grid().contains_key(handle));
}

/// A split that does not go through leaves the whole system as it was.
pub proof fn lemma_refused_split_changes_nothing(
    before: PaneSystem,
    axis: Axis,
    pane: Pane,
    after: PaneSystem,
)
    requires
        !before.can_split(pane),
        before.steps_to(PaneMessage::Split(axis, pane), after),
    ensures
        after.state() == before.state(),
        after.children() == before.children(),
{
}

/// Inserting a nested system gives the identifier one that is fresh,
/// whatever was nested there before and whatever that held, and leaves one
/// nested system more only where the identifier had none.
pub proof fn lemma_insert_replaces(before: PaneSystem, pane_id: PaneId, after: PaneSystem)
    requires
        before.steps_to(PaneMessage::InsertChild(pane_id), after),
    ensures
        after.children()[pane_id].is_fresh(),
        after.children()[pane_id].len() == 1,
        after.children()[pane_id].children() == Map::<PaneId, PaneSystem>::empty(),
        after.children().dom() == before.children().dom().insert(pane_id),
        after.children().len() == if before.children().contains_key(pane_id) {
            before.children().len()
        } else {
            before.children().len() + 1
        },
{
    before.lemma_children_finite();
    assert(after.children().dom() =~= before.children().dom().insert(pane_id));
}

/// Removing a nested system leaves one less where the identifier had one.
pub proof fn lemma_remove_counts(before: PaneSystem, pane_id: PaneId, after: PaneSystem)
    requires
        before.steps_to(PaneMessage::RemoveChild(pane_id), after),
    ensures
        !after.children().contains_key(pane_id),
        after.children().len() == if before.children().contains_key(pane_id) {
            before.children().len() - 1
        } else {
            before.children().len() as int
        },
{
    before.lemma_children_finite();
    assert(after.children().dom() =~= before.children().dom().remove(pane_id));
}

/// Inserting a nested system under an identifier that had none, and then
/// removing it, gives back the nested systems and the grid that were there.
pub proof fn lemma_insert_then_remove(
    before: PaneSystem,
    pane_id: PaneId,
    between: PaneSystem,
    after: PaneSystem,
)
    requires
        !before.children().contains_key(pane_id),
        before.steps_to(PaneMessage::InsertChild(pane_id), between),
        between.steps_to(PaneMessage::RemoveChild(pane_id), after),
    ensures
        after.children() == before.children(),
        after.state() == before.state(),
{
    assert(after.children() =~= before.children());
}

/// Removing the nested system of an identifier that has none changes
/// nothing.
pub proof fn lemma_remove_absent(before: PaneSystem, pane_id: PaneId, after: PaneSystem)
    requires
        !before.children().contains_key(pane_id),
        before.steps_to(PaneMessage::RemoveChild(pane_id), after),
    ensures
        after.children() == before.children(),
        after.state() == before.state(),
{
    assert(after.children() =~= before.children());
}

} // verus!
