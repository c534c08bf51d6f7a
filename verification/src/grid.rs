//! The pane grid of `iced`, as far as a pane system needs it.
//!
//! Nothing in this module is proved. It declares the grid's types, gives a
//! name to what a grid holds, and states for each method that the library
//! calls what the method does to it. The rest of the library is verified
//! against these statements.

use iced::widget::pane_grid::{Axis, Pane, State};
use vstd::prelude::*;

verus! {

/// The identifier that a pane carries.
pub type PaneId = usize;

/// `pane_grid::Pane`: the handle by which a grid knows one of its panes.
/// Only a grid makes one; the library carries them and never looks inside.
#[verifier::external_type_specification]
#[verifier::external_body]
pub struct ExPane(Pane);

/// `pane_grid::Axis`: an enum of the two variants `Horizontal` and
/// `Vertical`, without fields. It is declared with its variants, so that
/// verified code can build and match one.
#[verifier::external_type_specification]
pub struct ExAxis(Axis);

/// `pane_grid::State<T>`: the panes of a grid, the tree that lays them out,
/// and the counter from which the grid numbers new handles.
#[verifier::external_type_specification]
#[verifier::external_body]
#[verifier::reject_recursive_types(T)]
pub struct ExState<T>(State<T>);

/// What a grid holds: the field `panes` of `State`, each handle with the
/// identifier of its pane.
pub uninterp spec fn grid_panes(grid: State<PaneId>) -> Map<Pane, PaneId>;

/// The handles at the leaves of the layout tree of a grid. The grid looks a
/// handle up there, not among its panes, when it is asked to split one.
pub uninterp spec fn grid_layout(grid: State<PaneId>) -> Set<Pane>;

/// The counter of a grid: the number that `State` keeps as `last_id`. A split
/// numbers its new handle one above it.
pub uninterp spec fn grid_last_id(grid: State<PaneId>) -> nat;

/// The pane that fills the grid alone for the time being, if there is one:
/// what `State::maximized` returns.
pub uninterp spec fn grid_maximized(grid: State<PaneId>) -> Option<Pane>;

/// The number that a handle wraps.
pub uninterp spec fn pane_number(pane: Pane) -> nat;

/// The grid that `State::split` leaves where it is called on `grid` with this
/// axis, this handle and this identifier for the new pane. The call reads and
/// changes nothing but the grid, so what it leaves follows from these four.
pub uninterp spec fn grid_after_split(
    grid: State<PaneId>,
    axis: Axis,
    pane: Pane,
    id: PaneId,
) -> State<PaneId>;

/// `State::new`. The grid that comes back holds one pane, which carries
/// `first`, under the handle that comes with it. That handle is numbered 0
/// and is the one leaf of the layout tree, the counter stands at 1, and no
/// pane is maximized.
#[verifier::external_body]
pub(crate) fn grid_new(first: PaneId) -> (made: (State<PaneId>, Pane))
    ensures
        grid_panes(made.0) == Map::<Pane, PaneId>::empty().insert(made.1, first),
        grid_layout(made.0) == Set::<Pane>::empty().insert(made.1),
        grid_last_id(made.0) == 1,
        grid_maximized(made.0) is None,
        pane_number(made.1) == 0,
{
    State::new(first)
}

/// `State::len`: the number of panes that the grid holds.
#[verifier::external_body]
pub(crate) fn grid_len(grid: &State<PaneId>) -> (n: usize)
    ensures
        n == grid_panes(*grid).len(),
{
    grid.len()
}

/// `State::split`, without the handle of the divider that it also returns.
///
/// The source looks `pane` up among the leaves of the layout tree, then
/// steps the counter twice with `checked_add` (once for the new pane, once
/// for the divider), and gives up with `None` where either fails. So the
/// split succeeds exactly where the layout holds `pane` and the counter can
/// take two steps.
///
/// Where it succeeds, the new handle is numbered one above the old counter.
/// The leaf of `pane` becomes a divider over `pane` and the new handle, so
/// the layout gains that one leaf. The pane map gets the new handle with
/// `id`, the counter has gone up by two, and no pane is maximized.
///
/// Where it fails, the panes and the layout are as they were. The whole
/// grid is, but for the one case where the first step of the counter
/// reached `usize::MAX` and the second failed.
#[verifier::external_body]
pub(crate) fn grid_split(grid: &mut State<PaneId>, axis: Axis, pane: &Pane, id: PaneId) -> (added:
    Option<Pane>)
    ensures
        *final(grid) == grid_after_split(*old(grid), axis, *pane, id),
        added is Some <==> grid_layout(*old(grid)).contains(*pane) && grid_last_id(*old(grid)) + 2
            <= usize::MAX,
        added matches Some(handle) ==> {
            &&& pane_number(handle) == grid_last_id(*old(grid)) + 1
            &&& grid_panes(*final(grid)) == grid_panes(*old(grid)).insert(handle, id)
            &&& grid_layout(*final(grid)) == grid_layout(*old(grid)).insert(handle)
            &&& grid_last_id(*final(grid)) == grid_last_id(*old(grid)) + 2
            &&& grid_maximized(*final(grid)) is None
        },
        added is None ==> {
            &&& grid_panes(*final(grid)) == grid_panes(*old(grid))
            &&& grid_layout(*final(grid)) == grid_layout(*old(grid))
            &&& grid_last_id(*old(grid)) + 1 != usize::MAX ==> *final(grid) == *old(grid)
        },
{
    grid.split(axis, pane, id).map(|(handle, _)| handle)
}

} // verus!
