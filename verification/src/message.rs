//! The messages that change a pane system, and the controls that send them.

use crate::grid::PaneId;
use iced::widget::pane_grid::{Axis, Pane};
use vstd::prelude::*;

verus! {

/// A request to change a pane system.
#[derive(Debug, Clone, Copy)]
pub enum PaneMessage {
    /// Split the pane under this handle along the axis.
    Split(Axis, Pane),
    /// Give the pane with this identifier a nested pane system.
    InsertChild(PaneId),
    /// Take the nested pane system away from the pane with this identifier.
    RemoveChild(PaneId),
}

/// One button of a pane: what it shows, what it sends when pressed, and
/// whether it is drawn as a destructive action.
#[derive(Debug, Clone, Copy)]
pub struct Control {
    pub label: &'static str,
    pub message: PaneMessage,
    pub destructive: bool,
}

/// The buttons of the pane with the handle `pane` and the identifier
/// `pane_id`, from left to right.
pub open spec fn pane_controls(pane: Pane, pane_id: PaneId) -> Seq<Control> {
    seq![
        Control {
            label: "hsplit",
            message: PaneMessage::Split(Axis::Horizontal, pane),
            destructive: false,
        },
        Control {
            label: "vsplit",
            message: PaneMessage::Split(Axis::Vertical, pane),
            destructive: false,
        },
        Control {
            label: "insert child",
            message: PaneMessage::InsertChild(pane_id),
            destructive: false,
        },
        Control {
            label: "remove child",
            message: PaneMessage::RemoveChild(pane_id),
            destructive: true,
        },
    ]
}

/// The buttons that a pane shows: two that split it, one that gives it a
/// nested pane system and one, destructive, that takes that away.
pub fn controls(pane: Pane, pane_id: PaneId) -> (list: Vec<Control>)
    ensures
        list@ == pane_controls(pane, pane_id),
{
    let mut list: Vec<Control> = Vec::new();
    list.push(
        Control {
            label: "hsplit",
            message: PaneMessage::Split(Axis::Horizontal, pane),
            destructive: false,
        },
    );
    list.push(
        Control {
            label: "vsplit",
            message: PaneMessage::Split(Axis::Vertical, pane),
            destructive: false,
        },
    );
    list.push(
        Control {
            label: "insert child",
            message: PaneMessage::InsertChild(pane_id),
            destructive: false,
        },
    );
    list.push(
        Control {
            label: "remove child",
            message: PaneMessage::RemoveChild(pane_id),
            destructive: true,
        },
    );
    list
}

} // verus!
