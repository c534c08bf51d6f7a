use iced::widget::pane_grid::{Axis, Pane};
use pane_system::{controls, Control, PaneMessage, PaneSystem};

fn first_handle(system: &PaneSystem) -> Pane {
    let found: Vec<Pane> = system.panes().iter().map(|(pane, _)| *pane).collect();
    assert_eq!(found.len(), 1);
    found[0]
}

fn second_handle() -> Pane {
    let mut system = PaneSystem::new();
    let first = first_handle(&system);
    system.update(PaneMessage::Split(Axis::Horizontal, first));
    let found: Vec<Pane> = system
        .panes()
        .iter()
        .filter(|(_, id)| **id == 1)
        .map(|(pane, _)| *pane)
        .collect();
    assert_eq!(found.len(), 1);
    found[0]
}

#[test]
fn controls_are_four_buttons_in_order() {
    let pane = first_handle(&PaneSystem::new());
    let list = controls(pane, 0);
    let labels: Vec<&str> = list.iter().map(|control| control.label).collect();
    assert_eq!(labels, vec!["hsplit", "vsplit", "insert child", "remove child"]);
}

#[test]
fn only_the_last_control_is_destructive() {
    let pane = first_handle(&PaneSystem::new());
    let list = controls(pane, 0);
    let flags: Vec<bool> = list.iter().map(|control| control.destructive).collect();
    assert_eq!(flags, vec![false, false, false, true]);
}

#[test]
fn split_controls_carry_the_handle() {
    let pane = second_handle();
    let list = controls(pane, 1);
    assert!(matches!(
        list[0].message,
        PaneMessage::Split(Axis::Horizontal, held) if held == pane
    ));
    assert!(matches!(
        list[1].message,
        PaneMessage::Split(Axis::Vertical, held) if held == pane
    ));
}

#[test]
fn child_controls_carry_the_identifier() {
    let pane = first_handle(&PaneSystem::new());
    let list = controls(pane, 17);
    assert!(matches!(list[2].message, PaneMessage::InsertChild(17)));
    assert!(matches!(list[3].message, PaneMessage::RemoveChild(17)));
}

#[test]
fn pressing_each_control_changes_the_system_as_labelled() {
    let mut system = PaneSystem::new();
    let pane = first_handle(&system);
    let list: Vec<Control> = controls(pane, 0);

    system.update(list[0].message);
    assert_eq!(system.panes().len(), 2);
    system.update(list[1].message);
    assert_eq!(system.panes().len(), 3);
    system.update(list[2].message);
    assert!(system.child(0).is_some());
    system.update(list[3].message);
    assert!(system.child(0).is_none());
    assert_eq!(system.panes().len(), 3);
}

#[test]
fn messages_and_controls_can_be_copied_and_shown() {
    let pane = first_handle(&PaneSystem::new());
    let list = controls(pane, 5);
    let copy = list[2];
    assert_eq!(format!("{:?}", copy.message), "InsertChild(5)");
    assert_eq!(format!("{:?}", list[3].message), "RemoveChild(5)");
    assert_eq!(format!("{:?}", list[0].message), format!("Split(Horizontal, {:?})", pane));
}
