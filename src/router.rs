use vstd::prelude::*;
use crate::menu::{command_of, MenuCommand};
use crate::window::WindowLabel;

verus! {

#[derive(Clone, Copy, Debug, PartialEq, Eq, Structural)]
pub enum MouseButton {
    Left,
    Right,
    Middle,
}

/// What the host reports of the tray icon.
#[derive(Clone, Copy, Debug, PartialEq, Eq, Structural)]
pub enum TrayIconEvent {
    Click { button: MouseButton },
    DoubleClick { button: MouseButton },
    Enter,
    Move,
    Leave,
}

/// What the host answered about one window that its lookup found. `None`
/// stands for a query that failed.
#[derive(Clone, Copy, Debug, PartialEq, Eq, Structural)]
pub struct WindowView {
    pub visible: Option<bool>,
    pub always_on_top: Option<bool>,
}

/// What the router consults at the moment of an event: the lookup of each
/// label (`None` when the host has no window under it) and its queries.
#[derive(Clone, Copy, Debug, PartialEq, Eq, Structural)]
pub struct Snapshot {
    pub main: Option<WindowView>,
    pub overlay: Option<WindowView>,
}

/// The one thing the router asks the host to do for an event.
#[derive(Clone, Copy, Debug, PartialEq, Eq, Structural)]
pub enum Action {
    Exit { code: i32 },
    Hide { window: WindowLabel },
    Show { window: WindowLabel },
    ShowAndFocus { window: WindowLabel },
    CreateOverlay,
    SetAlwaysOnTop { window: WindowLabel, on: bool },
    Nothing,
}

/// A boolean query read defensively: a failed query reads as `false`.
pub open spec fn reads_true(q: Option<bool>) -> bool {
    q == Some(true)
}

/// The action for a menu entry (`None`: an identifier of no entry).
pub open spec fn menu_action(cmd: Option<MenuCommand>, seen: Snapshot) -> Action {
    match cmd {
        Some(MenuCommand::Quit) => Action::Exit { code: 0 },
        Some(MenuCommand::ToggleOverlay) => match seen.overlay {
            Some(w) => if reads_true(w.visible) {
                Action::Hide { window: WindowLabel::Overlay }
            } else {
                Action::Show { window: WindowLabel::Overlay }
            },
            None => Action::CreateOverlay,
        },
        Some(MenuCommand::AlwaysOnTop) => match seen.main {
            Some(w) => Action::SetAlwaysOnTop {
                window: WindowLabel::Main,
                on: !reads_true(w.always_on_top),
            },
            None => Action::Nothing,
        },
        None => Action::Nothing,
    }
}

/// The action for an event of the tray icon: a left click toggles the main
/// window, showing it with focus; anything else does nothing.
pub open spec fn tray_action(event: TrayIconEvent, seen: Snapshot) -> Action {
    match event {
        TrayIconEvent::Click { button: MouseButton::Left } => match seen.main {
            Some(w) => if reads_true(w.visible) {
                Action::Hide { window: WindowLabel::Main }
            } else {
                Action::ShowAndFocus { window: WindowLabel::Main }
            },
            None => Action::Nothing,
        },
        _ => Action::Nothing,
    }
}

fn read_defensively(q: Option<bool>) -> (r: bool)
    ensures
        r == reads_true(q),
{
    match q {
        Some(b) => b,
        None => false,
    }
}

/// Routes the menu entry with identifier `id`.
pub fn route_menu_event(id: &str, seen: &Snapshot) -> (r: Action)
    ensures
        r == menu_action(command_of(id@), *seen),
{
    match MenuCommand::from_id(id) {
        Some(MenuCommand::Quit) => Action::Exit { code: 0 },
        Some(MenuCommand::ToggleOverlay) => match seen.overlay {
            Some(w) => if read_defensively(w.visible) {
                Action::Hide { window: WindowLabel::Overlay }
            } else {
                Action::Show { window: WindowLabel::Overlay }
            },
            None => Action::CreateOverlay,
        },
        Some(MenuCommand::AlwaysOnTop) => match seen.main {
            Some(w) => Action::SetAlwaysOnTop {
                window: WindowLabel::Main,
                on: !read_defensively(w.always_on_top),
            },
            None => Action::Nothing,
        },
        None => Action::Nothing,
    }
}

/// Routes an event of the tray icon.
pub fn route_tray_event(event: &TrayIconEvent, seen: &Snapshot) -> (r: Action)
    ensures
        r == tray_action(*event, *seen),
{
    match event {
        TrayIconEvent::Click { button: MouseButton::Left } => match seen.main {
            Some(w) => if read_defensively(w.visible) {
                Action::Hide { window: WindowLabel::Main }
            } else {
                Action::ShowAndFocus { window: WindowLabel::Main }
            },
            None => Action::Nothing,
        },
        _ => Action::Nothing,
    }
}

} // verus!
