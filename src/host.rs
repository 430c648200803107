use vstd::prelude::*;
use crate::router::{Action, Snapshot, WindowView};
use crate::window::WindowLabel;

verus! {

/// The state of one live window, as the host holds it.
pub struct HostWindow {
    pub visible: bool,
    pub always_on_top: bool,
    pub focused: bool,
}

/// The host's registry, as far as the router acts on it: the main window, if
/// it exists; every live window labeled overlay, in order of creation (a
/// lookup finds the first); and the exit code, once an exit was requested.
pub struct Desktop {
    pub main: Option<HostWindow>,
    pub overlays: Seq<HostWindow>,
    pub exit_code: Option<i32>,
}

/// The window a lookup of `l` finds.
pub open spec fn window_of(d: Desktop, l: WindowLabel) -> Option<HostWindow> {
    match l {
        WindowLabel::Main => d.main,
        WindowLabel::Overlay => if d.overlays.len() > 0 {
            Some(d.overlays[0])
        } else {
            None
        },
    }
}

/// `d` with the window that a lookup of `l` finds replaced by `w`.
pub open spec fn with_window(d: Desktop, l: WindowLabel, w: HostWindow) -> Desktop {
    match l {
        WindowLabel::Main => Desktop { main: Some(w), ..d },
        WindowLabel::Overlay => Desktop { overlays: d.overlays.update(0, w), ..d },
    }
}

/// The overlay window as the host builds it from its fixed parameters: shown
/// and on top, not focused.
pub open spec fn built_overlay() -> HostWindow {
    HostWindow { visible: true, always_on_top: true, focused: false }
}

/// The host's registry after it carried out `a`. `ok` is whether its calls
/// succeeded: a failed call changes nothing.
pub open spec fn perform(d: Desktop, a: Action, ok: bool) -> Desktop {
    if !ok {
        d
    } else {
        match a {
            Action::Exit { code } => Desktop { exit_code: Some(code), ..d },
            Action::CreateOverlay => Desktop { overlays: d.overlays.push(built_overlay()), ..d },
            Action::Nothing => d,
            Action::Hide { window } => match window_of(d, window) {
                Some(w) => with_window(d, window, HostWindow { visible: false, ..w }),
                None => d,
            },
            Action::Show { window } => match window_of(d, window) {
                Some(w) => with_window(d, window, HostWindow { visible: true, ..w }),
                None => d,
            },
            Action::ShowAndFocus { window } => match window_of(d, window) {
                Some(w) => with_window(
                    d,
                    window,
                    HostWindow { visible: true, always_on_top: w.always_on_top, focused: true },
                ),
                None => d,
            },
            Action::SetAlwaysOnTop { window, on } => match window_of(d, window) {
                Some(w) => with_window(d, window, HostWindow { always_on_top: on, ..w }),
                None => d,
            },
        }
    }
}

/// A query either failed or told the truth.
pub open spec fn query_agrees(q: Option<bool>, actual: bool) -> bool {
    q matches Some(b) ==> b == actual
}

/// What the host answered about a label agrees with its registry: the lookup
/// found a window exactly when there is one, and each query that succeeded
/// reported that window's state.
pub open spec fn view_agrees(v: Option<WindowView>, w: Option<HostWindow>) -> bool {
    match (v, w) {
        (None, None) => true,
        (Some(v), Some(w)) => query_agrees(v.visible, w.visible) && query_agrees(
            v.always_on_top,
            w.always_on_top,
        ),
        _ => false,
    }
}

/// `seen` is a snapshot that the host may have given while its registry was `d`.
pub open spec fn seen_in(seen: Snapshot, d: Desktop) -> bool {
    &&& view_agrees(seen.main, window_of(d, WindowLabel::Main))
    &&& view_agrees(seen.overlay, window_of(d, WindowLabel::Overlay))
}

} // verus!
