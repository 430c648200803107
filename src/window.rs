use vstd::prelude::*;
use vstd::string::StringExecFns;

verus! {

/// The two windows the application knows by label.
#[derive(Clone, Copy, Debug, PartialEq, Eq, Structural)]
pub enum WindowLabel {
    /// Declared by the host's configuration and created at startup.
    Main,
    /// Created on demand from the tray menu.
    Overlay,
}

/// The label under which the host registers a window.
pub open spec fn label_text(l: WindowLabel) -> Seq<char> {
    match l {
        WindowLabel::Main => "main"@,
        WindowLabel::Overlay => "overlay"@,
    }
}

impl WindowLabel {
    pub fn name(&self) -> (r: &'static str)
        ensures
            r@ == label_text(*self),
    {
        match self {
            WindowLabel::Main => "main",
            WindowLabel::Overlay => "overlay",
        }
    }
}

/// The fixed construction parameters of the overlay window.
pub struct OverlaySpec {
    pub label: String,
    /// Web route, relative to the application's root, loaded into the window.
    pub route: String,
    pub title: String,
    /// Initial inner size, in logical units.
    pub width: u32,
    pub height: u32,
    pub transparent: bool,
    pub decorations: bool,
    pub always_on_top: bool,
    pub skip_taskbar: bool,
    /// Whether the window is shown once built.
    pub visible: bool,
}

/// The parameters with which the overlay window is built; no call site can
/// change them.
pub fn overlay_spec() -> (r: OverlaySpec)
    ensures
        r.label@ == label_text(WindowLabel::Overlay),
        r.route@ == "overlay"@,
        r.title@ == "FocusCue Overlay"@,
        r.width == 800,
        r.height == 600,
        r.transparent,
        !r.decorations,
        r.always_on_top,
        r.skip_taskbar,
        r.visible,
{
    OverlaySpec {
        label: String::from_str(WindowLabel::Overlay.name()),
        route: String::from_str("overlay"),
        title: String::from_str("FocusCue Overlay"),
        width: 800,
        height: 600,
        transparent: true,
        decorations: false,
        always_on_top: true,
        skip_taskbar: true,
        visible: true,
    }
}

} // verus!
