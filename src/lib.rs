//! Native shell of the FocusCue desktop application: the tray menu, the
//! overlay window's parameters, the command surface offered to the web UI, and
//! the router that turns tray events into window actions.
//!
//! The desktop host (its window registry, tray and event loop) stays outside:
//! the router reads a snapshot of what the host reports and answers with one
//! action for the host to perform. `host` models the host's registry so that
//! the properties of the router can be stated and proved in `laws`.

pub mod command;
pub mod host;
pub mod laws;
pub mod menu;
pub mod router;
pub mod window;
