use vstd::prelude::*;
use vstd::string::{StrSliceExecFns, StringExecFns};

verus! {

/// The entries of the tray menu, top to bottom.
#[derive(Clone, Copy, Debug, PartialEq, Eq, Structural)]
pub enum MenuCommand {
    ToggleOverlay,
    AlwaysOnTop,
    Quit,
}

/// The identifier the host reports when an entry is chosen.
pub open spec fn command_id(c: MenuCommand) -> Seq<char> {
    match c {
        MenuCommand::ToggleOverlay => "toggle_overlay"@,
        MenuCommand::AlwaysOnTop => "always_on_top"@,
        MenuCommand::Quit => "quit"@,
    }
}

/// The text the user sees for an entry.
pub open spec fn command_label(c: MenuCommand) -> Seq<char> {
    match c {
        MenuCommand::ToggleOverlay => "Toggle Overlay"@,
        MenuCommand::AlwaysOnTop => "Toggle Always On Top"@,
        MenuCommand::Quit => "Quit"@,
    }
}

/// The entry an identifier names, if any.
pub open spec fn command_of(id: Seq<char>) -> Option<MenuCommand> {
    if id == command_id(MenuCommand::ToggleOverlay) {
        Some(MenuCommand::ToggleOverlay)
    } else if id == command_id(MenuCommand::AlwaysOnTop) {
        Some(MenuCommand::AlwaysOnTop)
    } else if id == command_id(MenuCommand::Quit) {
        Some(MenuCommand::Quit)
    } else {
        None
    }
}

/// Each entry's identifier names that entry and no other.
pub proof fn id_names_its_command(c: MenuCommand)
    ensures
        command_of(command_id(c)) == Some(c),
{
    reveal_strlit("toggle_overlay");
    reveal_strlit("always_on_top");
    reveal_strlit("quit");
    assert(command_id(MenuCommand::ToggleOverlay).len() == 14);
    assert(command_id(MenuCommand::AlwaysOnTop).len() == 13);
    assert(command_id(MenuCommand::Quit).len() == 4);
}

/// Whether two strings hold the same characters.
fn same_text(a: &str, b: &str) -> (r: bool)
    ensures
        r == (a@ == b@),
{
    let n = a.unicode_len();
    if n != b.unicode_len() {
        return false;
    }
    let mut i: usize = 0;
    while i < n
        invariant
            n == a@.len(),
            n == b@.len(),
            i <= n,
            forall|k: int| 0 <= k < i ==> a@[k] == b@[k],
        decreases n - i,
    {
        if a.get_char(i) != b.get_char(i) {
            return false;
        }
        i += 1;
    }
    assert(a@ =~= b@);
    true
}

impl MenuCommand {
    pub fn id(&self) -> (r: &'static str)
        ensures
            r@ == command_id(*self),
    {
        match self {
            MenuCommand::ToggleOverlay => "toggle_overlay",
            MenuCommand::AlwaysOnTop => "always_on_top",
            MenuCommand::Quit => "quit",
        }
    }

    pub fn label(&self) -> (r: &'static str)
        ensures
            r@ == command_label(*self),
    {
        match self {
            MenuCommand::ToggleOverlay => "Toggle Overlay",
            MenuCommand::AlwaysOnTop => "Toggle Always On Top",
            MenuCommand::Quit => "Quit",
        }
    }

    /// The entry named by an identifier the host reported; `None` for an
    /// identifier of no entry.
    pub fn from_id(id: &str) -> (r: Option<MenuCommand>)
        ensures
            r == command_of(id@),
    {
        if same_text(id, MenuCommand::ToggleOverlay.id()) {
            Some(MenuCommand::ToggleOverlay)
        } else if same_text(id, MenuCommand::AlwaysOnTop.id()) {
            Some(MenuCommand::AlwaysOnTop)
        } else if same_text(id, MenuCommand::Quit.id()) {
            Some(MenuCommand::Quit)
        } else {
            None
        }
    }
}

/// One entry of the tray menu as handed to the host.
pub struct MenuItemSpec {
    pub id: String,
    pub label: String,
    pub enabled: bool,
}

impl MenuItemSpec {
    pub fn of(c: MenuCommand) -> (r: MenuItemSpec)
        ensures
            r.id@ == command_id(c),
            r.label@ == command_label(c),
            r.enabled,
    {
        MenuItemSpec { id: String::from_str(c.id()), label: String::from_str(c.label()), enabled: true }
    }
}

/// The position of each entry in the tray menu.
pub open spec fn menu_order() -> Seq<MenuCommand> {
    seq![MenuCommand::ToggleOverlay, MenuCommand::AlwaysOnTop, MenuCommand::Quit]
}

/// The tray menu: the three entries, in order, all enabled.
pub fn tray_menu() -> (r: Vec<MenuItemSpec>)
    ensures
        r@.len() == menu_order().len(),
        forall|i: int|
            0 <= i < r@.len() ==> {
                &&& (#[trigger] r@[i]).id@ == command_id(menu_order()[i])
                &&& r@[i].label@ == command_label(menu_order()[i])
                &&& r@[i].enabled
            },
{
    let mut r: Vec<MenuItemSpec> = Vec::new();
    r.push(MenuItemSpec::of(MenuCommand::ToggleOverlay));
    r.push(MenuItemSpec::of(MenuCommand::AlwaysOnTop));
    r.push(MenuItemSpec::of(MenuCommand::Quit));
    r
}

} // verus!
