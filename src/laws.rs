use vstd::prelude::*;
use crate::command::greeting;
use crate::host::{perform, seen_in, window_of, Desktop};
use crate::menu::{command_of, MenuCommand};
use crate::router::{menu_action, tray_action, Action, MouseButton, Snapshot, TrayIconEvent};
use crate::window::WindowLabel;

verus! {

/// The greeting depends on the name alone, and two names give the same
/// greeting only when they are the same name.
pub proof fn greeting_names_its_input(a: Seq<char>, b: Seq<char>)
    ensures
        greeting(a) == greeting(b) <==> a == b,
{
    reveal_strlit("Hello, ");
    let start = "Hello, "@.len() as int;
    assert(greeting(a).subrange(start, start + a.len()) =~= a);
    assert(greeting(b).subrange(start, start + b.len()) =~= b);
    if greeting(a) == greeting(b) {
        assert(a.len() == b.len());
    }
}

/// The registry after the host carried out each action in turn, each with
/// whether its calls succeeded.
pub open spec fn perform_all(d: Desktop, steps: Seq<(Action, bool)>) -> Desktop
    decreases steps.len(),
{
    if steps.len() == 0 {
        d
    } else {
        perform(perform_all(d, steps.drop_last()), steps.last().0, steps.last().1)
    }
}

/// After a Toggle Overlay entry, a window labeled overlay exists, unless the
/// overlay had to be built and its construction failed.
pub proof fn toggle_overlay_leaves_an_overlay(d: Desktop, seen: Snapshot, ok: bool)
    requires
        seen_in(seen, d),
        ok || d.overlays.len() > 0,
    ensures
        window_of(perform(d, menu_action(Some(MenuCommand::ToggleOverlay), seen), ok),
            WindowLabel::Overlay) is Some,
{
}

/// Whatever the event, at most one overlay window stays live: the router
/// builds one only when the lookup found none.
pub proof fn at_most_one_overlay(
    d: Desktop,
    seen: Snapshot,
    id: Seq<char>,
    event: TrayIconEvent,
    ok: bool,
)
    requires
        seen_in(seen, d),
        d.overlays.len() <= 1,
    ensures
        perform(d, menu_action(command_of(id), seen), ok).overlays.len() <= 1,
        perform(d, tray_action(event, seen), ok).overlays.len() <= 1,
{
}

/// An Always On Top entry chosen while the main window exists, whose write
/// succeeds, leaves its always-on-top property negated, or set when the
/// current value could not be read.
pub proof fn always_on_top_entry_flips(d: Desktop, seen: Snapshot)
    requires
        seen_in(seen, d),
        d.main is Some,
    ensures
        ({
            let after = perform(d, menu_action(Some(MenuCommand::AlwaysOnTop), seen), true);
            &&& after.main is Some
            &&& after.main.unwrap().always_on_top == if seen.main.unwrap().always_on_top is Some {
                !d.main.unwrap().always_on_top
            } else {
                true
            }
        }),
{
}

/// No sequence of actions, whether their calls succeed or fail, removes the
/// main window.
pub proof fn main_window_survives(d: Desktop, steps: Seq<(Action, bool)>)
    requires
        d.main is Some,
    ensures
        perform_all(d, steps).main is Some,
    decreases steps.len(),
{
    if steps.len() > 0 {
        main_window_survives(d, steps.drop_last());
    }
}

/// Two Toggle Overlay entries from a registry without overlay leave exactly
/// one overlay, hidden: the first builds it shown, the second hides it. The
/// second visibility query must succeed, as a failed one reads as hidden.
pub proof fn toggle_overlay_twice_from_absent(d: Desktop, first: Snapshot, second: Snapshot)
    requires
        d.overlays.len() == 0,
        seen_in(first, d),
        seen_in(second, perform(d, menu_action(Some(MenuCommand::ToggleOverlay), first), true)),
        second.overlay matches Some(v) ==> v.visible is Some,
    ensures
        ({
            let once = perform(d, menu_action(Some(MenuCommand::ToggleOverlay), first), true);
            let twice = perform(once, menu_action(Some(MenuCommand::ToggleOverlay), second), true);
            &&& twice.overlays.len() == 1
            &&& !twice.overlays[0].visible
        }),
{
}

/// Two Always On Top entries, with every read and write succeeding, give the
/// main window back its always-on-top value.
pub proof fn always_on_top_twice_restores(d: Desktop, first: Snapshot, second: Snapshot)
    requires
        d.main is Some,
        seen_in(first, d),
        first.main matches Some(v) ==> v.always_on_top is Some,
        seen_in(second, perform(d, menu_action(Some(MenuCommand::AlwaysOnTop), first), true)),
        second.main matches Some(v) ==> v.always_on_top is Some,
    ensures
        ({
            let once = perform(d, menu_action(Some(MenuCommand::AlwaysOnTop), first), true);
            let twice = perform(once, menu_action(Some(MenuCommand::AlwaysOnTop), second), true);
            &&& twice.main is Some
            &&& twice.main.unwrap().always_on_top == d.main.unwrap().always_on_top
        }),
{
}

/// Two left clicks on the tray icon, with every query and call succeeding,
/// give the main window back its visibility.
pub proof fn two_left_clicks_restore(d: Desktop, first: Snapshot, second: Snapshot)
    requires
        d.main is Some,
        seen_in(first, d),
        first.main matches Some(v) ==> v.visible is Some,
        seen_in(
            second,
            perform(d, tray_action(TrayIconEvent::Click { button: MouseButton::Left }, first), true),
        ),
        second.main matches Some(v) ==> v.visible is Some,
    ensures
        ({
            let click = TrayIconEvent::Click { button: MouseButton::Left };
            let once = perform(d, tray_action(click, first), true);
            let twice = perform(once, tray_action(click, second), true);
            &&& twice.main is Some
            &&& twice.main.unwrap().visible == d.main.unwrap().visible
        }),
{
}

/// A Toggle Overlay entry whose overlay construction fails leaves no overlay
/// window.
pub proof fn failed_overlay_construction_leaves_none(d: Desktop, seen: Snapshot)
    requires
        d.overlays.len() == 0,
        seen_in(seen, d),
    ensures
        menu_action(Some(MenuCommand::ToggleOverlay), seen) == Action::CreateOverlay,
        perform(d, Action::CreateOverlay, false).overlays.len() == 0,
{
}

/// A left click on the tray icon whose visibility query failed shows the main
/// window and asks for focus.
pub proof fn failed_visibility_query_shows_main(seen: Snapshot)
    requires
        seen.main matches Some(v) && v.visible is None,
    ensures
        tray_action(TrayIconEvent::Click { button: MouseButton::Left }, seen)
            == (Action::ShowAndFocus { window: WindowLabel::Main }),
{
}

} // verus!
