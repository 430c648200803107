use focuscue::command::{greet, toggle_always_on_top};
use focuscue::menu::{tray_menu, MenuCommand};
use focuscue::router::{
    route_menu_event, route_tray_event, Action, MouseButton, Snapshot, TrayIconEvent, WindowView,
};
use focuscue::window::{overlay_spec, WindowLabel};

fn shown(visible: bool, on_top: bool) -> Option<WindowView> {
    Some(WindowView { visible: Some(visible), always_on_top: Some(on_top) })
}

fn left_click() -> TrayIconEvent {
    TrayIconEvent::Click { button: MouseButton::Left }
}

#[test]
fn greet_ada() {
    assert_eq!(greet("Ada"), "Hello, Ada! You've been greeted from Rust!");
}

#[test]
fn greet_empty_name() {
    assert_eq!(greet(""), "Hello, ! You've been greeted from Rust!");
}

#[test]
fn greet_same_input_same_output() {
    assert_eq!(greet("Grace Hopper"), greet("Grace Hopper"));
    assert_eq!(greet("{name}"), "Hello, {name}! You've been greeted from Rust!");
}

#[test]
fn fresh_start_toggle_overlay_builds_it() {
    let seen = Snapshot { main: shown(true, false), overlay: None };
    assert_eq!(route_menu_event("toggle_overlay", &seen), Action::CreateOverlay);
    let spec = overlay_spec();
    assert_eq!(spec.label, "overlay");
    assert_eq!(spec.route, "overlay");
    assert_eq!(spec.title, "FocusCue Overlay");
    assert_eq!((spec.width, spec.height), (800, 600));
    assert!(spec.transparent);
    assert!(!spec.decorations);
    assert!(spec.always_on_top);
    assert!(spec.skip_taskbar);
    assert!(spec.visible);
}

#[test]
fn visible_overlay_toggle_hides_it() {
    let seen = Snapshot { main: shown(true, false), overlay: shown(true, true) };
    assert_eq!(
        route_menu_event("toggle_overlay", &seen),
        Action::Hide { window: WindowLabel::Overlay }
    );
}

#[test]
fn hidden_overlay_toggle_shows_it() {
    let seen = Snapshot { main: None, overlay: shown(false, true) };
    assert_eq!(
        route_menu_event("toggle_overlay", &seen),
        Action::Show { window: WindowLabel::Overlay }
    );
}

#[test]
fn overlay_toggled_twice_from_absent_ends_hidden() {
    let first = Snapshot { main: shown(true, false), overlay: None };
    assert_eq!(route_menu_event("toggle_overlay", &first), Action::CreateOverlay);
    // the overlay is built shown
    let second = Snapshot { main: shown(true, false), overlay: shown(overlay_spec().visible, true) };
    assert_eq!(
        route_menu_event("toggle_overlay", &second),
        Action::Hide { window: WindowLabel::Overlay }
    );
}

#[test]
fn overlay_query_failure_reads_as_hidden() {
    let seen = Snapshot {
        main: None,
        overlay: Some(WindowView { visible: None, always_on_top: None }),
    };
    assert_eq!(
        route_menu_event("toggle_overlay", &seen),
        Action::Show { window: WindowLabel::Overlay }
    );
}

#[test]
fn toggle_overlay_never_builds_a_second_overlay() {
    for visible in [Some(true), Some(false), None] {
        let seen = Snapshot {
            main: None,
            overlay: Some(WindowView { visible, always_on_top: Some(true) }),
        };
        assert_ne!(route_menu_event("toggle_overlay", &seen), Action::CreateOverlay);
    }
}

#[test]
fn quit_exits_with_zero() {
    let seen = Snapshot { main: shown(true, false), overlay: None };
    assert_eq!(route_menu_event("quit", &seen), Action::Exit { code: 0 });
}

#[test]
fn unknown_menu_id_does_nothing() {
    let seen = Snapshot { main: shown(true, false), overlay: shown(true, true) };
    assert_eq!(route_menu_event("Quit", &seen), Action::Nothing);
    assert_eq!(route_menu_event("", &seen), Action::Nothing);
    assert_eq!(route_menu_event("quit ", &seen), Action::Nothing);
}

#[test]
fn always_on_top_entry_negates() {
    let seen = Snapshot { main: shown(true, false), overlay: None };
    assert_eq!(
        route_menu_event("always_on_top", &seen),
        Action::SetAlwaysOnTop { window: WindowLabel::Main, on: true }
    );
    let seen = Snapshot { main: shown(true, true), overlay: None };
    assert_eq!(
        route_menu_event("always_on_top", &seen),
        Action::SetAlwaysOnTop { window: WindowLabel::Main, on: false }
    );
}

#[test]
fn always_on_top_entry_unreadable_sets_it() {
    let seen = Snapshot {
        main: Some(WindowView { visible: Some(true), always_on_top: None }),
        overlay: None,
    };
    assert_eq!(
        route_menu_event("always_on_top", &seen),
        Action::SetAlwaysOnTop { window: WindowLabel::Main, on: true }
    );
}

#[test]
fn always_on_top_entry_without_main_does_nothing() {
    let seen = Snapshot { main: None, overlay: shown(true, true) };
    assert_eq!(route_menu_event("always_on_top", &seen), Action::Nothing);
}

#[test]
fn always_on_top_twice_round_trips() {
    let first = Snapshot { main: shown(true, false), overlay: None };
    let on = match route_menu_event("always_on_top", &first) {
        Action::SetAlwaysOnTop { window: WindowLabel::Main, on } => on,
        other => panic!("unexpected {:?}", other),
    };
    let second = Snapshot { main: shown(true, on), overlay: None };
    assert_eq!(
        route_menu_event("always_on_top", &second),
        Action::SetAlwaysOnTop { window: WindowLabel::Main, on: false }
    );
}

#[test]
fn command_toggle_always_on_top_from_off() {
    assert_eq!(toggle_always_on_top(Ok(false)), Ok(true));
    assert_eq!(toggle_always_on_top(Ok(true)), Ok(false));
}

#[test]
fn command_toggle_always_on_top_reports_read_error() {
    assert_eq!(
        toggle_always_on_top(Err("window not found".to_string())),
        Err("window not found".to_string())
    );
}

#[test]
fn left_clicks_toggle_main_window() {
    let visible = Snapshot { main: shown(true, false), overlay: None };
    assert_eq!(route_tray_event(&left_click(), &visible), Action::Hide { window: WindowLabel::Main });
    let hidden = Snapshot { main: shown(false, false), overlay: None };
    assert_eq!(
        route_tray_event(&left_click(), &hidden),
        Action::ShowAndFocus { window: WindowLabel::Main }
    );
}

#[test]
fn left_click_with_failed_query_shows_and_focuses() {
    let seen = Snapshot {
        main: Some(WindowView { visible: None, always_on_top: Some(false) }),
        overlay: None,
    };
    assert_eq!(
        route_tray_event(&left_click(), &seen),
        Action::ShowAndFocus { window: WindowLabel::Main }
    );
}

#[test]
fn left_click_without_main_does_nothing() {
    let seen = Snapshot { main: None, overlay: shown(true, true) };
    assert_eq!(route_tray_event(&left_click(), &seen), Action::Nothing);
}

#[test]
fn other_tray_events_do_nothing() {
    let seen = Snapshot { main: shown(true, false), overlay: None };
    let others = [
        TrayIconEvent::Click { button: MouseButton::Right },
        TrayIconEvent::Click { button: MouseButton::Middle },
        TrayIconEvent::DoubleClick { button: MouseButton::Left },
        TrayIconEvent::Enter,
        TrayIconEvent::Move,
        TrayIconEvent::Leave,
    ];
    for event in others {
        assert_eq!(route_tray_event(&event, &seen), Action::Nothing);
    }
}

#[test]
fn tray_menu_entries_in_order() {
    let items = tray_menu();
    let expected = [
        ("toggle_overlay", "Toggle Overlay"),
        ("always_on_top", "Toggle Always On Top"),
        ("quit", "Quit"),
    ];
    assert_eq!(items.len(), 3);
    for (item, (id, label)) in items.iter().zip(expected) {
        assert_eq!(item.id, id);
        assert_eq!(item.label, label);
        assert!(item.enabled);
    }
}

#[test]
fn menu_ids_round_trip() {
    for c in [MenuCommand::ToggleOverlay, MenuCommand::AlwaysOnTop, MenuCommand::Quit] {
        assert_eq!(MenuCommand::from_id(c.id()), Some(c));
    }
    assert_eq!(MenuCommand::from_id("toggle"), None);
}

#[test]
fn window_labels() {
    assert_eq!(WindowLabel::Main.name(), "main");
    assert_eq!(WindowLabel::Overlay.name(), "overlay");
}
