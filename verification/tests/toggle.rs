use palette_toggle::controller::{decide, dispatch, toggle, Action, Toggled};
use palette_toggle::shortcut::{
    palette_binding, KeyState, Listener, Modifiers, RegistrationError, ShortcutEvent, ToggleEvent,
};
use palette_toggle::window::{
    label_text, palette_config, Registry, WindowCloseError, WindowCreateError, WindowLabel,
};

fn press_event() -> ShortcutEvent {
    ShortcutEvent {
        modifiers: Modifiers { control: false, shift: false, alt: false, super_key: true },
        key: 'g',
        state: KeyState::Pressed,
    }
}

fn palette_count(reg: &Registry) -> usize {
    let mut n = 0;
    let mut i = 0;
    while i < reg.len() {
        if reg.get(i).label == WindowLabel::CommandPalette {
            n += 1;
        }
        i += 1;
    }
    n
}

#[test]
fn toggle_parity_presses() {
    let mut reg = Registry::new();
    for n in 1..=8usize {
        toggle(&mut reg, ToggleEvent, true).unwrap();
        let open = reg.lookup(WindowLabel::CommandPalette).is_some();
        assert_eq!(open, n % 2 == 1, "after {} presses", n);
    }
}

#[test]
fn at_most_one_palette_under_rapid_presses() {
    let mut reg = Registry::new();
    reg.create(WindowLabel::Main, palette_config()).unwrap();
    for _ in 0..10 {
        let _ = toggle(&mut reg, ToggleEvent, true);
        assert!(palette_count(&reg) <= 1);
    }
}

#[test]
fn external_close_then_press_opens() {
    let mut reg = Registry::new();
    let first = match toggle(&mut reg, ToggleEvent, true).unwrap() {
        Toggled::Opened(id) => id,
        other => panic!("expected an open, got {:?}", other),
    };
    // the user dismisses the window; the shortcut was not involved
    assert!(reg.external_close());
    assert!(reg.lookup(WindowLabel::CommandPalette).is_none());
    // the controller re-queries the registry, so the next press opens
    match toggle(&mut reg, ToggleEvent, true).unwrap() {
        Toggled::Opened(id) => assert_ne!(id, first),
        other => panic!("expected an open, got {:?}", other),
    }
    assert!(reg.lookup(WindowLabel::CommandPalette).is_some());
}

#[test]
fn external_close_without_palette_is_safe() {
    let mut reg = Registry::new();
    assert!(!reg.external_close());
    assert_eq!(reg.len(), 0);
}

#[test]
fn registration_failure_keeps_app_working() {
    let mut listener = Listener::new(palette_binding());
    listener.apply_registration(Err(RegistrationError::AlreadyClaimed));
    assert!(!listener.registered);

    // shortcut events are not dispatched while unregistered...
    let mut reg = Registry::new();
    let out = dispatch(&listener, &mut reg, &press_event(), true);
    assert!(out.is_none());
    assert_eq!(reg.len(), 0);

    // ...and the rest of the application still works
    let main_id = reg.create(WindowLabel::Main, palette_config()).unwrap();
    assert_eq!(reg.lookup(WindowLabel::Main), Some(main_id));
    reg.close(main_id).unwrap();
    assert_eq!(reg.len(), 0);

    listener.apply_registration(Err(RegistrationError::Unsupported));
    assert!(!listener.registered);
}

#[test]
fn scenario_three_presses() {
    let mut reg = Registry::new();

    // press #1: no window exists, so one is created with the fixed shape
    let first = match toggle(&mut reg, ToggleEvent, true).unwrap() {
        Toggled::Opened(id) => id,
        other => panic!("expected an open, got {:?}", other),
    };
    assert_eq!(reg.len(), 1);
    let w = reg.get(0).clone();
    assert_eq!(w.label, WindowLabel::CommandPalette);
    assert_eq!(w.config.title, "Command Palette");
    assert_eq!((w.config.width, w.config.height), (600, 400));
    assert!(!w.config.decorations);
    assert!(w.config.centered);
    assert!(w.config.skip_taskbar);
    assert!(w.config.always_on_top);
    assert_eq!(w.config.url, "/command-palette");

    // press #2: that window is closed
    assert_eq!(toggle(&mut reg, ToggleEvent, true).unwrap(), Toggled::Closed(first));
    assert_eq!(reg.len(), 0);

    // press #3: a new window, identical configuration, fresh handle
    let second = match toggle(&mut reg, ToggleEvent, true).unwrap() {
        Toggled::Opened(id) => id,
        other => panic!("expected an open, got {:?}", other),
    };
    assert_ne!(second, first);
    let w2 = reg.get(0);
    assert_eq!(w2.config, w.config);
    assert_eq!(w2.label, WindowLabel::CommandPalette);
}

#[test]
fn release_and_unmatched_events_are_ignored() {
    let mut listener = Listener::new(palette_binding());
    listener.apply_registration(Ok(()));
    assert!(listener.registered);
    let mut reg = Registry::new();

    let release = ShortcutEvent { state: KeyState::Released, ..press_event() };
    assert!(dispatch(&listener, &mut reg, &release, true).is_none());
    assert_eq!(reg.len(), 0);

    let other_key = ShortcutEvent { key: 'h', ..press_event() };
    assert!(dispatch(&listener, &mut reg, &other_key, true).is_none());
    let other_mods = ShortcutEvent {
        modifiers: Modifiers { control: true, shift: false, alt: false, super_key: false },
        ..press_event()
    };
    assert!(dispatch(&listener, &mut reg, &other_mods, true).is_none());
    assert_eq!(reg.len(), 0);

    let out = dispatch(&listener, &mut reg, &press_event(), true);
    assert!(matches!(out, Some(Ok(Toggled::Opened(_)))));
    assert_eq!(palette_count(&reg), 1);
}

#[test]
fn rejected_create_leaves_state_closed_without_retry() {
    let mut reg = Registry::new();
    let r = toggle(&mut reg, ToggleEvent, false);
    assert_eq!(r, Err(WindowCreateError::Rejected));
    assert_eq!(reg.len(), 0);
    // the next press is the natural retry
    assert!(matches!(toggle(&mut reg, ToggleEvent, true), Ok(Toggled::Opened(_))));
}

#[test]
fn rejected_create_does_not_close_other_windows() {
    let mut reg = Registry::new();
    let main_id = reg.create(WindowLabel::Main, palette_config()).unwrap();
    let r = toggle(&mut reg, ToggleEvent, false);
    assert_eq!(r, Err(WindowCreateError::Rejected));
    assert_eq!(reg.lookup(WindowLabel::Main), Some(main_id));
    assert_eq!(reg.len(), 1);
}

#[test]
fn duplicate_label_create_fails() {
    let mut reg = Registry::new();
    reg.create(WindowLabel::CommandPalette, palette_config()).unwrap();
    let r = reg.create(WindowLabel::CommandPalette, palette_config());
    assert_eq!(r, Err(WindowCreateError::DuplicateLabel));
    assert_eq!(reg.len(), 1);
}

#[test]
fn close_with_stale_handle_fails_and_changes_nothing() {
    let mut reg = Registry::new();
    let id = reg.create(WindowLabel::CommandPalette, palette_config()).unwrap();
    assert_eq!(reg.close(id + 1), Err(WindowCloseError::StaleHandle));
    assert_eq!(reg.len(), 1);
    assert_eq!(reg.close(id), Ok(()));
    assert_eq!(reg.close(id), Err(WindowCloseError::StaleHandle));
}

#[test]
fn unregister_is_idempotent() {
    let mut listener = Listener::new(palette_binding());
    listener.apply_registration(Ok(()));
    listener.unregister();
    assert!(!listener.registered);
    listener.unregister();
    assert!(!listener.registered);
    assert_eq!(listener.binding, palette_binding());
}

#[test]
fn palette_config_values() {
    let c = palette_config();
    assert_eq!(c.title, "Command Palette");
    assert_eq!(c.url, "/command-palette");
    assert_eq!(c.width, 600);
    assert_eq!(c.height, 400);
    assert!(!c.decorations);
    assert!(c.centered);
    assert!(c.skip_taskbar);
    assert!(c.always_on_top);
}

#[test]
fn decide_rule() {
    match decide(true) {
        Action::CloseExisting => {},
        Action::CreateNew(_) => panic!("a live window must be closed, not duplicated"),
    }
    match decide(false) {
        Action::CreateNew(c) => assert_eq!(c, palette_config()),
        Action::CloseExisting => panic!("nothing to close"),
    }
}

#[test]
fn label_text_values() {
    assert_eq!(label_text(WindowLabel::CommandPalette), "command-palette");
    assert_eq!(label_text(WindowLabel::Main), "main");
}

#[test]
fn binding_matching() {
    let b = palette_binding();
    assert!(b.matches(&press_event()));
    let wrong = ShortcutEvent { key: 'q', ..press_event() };
    assert!(!b.matches(&wrong));
}
