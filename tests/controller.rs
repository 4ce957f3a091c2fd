use speako_tray::controller::{
    Action, ButtonState, Event, MouseButton, Pending, SetupError, TrayController, MAIN_WINDOW,
    TOOLTIP, TRAY_ID,
};
use speako_tray::menu::{Feature, MenuId};

/// A stand-in for the operating system: two settings and a visible flag, with
/// switches and readings that can be made to fail.
struct FakeSystem {
    visible: bool,
    focused: bool,
    on_top: bool,
    autostart: bool,
    fail_reads: bool,
    fail_writes: bool,
    writes: usize,
}

impl FakeSystem {
    fn new(visible: bool, on_top: bool, autostart: bool) -> FakeSystem {
        FakeSystem { visible, focused: false, on_top, autostart, fail_reads: false, fail_writes: false, writes: 0 }
    }

    fn setting(&mut self, f: Feature) -> &mut bool {
        match f {
            Feature::AlwaysOnTop => &mut self.on_top,
            Feature::Autostart => &mut self.autostart,
        }
    }
}

/// Feeds `e` to the controller and performs each action it asks for, until it
/// asks for nothing more. Returns every action.
fn drive(c: &mut TrayController, sys: &mut FakeSystem, e: Event) -> Vec<Action> {
    let mut done = Vec::new();
    let mut a = c.step(e);
    loop {
        done.push(a);
        let reply = match a {
            Action::ReadVisibility => Event::VisibilityRead(if sys.fail_reads { None } else { Some(sys.visible) }),
            Action::Hide => {
                sys.visible = false;
                return done;
            }
            Action::ShowAndFocus => {
                sys.visible = true;
                sys.focused = true;
                return done;
            }
            Action::ReadFeature(f) => {
                let fail = sys.fail_reads;
                let v = *sys.setting(f);
                Event::FeatureRead(if fail { None } else { Some(v) })
            }
            Action::WriteFeature(f, on) => {
                sys.writes += 1;
                if sys.fail_writes {
                    Event::FeatureWritten(false)
                } else {
                    *sys.setting(f) = on;
                    Event::FeatureWritten(true)
                }
            }
            Action::ShowLabel(_) | Action::Exit(_) | Action::Nothing => return done,
        };
        a = c.step(reply);
    }
}

fn label(c: &TrayController, id: MenuId) -> String {
    c.menu().label(id).unwrap().to_string()
}

#[test]
fn pinning_toggle_turns_it_off() {
    let mut c = TrayController::new(true);
    let mut sys = FakeSystem::new(true, true, false);
    let acts = drive(&mut c, &mut sys, Event::MenuSelected(MenuId::AlwaysOnTop));
    assert_eq!(
        acts,
        vec![
            Action::ReadFeature(Feature::AlwaysOnTop),
            Action::WriteFeature(Feature::AlwaysOnTop, false),
            Action::ReadFeature(Feature::AlwaysOnTop),
            Action::ShowLabel(MenuId::AlwaysOnTop),
        ]
    );
    assert!(!sys.on_top);
    assert!(sys.visible);
    assert_eq!(label(&c, MenuId::AlwaysOnTop), "Siempre visible: OFF");
    assert_eq!(label(&c, MenuId::Autostart), "Iniciar con Windows: OFF");
    assert_eq!(c.pending(), Pending::Ready);
}

#[test]
fn failed_autostart_switch_keeps_label() {
    let mut c = TrayController::new(true);
    let mut sys = FakeSystem::new(true, true, false);
    sys.fail_writes = true;
    let acts = drive(&mut c, &mut sys, Event::MenuSelected(MenuId::Autostart));
    assert_eq!(
        acts,
        vec![
            Action::ReadFeature(Feature::Autostart),
            Action::WriteFeature(Feature::Autostart, true),
            Action::Nothing,
        ]
    );
    assert!(!sys.autostart);
    assert_eq!(label(&c, MenuId::Autostart), "Iniciar con Windows: OFF");
    assert_eq!(c.pending(), Pending::Ready);
}

#[test]
fn label_follows_system_over_many_toggles() {
    let mut c = TrayController::new(true);
    let mut sys = FakeSystem::new(true, false, false);
    let pattern = [false, true, true, false, true, false, false, true];
    for fail in pattern {
        sys.fail_writes = fail;
        drive(&mut c, &mut sys, Event::MenuSelected(MenuId::Autostart));
        let expected = if sys.autostart { "Iniciar con Windows: ON" } else { "Iniciar con Windows: OFF" };
        assert_eq!(label(&c, MenuId::Autostart), expected);
    }
}

#[test]
fn label_shows_read_back_not_requested() {
    // The switch reports success but the setting does not stick.
    let mut c = TrayController::new(true);
    c.step(Event::MenuSelected(MenuId::AlwaysOnTop));
    assert_eq!(c.step(Event::FeatureRead(Some(true))), Action::WriteFeature(Feature::AlwaysOnTop, false));
    assert_eq!(c.step(Event::FeatureWritten(true)), Action::ReadFeature(Feature::AlwaysOnTop));
    assert_eq!(c.step(Event::FeatureRead(Some(true))), Action::ShowLabel(MenuId::AlwaysOnTop));
    assert_eq!(label(&c, MenuId::AlwaysOnTop), "Siempre visible: ON");
}

#[test]
fn double_toggle_restores() {
    let mut c = TrayController::new(true);
    let mut sys = FakeSystem::new(true, true, false);
    drive(&mut c, &mut sys, Event::MenuSelected(MenuId::AlwaysOnTop));
    assert!(!sys.on_top);
    assert_eq!(label(&c, MenuId::AlwaysOnTop), "Siempre visible: OFF");
    drive(&mut c, &mut sys, Event::MenuSelected(MenuId::AlwaysOnTop));
    assert!(sys.on_top);
    assert_eq!(label(&c, MenuId::AlwaysOnTop), "Siempre visible: ON");
}

#[test]
fn failed_read_counts_as_off() {
    let mut c = TrayController::new(true);
    c.step(Event::MenuSelected(MenuId::AlwaysOnTop));
    assert_eq!(c.step(Event::FeatureRead(None)), Action::WriteFeature(Feature::AlwaysOnTop, true));
    assert_eq!(c.step(Event::FeatureWritten(true)), Action::ReadFeature(Feature::AlwaysOnTop));
    assert_eq!(c.step(Event::FeatureRead(None)), Action::ShowLabel(MenuId::AlwaysOnTop));
    assert_eq!(label(&c, MenuId::AlwaysOnTop), "Siempre visible: OFF");
}

#[test]
fn click_matches_show_hide() {
    for visible in [true, false] {
        let mut by_click = TrayController::new(true);
        let mut sys_click = FakeSystem::new(visible, true, false);
        let a = drive(
            &mut by_click,
            &mut sys_click,
            Event::TrayClick { button: MouseButton::Left, state: ButtonState::Up },
        );
        let mut by_menu = TrayController::new(true);
        let mut sys_menu = FakeSystem::new(visible, true, false);
        let b = drive(&mut by_menu, &mut sys_menu, Event::MenuSelected(MenuId::ShowHide));
        assert_eq!(a, b);
        assert_eq!(sys_click.visible, sys_menu.visible);
        assert_eq!(sys_click.focused, sys_menu.focused);
        assert_eq!(sys_click.visible, !visible);
    }
}

#[test]
fn unknown_visibility_shows_window() {
    let mut c = TrayController::new(true);
    assert_eq!(c.step(Event::MenuSelected(MenuId::ShowHide)), Action::ReadVisibility);
    assert_eq!(c.step(Event::VisibilityRead(None)), Action::ShowAndFocus);
    assert_eq!(c.step(Event::MenuSelected(MenuId::ShowHide)), Action::ReadVisibility);
    assert_eq!(c.step(Event::VisibilityRead(Some(true))), Action::Hide);
}

#[test]
fn other_clicks_ignored() {
    let clicks = [
        (MouseButton::Right, ButtonState::Up),
        (MouseButton::Right, ButtonState::Down),
        (MouseButton::Left, ButtonState::Down),
        (MouseButton::Middle, ButtonState::Up),
    ];
    for (button, state) in clicks {
        let mut c = TrayController::new(true);
        let mut sys = FakeSystem::new(false, true, false);
        let acts = drive(&mut c, &mut sys, Event::TrayClick { button, state });
        assert_eq!(acts, vec![Action::Nothing]);
        assert!(!sys.visible);
        assert_eq!(c.pending(), Pending::Ready);
    }
}

#[test]
fn quit_is_final() {
    let mut c = TrayController::new(true);
    let mut sys = FakeSystem::new(true, true, false);
    assert_eq!(c.handle_menu_event("quit"), Action::Exit(0));
    assert_eq!(c.pending(), Pending::Exited);
    for e in [
        Event::MenuSelected(MenuId::AlwaysOnTop),
        Event::FeatureRead(Some(true)),
        Event::FeatureWritten(true),
        Event::TrayClick { button: MouseButton::Left, state: ButtonState::Up },
        Event::MenuSelected(MenuId::Autostart),
    ] {
        assert_eq!(drive(&mut c, &mut sys, e), vec![Action::Nothing]);
    }
    assert_eq!(sys.writes, 0);
    assert_eq!(label(&c, MenuId::AlwaysOnTop), "Siempre visible: ON");
}

#[test]
fn menu_event_by_text() {
    let mut c = TrayController::new(true);
    assert_eq!(c.handle_menu_event("always_on_top"), Action::ReadFeature(Feature::AlwaysOnTop));
    let mut d = TrayController::new(true);
    assert_eq!(d.handle_menu_event("show_hide"), Action::ReadVisibility);
    let mut e = TrayController::new(true);
    assert_eq!(e.handle_menu_event("autostart"), Action::ReadFeature(Feature::Autostart));
}

#[test]
fn unknown_menu_event_ignored() {
    let mut c = TrayController::new(true);
    assert_eq!(c.handle_menu_event("settings"), Action::Nothing);
    assert_eq!(c.handle_menu_event(""), Action::Nothing);
    assert_eq!(c.handle_menu_event("Quit"), Action::Nothing);
    assert_eq!(c.pending(), Pending::Ready);
}

#[test]
fn autostart_absent_when_unsupported() {
    let mut c = TrayController::new(false);
    assert!(!c.autostart_supported());
    assert_eq!(c.menu().len(), 3);
    assert_eq!(c.menu().label(MenuId::Autostart), None);
    assert_eq!(c.step(Event::MenuSelected(MenuId::Autostart)), Action::Nothing);
    assert_eq!(c.pending(), Pending::Ready);
}

#[test]
fn stray_outcomes_ignored() {
    let mut c = TrayController::new(true);
    assert_eq!(c.step(Event::FeatureRead(Some(true))), Action::Nothing);
    assert_eq!(c.step(Event::FeatureWritten(true)), Action::Nothing);
    assert_eq!(c.step(Event::VisibilityRead(Some(true))), Action::Nothing);
    c.step(Event::MenuSelected(MenuId::AlwaysOnTop));
    assert_eq!(c.step(Event::MenuSelected(MenuId::Quit)), Action::Nothing);
    assert_eq!(c.pending(), Pending::Current(Feature::AlwaysOnTop));
}

#[test]
fn second_tray_registration_fails() {
    let mut c = TrayController::new(true);
    assert_eq!(c.claim_tray(), Ok(()));
    assert_eq!(c.claim_tray(), Err(SetupError::DuplicateTray));
}

#[test]
fn fixed_identities() {
    assert_eq!(TRAY_ID, "main");
    assert_eq!(MAIN_WINDOW, "main");
    assert_eq!(TOOLTIP, "Speako");
}
