use vstd::prelude::*;
use crate::menu::{Feature, Menu, MenuId, MenuView, feature_label, id_of_text, initial_menu, relabel};
use crate::menu::lemma_relabel_absent;

verus! {

/// The identity under which the one tray icon of the process is registered.
pub const TRAY_ID: &'static str = "main";

/// The label of the main window whose visibility the tray controls.
pub const MAIN_WINDOW: &'static str = "main";

/// The tooltip of the tray icon.
pub const TOOLTIP: &'static str = "Speako";

/// A pointer button, as reported with a tray click.
#[derive(Clone, Copy, Debug, PartialEq, Eq, Structural)]
pub enum MouseButton {
    Left,
    Right,
    Middle,
}

/// Whether a tray click reports a press or a release.
#[derive(Clone, Copy, Debug, PartialEq, Eq, Structural)]
pub enum ButtonState {
    Down,
    Up,
}

/// What the host hands the controller: a user event, or the outcome of an
/// operation the controller asked for. A reading is `None` when the query failed.
#[derive(Clone, Copy, Debug, PartialEq, Eq, Structural)]
pub enum Event {
    TrayClick { button: MouseButton, state: ButtonState },
    MenuSelected(MenuId),
    VisibilityRead(Option<bool>),
    FeatureRead(Option<bool>),
    FeatureWritten(bool),
}

/// What the controller asks the host to do next.
#[derive(Clone, Copy, Debug, PartialEq, Eq, Structural)]
pub enum Action {
    /// Nothing to do; the interaction is over or the event was ignored.
    Nothing,
    /// Report whether the main window is visible.
    ReadVisibility,
    /// Hide the main window.
    Hide,
    /// Show the main window and give it the input focus.
    ShowAndFocus,
    /// Report whether the feature is on.
    ReadFeature(Feature),
    /// Switch the feature on (`true`) or off, and report whether the call succeeded.
    WriteFeature(Feature, bool),
    /// The registry label of this entry changed: show it in the host menu.
    ShowLabel(MenuId),
    /// Terminate the process with this exit code.
    Exit(i32),
}

/// Which outcome the controller is waiting for.
#[derive(Clone, Copy, Debug, PartialEq, Eq, Structural)]
pub enum Pending {
    /// Waiting for a user event.
    Ready,
    /// Waiting for the visibility of the main window.
    Visibility,
    /// Waiting for the current state of a feature.
    Current(Feature),
    /// Waiting for the outcome of switching a feature.
    Applying(Feature),
    /// Waiting for the state of a feature after switching it.
    Confirming(Feature),
    /// The process is terminating; every further event is ignored.
    Exited,
}

/// Why setting up the tray failed.
#[derive(Clone, Copy, Debug, PartialEq, Eq, Structural)]
pub enum SetupError {
    /// The tray icon has already been registered in this process.
    DuplicateTray,
}

/// The abstract state of a controller.
pub struct ControllerView {
    pub menu: MenuView,
    pub autostart_supported: bool,
    pub tray_claimed: bool,
    pub pending: Pending,
}

/// Whether a reading says the feature is on; a failed reading counts as off.
pub open spec fn reads_on(r: Option<bool>) -> bool {
    r == Some(true)
}

/// Whether a tray click asks to show or hide the window: a release of the
/// primary button.
pub open spec fn is_primary_release(button: MouseButton, state: ButtonState) -> bool {
    button == MouseButton::Left && state == ButtonState::Up
}

/// What to do with the window given its visibility; an unknown visibility counts
/// as hidden.
pub open spec fn visibility_action(v: Option<bool>) -> Action {
    if reads_on(v) {
        Action::Hide
    } else {
        Action::ShowAndFocus
    }
}

/// Whether the menu offers to toggle `f`.
pub open spec fn offers(s: ControllerView, f: Feature) -> bool {
    f == Feature::AlwaysOnTop || s.autostart_supported
}

/// `s` waiting for `p`, all else unchanged.
pub open spec fn waiting(s: ControllerView, p: Pending) -> ControllerView {
    ControllerView { pending: p, ..s }
}

/// The response to a menu selection while ready.
pub open spec fn select(s: ControllerView, id: MenuId) -> (ControllerView, Action) {
    match id {
        MenuId::ShowHide => (waiting(s, Pending::Visibility), Action::ReadVisibility),
        MenuId::AlwaysOnTop => (
            waiting(s, Pending::Current(Feature::AlwaysOnTop)),
            Action::ReadFeature(Feature::AlwaysOnTop),
        ),
        MenuId::Autostart => if s.autostart_supported {
            (waiting(s, Pending::Current(Feature::Autostart)), Action::ReadFeature(Feature::Autostart))
        } else {
            (s, Action::Nothing)
        },
        MenuId::Quit => (waiting(s, Pending::Exited), Action::Exit(0)),
    }
}

/// The controller's transition: the state after event `e` in state `s`, and the
/// action to perform. Events that the current state does not wait for are ignored.
pub open spec fn next(s: ControllerView, e: Event) -> (ControllerView, Action) {
    match s.pending {
        Pending::Ready => match e {
            Event::TrayClick { button, state } => if is_primary_release(button, state) {
                (waiting(s, Pending::Visibility), Action::ReadVisibility)
            } else {
                (s, Action::Nothing)
            },
            Event::MenuSelected(id) => select(s, id),
            _ => (s, Action::Nothing),
        },
        Pending::Visibility => match e {
            Event::VisibilityRead(v) => (waiting(s, Pending::Ready), visibility_action(v)),
            _ => (s, Action::Nothing),
        },
        Pending::Current(f) => match e {
            Event::FeatureRead(r) => (waiting(s, Pending::Applying(f)), Action::WriteFeature(f, !reads_on(r))),
            _ => (s, Action::Nothing),
        },
        Pending::Applying(f) => match e {
            Event::FeatureWritten(ok) => if ok {
                (waiting(s, Pending::Confirming(f)), Action::ReadFeature(f))
            } else {
                (waiting(s, Pending::Ready), Action::Nothing)
            },
            _ => (s, Action::Nothing),
        },
        Pending::Confirming(f) => match e {
            Event::FeatureRead(r) => (
                ControllerView {
                    menu: relabel(s.menu, f.spec_menu_id(), feature_label(f, reads_on(r))),
                    pending: Pending::Ready,
                    ..s
                },
                Action::ShowLabel(f.spec_menu_id()),
            ),
            _ => (s, Action::Nothing),
        },
        Pending::Exited => (s, Action::Nothing),
    }
}

/// The tray controller: the menu registry and the interaction in progress.
pub struct TrayController {
    menu: Menu,
    autostart_supported: bool,
    tray_claimed: bool,
    pending: Pending,
}

impl View for TrayController {
    type V = ControllerView;

    closed spec fn view(&self) -> ControllerView {
        ControllerView {
            menu: self.menu@,
            autostart_supported: self.autostart_supported,
            tray_claimed: self.tray_claimed,
            pending: self.pending,
        }
    }
}

fn reading_is_on(r: Option<bool>) -> (b: bool)
    ensures
        b == reads_on(r),
{
    match r {
        Some(v) => v,
        None => false,
    }
}

impl TrayController {
    /// A controller with the start-up menu, ready for events.
    pub fn new(autostart_supported: bool) -> (r: TrayController)
        ensures
            r@ == (ControllerView {
                menu: initial_menu(autostart_supported),
                autostart_supported,
                tray_claimed: false,
                pending: Pending::Ready,
            }),
    {
        TrayController {
            menu: Menu::initial(autostart_supported),
            autostart_supported,
            tray_claimed: false,
            pending: Pending::Ready,
        }
    }

    /// The menu registry.
    pub fn menu(&self) -> (r: &Menu)
        ensures
            r@ == self@.menu,
    {
        &self.menu
    }

    /// Whether the launch-at-login entry is offered.
    pub fn autostart_supported(&self) -> (r: bool)
        ensures
            r == self@.autostart_supported,
    {
        self.autostart_supported
    }

    /// The outcome the controller is waiting for.
    pub fn pending(&self) -> (r: Pending)
        ensures
            r == self@.pending,
    {
        self.pending
    }

    /// Registers the one tray icon of the process. A second registration fails.
    pub fn claim_tray(&mut self) -> (r: Result<(), SetupError>)
        ensures
            r is Ok <==> !old(self)@.tray_claimed,
            r is Err ==> r == Err::<(), SetupError>(SetupError::DuplicateTray),
            final(self)@ == (ControllerView { tray_claimed: true, ..old(self)@ }),
    {
        if self.tray_claimed {
            Err(SetupError::DuplicateTray)
        } else {
            self.tray_claimed = true;
            Ok(())
        }
    }

    /// Handles one event and returns the action to perform next.
    pub fn step(&mut self, e: Event) -> (a: Action)
        ensures
            (final(self)@, a) == next(old(self)@, e),
    {
        match self.pending {
            Pending::Ready => match e {
                Event::TrayClick { button, state } => {
                    if button == MouseButton::Left && state == ButtonState::Up {
                        self.pending = Pending::Visibility;
                        Action::ReadVisibility
                    } else {
                        Action::Nothing
                    }
                },
                Event::MenuSelected(id) => self.select(id),
                _ => Action::Nothing,
            },
            Pending::Visibility => match e {
                Event::VisibilityRead(v) => {
                    self.pending = Pending::Ready;
                    if reading_is_on(v) {
                        Action::Hide
                    } else {
                        Action::ShowAndFocus
                    }
                },
                _ => Action::Nothing,
            },
            Pending::Current(f) => match e {
                Event::FeatureRead(r) => {
                    self.pending = Pending::Applying(f);
                    Action::WriteFeature(f, !reading_is_on(r))
                },
                _ => Action::Nothing,
            },
            Pending::Applying(f) => match e {
                Event::FeatureWritten(ok) => {
                    if ok {
                        self.pending = Pending::Confirming(f);
                        Action::ReadFeature(f)
                    } else {
                        self.pending = Pending::Ready;
                        Action::Nothing
                    }
                },
                _ => Action::Nothing,
            },
            Pending::Confirming(f) => match e {
                Event::FeatureRead(r) => {
                    let id = f.menu_id();
                    let on = reading_is_on(r);
                    let written = self.menu.set_label(id, f.label(on));
                    proof {
                        if written is Err {
                            lemma_relabel_absent(old(self)@.menu, id, feature_label(f, on));
                        }
                    }
                    self.pending = Pending::Ready;
                    Action::ShowLabel(id)
                },
                _ => Action::Nothing,
            },
            Pending::Exited => Action::Nothing,
        }
    }

    fn select(&mut self, id: MenuId) -> (a: Action)
        requires
            old(self)@.pending == Pending::Ready,
        ensures
            (final(self)@, a) == select(old(self)@, id),
    {
        match id {
            MenuId::ShowHide => {
                self.pending = Pending::Visibility;
                Action::ReadVisibility
            },
            MenuId::AlwaysOnTop => {
                self.pending = Pending::Current(Feature::AlwaysOnTop);
                Action::ReadFeature(Feature::AlwaysOnTop)
            },
            MenuId::Autostart => {
                if self.autostart_supported {
                    self.pending = Pending::Current(Feature::Autostart);
                    Action::ReadFeature(Feature::Autostart)
                } else {
                    Action::Nothing
                }
            },
            MenuId::Quit => {
                self.pending = Pending::Exited;
                Action::Exit(0)
            },
        }
    }

    /// Handles the selection of the menu entry with identifier text `id`; an
    /// identifier the menu does not know is ignored.
    pub fn handle_menu_event(&mut self, id: &str) -> (a: Action)
        ensures
            id_of_text(id@) matches Some(m) ==> (final(self)@, a) == next(old(self)@, Event::MenuSelected(m)),
            id_of_text(id@) is None ==> final(self)@ == old(self)@ && a == Action::Nothing,
    {
        match MenuId::parse(id) {
            Some(m) => self.step(Event::MenuSelected(m)),
            None => Action::Nothing,
        }
    }
}

} // verus!
