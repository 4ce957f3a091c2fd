//! Properties of the controller that span several events.
use vstd::prelude::*;
use crate::controller::{
    Action, ButtonState, ControllerView, Event, MouseButton, Pending, is_primary_release, next,
    offers, visibility_action,
};
use crate::menu::{Feature, MenuId, feature_label, relabel, shows};

verus! {

/// The state after one whole toggle of `f`: the selection, the reading of the
/// current state, the outcome of the switch and, where the switch succeeded, the
/// confirming reading.
pub open spec fn toggled(
    s: ControllerView,
    f: Feature,
    current: Option<bool>,
    written: bool,
    confirmed: Option<bool>,
) -> ControllerView {
    let s1 = next(s, Event::MenuSelected(f.spec_menu_id())).0;
    let s2 = next(s1, Event::FeatureRead(current)).0;
    let s3 = next(s2, Event::FeatureWritten(written)).0;
    if written {
        next(s3, Event::FeatureRead(confirmed)).0
    } else {
        s3
    }
}

/// The state after the first `n` toggles of `f`, where toggle `k` reads
/// `current[k]`, has its switch succeed when `written[k]`, and then reads back the
/// true setting `os[k + 1]`.
pub open spec fn toggles(
    s: ControllerView,
    f: Feature,
    current: Seq<Option<bool>>,
    written: Seq<bool>,
    os: Seq<bool>,
    n: nat,
) -> ControllerView
    decreases n,
{
    if n == 0 {
        s
    } else {
        let k = (n - 1) as nat;
        toggled(toggles(s, f, current, written, os, k), f, current[k as int], written[k as int], Some(os[n as int]))
    }
}

/// The states and actions that the events `es` lead through from `s`.
pub open spec fn trace(s: ControllerView, es: Seq<Event>) -> (ControllerView, Seq<Action>)
    decreases es.len(),
{
    if es.len() == 0 {
        (s, Seq::empty())
    } else {
        let (s1, a) = next(s, es[0]);
        let (s2, rest) = trace(s1, es.drop_first());
        (s2, seq![a] + rest)
    }
}

/// One toggle leaves the controller ready, and the label of the feature shows
/// the setting read back after a successful switch; after a failed switch it is
/// left as it was.
pub proof fn lemma_toggle_outcome(
    s: ControllerView,
    f: Feature,
    current: Option<bool>,
    written: bool,
    confirmed: Option<bool>,
)
    requires
        s.pending == Pending::Ready,
        offers(s, f),
    ensures
        toggled(s, f, current, written, confirmed).pending == Pending::Ready,
        toggled(s, f, current, written, confirmed).autostart_supported == s.autostart_supported,
        toggled(s, f, current, written, confirmed).tray_claimed == s.tray_claimed,
        written ==> toggled(s, f, current, written, confirmed).menu == relabel(
            s.menu,
            f.spec_menu_id(),
            feature_label(f, confirmed == Some(true)),
        ),
        !written ==> toggled(s, f, current, written, confirmed).menu == s.menu,
{
}

/// Whatever the switches do, after every toggle the label of the feature shows
/// the setting the system reports, provided it showed the setting before and a
/// failed switch leaves the setting unchanged.
pub proof fn lemma_label_follows_system(
    s: ControllerView,
    f: Feature,
    current: Seq<Option<bool>>,
    written: Seq<bool>,
    os: Seq<bool>,
)
    requires
        s.pending == Pending::Ready,
        offers(s, f),
        shows(s.menu, f.spec_menu_id(), feature_label(f, os[0])),
        current.len() == written.len(),
        os.len() == written.len() + 1,
        forall|k: int| 0 <= k < written.len() && !written[k] ==> os[k + 1] == os[k],
    ensures
        forall|n: nat| n <= written.len() ==> {
            let t = #[trigger] toggles(s, f, current, written, os, n);
            &&& t.pending == Pending::Ready
            &&& shows(t.menu, f.spec_menu_id(), feature_label(f, os[n as int]))
        },
{
    assert forall|n: nat| n <= written.len() implies {
        let t = #[trigger] toggles(s, f, current, written, os, n);
        &&& t.pending == Pending::Ready
        &&& t.autostart_supported == s.autostart_supported
        &&& shows(t.menu, f.spec_menu_id(), feature_label(f, os[n as int]))
    } by {
        lemma_label_follows_system_upto(s, f, current, written, os, n);
    }
}

proof fn lemma_label_follows_system_upto(
    s: ControllerView,
    f: Feature,
    current: Seq<Option<bool>>,
    written: Seq<bool>,
    os: Seq<bool>,
    n: nat,
)
    requires
        s.pending == Pending::Ready,
        offers(s, f),
        shows(s.menu, f.spec_menu_id(), feature_label(f, os[0])),
        current.len() == written.len(),
        os.len() == written.len() + 1,
        forall|k: int| 0 <= k < written.len() && !written[k] ==> os[k + 1] == os[k],
        n <= written.len(),
    ensures
        toggles(s, f, current, written, os, n).pending == Pending::Ready,
        toggles(s, f, current, written, os, n).autostart_supported == s.autostart_supported,
        shows(toggles(s, f, current, written, os, n).menu, f.spec_menu_id(), feature_label(f, os[n as int])),
    decreases n,
{
    if n > 0 {
        let k = (n - 1) as nat;
        lemma_label_follows_system_upto(s, f, current, written, os, k);
        let p = toggles(s, f, current, written, os, k);
        lemma_toggle_outcome(p, f, current[k as int], written[k as int], Some(os[n as int]));
    }
}

/// Toggling a feature twice, with switches that succeed and truthful readings,
/// asks first for the opposite setting and then for the original one, and brings
/// the controller back to the state it started in.
pub proof fn lemma_double_toggle_restores(s: ControllerView, f: Feature, on: bool)
    requires
        s.pending == Pending::Ready,
        offers(s, f),
        shows(s.menu, f.spec_menu_id(), feature_label(f, on)),
    ensures
        ({
            let s1 = next(s, Event::MenuSelected(f.spec_menu_id())).0;
            next(s1, Event::FeatureRead(Some(on))).1 == Action::WriteFeature(f, !on)
        }),
        shows(toggled(s, f, Some(on), true, Some(!on)).menu, f.spec_menu_id(), feature_label(f, !on)),
        ({
            let once = toggled(s, f, Some(on), true, Some(!on));
            let s1 = next(once, Event::MenuSelected(f.spec_menu_id())).0;
            next(s1, Event::FeatureRead(Some(!on))).1 == Action::WriteFeature(f, on)
        }),
        toggled(toggled(s, f, Some(on), true, Some(!on)), f, Some(!on), true, Some(on)) == s,
{
    let once = toggled(s, f, Some(on), true, Some(!on));
    lemma_toggle_outcome(s, f, Some(on), true, Some(!on));
    lemma_toggle_outcome(once, f, Some(!on), true, Some(on));
    let twice = toggled(once, f, Some(!on), true, Some(on));
    assert(twice.menu =~= s.menu);
}

/// A failed reading of the current setting is taken as "off": the controller
/// then asks to switch the feature on. A failed reading after the switch shows
/// the feature as off.
pub proof fn lemma_failed_read_counts_as_off(s: ControllerView, f: Feature)
    requires
        s.pending == Pending::Ready,
        offers(s, f),
    ensures
        ({
            let s1 = next(s, Event::MenuSelected(f.spec_menu_id())).0;
            &&& next(s1, Event::FeatureRead(None)) == next(s1, Event::FeatureRead(Some(false)))
            &&& next(s1, Event::FeatureRead(None)).1 == Action::WriteFeature(f, true)
        }),
        forall|current: Option<bool>|
            shows(#[trigger] toggled(s, f, current, true, None).menu, f.spec_menu_id(), feature_label(f, false)),
{
    assert forall|current: Option<bool>|
        shows(#[trigger] toggled(s, f, current, true, None).menu, f.spec_menu_id(), feature_label(f, false)) by {
        lemma_toggle_outcome(s, f, current, true, None);
    }
}

/// A release of the primary button on the tray icon and a selection of the
/// show/hide entry lead to the same state and the same actions.
pub proof fn lemma_click_matches_show_hide(s: ControllerView, visible: Option<bool>)
    requires
        s.pending == Pending::Ready,
    ensures
        next(s, Event::TrayClick { button: MouseButton::Left, state: ButtonState::Up }) == next(
            s,
            Event::MenuSelected(MenuId::ShowHide),
        ),
        next(s, Event::TrayClick { button: MouseButton::Left, state: ButtonState::Up }).1
            == Action::ReadVisibility,
        next(
            next(s, Event::TrayClick { button: MouseButton::Left, state: ButtonState::Up }).0,
            Event::VisibilityRead(visible),
        ) == next(next(s, Event::MenuSelected(MenuId::ShowHide)).0, Event::VisibilityRead(visible)),
        next(
            next(s, Event::TrayClick { button: MouseButton::Left, state: ButtonState::Up }).0,
            Event::VisibilityRead(visible),
        ).1 == visibility_action(visible),
{
}

/// A tray click other than a release of the primary button changes nothing and
/// asks for nothing.
pub proof fn lemma_other_clicks_ignored(s: ControllerView, button: MouseButton, state: ButtonState)
    requires
        !is_primary_release(button, state),
    ensures
        next(s, Event::TrayClick { button, state }) == (s, Action::Nothing),
{
}

/// Selecting quit asks to exit with code 0 and leaves the menu as it was; no
/// event after it changes the state or asks for anything.
pub proof fn lemma_quit_is_final(s: ControllerView, es: Seq<Event>)
    requires
        s.pending == Pending::Ready,
    ensures
        next(s, Event::MenuSelected(MenuId::Quit)).1 == Action::Exit(0),
        next(s, Event::MenuSelected(MenuId::Quit)).0.menu == s.menu,
        trace(next(s, Event::MenuSelected(MenuId::Quit)).0, es).0 == next(s, Event::MenuSelected(MenuId::Quit)).0,
        forall|i: int| 0 <= i < es.len() ==>
            #[trigger] trace(next(s, Event::MenuSelected(MenuId::Quit)).0, es).1[i] == Action::Nothing,
{
    lemma_exited_stays(next(s, Event::MenuSelected(MenuId::Quit)).0, es);
}

proof fn lemma_exited_stays(q: ControllerView, es: Seq<Event>)
    requires
        q.pending == Pending::Exited,
    ensures
        trace(q, es).0 == q,
        trace(q, es).1.len() == es.len(),
        forall|i: int| 0 <= i < es.len() ==> #[trigger] trace(q, es).1[i] == Action::Nothing,
    decreases es.len(),
{
    if es.len() > 0 {
        lemma_exited_stays(q, es.drop_first());
        let rest = trace(q, es.drop_first()).1;
        assert forall|i: int| 0 <= i < es.len() implies #[trigger] trace(q, es).1[i] == Action::Nothing by {
            if i > 0 {
                assert(trace(q, es).1[i] == rest[i - 1]);
            }
        }
    }
}

} // verus!
