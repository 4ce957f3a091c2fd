use vstd::prelude::*;
use vstd::string::*;

verus! {

/// The stable identity of each entry of the tray menu.
#[derive(Clone, Copy, Debug, PartialEq, Eq, Structural)]
pub enum MenuId {
    ShowHide,
    AlwaysOnTop,
    Autostart,
    Quit,
}

/// The two operating-system settings that the menu can toggle.
#[derive(Clone, Copy, Debug, PartialEq, Eq, Structural)]
pub enum Feature {
    AlwaysOnTop,
    Autostart,
}

/// The identifier text of a menu entry, as registered with the host menu.
pub open spec fn id_text(id: MenuId) -> Seq<char> {
    match id {
        MenuId::ShowHide => "show_hide"@,
        MenuId::AlwaysOnTop => "always_on_top"@,
        MenuId::Autostart => "autostart"@,
        MenuId::Quit => "quit"@,
    }
}

/// The menu entry named by an identifier text, if any.
pub open spec fn id_of_text(s: Seq<char>) -> Option<MenuId> {
    if s == "show_hide"@ {
        Some(MenuId::ShowHide)
    } else if s == "always_on_top"@ {
        Some(MenuId::AlwaysOnTop)
    } else if s == "autostart"@ {
        Some(MenuId::Autostart)
    } else if s == "quit"@ {
        Some(MenuId::Quit)
    } else {
        None
    }
}

/// The label that shows a feature as on or off.
pub open spec fn feature_label(f: Feature, on: bool) -> Seq<char> {
    match f {
        Feature::AlwaysOnTop => if on {
            "Siempre visible: ON"@
        } else {
            "Siempre visible: OFF"@
        },
        Feature::Autostart => if on {
            "Iniciar con Windows: ON"@
        } else {
            "Iniciar con Windows: OFF"@
        },
    }
}

/// The label each entry carries when the menu is built: the window starts pinned
/// on top and the application starts unregistered from launch at login.
pub open spec fn initial_label(id: MenuId) -> Seq<char> {
    match id {
        MenuId::ShowHide => "Mostrar / Ocultar"@,
        MenuId::AlwaysOnTop => feature_label(Feature::AlwaysOnTop, true),
        MenuId::Autostart => feature_label(Feature::Autostart, false),
        MenuId::Quit => "Salir"@,
    }
}

impl Feature {
    /// The menu entry that toggles this feature.
    pub open spec fn spec_menu_id(self) -> MenuId {
        match self {
            Feature::AlwaysOnTop => MenuId::AlwaysOnTop,
            Feature::Autostart => MenuId::Autostart,
        }
    }

    /// The menu entry that toggles this feature.
    pub fn menu_id(self) -> (r: MenuId)
        ensures
            r == self.spec_menu_id(),
    {
        match self {
            Feature::AlwaysOnTop => MenuId::AlwaysOnTop,
            Feature::Autostart => MenuId::Autostart,
        }
    }

    /// The label text that shows this feature as `on`.
    pub fn label(self, on: bool) -> (r: &'static str)
        ensures
            r@ == feature_label(self, on),
    {
        match self {
            Feature::AlwaysOnTop => if on {
                "Siempre visible: ON"
            } else {
                "Siempre visible: OFF"
            },
            Feature::Autostart => if on {
                "Iniciar con Windows: ON"
            } else {
                "Iniciar con Windows: OFF"
            },
        }
    }
}

/// Whether two strings hold the same characters.
pub fn same_text(a: &str, b: &str) -> (r: bool)
    ensures
        r == (a@ == b@),
{
    let n = a.unicode_len();
    if n != b.unicode_len() {
        return false;
    }
    let mut i: usize = 0;
    while i < n
        invariant
            n == a@.len(),
            n == b@.len(),
            i <= n,
            a@.subrange(0, i as int) == b@.subrange(0, i as int),
        decreases n - i,
    {
        if a.get_char(i) != b.get_char(i) {
            assert(a@[i as int] != b@[i as int]);
            return false;
        }
        assert(a@.subrange(0, i + 1) == a@.subrange(0, i as int).push(a@[i as int]));
        assert(b@.subrange(0, i + 1) == b@.subrange(0, i as int).push(b@[i as int]));
        i = i + 1;
    }
    assert(a@ == a@.subrange(0, n as int));
    assert(b@ == b@.subrange(0, n as int));
    true
}

impl MenuId {
    /// The identifier text of this entry.
    pub fn as_str(self) -> (r: &'static str)
        ensures
            r@ == id_text(self),
    {
        match self {
            MenuId::ShowHide => "show_hide",
            MenuId::AlwaysOnTop => "always_on_top",
            MenuId::Autostart => "autostart",
            MenuId::Quit => "quit",
        }
    }

    /// The entry named by `s`; `None` for an identifier this menu does not know.
    pub fn parse(s: &str) -> (r: Option<MenuId>)
        ensures
            r == id_of_text(s@),
    {
        if same_text(s, "show_hide") {
            Some(MenuId::ShowHide)
        } else if same_text(s, "always_on_top") {
            Some(MenuId::AlwaysOnTop)
        } else if same_text(s, "autostart") {
            Some(MenuId::Autostart)
        } else if same_text(s, "quit") {
            Some(MenuId::Quit)
        } else {
            None
        }
    }

    /// The label this entry carries when the menu is built.
    pub fn initial_label(self) -> (r: &'static str)
        ensures
            r@ == initial_label(self),
    {
        match self {
            MenuId::ShowHide => "Mostrar / Ocultar",
            MenuId::AlwaysOnTop => Feature::AlwaysOnTop.label(true),
            MenuId::Autostart => Feature::Autostart.label(false),
            MenuId::Quit => "Salir",
        }
    }
}

/// One entry of the menu: a fixed identity and a label that may be rewritten.
pub struct MenuItem {
    id: MenuId,
    label: String,
}

/// The menu as a sequence of (identity, label) pairs in display order.
pub type MenuView = Seq<(MenuId, Seq<char>)>;

/// Why a label could not be written.
#[derive(Clone, Copy, Debug, PartialEq, Eq, Structural)]
pub enum LabelError {
    /// No entry of the menu has the identity asked for.
    UnknownItem,
}

/// The entries of the menu built at start-up, in display order. The launch-at-login
/// entry exists only where the platform supports it.
pub open spec fn initial_menu(autostart_supported: bool) -> MenuView {
    let first = seq![
        (MenuId::ShowHide, initial_label(MenuId::ShowHide)),
        (MenuId::AlwaysOnTop, initial_label(MenuId::AlwaysOnTop)),
    ];
    let middle = if autostart_supported {
        first.push((MenuId::Autostart, initial_label(MenuId::Autostart)))
    } else {
        first
    };
    middle.push((MenuId::Quit, initial_label(MenuId::Quit)))
}

/// Whether some entry of `m` has identity `id`.
pub open spec fn has_item(m: MenuView, id: MenuId) -> bool {
    exists|i: int| 0 <= i < m.len() && m[i].0 == id
}

/// Whether every entry of `m` with identity `id` shows `text`.
pub open spec fn shows(m: MenuView, id: MenuId, text: Seq<char>) -> bool {
    forall|i: int| 0 <= i < m.len() && m[i].0 == id ==> m[i].1 == text
}

/// `m` with the label of each entry of identity `id` replaced by `text`.
pub open spec fn relabel(m: MenuView, id: MenuId, text: Seq<char>) -> MenuView {
    Seq::new(m.len(), |i: int| if m[i].0 == id { (id, text) } else { m[i] })
}

/// No two entries of `m` share an identity.
pub open spec fn ids_distinct(m: MenuView) -> bool {
    forall|i: int, j: int| 0 <= i < j < m.len() ==> m[i].0 != m[j].0
}

/// Relabelling an identity that no entry has leaves the menu as it was.
pub proof fn lemma_relabel_absent(m: MenuView, id: MenuId, text: Seq<char>)
    requires
        !has_item(m, id),
    ensures
        relabel(m, id, text) == m,
{
    assert(relabel(m, id, text) =~= m);
}

/// The two labels of a feature differ, so a label tells which state it shows.
pub proof fn lemma_labels_distinct(f: Feature)
    ensures
        feature_label(f, true) != feature_label(f, false),
{
    reveal_strlit("Siempre visible: ON");
    reveal_strlit("Siempre visible: OFF");
    reveal_strlit("Iniciar con Windows: ON");
    reveal_strlit("Iniciar con Windows: OFF");
    assert(feature_label(f, true).len() != feature_label(f, false).len());
}

/// The identifier text of every entry names that entry back.
pub proof fn lemma_id_text_round_trip(id: MenuId)
    ensures
        id_of_text(id_text(id)) == Some(id),
{
    reveal_strlit("show_hide");
    reveal_strlit("always_on_top");
    reveal_strlit("autostart");
    reveal_strlit("quit");
    assert("show_hide"@.len() == 9 && "autostart"@.len() == 9);
    assert("always_on_top"@.len() == 13 && "quit"@.len() == 4);
    assert("show_hide"@[0] != "autostart"@[0]);
    assert("show_hide"@ != "autostart"@);
    assert("show_hide"@ != "always_on_top"@);
    assert("show_hide"@ != "quit"@);
    assert("always_on_top"@ != "autostart"@);
    assert("always_on_top"@ != "quit"@);
    assert("autostart"@ != "quit"@);
}

/// The start-up menu holds an entry for each identity it offers, and no other.
pub proof fn lemma_initial_entries(autostart_supported: bool)
    ensures
        forall|id: MenuId|
            has_item(initial_menu(autostart_supported), id) <==> (id != MenuId::Autostart
                || autostart_supported),
{
    let m = initial_menu(autostart_supported);
    assert forall|id: MenuId|
        has_item(m, id) <==> (id != MenuId::Autostart || autostart_supported) by {
        if id != MenuId::Autostart || autostart_supported {
            let i: int = match id {
                MenuId::ShowHide => 0,
                MenuId::AlwaysOnTop => 1,
                MenuId::Autostart => 2,
                MenuId::Quit => m.len() - 1,
            };
            assert(m[i].0 == id);
        }
    }
}

/// The menu registry: the entries in display order, built once and never reordered.
pub struct Menu {
    items: Vec<MenuItem>,
}

impl View for Menu {
    type V = MenuView;

    closed spec fn view(&self) -> MenuView {
        Seq::new(self.items@.len(), |i: int| (self.items@[i].id, self.items@[i].label@))
    }
}

impl Menu {
    /// Builds the start-up menu; `autostart_supported` says whether the platform
    /// knows launch at login.
    pub fn initial(autostart_supported: bool) -> (r: Menu)
        ensures
            r@ == initial_menu(autostart_supported),
            ids_distinct(r@),
    {
        let mut items: Vec<MenuItem> = Vec::new();
        items.push(MenuItem { id: MenuId::ShowHide, label: MenuId::ShowHide.initial_label().to_owned() });
        items.push(MenuItem { id: MenuId::AlwaysOnTop, label: MenuId::AlwaysOnTop.initial_label().to_owned() });
        if autostart_supported {
            items.push(MenuItem { id: MenuId::Autostart, label: MenuId::Autostart.initial_label().to_owned() });
        }
        items.push(MenuItem { id: MenuId::Quit, label: MenuId::Quit.initial_label().to_owned() });
        let r = Menu { items };
        assert(r@ =~= initial_menu(autostart_supported));
        r
    }

    /// The number of entries.
    pub fn len(&self) -> (r: usize)
        ensures
            r == self@.len(),
    {
        self.items.len()
    }

    /// The identity and label of the entry at position `i`.
    pub fn item(&self, i: usize) -> (r: (MenuId, &str))
        requires
            i < self@.len(),
        ensures
            r.0 == self@[i as int].0,
            r.1@ == self@[i as int].1,
    {
        (self.items[i].id, self.items[i].label.as_str())
    }

    /// The label of the first entry with identity `id`; `None` if there is none.
    pub fn label(&self, id: MenuId) -> (r: Option<&str>)
        ensures
            r is None <==> !has_item(self@, id),
            r matches Some(t) ==> exists|i: int|
                0 <= i < self@.len() && self@[i].0 == id && self@[i].1 == t@
                    && forall|j: int| 0 <= j < i ==> self@[j].0 != id,
    {
        let mut i: usize = 0;
        while i < self.items.len()
            invariant
                i <= self@.len(),
                forall|j: int| 0 <= j < i ==> self@[j].0 != id,
            decreases self@.len() - i,
        {
            assert(self@[i as int] == (self.items@[i as int].id, self.items@[i as int].label@));
            if self.items[i].id == id {
                return Some(self.items[i].label.as_str());
            }
            i = i + 1;
        }
        None
    }

    /// Rewrites the label of each entry with identity `id`. Fails, and changes
    /// nothing, when no entry has that identity.
    pub fn set_label(&mut self, id: MenuId, text: &str) -> (r: Result<(), LabelError>)
        ensures
            r is Ok <==> has_item(old(self)@, id),
            r is Ok ==> final(self)@ == relabel(old(self)@, id, text@),
            r is Err ==> final(self)@ == old(self)@ && r == Err::<(), LabelError>(LabelError::UnknownItem),
    {
        let ghost before = self@;
        let n = self.items.len();
        let mut found = false;
        let mut i: usize = 0;
        while i < n
            invariant
                n == before.len(),
                self@.len() == n,
                i <= n,
                forall|j: int| 0 <= j < i ==> self@[j] == relabel(before, id, text@)[j],
                forall|j: int| i <= j < n ==> self@[j] == before[j],
                found <==> exists|j: int| 0 <= j < i && before[j].0 == id,
            decreases n - i,
        {
            assert(self@[i as int] == (self.items@[i as int].id, self.items@[i as int].label@));
            if self.items[i].id == id {
                let ghost prior = self@;
                let ghost prior_items = self.items@;
                self.items.set(i, MenuItem { id, label: text.to_owned() });
                assert forall|j: int| 0 <= j < i implies self@[j] == relabel(before, id, text@)[j] by {
                    assert(self.items@[j] == prior_items[j]);
                    assert(prior[j] == relabel(before, id, text@)[j]);
                }
                assert forall|j: int| i < j < n implies self@[j] == before[j] by {
                    assert(self.items@[j] == prior_items[j]);
                    assert(prior[j] == before[j]);
                }
                assert(self@[i as int] == relabel(before, id, text@)[i as int]);
                found = true;
            }
            assert(self@[i as int] == relabel(before, id, text@)[i as int]);
            i = i + 1;
        }
        if found {
            assert(self@ =~= relabel(before, id, text@));
            Ok(())
        } else {
            assert(self@ =~= before);
            Err(LabelError::UnknownItem)
        }
    }
}

} // verus!
