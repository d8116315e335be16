//! Tray item menus (dbusmenu): entries, labels, submenus and the rows shown.
use vstd::prelude::*;
use crate::text::{chars_of, eq_ignore_ascii_case_str, eq_ignore_case, is_blank, is_blank_chars, owned, string_from_chars};

verus! {

/// Label shown for an entry whose label is blank.
pub const FALLBACK_MENU_LABEL: &'static str = "Menu item";
/// Object path meaning that an item exports no menu.
pub const NO_MENU_PATH: &'static str = "/";

/// One entry of an item menu.
#[derive(Debug)]
pub struct TrayMenuEntry {
    pub id: i32,
    pub label: String,
    pub icon_name: Option<String>,
    pub icon_data: Option<Vec<u8>>,
    pub enabled: bool,
    pub visible: bool,
    pub is_separator: bool,
    pub submenu_hint: bool,
    pub children: Vec<TrayMenuEntry>,
}

/// The properties of a layout node as read from the bus; `None` where a
/// property is absent or of another type.
#[derive(Debug, Clone)]
pub struct MenuEntryProperties {
    pub label: Option<String>,
    pub icon_name: Option<String>,
    pub icon_data: Option<Vec<u8>>,
    pub enabled: Option<bool>,
    pub visible: Option<bool>,
    pub item_type: Option<String>,
    pub children_display: Option<String>,
}

/// The label without its mnemonic underscores; `Menu item` when nothing
/// but white space is left.
pub open spec fn menu_label(raw: Option<String>) -> Seq<char> {
    let text = match raw {
        Some(s) => s@,
        None => Seq::empty(),
    };
    let stripped = text.filter(|c: char| c != '_');
    if is_blank(stripped) {
        FALLBACK_MENU_LABEL@
    } else {
        stripped
    }
}

/// Removes the mnemonic underscores from a label.
fn strip_mnemonics(s: &Vec<char>) -> (r: Vec<char>)
    ensures
        r@ == s@.filter(|c: char| c != '_'),
{
    let mut r: Vec<char> = Vec::new();
    let mut i: usize = 0;
    while i < s.len()
        invariant
            i <= s.len(),
            r@ == s@.take(i as int).filter(|c: char| c != '_'),
        decreases s.len() - i,
    {
        proof {
            reveal(Seq::filter);
            assert(s@.take(i + 1).drop_last() =~= s@.take(i as int));
            assert(s@.take(i + 1).last() == s@[i as int]);
        }
        if s[i] != '_' {
            r.push(s[i]);
        }
        i = i + 1;
    }
    assert(s@.take(s.len() as int) =~= s@);
    r
}

/// The label shown for a menu entry.
pub fn read_menu_label(raw: Option<String>) -> (r: String)
    ensures
        r@ == menu_label(raw),
{
    let text = match raw {
        Some(s) => chars_of(s.as_str()),
        None => Vec::new(),
    };
    let stripped = strip_mnemonics(&text);
    if is_blank_chars(&stripped) {
        owned(FALLBACK_MENU_LABEL)
    } else {
        string_from_chars(&stripped)
    }
}

/// An optional string kept only when it is non-empty.
pub open spec fn non_empty(o: Option<String>) -> Option<String> {
    match o {
        Some(s) => if s@.len() > 0 {
            Some(s)
        } else {
            None
        },
        None => None,
    }
}

/// An optional byte string kept only when it is non-empty.
pub open spec fn non_empty_bytes(o: Option<Vec<u8>>) -> Option<Vec<u8>> {
    match o {
        Some(v) => if v@.len() > 0 {
            Some(v)
        } else {
            None
        },
        None => None,
    }
}

/// A property compared without regard to ASCII case.
pub open spec fn prop_is(o: Option<String>, value: Seq<char>) -> bool {
    o matches Some(s) && eq_ignore_case(s@, value)
}

/// Whether an optional property equals `value` up to ASCII case.
fn prop_equals(o: &Option<String>, value: &str) -> (r: bool)
    ensures
        r == prop_is(*o, value@),
{
    match o {
        Some(s) => {
            let v = chars_of(s.as_str());
            eq_ignore_ascii_case_str(&v, value)
        },
        None => false,
    }
}

/// Builds a menu entry from a layout node: absent `enabled` and `visible`
/// mean true, type `separator` and children-display `submenu` are matched
/// without regard to ASCII case, empty icon names and data are dropped.
pub fn menu_entry_from_properties(
    id: i32,
    props: MenuEntryProperties,
    children: Vec<TrayMenuEntry>,
) -> (e: TrayMenuEntry)
    ensures
        e.id == id,
        e.label@ == menu_label(props.label),
        e.icon_name == non_empty(props.icon_name),
        e.icon_data == non_empty_bytes(props.icon_data),
        e.enabled == match props.enabled {
            Some(b) => b,
            None => true,
        },
        e.visible == match props.visible {
            Some(b) => b,
            None => true,
        },
        e.is_separator == prop_is(props.item_type, "separator"@),
        e.submenu_hint == prop_is(props.children_display, "submenu"@),
        e.children == children,
{
    let is_separator = prop_equals(&props.item_type, "separator");
    let submenu_hint = prop_equals(&props.children_display, "submenu");
    let label = read_menu_label(props.label);
    let icon_name = match props.icon_name {
        Some(s) => if s.as_str().is_empty() {
            None
        } else {
            Some(s)
        },
        None => None,
    };
    let icon_data = match props.icon_data {
        Some(v) => if v.len() == 0 {
            None
        } else {
            Some(v)
        },
        None => None,
    };
    let enabled = match props.enabled {
        Some(b) => b,
        None => true,
    };
    let visible = match props.visible {
        Some(b) => b,
        None => true,
    };
    TrayMenuEntry {
        id,
        label,
        icon_name,
        icon_data,
        enabled,
        visible,
        is_separator,
        submenu_hint,
        children,
    }
}

/// Whether a fetched menu has a path worth asking for (`/` means none).
pub fn has_menu_path(menu_path: &str) -> (r: bool)
    ensures
        r == (menu_path@ != NO_MENU_PATH@),
{
    !crate::text::str_eq(menu_path, NO_MENU_PATH)
}

/// Whether a menu has anything to show: a visible entry that is not a
/// separator.
pub open spec fn has_visible(entries: Seq<TrayMenuEntry>) -> bool {
    exists|i: int| 0 <= i < entries.len() && entries[i].visible && !entries[i].is_separator
}

/// Whether a menu has anything to show.
pub fn has_visible_menu_entries(entries: &Vec<TrayMenuEntry>) -> (r: bool)
    ensures
        r == has_visible(entries@),
{
    let mut i: usize = 0;
    while i < entries.len()
        invariant
            i <= entries.len(),
            forall|j: int| 0 <= j < i ==> !(entries@[j].visible && !entries@[j].is_separator),
        decreases entries.len() - i,
    {
        if entries[i].visible && !entries[i].is_separator {
            return true;
        }
        i = i + 1;
    }
    false
}

/// The ids of all entries that announce a submenu, in depth-first order
/// (an entry before its children, children before the next sibling).
pub open spec fn submenu_ids(entries: Seq<TrayMenuEntry>) -> Seq<i32>
    decreases entries,
{
    if entries.len() == 0 {
        Seq::empty()
    } else {
        let e = entries[0];
        proof {
            assert(decreases_to!(entries => e));
            assert(decreases_to!(e => e.children));
            assert(decreases_to!(e.children => e.children@));
        }
        (if e.submenu_hint {
            seq![e.id]
        } else {
            Seq::empty()
        }) + submenu_ids(e.children@) + submenu_ids(entries.subrange(1, entries.len() as int))
    }
}

/// Appends the ids of all entries that announce a submenu, depth first.
pub fn collect_submenu_ids(entries: &Vec<TrayMenuEntry>, ids: &mut Vec<i32>)
    ensures
        final(ids)@ == old(ids)@ + submenu_ids(entries@),
    decreases entries@,
{
    let ghost start = ids@;
    let n = entries.len();
    let mut i: usize = 0;
    assert(entries@.subrange(0, n as int) =~= entries@);
    while i < n
        invariant
            n == entries.len(),
            i <= n,
            start + submenu_ids(entries@) == ids@ + submenu_ids(entries@.subrange(i as int, n as int)),
        decreases n - i,
    {
        let ghost rest = entries@.subrange(i as int, n as int);
        let ghost before = ids@;
        assert(rest[0] == entries@[i as int]);
        assert(rest.subrange(1, rest.len() as int) =~= entries@.subrange(i + 1, n as int));
        let ghost own = if entries@[i as int].submenu_hint {
            seq![entries@[i as int].id]
        } else {
            Seq::<i32>::empty()
        };
        assert(submenu_ids(rest) == own + submenu_ids(entries@[i as int].children@)
            + submenu_ids(entries@.subrange(i + 1, n as int)));
        if entries[i].submenu_hint {
            ids.push(entries[i].id);
        }
        assert(ids@ =~= before + own);
        let ghost mid = ids@;
        proof {
            assert(decreases_to!(entries@ => entries@[i as int]));
            assert(decreases_to!(entries@[i as int] => entries@[i as int].children));
            assert(decreases_to!(entries@[i as int].children => entries@[i as int].children@));
        }
        collect_submenu_ids(&entries[i].children, ids);
        assert(ids@ =~= before + own + submenu_ids(entries@[i as int].children@));
        assert(before + submenu_ids(rest) =~= ids@ + submenu_ids(entries@.subrange(i + 1, n as int)));
        i = i + 1;
    }
    assert(entries@.subrange(n as int, n as int) =~= Seq::<TrayMenuEntry>::empty());
    assert(ids@ + Seq::<i32>::empty() =~= ids@);
}

/// A row of the menu popover.
#[derive(Debug, Clone, Copy, PartialEq, Eq, Structural)]
pub enum MenuRow {
    /// The button that returns to the enclosing menu.
    Back,
    /// A horizontal separator.
    Separator,
    /// The entry at this index of the shown level.
    Entry(usize),
}

/// The rows for the entries of one level, and whether the last row shown
/// is a separator (true at the start): hidden entries are skipped, and a
/// separator is shown only after an entry.
pub open spec fn level_scan(s: Seq<TrayMenuEntry>) -> (Seq<MenuRow>, bool)
    decreases s.len(),
{
    if s.len() == 0 {
        (Seq::empty(), true)
    } else {
        let prev = level_scan(s.drop_last());
        let e = s.last();
        if !e.visible {
            prev
        } else if e.is_separator {
            if prev.1 {
                prev
            } else {
                (prev.0.push(MenuRow::Separator), true)
            }
        } else {
            (prev.0.push(MenuRow::Entry((s.len() - 1) as usize)), false)
        }
    }
}

/// The rows of a level shown at `depth` (1 for the top level): below the
/// top, a back button and a separator come first.
pub open spec fn level_rows(s: Seq<TrayMenuEntry>, depth: nat) -> Seq<MenuRow> {
    (if depth > 1 {
        seq![MenuRow::Back, MenuRow::Separator]
    } else {
        Seq::empty()
    }) + level_scan(s).0
}

/// The rows to show for the entries of one menu level.
pub fn menu_level_rows(entries: &Vec<TrayMenuEntry>, depth: usize) -> (r: Vec<MenuRow>)
    ensures
        r@ == level_rows(entries@, depth as nat),
{
    let mut rows: Vec<MenuRow> = Vec::new();
    if depth > 1 {
        rows.push(MenuRow::Back);
        rows.push(MenuRow::Separator);
    }
    let ghost head = rows@;
    let mut previous_was_separator = true;
    let mut i: usize = 0;
    while i < entries.len()
        invariant
            i <= entries.len(),
            head == (if depth > 1 {
                seq![MenuRow::Back, MenuRow::Separator]
            } else {
                Seq::<MenuRow>::empty()
            }),
            rows@ == head + level_scan(entries@.take(i as int)).0,
            previous_was_separator == level_scan(entries@.take(i as int)).1,
        decreases entries.len() - i,
    {
        let ghost t = entries@.take(i + 1);
        assert(t.drop_last() =~= entries@.take(i as int));
        assert(t.last() == entries@[i as int]);
        let ghost before = rows@;
        if entries[i].visible {
            if entries[i].is_separator {
                if !previous_was_separator {
                    rows.push(MenuRow::Separator);
                    previous_was_separator = true;
                }
            } else {
                rows.push(MenuRow::Entry(i));
                previous_was_separator = false;
            }
        }
        assert(rows@ =~= head + level_scan(t).0);
        i = i + 1;
    }
    assert(entries@.take(entries.len() as int) =~= entries@);
    rows
}

/// The stack of menu levels in a popover: the top menu first, the shown
/// submenu last.
#[derive(Debug)]
pub struct MenuLevels {
    pub levels: Vec<Vec<TrayMenuEntry>>,
}

/// The levels after a submenu is opened.
pub open spec fn opened(levels: Seq<Vec<TrayMenuEntry>>, children: Vec<TrayMenuEntry>) -> Seq<Vec<TrayMenuEntry>> {
    levels.push(children)
}

/// The levels after the back button: the shown submenu closes; the top
/// menu stays.
pub open spec fn backed(levels: Seq<Vec<TrayMenuEntry>>) -> Seq<Vec<TrayMenuEntry>> {
    if levels.len() > 1 {
        levels.drop_last()
    } else {
        levels
    }
}

impl MenuLevels {
    /// A popover that shows the top menu.
    pub fn new(entries: Vec<TrayMenuEntry>) -> (m: Self)
        ensures
            m.levels@ == seq![entries],
    {
        let mut levels: Vec<Vec<TrayMenuEntry>> = Vec::new();
        levels.push(entries);
        assert(levels@ =~= seq![entries]);
        MenuLevels { levels }
    }

    /// How many levels are open.
    pub fn depth(&self) -> (r: usize)
        ensures
            r == self.levels@.len(),
    {
        self.levels.len()
    }

    /// Shows a submenu.
    pub fn open_submenu(&mut self, children: Vec<TrayMenuEntry>)
        ensures
            final(self).levels@ == opened(old(self).levels@, children),
    {
        self.levels.push(children);
    }

    /// Returns to the enclosing menu, if any.
    pub fn go_back(&mut self)
        ensures
            final(self).levels@ == backed(old(self).levels@),
    {
        if self.levels.len() > 1 {
            self.levels.pop();
        }
    }

    /// The rows of the shown level: the last one opened; with no level, an
    /// empty one.
    pub fn current_rows(&self) -> (r: Vec<MenuRow>)
        ensures
            r@ == if self.levels@.len() == 0 {
                level_rows(Seq::empty(), 0)
            } else {
                level_rows(self.levels@.last()@, self.levels@.len() as nat)
            },
    {
        if self.levels.len() == 0 {
            let empty: Vec<TrayMenuEntry> = Vec::new();
            return menu_level_rows(&empty, 0);
        }
        let last = self.levels.len() - 1;
        menu_level_rows(&self.levels[last], self.levels.len())
    }
}

/// Going back after opening a submenu shows the menu shown before.
pub proof fn lemma_back_undoes_open(levels: Seq<Vec<TrayMenuEntry>>, children: Vec<TrayMenuEntry>)
    requires
        levels.len() >= 1,
    ensures
        backed(opened(levels, children)) == levels,
{
    assert(opened(levels, children).drop_last() =~= levels);
}

/// The top menu is never closed: every state reached from `new` by opening
/// and going back has at least one level.
pub proof fn lemma_levels_never_empty(levels: Seq<Vec<TrayMenuEntry>>, children: Vec<TrayMenuEntry>)
    requires
        levels.len() >= 1,
    ensures
        opened(levels, children).len() >= 1,
        backed(levels).len() >= 1,
{
}

} // verus!
