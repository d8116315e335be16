//! System tray: item addresses, watcher registrations, icon pixmaps and clicks.
use vstd::prelude::*;
use crate::order::{sort_by_key, stable_sorted, SortKey};
use crate::text::{
    chars_of, contains, contains_str, eq_ignore_ascii_case_str, eq_ignore_case, find_char,
    first_index, is_first_index, lemma_first_index, opt_str_view, opt_view, owned, push_all,
    push_str, starts_with, starts_with_chars, str_eq, string_from_chars, sub_chars,
};

verus! {

/// Module type name in the config.
pub const MODULE_TYPE: &'static str = "tray";
/// Bus name of the StatusNotifierWatcher.
pub const WATCHER_DESTINATION: &'static str = "org.kde.StatusNotifierWatcher";
/// Object path of the StatusNotifierWatcher.
pub const WATCHER_PATH: &'static str = "/StatusNotifierWatcher";
/// Interface of the StatusNotifierWatcher.
pub const WATCHER_INTERFACE: &'static str = "org.kde.StatusNotifierWatcher";
/// Interface of a StatusNotifierItem.
pub const ITEM_INTERFACE: &'static str = "org.kde.StatusNotifierItem";
/// Interface of an exported dbusmenu.
pub const DBUS_MENU_INTERFACE: &'static str = "com.canonical.dbusmenu";
/// The standard properties interface.
pub const DBUS_PROPERTIES_INTERFACE: &'static str = "org.freedesktop.DBus.Properties";
/// Watcher signal: an item was registered.
pub const WATCHER_ITEM_REGISTERED_SIGNAL: &'static str = "StatusNotifierItemRegistered";
/// Watcher signal: an item went away.
pub const WATCHER_ITEM_UNREGISTERED_SIGNAL: &'static str = "StatusNotifierItemUnregistered";
/// Properties signal member.
pub const PROPERTIES_CHANGED_SIGNAL: &'static str = "PropertiesChanged";
/// Object path assumed when an item is known by its bus name alone.
pub const DEFAULT_ITEM_PATH: &'static str = "/StatusNotifierItem";
/// Icon size used when the config names none.
pub const DEFAULT_ICON_SIZE: i32 = 16;
/// Smallest accepted icon size.
pub const MIN_ICON_SIZE: i32 = 8;
/// Poll interval used when the config names none.
pub const DEFAULT_POLL_INTERVAL_SECS: u32 = 2;
/// Smallest accepted poll interval.
pub const MIN_POLL_INTERVAL_SECS: u32 = 1;
/// How long refresh signals are gathered into one refresh.
pub const REFRESH_DEBOUNCE_MILLIS: u64 = 120;
/// Error name of a call to a method the item does not have.
pub const UNKNOWN_METHOD_ERROR: &'static str = "org.freedesktop.DBus.Error.UnknownMethod";
/// Error name of a call to an interface the item does not have.
pub const UNKNOWN_INTERFACE_ERROR: &'static str = "org.freedesktop.DBus.Error.UnknownInterface";

// ---------------------------------------------------------------------------
// Config values
// ---------------------------------------------------------------------------

/// The icon size used when the config names none.
pub fn default_icon_size() -> (r: i32)
    ensures
        r == DEFAULT_ICON_SIZE,
{
    DEFAULT_ICON_SIZE
}

/// The poll interval used when the config names none.
pub fn default_poll_interval() -> (r: u32)
    ensures
        r == DEFAULT_POLL_INTERVAL_SECS,
{
    DEFAULT_POLL_INTERVAL_SECS
}

/// The icon size actually used: at least `MIN_ICON_SIZE`.
pub fn normalized_icon_size(icon_size: i32) -> (r: i32)
    ensures
        r == if icon_size < MIN_ICON_SIZE { MIN_ICON_SIZE } else { icon_size },
{
    if icon_size < MIN_ICON_SIZE {
        MIN_ICON_SIZE
    } else {
        icon_size
    }
}

/// The poll interval actually used: at least `MIN_POLL_INTERVAL_SECS`.
pub fn normalized_poll_interval_secs(interval: u32) -> (r: u32)
    ensures
        r == if interval < MIN_POLL_INTERVAL_SECS { MIN_POLL_INTERVAL_SECS } else { interval },
{
    if interval < MIN_POLL_INTERVAL_SECS {
        MIN_POLL_INTERVAL_SECS
    } else {
        interval
    }
}

// ---------------------------------------------------------------------------
// Bus names and item addresses
// ---------------------------------------------------------------------------

/// Whether a bus name that changed owner can concern the tray; unique names
/// such as `:1.42` and unrelated services are ignored.
pub fn is_tray_relevant_name(name: &str) -> (r: bool)
    ensures
        r == (contains(name@, "StatusNotifier"@) || contains(name@, "ayatana"@)),
{
    let v = chars_of(name);
    contains_str(&v, "StatusNotifier") || contains_str(&v, "ayatana")
}

/// The id, destination and object path of a watcher entry: a bare bus name
/// gets the default item path; otherwise the entry is split at its first
/// `/`, and both sides must be non-empty.
pub open spec fn item_address(raw: Seq<char>) -> Option<(Seq<char>, Seq<char>, Seq<char>)> {
    if raw.len() == 0 {
        None
    } else if !raw.contains('/') {
        Some((raw, raw, DEFAULT_ITEM_PATH@))
    } else if raw[0] == '/' {
        None
    } else {
        let k = first_index(raw, '/');
        let destination = raw.take(k);
        let tail = raw.skip(k + 1);
        if tail.len() == 0 {
            None
        } else {
            Some((raw, destination, seq!['/'] + tail))
        }
    }
}

/// Parses a `RegisteredStatusNotifierItems` entry into (id, destination, path).
pub fn parse_item_address(raw: String) -> (r: Option<(String, String, String)>)
    ensures
        r.is_some() == item_address(raw@).is_some(),
        r matches Some(t) ==> item_address(raw@) == Some((t.0@, t.1@, t.2@)),
{
    let v = chars_of(raw.as_str());
    if v.len() == 0 {
        return None;
    }
    match find_char(&v, '/') {
        None => {
            let destination = raw.clone();
            Some((raw, destination, owned(DEFAULT_ITEM_PATH)))
        },
        Some(k) => {
            if k == 0 {
                return None;
            }
            proof {
                lemma_first_index(raw@, '/', k as int);
            }
            if k + 1 == v.len() {
                assert(raw@.skip(k + 1).len() == 0);
                return None;
            }
            let destination = sub_chars(&v, 0, k);
            let tail = sub_chars(&v, k + 1, v.len());
            let mut path: Vec<char> = Vec::new();
            path.push('/');
            push_all(&mut path, &tail);
            assert(destination@ =~= raw@.take(k as int));
            assert(path@ =~= seq!['/'] + raw@.skip(k + 1));
            let d = string_from_chars(&destination);
            let p = string_from_chars(&path);
            Some((raw, d, p))
        },
    }
}

/// The id under which the local watcher records a registration: a bare
/// object path is prefixed with the caller's bus name (and refused without
/// one), a bus name alone gets the default item path.
pub open spec fn registered_item_id(service: Seq<char>, sender: Option<Seq<char>>) -> Option<Seq<char>> {
    if service.len() == 0 {
        None
    } else if service[0] == '/' {
        match sender {
            Some(d) => Some(d + service),
            None => None,
        }
    } else if service.contains('/') {
        Some(service)
    } else {
        Some(service + DEFAULT_ITEM_PATH@)
    }
}

/// An item registered by its bare bus name, or by an object path from a
/// caller whose name holds no `/`, is read back by the host as that bus
/// name and path, and belongs to that name (so it goes when the name
/// leaves the bus).
pub proof fn lemma_registered_item_round_trip(service: Seq<char>, sender: Option<Seq<char>>)
    ensures
        service.len() > 0 && !service.contains('/') ==> {
            let id = service + DEFAULT_ITEM_PATH@;
            &&& registered_item_id(service, sender) == Some(id)
            &&& item_address(id) == Some((id, service, DEFAULT_ITEM_PATH@))
            &&& owned_by(id, service)
        },
        service.len() > 1 && service[0] == '/' && sender is Some && sender->0.len() > 0 && !sender->0.contains('/') ==> {
            let id = sender->0 + service;
            &&& registered_item_id(service, sender) == Some(id)
            &&& item_address(id) == Some((id, sender->0, service))
            &&& owned_by(id, sender->0)
        },
{
    reveal_strlit("/StatusNotifierItem");
    if service.len() > 0 && !service.contains('/') {
        let id = service + DEFAULT_ITEM_PATH@;
        let k = service.len() as int;
        assert(id[k] == '/');
        assert(id.contains('/'));
        assert(service[0] != '/') by {
            assert(service.contains(service[0]));
        }
        assert(id[0] == service[0]);
        assert forall|j: int| 0 <= j < k implies id[j] != '/' by {
            assert(id[j] == service[j]);
            if service[j] == '/' {
                assert(service.contains(service[j]));
            }
        }
        assert(is_first_index(id, '/', k));
        lemma_first_index(id, '/', k);
        assert(id.take(k) =~= service);
        assert(seq!['/'] + id.skip(k + 1) =~= DEFAULT_ITEM_PATH@);
    }
    if service.len() > 1 && service[0] == '/' && sender is Some && sender->0.len() > 0 && !sender->0.contains('/') {
        let d = sender->0;
        let id = d + service;
        let k = d.len() as int;
        assert(id[k] == '/');
        assert(id.contains('/'));
        assert(d[0] != '/') by {
            assert(d.contains(d[0]));
        }
        assert(id[0] == d[0]);
        assert forall|j: int| 0 <= j < k implies id[j] != '/' by {
            assert(id[j] == d[j]);
            if d[j] == '/' {
                assert(d.contains(d[j]));
            }
        }
        assert(is_first_index(id, '/', k));
        lemma_first_index(id, '/', k);
        assert(id.take(k) =~= d);
        assert(seq!['/'] + id.skip(k + 1) =~= service);
    }
}

/// Normalizes the argument of `RegisterStatusNotifierItem`.
pub fn normalize_registered_item_id(service: &str, sender: Option<&str>) -> (r: Option<String>)
    ensures
        r.is_some() == registered_item_id(service@, opt_str_view(sender)).is_some(),
        r matches Some(s) ==> registered_item_id(service@, opt_str_view(sender)) == Some(s@),
{
    let v = chars_of(service);
    if v.len() == 0 {
        return None;
    }
    if v[0] == '/' {
        match sender {
            Some(d) => {
                let mut out = chars_of(d);
                push_all(&mut out, &v);
                return Some(string_from_chars(&out));
            },
            None => {
                return None;
            },
        }
    }
    match find_char(&v, '/') {
        Some(_) => Some(owned(service)),
        None => {
            let mut out = v;
            push_str(&mut out, DEFAULT_ITEM_PATH);
            Some(string_from_chars(&out))
        },
    }
}

/// `item` belongs to the bus name `name`: it is the name itself or a path
/// under it (the name followed by `/`).
pub open spec fn owned_by(item: Seq<char>, name: Seq<char>) -> bool {
    item == name || (starts_with(item, name) && item.len() > name.len() && item[name.len() as int]
        == '/')
}

/// Whether a registered item belongs to the bus name `name`.
pub fn is_item_owned_by_name(item: &str, name: &str) -> (r: bool)
    ensures
        r == owned_by(item@, name@),
{
    let iv = chars_of(item);
    let nv = chars_of(name);
    if str_eq(item, name) {
        return true;
    }
    starts_with_chars(&iv, &nv) && iv.len() > nv.len() && iv[nv.len()] == '/'
}

/// The registrations that survive when the owner `name` leaves the bus.
pub open spec fn kept_items(items: Seq<Seq<char>>, name: Seq<char>) -> Seq<Seq<char>> {
    items.filter(|item: Seq<char>| !owned_by(item, name))
}

/// One more item either stays or is dropped.
proof fn lemma_kept_step(s: Seq<Seq<char>>, name: Seq<char>, i: int)
    requires
        0 <= i < s.len(),
    ensures
        kept_items(s.take(i + 1), name) == if owned_by(s[i], name) {
            kept_items(s.take(i), name)
        } else {
            kept_items(s.take(i), name).push(s[i])
        },
{
    reveal(Seq::filter);
    let t = s.take(i + 1);
    assert(t.drop_last() =~= s.take(i));
    assert(t.last() == s[i]);
    assert(t.len() > 0);
    assert(t.filter(|item: Seq<char>| !owned_by(item, name)) == {
        let sub = t.drop_last().filter(|item: Seq<char>| !owned_by(item, name));
        if !owned_by(t.last(), name) { sub.push(t.last()) } else { sub }
    });
}

/// Drops every registration that belongs to `name`, keeping the others in
/// order, and returns how many were dropped.
pub fn remove_registered_items_for_name(items: &mut Vec<String>, name: &str) -> (removed: usize)
    ensures
        final(items).deep_view() == kept_items(old(items).deep_view(), name@),
        removed == old(items).len() - final(items).len(),
{
    let ghost all = items.deep_view();
    let n = items.len();
    let mut kept: Vec<String> = Vec::new();
    let mut i: usize = 0;
    while i < n
        invariant
            n == items.len(),
            all == items.deep_view(),
            i <= n,
            kept.len() <= i,
            kept.deep_view() == kept_items(all.take(i as int), name@),
        decreases n - i,
    {
        proof {
            lemma_kept_step(all, name@, i as int);
        }
        assert(all[i as int] == items[i as int]@);
        if !is_item_owned_by_name(items[i].as_str(), name) {
            let ghost before = kept.deep_view();
            kept.push(items[i].clone());
            assert(kept.deep_view() =~= before.push(items[i as int]@));
        }
        i = i + 1;
    }
    assert(all.take(n as int) =~= all);
    let before = items.len();
    *items = kept;
    before - items.len()
}

// ---------------------------------------------------------------------------
// Icon pixmaps
// ---------------------------------------------------------------------------

/// An ARGB32 icon image as the item publishes it.
#[derive(Debug, Clone, PartialEq, Eq)]
pub struct TrayIconPixmap {
    pub width: i32,
    pub height: i32,
    pub argb_data: Vec<u8>,
}

impl View for TrayIconPixmap {
    type V = (i32, i32, Seq<u8>);

    open spec fn view(&self) -> (i32, i32, Seq<u8>) {
        (self.width, self.height, self.argb_data@)
    }
}

/// The plain view of the `IconPixmap` entries.
pub open spec fn pixmap_entries(v: Seq<(i32, i32, Vec<u8>)>) -> Seq<(i32, i32, Seq<u8>)> {
    v.map_values(|e: (i32, i32, Vec<u8>)| (e.0, e.1, e.2@))
}

/// A usable pixmap: positive size and enough bytes for every pixel.
pub open spec fn pixmap_valid(e: (i32, i32, Seq<u8>)) -> bool {
    e.0 > 0 && e.1 > 0 && e.2.len() >= e.0 * e.1 * 4
}

/// The number of pixels of a pixmap.
pub open spec fn pixmap_area(e: (i32, i32, Seq<u8>)) -> int {
    e.0 * e.1
}

/// The valid entry with the most pixels; of several such, the last
/// (`Iterator::max_by_key` keeps the last maximum).
pub open spec fn largest_pixmap(s: Seq<(i32, i32, Seq<u8>)>) -> Option<(i32, i32, Seq<u8>)>
    decreases s.len(),
{
    if s.len() == 0 {
        None
    } else {
        let rest = largest_pixmap(s.drop_last());
        let e = s.last();
        if !pixmap_valid(e) {
            rest
        } else {
            match rest {
                None => Some(e),
                Some(b) => if pixmap_area(e) >= pixmap_area(b) {
                    Some(e)
                } else {
                    rest
                },
            }
        }
    }
}

/// The chosen pixmap is one of the valid entries and none of them has more
/// pixels; there is none only when no entry is valid.
pub proof fn lemma_largest_pixmap_is_maximal(s: Seq<(i32, i32, Seq<u8>)>)
    ensures
        largest_pixmap(s) is None <==> forall|k: int| 0 <= k < s.len() ==> !pixmap_valid(#[trigger] s[k]),
        largest_pixmap(s) matches Some(p) ==> pixmap_valid(p) && s.contains(p) && forall|k: int|
            0 <= k < s.len() && pixmap_valid(#[trigger] s[k]) ==> pixmap_area(s[k]) <= pixmap_area(p),
    decreases s.len(),
{
    if s.len() > 0 {
        let r = s.drop_last();
        lemma_largest_pixmap_is_maximal(r);
        assert forall|k: int| 0 <= k < r.len() implies r[k] == #[trigger] s[k] by {}
        if let Some(p) = largest_pixmap(r) {
            let m = choose|m: int| 0 <= m < r.len() && r[m] == p;
            assert(s[m] == p);
        }
        if pixmap_valid(s.last()) {
            assert(s[s.len() - 1] == s.last());
        }
        if largest_pixmap(s) is None {
            assert forall|k: int| 0 <= k < s.len() implies !pixmap_valid(#[trigger] s[k]) by {
                if k < s.len() - 1 {
                    assert(s[k] == r[k]);
                }
            }
        }
    }
}

/// The optional pixmap by its view.
pub open spec fn opt_pixmap_view(o: Option<TrayIconPixmap>) -> Option<(i32, i32, Seq<u8>)> {
    match o {
        Some(p) => Some(p@),
        None => None,
    }
}

/// Picks the pixmap to show from an item's `IconPixmap` entries.
pub fn select_icon_pixmap(entries: Vec<(i32, i32, Vec<u8>)>) -> (r: Option<TrayIconPixmap>)
    ensures
        opt_pixmap_view(r) == largest_pixmap(pixmap_entries(entries@)),
{
    let ghost all = pixmap_entries(entries@);
    let mut best: Option<usize> = None;
    let mut best_area: i64 = 0;
    let mut i: usize = 0;
    while i < entries.len()
        invariant
            all == pixmap_entries(entries@),
            i <= entries.len(),
            match best {
                None => largest_pixmap(all.take(i as int)) is None,
                Some(b) => b < i && largest_pixmap(all.take(i as int)) == Some(all[b as int])
                    && best_area == pixmap_area(all[b as int]),
            },
        decreases entries.len() - i,
    {
        assert(all.take(i + 1).drop_last() =~= all.take(i as int));
        assert(all.take(i + 1).last() == all[i as int]);
        let w = entries[i].0;
        let h = entries[i].1;
        let len = entries[i].2.len();
        if w > 0 && h > 0 {
            assert(w * h <= 0x7fff_ffff * 0x7fff_ffff) by (nonlinear_arith)
                requires 0 < w <= 0x7fff_ffff, 0 < h <= 0x7fff_ffff;
            assert(w * h > 0) by (nonlinear_arith)
                requires 0 < w, 0 < h;
            let area: i64 = (w as i64) * (h as i64);
            let need: u128 = (area as u128) * 4;
            if (len as u128) >= need {
                let replace = match best {
                    None => true,
                    Some(_) => area >= best_area,
                };
                if replace {
                    best = Some(i);
                    best_area = area;
                }
            }
        }
        i = i + 1;
    }
    assert(all.take(entries.len() as int) =~= all);
    match best {
        None => None,
        Some(b) => Some(
            TrayIconPixmap {
                width: entries[b].0,
                height: entries[b].1,
                argb_data: entries[b].2.clone(),
            },
        ),
    }
}

/// The byte of the ARGB data that lands at position `i` of the RGBA data:
/// each pixel's alpha byte moves from the front to the back.
pub open spec fn rgba_source(i: int) -> int {
    if i % 4 == 3 {
        i - 3
    } else {
        i + 1
    }
}

/// Whether a pixmap can be turned into a texture: non-negative size, a
/// byte count and row stride that fit, and enough data.
pub open spec fn pixmap_convertible(p: (i32, i32, Seq<u8>)) -> bool {
    &&& p.0 >= 0
    &&& p.1 >= 0
    &&& p.0 * p.1 * 4 <= usize::MAX
    &&& p.0 * 4 <= i32::MAX
    &&& p.2.len() >= p.0 * p.1 * 4
}

/// Reorders a pixmap's ARGB bytes into RGBA and gives the row stride;
/// `None` where it cannot be shown.
pub fn pixmap_rgba(pixmap: &TrayIconPixmap) -> (r: Option<(Vec<u8>, i32)>)
    ensures
        r is Some <==> pixmap_convertible(pixmap@),
        r matches Some(out) ==> {
            &&& out.0@.len() == pixmap.width * pixmap.height * 4
            &&& out.1 == pixmap.width * 4
            &&& forall|i: int| 0 <= i < out.0@.len() ==> #[trigger] out.0@[i] == pixmap.argb_data@[rgba_source(i)]
        },
{
    if pixmap.width < 0 || pixmap.height < 0 {
        return None;
    }
    let w = pixmap.width as usize;
    let h = pixmap.height as usize;
    let pixels = match w.checked_mul(h) {
        Some(p) => p,
        None => {
            assert(w * h * 4 > usize::MAX) by (nonlinear_arith)
                requires w * h > usize::MAX;
            return None;
        },
    };
    let expected = match pixels.checked_mul(4) {
        Some(e) => e,
        None => {
            return None;
        },
    };
    if pixmap.argb_data.len() < expected {
        return None;
    }
    if pixmap.width > 0x1fff_ffff {
        return None;
    }
    let stride: i32 = pixmap.width * 4;
    let mut out: Vec<u8> = Vec::new();
    let mut k: usize = 0;
    while k < pixels
        invariant
            k <= pixels,
            expected == pixels * 4,
            pixmap.argb_data@.len() >= expected,
            out@.len() == 4 * k,
            forall|i: int| 0 <= i < out@.len() ==> #[trigger] out@[i] == pixmap.argb_data@[rgba_source(i)],
        decreases pixels - k,
    {
        let base = 4 * k;
        out.push(pixmap.argb_data[base + 1]);
        out.push(pixmap.argb_data[base + 2]);
        out.push(pixmap.argb_data[base + 3]);
        out.push(pixmap.argb_data[base]);
        assert forall|i: int| 0 <= i < out@.len() implies #[trigger] out@[i] == pixmap.argb_data@[rgba_source(i)] by {
            if i >= base {
                assert(i == base || i == base + 1 || i == base + 2 || i == base + 3);
            }
        }
        k = k + 1;
    }
    Some((out, stride))
}

/// Suffix of symbolic icon names.
pub const SYMBOLIC_SUFFIX: &'static str = "-symbolic";
/// Name of the icon GTK falls back to when a lookup fails.
pub const MISSING_ICON_NAME: &'static str = "image-missing";

/// `s` ends with `p`.
pub open spec fn ends_with(s: Seq<char>, p: Seq<char>) -> bool {
    p.len() <= s.len() && s.skip(s.len() - p.len()) == p
}

/// Whether an icon name asks for the symbolic variant.
pub fn is_symbolic_icon(icon_name: &str) -> (r: bool)
    ensures
        r == ends_with(icon_name@, SYMBOLIC_SUFFIX@),
{
    let v = chars_of(icon_name);
    let p = chars_of(SYMBOLIC_SUFFIX);
    if p.len() > v.len() {
        return false;
    }
    let tail = sub_chars(&v, v.len() - p.len(), v.len());
    assert(tail@ =~= v@.skip(v.len() - p.len()));
    crate::text::chars_eq(&tail, &p)
}

/// The names to look up for an icon: the name itself, then, for a
/// symbolic name, the name without `-symbolic`.
pub open spec fn icon_candidates(name: Seq<char>) -> Seq<Seq<char>> {
    if ends_with(name, SYMBOLIC_SUFFIX@) {
        seq![name, name.take(name.len() - SYMBOLIC_SUFFIX@.len())]
    } else {
        seq![name]
    }
}

/// The names to look up for an icon, in order.
pub fn icon_lookup_candidates(icon_name: &str) -> (r: Vec<String>)
    ensures
        r.deep_view() == icon_candidates(icon_name@),
{
    let mut r: Vec<String> = Vec::new();
    r.push(owned(icon_name));
    if is_symbolic_icon(icon_name) {
        let v = chars_of(icon_name);
        let p = chars_of(SYMBOLIC_SUFFIX);
        let base = sub_chars(&v, 0, v.len() - p.len());
        assert(base@ =~= icon_name@.take(icon_name@.len() - SYMBOLIC_SUFFIX@.len()));
        r.push(string_from_chars(&base));
        assert(r.deep_view() =~= icon_candidates(icon_name@));
    } else {
        assert(r.deep_view() =~= icon_candidates(icon_name@));
    }
    r
}

/// Whether a theme lookup ended on GTK's missing-image icon (compared by
/// the file name of the icon it found).
pub fn is_missing_icon_name(file_name: Option<&str>) -> (r: bool)
    ensures
        r == (opt_str_view(file_name) == Some(MISSING_ICON_NAME@)),
{
    match file_name {
        Some(f) => str_eq(f, MISSING_ICON_NAME),
        None => false,
    }
}

/// The icon name shown when nothing else worked: the item's own name, or
/// the missing-image icon when it has none.
pub fn fallback_icon_name(icon_name: &str) -> (r: String)
    ensures
        r@ == if icon_name@.len() == 0 { MISSING_ICON_NAME@ } else { icon_name@ },
{
    if icon_name.is_empty() {
        owned(MISSING_ICON_NAME)
    } else {
        owned(icon_name)
    }
}

// ---------------------------------------------------------------------------
// The local StatusNotifierWatcher
// ---------------------------------------------------------------------------

/// No registration occurs twice.
pub open spec fn no_duplicates(items: Seq<Seq<char>>) -> bool {
    forall|i: int, j: int| 0 <= i < j < items.len() ==> items[i] != items[j]
}

/// The state of the watcher that the bar serves when no other is running.
#[derive(Debug)]
pub struct WatcherState {
    pub registered_items: Vec<String>,
    pub host_registered: bool,
}

/// Whether `items` holds `id`.
fn holds_item(items: &Vec<String>, id: &str) -> (r: bool)
    ensures
        r == items.deep_view().contains(id@),
{
    let mut i: usize = 0;
    while i < items.len()
        invariant
            i <= items.len(),
            forall|j: int| 0 <= j < i ==> items.deep_view()[j] != id@,
        decreases items.len() - i,
    {
        if str_eq(items[i].as_str(), id) {
            assert(items.deep_view()[i as int] == id@);
            return true;
        }
        i = i + 1;
    }
    false
}

impl WatcherState {
    /// A watcher with no registrations and no host.
    pub fn new() -> (w: Self)
        ensures
            w.registered_items.deep_view() == Seq::<Seq<char>>::empty(),
            !w.host_registered,
    {
        let w = WatcherState { registered_items: Vec::new(), host_registered: false };
        assert(w.registered_items.deep_view() =~= Seq::<Seq<char>>::empty());
        w
    }

    /// `RegisterStatusNotifierItem`: records the normalized id unless it is
    /// refused or already recorded.
    pub fn register_status_notifier_item(&mut self, service: &str, sender: Option<&str>)
        ensures
            final(self).host_registered == old(self).host_registered,
            final(self).registered_items.deep_view() == match registered_item_id(
                service@,
                opt_str_view(sender),
            ) {
                Some(id) => if old(self).registered_items.deep_view().contains(id) {
                    old(self).registered_items.deep_view()
                } else {
                    old(self).registered_items.deep_view().push(id)
                },
                None => old(self).registered_items.deep_view(),
            },
    {
        let normalized = normalize_registered_item_id(service, sender);
        match normalized {
            None => {},
            Some(id) => {
                if !holds_item(&self.registered_items, id.as_str()) {
                    let ghost before = self.registered_items.deep_view();
                    self.registered_items.push(id);
                    assert(self.registered_items.deep_view() =~= before.push(id@));
                }
            },
        }
    }

    /// `RegisterStatusNotifierHost`: notes that a host exists.
    pub fn register_status_notifier_host(&mut self)
        ensures
            final(self).host_registered,
            final(self).registered_items.deep_view() == old(self).registered_items.deep_view(),
    {
        self.host_registered = true;
    }

    /// The `RegisteredStatusNotifierItems` property.
    pub fn registered_status_notifier_items(&self) -> (r: Vec<String>)
        ensures
            r.deep_view() == self.registered_items.deep_view(),
    {
        let mut r: Vec<String> = Vec::new();
        let mut i: usize = 0;
        while i < self.registered_items.len()
            invariant
                i <= self.registered_items.len(),
                r.deep_view() == self.registered_items.deep_view().take(i as int),
            decreases self.registered_items.len() - i,
        {
            let ghost before = r.deep_view();
            r.push(self.registered_items[i].clone());
            assert(r.deep_view() =~= before.push(self.registered_items.deep_view()[i as int]));
            assert(self.registered_items.deep_view().take(i + 1) =~= before.push(
                self.registered_items.deep_view()[i as int],
            ));
            i = i + 1;
        }
        assert(self.registered_items.deep_view().take(i as int) =~= self.registered_items.deep_view());
        r
    }

    /// The `IsStatusNotifierHostRegistered` property: the bar itself is a host.
    pub fn is_status_notifier_host_registered(&self) -> (r: bool)
        ensures
            r,
    {
        true
    }

    /// The `ProtocolVersion` property.
    pub fn protocol_version(&self) -> (r: i32)
        ensures
            r == 0,
    {
        0
    }

    /// The owner `name` left the bus: its registrations go.
    pub fn remove_owner(&mut self, name: &str) -> (removed: usize)
        ensures
            final(self).host_registered == old(self).host_registered,
            final(self).registered_items.deep_view() == kept_items(
                old(self).registered_items.deep_view(),
                name@,
            ),
            removed == old(self).registered_items.len() - final(self).registered_items.len(),
    {
        remove_registered_items_for_name(&mut self.registered_items, name)
    }
}

/// Registering keeps the registrations free of duplicates.
pub proof fn lemma_register_keeps_items_unique(before: Seq<Seq<char>>, id: Seq<char>)
    requires
        no_duplicates(before),
    ensures
        no_duplicates(if before.contains(id) { before } else { before.push(id) }),
{
    if !before.contains(id) {
        let after = before.push(id);
        assert forall|i: int, j: int| 0 <= i < j < after.len() implies after[i] != after[j] by {
            if j == before.len() {
                assert(after[i] == before[i]);
            }
        }
    }
}

/// Filtering a list free of duplicates leaves one free of duplicates.
proof fn lemma_kept_unique(s: Seq<Seq<char>>, name: Seq<char>)
    requires
        no_duplicates(s),
    ensures
        no_duplicates(kept_items(s, name)),
    decreases s.len(),
{
    reveal(Seq::filter);
    if s.len() > 0 {
        let r = s.drop_last();
        assert forall|i: int, j: int| 0 <= i < j < r.len() implies r[i] != r[j] by {
            assert(r[i] == s[i] && r[j] == s[j]);
        }
        lemma_kept_unique(r, name);
        let kr = kept_items(r, name);
        if !owned_by(s.last(), name) {
            assert(kept_items(s, name) == kr.push(s.last()));
            if kr.contains(s.last()) {
                r.lemma_filter_contains_rev(|item: Seq<char>| !owned_by(item, name), s.last());
                let k = choose|k: int| 0 <= k < r.len() && r[k] == s.last();
                assert(s[k] == s[s.len() - 1]);
            }
            let after = kr.push(s.last());
            assert forall|i: int, j: int| 0 <= i < j < after.len() implies after[i] != after[j] by {
                if j == kr.len() {
                    assert(kr.contains(kr[i]));
                }
            }
        } else {
            assert(kept_items(s, name) == kr);
        }
    }
}

/// Removing an owner's registrations keeps them free of duplicates, and
/// none of the owner's remain.
pub proof fn lemma_remove_keeps_items_unique(before: Seq<Seq<char>>, name: Seq<char>)
    requires
        no_duplicates(before),
    ensures
        no_duplicates(kept_items(before, name)),
        forall|k: int| 0 <= k < kept_items(before, name).len() ==> !owned_by(
            #[trigger] kept_items(before, name)[k],
            name,
        ),
{
    lemma_kept_unique(before, name);
    let after = kept_items(before, name);
    assert forall|k: int| 0 <= k < after.len() implies !owned_by(#[trigger] after[k], name) by {
        before.lemma_filter_pred(|item: Seq<char>| !owned_by(item, name), k);
    }
}

// ---------------------------------------------------------------------------
// Host registration before a snapshot
// ---------------------------------------------------------------------------

/// What happened while reaching the watcher.
#[derive(Debug, Clone, Copy, PartialEq, Eq, Structural)]
pub enum TrayHostEvent {
    /// No proxy for the watcher could be made.
    WatcherUnavailable,
    /// A proxy for the watcher is ready.
    WatcherReady,
    /// `RegisterStatusNotifierHost` succeeded.
    RegisterSucceeded,
    /// `RegisterStatusNotifierHost` failed.
    RegisterFailed,
}

/// What the snapshot does next.
#[derive(Debug, Clone, Copy, PartialEq, Eq, Structural)]
pub enum TrayHostAction {
    /// Give an empty snapshot.
    ReturnEmpty,
    /// Register this bar as a host first.
    RegisterHost,
    /// Read the registered items.
    ReadItems,
}

/// The next host flag and action: without a watcher the flag drops and the
/// snapshot is empty; with one, a host not yet registered registers first;
/// a successful registration sets the flag and goes on to the items, a
/// failed one keeps the flag and gives an empty snapshot.
pub open spec fn host_step(host_registered: bool, event: TrayHostEvent) -> (bool, TrayHostAction) {
    match event {
        TrayHostEvent::WatcherUnavailable => (false, TrayHostAction::ReturnEmpty),
        TrayHostEvent::WatcherReady => if host_registered {
            (true, TrayHostAction::ReadItems)
        } else {
            (false, TrayHostAction::RegisterHost)
        },
        TrayHostEvent::RegisterSucceeded => (true, TrayHostAction::ReadItems),
        TrayHostEvent::RegisterFailed => (host_registered, TrayHostAction::ReturnEmpty),
    }
}

/// One step of the host registration that precedes each tray snapshot.
pub fn tray_host_step(host_registered: bool, event: TrayHostEvent) -> (r: (bool, TrayHostAction))
    ensures
        r == host_step(host_registered, event),
{
    match event {
        TrayHostEvent::WatcherUnavailable => (false, TrayHostAction::ReturnEmpty),
        TrayHostEvent::WatcherReady => if host_registered {
            (true, TrayHostAction::ReadItems)
        } else {
            (false, TrayHostAction::RegisterHost)
        },
        TrayHostEvent::RegisterSucceeded => (true, TrayHostAction::ReadItems),
        TrayHostEvent::RegisterFailed => (host_registered, TrayHostAction::ReturnEmpty),
    }
}

// ---------------------------------------------------------------------------
// Clicks on an item
// ---------------------------------------------------------------------------

/// Item methods to call, in order, until one exists on the item.
#[derive(Debug, Clone)]
pub struct ItemMethodCall {
    pub destination: String,
    pub path: String,
    pub methods: Vec<String>,
    pub x: i32,
    pub y: i32,
}

/// How one method call ended.
#[derive(Debug, Clone, Copy, PartialEq, Eq, Structural)]
pub enum MethodCallOutcome {
    Succeeded,
    MethodMissing,
    Failed,
}

/// A call of `method` alone.
pub fn call_item_method(destination: String, path: String, method: &str, x: i32, y: i32) -> (c:
    ItemMethodCall)
    ensures
        c.destination@ == destination@,
        c.path@ == path@,
        c.methods.deep_view() == seq![method@],
        c.x == x,
        c.y == y,
{
    let mut methods: Vec<String> = Vec::new();
    methods.push(owned(method));
    assert(methods.deep_view() =~= seq![method@]);
    ItemMethodCall { destination, path, methods, x, y }
}

/// A primary click: `Activate`.
pub fn activate_item(destination: String, path: String, x: i32, y: i32) -> (c: ItemMethodCall)
    ensures
        c.destination@ == destination@,
        c.path@ == path@,
        c.methods.deep_view() == seq!["Activate"@],
        c.x == x,
        c.y == y,
{
    call_item_method(destination, path, "Activate", x, y)
}

/// A middle click: `SecondaryActivate`.
pub fn secondary_activate_item(destination: String, path: String, x: i32, y: i32) -> (c:
    ItemMethodCall)
    ensures
        c.destination@ == destination@,
        c.path@ == path@,
        c.methods.deep_view() == seq!["SecondaryActivate"@],
        c.x == x,
        c.y == y,
{
    call_item_method(destination, path, "SecondaryActivate", x, y)
}

/// A right click without a menu: `ContextMenu`, then the two activations.
pub fn context_menu_item(destination: String, path: String, x: i32, y: i32) -> (c: ItemMethodCall)
    ensures
        c.destination@ == destination@,
        c.path@ == path@,
        c.methods.deep_view() == seq!["ContextMenu"@, "SecondaryActivate"@, "Activate"@],
        c.x == x,
        c.y == y,
{
    let mut methods: Vec<String> = Vec::new();
    methods.push(owned("ContextMenu"));
    methods.push(owned("SecondaryActivate"));
    methods.push(owned("Activate"));
    assert(methods.deep_view() =~= seq!["ContextMenu"@, "SecondaryActivate"@, "Activate"@]);
    ItemMethodCall { destination, path, methods, x, y }
}

/// Whether a call failed because the item lacks the method or interface.
pub fn is_method_missing_error(error_name: &str) -> (r: bool)
    ensures
        r == (error_name@ == UNKNOWN_METHOD_ERROR@ || error_name@ == UNKNOWN_INTERFACE_ERROR@),
{
    str_eq(error_name, UNKNOWN_METHOD_ERROR) || str_eq(error_name, UNKNOWN_INTERFACE_ERROR)
}

/// After the method at `index` ended with `outcome`: the index of the next
/// method to try, or `None` when the click is done.  Only a missing method
/// moves on.
pub fn next_method_after(call: &ItemMethodCall, index: usize, outcome: MethodCallOutcome) -> (r:
    Option<usize>)
    ensures
        r == if outcome == MethodCallOutcome::MethodMissing && index + 1 < call.methods.len() {
            Some((index + 1) as usize)
        } else {
            None::<usize>
        },
{
    match outcome {
        MethodCallOutcome::MethodMissing => if index < call.methods.len() && index + 1
            < call.methods.len() {
            Some(index + 1)
        } else {
            None
        },
        _ => None,
    }
}

// ---------------------------------------------------------------------------
// Refresh triggers
// ---------------------------------------------------------------------------

/// A bus listener whose messages make the tray refresh.
#[derive(Debug, Clone, Copy, PartialEq, Eq, Structural)]
pub enum RefreshListener {
    /// `NameOwnerChanged` of the bus, for tray-relevant names.
    NameOwnerChanged,
    /// The watcher's `StatusNotifierItemRegistered` signal.
    WatcherItemRegistered,
    /// The watcher's `StatusNotifierItemUnregistered` signal.
    WatcherItemUnregistered,
    /// `PropertiesChanged` of any item.
    ItemPropertiesChanged,
}

/// The listeners the tray starts, in the order they are started.
pub fn start_refresh_listeners() -> (r: Vec<RefreshListener>)
    ensures
        r@ == seq![
            RefreshListener::NameOwnerChanged,
            RefreshListener::WatcherItemRegistered,
            RefreshListener::WatcherItemUnregistered,
            RefreshListener::ItemPropertiesChanged,
        ],
{
    let mut r: Vec<RefreshListener> = Vec::new();
    r.push(RefreshListener::NameOwnerChanged);
    r.push(RefreshListener::WatcherItemRegistered);
    r.push(RefreshListener::WatcherItemUnregistered);
    r.push(RefreshListener::ItemPropertiesChanged);
    assert(r@ =~= seq![
        RefreshListener::NameOwnerChanged,
        RefreshListener::WatcherItemRegistered,
        RefreshListener::WatcherItemUnregistered,
        RefreshListener::ItemPropertiesChanged,
    ]);
    r
}

/// Whether a `PropertiesChanged` signal concerns a tray item and changed
/// or invalidated something.
pub fn is_tray_item_properties_changed(
    interface_name: &str,
    changed_count: usize,
    invalidated_count: usize,
) -> (r: bool)
    ensures
        r == (interface_name@ == ITEM_INTERFACE@ && (changed_count > 0 || invalidated_count > 0)),
{
    str_eq(interface_name, ITEM_INTERFACE) && (changed_count > 0 || invalidated_count > 0)
}

// ---------------------------------------------------------------------------
// Item snapshots
// ---------------------------------------------------------------------------

/// What the bar shows of one tray item.
#[derive(Debug, Clone, PartialEq, Eq)]
pub struct TrayItemSnapshot {
    pub id: String,
    pub destination: String,
    pub path: String,
    pub icon_name: String,
    pub icon_pixmap: Option<TrayIconPixmap>,
    pub icon_theme_path: Option<String>,
    pub title: String,
}

impl SortKey for TrayItemSnapshot {
    open spec fn sort_key(&self) -> Seq<char> {
        self.id@
    }

    fn key_str(&self) -> (r: &str) {
        self.id.as_str()
    }
}

/// The items in the order the tray shows them: by id, items with equal ids
/// keeping their order.
pub fn sort_tray_items(items: Vec<TrayItemSnapshot>) -> (r: Vec<TrayItemSnapshot>)
    ensures
        r@ == stable_sorted(items@),
{
    sort_by_key(items)
}

/// The item properties as read from the bus; `None` where reading failed.
#[derive(Debug, Clone)]
pub struct TrayItemProperties {
    pub status: Option<String>,
    pub icon_name: Option<String>,
    pub attention_icon_name: Option<String>,
    pub icon_pixmap: Option<Vec<(i32, i32, Vec<u8>)>>,
    pub attention_icon_pixmap: Option<Vec<(i32, i32, Vec<u8>)>>,
    pub title: Option<String>,
    pub icon_theme_path: Option<String>,
}

/// The text of an optional string, empty when absent.
pub open spec fn or_empty(o: Option<String>) -> Seq<char> {
    match o {
        Some(s) => s@,
        None => Seq::empty(),
    }
}

/// The pixmap chosen from an optional list of entries.
pub open spec fn chosen_pixmap(o: Option<Vec<(i32, i32, Vec<u8>)>>) -> Option<(i32, i32, Seq<u8>)> {
    match o {
        Some(v) => largest_pixmap(pixmap_entries(v@)),
        None => None,
    }
}

/// A `Passive` item is hidden (the status compares without regard to ASCII
/// case; a missing status counts as `Active`).
pub open spec fn item_is_passive(props: TrayItemProperties) -> bool {
    props.status matches Some(s) && eq_ignore_case(s@, "passive"@)
}

/// The snapshot of an item that is not passive: the icon name, else the
/// attention icon name; the icon pixmap, else the attention pixmap; a
/// non-empty title, else the id; a non-empty icon theme path.
pub open spec fn snapshot_matches(
    snap: TrayItemSnapshot,
    id: Seq<char>,
    destination: Seq<char>,
    path: Seq<char>,
    props: TrayItemProperties,
) -> bool {
    &&& snap.id@ == id
    &&& snap.destination@ == destination
    &&& snap.path@ == path
    &&& snap.icon_name@ == if or_empty(props.icon_name).len() > 0 {
        or_empty(props.icon_name)
    } else {
        or_empty(props.attention_icon_name)
    }
    &&& opt_pixmap_view(snap.icon_pixmap) == if chosen_pixmap(props.icon_pixmap) is Some {
        chosen_pixmap(props.icon_pixmap)
    } else {
        chosen_pixmap(props.attention_icon_pixmap)
    }
    &&& snap.title@ == match props.title {
        Some(t) => if t@.len() > 0 {
            t@
        } else {
            id
        },
        None => id,
    }
    &&& opt_view(snap.icon_theme_path) == match props.icon_theme_path {
        Some(p) => if p@.len() > 0 {
            Some(p@)
        } else {
            None
        },
        None => None,
    }
}

/// The text of an optional string, or an empty string.
fn text_or_empty(o: Option<String>) -> (r: String)
    ensures
        r@ == or_empty(o),
{
    match o {
        Some(s) => s,
        None => String::new(),
    }
}

/// The pixmap chosen from an optional list of entries.
fn choose_pixmap(o: Option<Vec<(i32, i32, Vec<u8>)>>) -> (r: Option<TrayIconPixmap>)
    ensures
        opt_pixmap_view(r) == chosen_pixmap(o),
{
    match o {
        Some(v) => select_icon_pixmap(v),
        None => None,
    }
}

/// Builds the snapshot of an item from its properties; `None` for an item
/// whose status is `Passive`.
pub fn item_snapshot_from_properties(
    id: String,
    destination: String,
    path: String,
    props: TrayItemProperties,
) -> (r: Option<TrayItemSnapshot>)
    ensures
        r is None <==> item_is_passive(props),
        r matches Some(snap) ==> snapshot_matches(snap, id@, destination@, path@, props),
{
    let ghost p = props;
    let TrayItemProperties {
        status,
        icon_name,
        attention_icon_name,
        icon_pixmap,
        attention_icon_pixmap,
        title,
        icon_theme_path,
    } = props;
    match status {
        Some(s) => {
            let sv = chars_of(s.as_str());
            if eq_ignore_ascii_case_str(&sv, "passive") {
                return None;
            }
        },
        None => {},
    }
    let main_name = text_or_empty(icon_name);
    let chosen_name = if !main_name.as_str().is_empty() {
        main_name
    } else {
        text_or_empty(attention_icon_name)
    };
    let first = choose_pixmap(icon_pixmap);
    let pixmap = match first {
        Some(px) => Some(px),
        None => choose_pixmap(attention_icon_pixmap),
    };
    let shown_title = match title {
        Some(t) => if !t.as_str().is_empty() {
            t
        } else {
            id.clone()
        },
        None => id.clone(),
    };
    let theme_path = match icon_theme_path {
        Some(tp) => if !tp.as_str().is_empty() {
            Some(tp)
        } else {
            None
        },
        None => None,
    };
    let snap = TrayItemSnapshot {
        id,
        destination,
        path,
        icon_name: chosen_name,
        icon_pixmap: pixmap,
        icon_theme_path: theme_path,
        title: shown_title,
    };
    assert(snapshot_matches(snap, snap.id@, snap.destination@, snap.path@, p));
    Some(snap)
}

} // verus!
