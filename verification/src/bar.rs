//! The bar itself: where the config is looked for, where the user style
//! lives, which windows each monitor needs, and debug switches.
use vstd::prelude::*;
use crate::num::{parse_u64, parse_uint};
use crate::text::{chars_of, lowercase, lowercase_chars, opt_view, owned, push_all, push_str, starts_with, starts_with_str, str_eq, string_from_chars, sub_chars};

verus! {

/// Config file looked for in the working directory.
pub const PROJECT_CONFIG_PATH: &'static str = "./config.jsonc";
/// Key of the window shown when no monitor is known.
pub const FALLBACK_WINDOW_KEY: &'static str = "__fallback__";
/// Debug dump interval used when none is set.
pub const DEFAULT_DOM_DEBUG_INTERVAL_SECS: u64 = 10;

/// The shared boolean default of the config.
pub fn default_true() -> (r: bool)
    ensures
        r,
{
    true
}

// ---------------------------------------------------------------------------
// Paths
// ---------------------------------------------------------------------------

/// `PathBuf::join` on Unix for the paths used here: an absolute part
/// replaces the base; otherwise the part follows the base, with a `/` in
/// between unless the base is empty or already ends with one.
pub open spec fn path_join(base: Seq<char>, part: Seq<char>) -> Seq<char> {
    if part.len() > 0 && part[0] == '/' {
        part
    } else if base.len() == 0 || base.last() == '/' {
        base + part
    } else {
        base + seq!['/'] + part
    }
}

/// Joins two paths.
pub fn join_path(base: &str, part: &str) -> (r: String)
    ensures
        r@ == path_join(base@, part@),
{
    let b = chars_of(base);
    let p = chars_of(part);
    if p.len() > 0 && p[0] == '/' {
        return owned(part);
    }
    let mut out = b;
    if out.len() > 0 && out[out.len() - 1] != '/' {
        out.push('/');
    }
    push_all(&mut out, &p);
    string_from_chars(&out)
}

/// The config file under the user's config directory: below
/// `XDG_CONFIG_HOME` when set, else below `HOME/.config`.
pub open spec fn home_config(xdg_config_home: Option<Seq<char>>, home: Option<Seq<char>>) -> Option<Seq<char>> {
    match xdg_config_home {
        Some(x) => Some(path_join(path_join(x, "vibar"@), "config.jsonc"@)),
        None => match home {
            Some(h) => Some(path_join(path_join(path_join(h, ".config"@), "vibar"@), "config.jsonc"@)),
            None => None,
        },
    }
}

/// The config file under the user's config directory, if one can be named.
pub fn home_config_path(xdg_config_home: Option<&str>, home: Option<&str>) -> (r: Option<String>)
    ensures
        opt_view(r) == home_config(crate::text::opt_str_view(xdg_config_home), crate::text::opt_str_view(home)),
{
    match xdg_config_home {
        Some(x) => {
            let a = join_path(x, "vibar");
            Some(join_path(a.as_str(), "config.jsonc"))
        },
        None => match home {
            Some(h) => {
                let a = join_path(h, ".config");
                let b = join_path(a.as_str(), "vibar");
                Some(join_path(b.as_str(), "config.jsonc"))
            },
            None => None,
        },
    }
}

/// The config files tried, in order: the user's, then the one in the
/// working directory.
pub fn default_config_paths(xdg_config_home: Option<&str>, home: Option<&str>) -> (r: Vec<String>)
    ensures
        r.deep_view() == match home_config(crate::text::opt_str_view(xdg_config_home), crate::text::opt_str_view(home)) {
            Some(p) => seq![p, PROJECT_CONFIG_PATH@],
            None => seq![PROJECT_CONFIG_PATH@],
        },
{
    let mut paths: Vec<String> = Vec::new();
    match home_config_path(xdg_config_home, home) {
        Some(p) => paths.push(p),
        None => {},
    }
    paths.push(owned(PROJECT_CONFIG_PATH));
    assert(paths.deep_view() =~= match home_config(crate::text::opt_str_view(xdg_config_home), crate::text::opt_str_view(home)) {
        Some(p) => seq![p, PROJECT_CONFIG_PATH@],
        None => seq![PROJECT_CONFIG_PATH@],
    });
    paths
}

/// Which config file is used: the candidates are tried in order, and
/// `outcomes[i]` says what happened to the `i`-th one (`None`: it could not
/// be read; `Some(false)`: it was read and did not parse; `Some(true)`: it
/// parsed). The first that parsed wins; with none, the built-in defaults
/// are used (`None`).
pub fn first_parsed(outcomes: &Vec<Option<bool>>) -> (r: Option<usize>)
    ensures
        match r {
            Some(i) => i < outcomes.len() && outcomes@[i as int] == Some(true)
                && forall|j: int| 0 <= j < i ==> outcomes@[j] != Some(true),
            None => forall|j: int| 0 <= j < outcomes.len() ==> outcomes@[j] != Some(true),
        },
{
    let mut i: usize = 0;
    while i < outcomes.len()
        invariant
            i <= outcomes.len(),
            forall|j: int| 0 <= j < i ==> outcomes@[j] != Some(true),
        decreases outcomes.len() - i,
    {
        match outcomes[i] {
            Some(true) => return Some(i),
            _ => {},
        }
        i = i + 1;
    }
    None
}

/// What `std::path::Path::parent` gives for a path (by its text).
pub uninterp spec fn path_parent(path: Seq<char>) -> Option<Seq<char>>;

/// `Path::new(path).parent()`, as text. The result is the named
/// `path_parent` of the path; std documents it as the path without its
/// final component, or `None` for a root or empty path.
#[verifier::external_body]
fn parent_of(path: &str) -> (r: Option<String>)
    ensures
        opt_view(r) == path_parent(path@),
{
    std::path::Path::new(path).parent().map(|p| p.to_string_lossy().into_owned())
}

/// Where the user style file is: `~/` stands for the home directory (when
/// known), an absolute path stays, and a relative path is taken from the
/// directory of the config file (`source_parent`) when there is one.
pub open spec fn style_path(style: Seq<char>, source_parent: Option<Seq<char>>, home: Option<Seq<char>>) -> Seq<char> {
    if starts_with(style, "~/"@) && home is Some {
        path_join(home.unwrap(), style.skip(2))
    } else if style.len() > 0 && style[0] == '/' {
        style
    } else {
        match source_parent {
            Some(p) => path_join(p, style),
            None => style,
        }
    }
}

/// Resolves the user style file given the directory of the config file.
pub fn resolve_style_path_from_parent(style: &str, source_parent: Option<&str>, home: Option<&str>) -> (r: String)
    ensures
        r@ == style_path(style@, crate::text::opt_str_view(source_parent), crate::text::opt_str_view(home)),
{
    let s = chars_of(style);
    if starts_with_str(&s, "~/") {
        match home {
            Some(h) => {
                proof {
                    reveal_strlit("~/");
                }
                let rest = sub_chars(&s, 2, s.len());
                let r = string_from_chars(&rest);
                assert(rest@ =~= style@.skip(2));
                return join_path(h, r.as_str());
            },
            None => {},
        }
    }
    if s.len() > 0 && s[0] == '/' {
        return owned(style);
    }
    match source_parent {
        Some(p) => join_path(p, style),
        None => owned(style),
    }
}

/// Resolves the user style file next to the config file `config_source`.
pub fn resolve_style_path(style: &str, config_source: Option<&str>, home: Option<&str>) -> (r: String)
    ensures
        r@ == style_path(
            style@,
            match config_source {
                Some(c) => path_parent(c@),
                None => None,
            },
            crate::text::opt_str_view(home),
        ),
{
    let parent = match config_source {
        Some(c) => parent_of(c),
        None => None,
    };
    match parent {
        Some(p) => resolve_style_path_from_parent(style, Some(p.as_str()), home),
        None => resolve_style_path_from_parent(style, None, home),
    }
}

// ---------------------------------------------------------------------------
// Windows per monitor
// ---------------------------------------------------------------------------

/// The key of a monitor's window: its connector (when known) and its
/// object address.
pub fn monitor_key(connector: Option<&str>, address: &str) -> (r: String)
    ensures
        r@ == match connector {
            Some(c) => "connector:"@ + c@ + "|ptr:"@ + address@,
            None => "ptr:"@ + address@,
        },
{
    match connector {
        Some(c) => {
            let mut v = chars_of("connector:");
            push_str(&mut v, c);
            push_str(&mut v, "|ptr:");
            push_str(&mut v, address);
            string_from_chars(&v)
        },
        None => {
            let mut v = chars_of("ptr:");
            push_str(&mut v, address);
            string_from_chars(&v)
        },
    }
}

/// What to do with the bar windows when the monitors change.
#[derive(Debug, Clone)]
pub struct WindowSyncPlan {
    /// Windows to close, by key.
    pub remove: Vec<String>,
    /// Monitors (by index in the monitor list) that need a window.
    pub create: Vec<usize>,
    /// Whether the fallback window is to be opened.
    pub create_fallback: bool,
}

/// The windows to close: those of monitors that are gone (never the
/// fallback window there), and the fallback window once a monitor exists.
pub open spec fn windows_to_remove(open_keys: Seq<Seq<char>>, monitors: Seq<Seq<char>>) -> Seq<Seq<char>> {
    open_keys.filter(|k: Seq<char>| k != FALLBACK_WINDOW_KEY@ && !monitors.contains(k)) + if monitors.len() > 0
        && open_keys.contains(FALLBACK_WINDOW_KEY@) {
        seq![FALLBACK_WINDOW_KEY@]
    } else {
        Seq::empty()
    }
}

/// The monitors without a window, by index, in order.
pub open spec fn monitors_to_create(open_keys: Seq<Seq<char>>, monitors: Seq<Seq<char>>, upto: int) -> Seq<usize>
    decreases upto,
{
    if upto <= 0 {
        Seq::empty()
    } else {
        let prev = monitors_to_create(open_keys, monitors, upto - 1);
        if open_keys.contains(monitors[upto - 1]) {
            prev
        } else {
            prev.push((upto - 1) as usize)
        }
    }
}

/// Whether `items` holds `key`.
fn holds(items: &Vec<String>, key: &str) -> (r: bool)
    ensures
        r == items.deep_view().contains(key@),
{
    let mut i: usize = 0;
    while i < items.len()
        invariant
            i <= items.len(),
            forall|j: int| 0 <= j < i ==> items.deep_view()[j] != key@,
        decreases items.len() - i,
    {
        if str_eq(items[i].as_str(), key) {
            assert(items.deep_view()[i as int] == key@);
            return true;
        }
        i = i + 1;
    }
    false
}

/// Plans the windows for the monitors: `open_keys` are the keys of the open
/// windows, `monitors` the keys of the connected monitors.
pub fn window_sync_plan(open_keys: &Vec<String>, monitors: &Vec<String>) -> (p: WindowSyncPlan)
    ensures
        p.remove.deep_view() == windows_to_remove(open_keys.deep_view(), monitors.deep_view()),
        monitors.len() == 0 ==> p.create@ == Seq::<usize>::empty() && p.create_fallback == !open_keys.deep_view().contains(
            FALLBACK_WINDOW_KEY@,
        ),
        monitors.len() > 0 ==> p.create@ == monitors_to_create(open_keys.deep_view(), monitors.deep_view(), monitors.len() as int)
            && !p.create_fallback,
{
    let ghost tv = open_keys.deep_view();
    let ghost mv = monitors.deep_view();
    let mut remove: Vec<String> = Vec::new();
    let mut i: usize = 0;
    while i < open_keys.len()
        invariant
            tv == open_keys.deep_view(),
            mv == monitors.deep_view(),
            i <= open_keys.len(),
            remove.deep_view() == tv.take(i as int).filter(|k: Seq<char>| k != FALLBACK_WINDOW_KEY@ && !mv.contains(k)),
        decreases open_keys.len() - i,
    {
        proof {
            reveal(Seq::filter);
            assert(tv.take(i + 1).drop_last() =~= tv.take(i as int));
            assert(tv.take(i + 1).last() == open_keys@[i as int]@);
        }
        let key = open_keys[i].as_str();
        if !str_eq(key, FALLBACK_WINDOW_KEY) && !holds(monitors, key) {
            let ghost before = remove.deep_view();
            remove.push(open_keys[i].clone());
            assert(remove.deep_view() =~= before.push(open_keys@[i as int]@));
        }
        i = i + 1;
    }
    assert(tv.take(open_keys.len() as int) =~= tv);
    let has_fallback = holds(open_keys, FALLBACK_WINDOW_KEY);
    let ghost filtered = remove.deep_view();
    if monitors.len() > 0 && has_fallback {
        remove.push(owned(FALLBACK_WINDOW_KEY));
        assert(remove.deep_view() =~= filtered + seq![FALLBACK_WINDOW_KEY@]);
    } else {
        assert(remove.deep_view() =~= filtered + Seq::<Seq<char>>::empty());
    }
    let mut create: Vec<usize> = Vec::new();
    if monitors.len() == 0 {
        return WindowSyncPlan { remove, create, create_fallback: !has_fallback };
    }
    let mut j: usize = 0;
    while j < monitors.len()
        invariant
            tv == open_keys.deep_view(),
            mv == monitors.deep_view(),
            j <= monitors.len(),
            create@ == monitors_to_create(tv, mv, j as int),
        decreases monitors.len() - j,
    {
        assert(mv[j as int] == monitors@[j as int]@);
        if !holds(open_keys, monitors[j].as_str()) {
            create.push(j);
        }
        j = j + 1;
    }
    WindowSyncPlan { remove, create, create_fallback: false }
}

/// The keys of the windows open once a plan is carried out: the open ones
/// that are not closed, then the fallback window if it is opened, or a
/// window for each monitor the plan opens one for.
pub open spec fn windows_after_sync(open_keys: Seq<Seq<char>>, monitors: Seq<Seq<char>>) -> Set<Seq<char>> {
    let removed = windows_to_remove(open_keys, monitors);
    let kept = Set::new(|k: Seq<char>| open_keys.contains(k) && !removed.contains(k));
    if monitors.len() == 0 {
        if open_keys.contains(FALLBACK_WINDOW_KEY@) {
            kept
        } else {
            kept.insert(FALLBACK_WINDOW_KEY@)
        }
    } else {
        let created = monitors_to_create(open_keys, monitors, monitors.len() as int);
        kept.union(
            Set::new(|k: Seq<char>| exists|j: int| 0 <= j < created.len() && k == monitors[created[j] as int]),
        )
    }
}

/// The monitors the plan opens a window for are those, below `upto`, whose
/// key has no open window.
proof fn lemma_monitors_to_create(open_keys: Seq<Seq<char>>, monitors: Seq<Seq<char>>, upto: int)
    requires
        0 <= upto <= monitors.len(),
        monitors.len() <= usize::MAX,
    ensures
        forall|j: int|
            0 <= j < monitors_to_create(open_keys, monitors, upto).len() ==> {
                let i = #[trigger] monitors_to_create(open_keys, monitors, upto)[j];
                i < upto && !open_keys.contains(monitors[i as int])
            },
        forall|i: int|
            0 <= i < upto && !open_keys.contains(#[trigger] monitors[i]) ==> exists|j: int|
                0 <= j < monitors_to_create(open_keys, monitors, upto).len() && monitors_to_create(
                    open_keys,
                    monitors,
                    upto,
                )[j] == i,
    decreases upto,
{
    if upto > 0 {
        lemma_monitors_to_create(open_keys, monitors, upto - 1);
        let prev = monitors_to_create(open_keys, monitors, upto - 1);
        let cur = monitors_to_create(open_keys, monitors, upto);
        if !open_keys.contains(monitors[upto - 1]) {
            assert(cur == prev.push((upto - 1) as usize));
            assert(cur[prev.len() as int] == upto - 1);
            assert forall|i: int| 0 <= i < upto && !open_keys.contains(#[trigger] monitors[i]) implies exists|j: int|
                0 <= j < cur.len() && cur[j] == i by {
                if i < upto - 1 {
                    let j = choose|j: int| 0 <= j < prev.len() && prev[j] == i;
                    assert(cur[j] == prev[j]);
                } else {
                    assert(cur[prev.len() as int] == i);
                }
            }
        }
    }
}

/// Carrying out a sync plan leaves exactly one window per connected monitor
/// and no other; with no monitor connected, only the fallback window.
pub proof fn lemma_sync_leaves_one_window_per_monitor(open_keys: Seq<Seq<char>>, monitors: Seq<Seq<char>>)
    requires
        monitors.len() <= usize::MAX,
        !monitors.contains(FALLBACK_WINDOW_KEY@),
    ensures
        monitors.len() > 0 ==> windows_after_sync(open_keys, monitors) == monitors.to_set(),
        monitors.len() == 0 ==> windows_after_sync(open_keys, monitors) == set![FALLBACK_WINDOW_KEY@],
{
    let removed = windows_to_remove(open_keys, monitors);
    let pred = |k: Seq<char>| k != FALLBACK_WINDOW_KEY@ && !monitors.contains(k);
    let filtered = open_keys.filter(pred);
    let tail: Seq<Seq<char>> = if monitors.len() > 0 && open_keys.contains(FALLBACK_WINDOW_KEY@) {
        seq![FALLBACK_WINDOW_KEY@]
    } else {
        Seq::empty()
    };
    assert(removed == filtered + tail);
    // A key is closed exactly when it is open and either no monitor has it
    // (the fallback aside) or it is the fallback once a monitor exists.
    assert forall|k: Seq<char>| open_keys.contains(k) implies (removed.contains(k) <==> (pred(k) || (
    monitors.len() > 0 && k == FALLBACK_WINDOW_KEY@))) by {
        let i = choose|i: int| 0 <= i < open_keys.len() && open_keys[i] == k;
        if pred(k) {
            open_keys.lemma_filter_contains(pred, i);
            let fi = choose|fi: int| 0 <= fi < filtered.len() && filtered[fi] == k;
            assert(removed[fi] == k);
        }
        if removed.contains(k) {
            let r = choose|r: int| 0 <= r < removed.len() && removed[r] == k;
            if r < filtered.len() {
                open_keys.lemma_filter_pred(pred, r);
            }
        }
        if monitors.len() > 0 && k == FALLBACK_WINDOW_KEY@ {
            assert(removed[filtered.len() as int] == k);
        }
    }
    let after = windows_after_sync(open_keys, monitors);
    if monitors.len() == 0 {
        assert(after =~= set![FALLBACK_WINDOW_KEY@]);
    } else {
        lemma_monitors_to_create(open_keys, monitors, monitors.len() as int);
        let created = monitors_to_create(open_keys, monitors, monitors.len() as int);
        assert forall|k: Seq<char>| after.contains(k) <==> monitors.to_set().contains(k) by {
            if monitors.contains(k) {
                let i = choose|i: int| 0 <= i < monitors.len() && monitors[i] == k;
                if !open_keys.contains(k) {
                    let j = choose|j: int| 0 <= j < created.len() && created[j] == i;
                    assert(k == monitors[created[j] as int]);
                }
            }
            if after.contains(k) && !(open_keys.contains(k) && !removed.contains(k)) {
                let j = choose|j: int| 0 <= j < created.len() && k == monitors[created[j] as int];
                assert(monitors.contains(monitors[created[j] as int]));
            }
        }
        assert(after =~= monitors.to_set());
    }
}

// ---------------------------------------------------------------------------
// Debug switches
// ---------------------------------------------------------------------------

/// A debug switch is on for `1`, `true`, `yes` or `on`, in any ASCII case.
pub open spec fn truthy(value: Seq<char>) -> bool {
    let l = lowercase(value);
    l == "1"@ || l == "true"@ || l == "yes"@ || l == "on"@
}

/// Whether the value of a debug variable turns it on (an unset variable
/// does not).
pub fn is_truthy_flag(value: Option<&str>) -> (r: bool)
    ensures
        r == match value {
            Some(v) => truthy(v@),
            None => false,
        },
{
    match value {
        None => false,
        Some(v) => {
            let c = chars_of(v);
            let l = lowercase_chars(&c);
            let s = string_from_chars(&l);
            str_eq(s.as_str(), "1") || str_eq(s.as_str(), "true") || str_eq(s.as_str(), "yes") || str_eq(
                s.as_str(),
                "on",
            )
        },
    }
}

/// The debug dump interval: a whole number of seconds of at least one,
/// else ten.
pub fn dom_debug_interval_secs(value: Option<&str>) -> (r: u64)
    ensures
        r == match value {
            Some(v) => match parse_uint(v@, u64::MAX as nat) {
                Ok(n) => if n >= 1 {
                    n as u64
                } else {
                    DEFAULT_DOM_DEBUG_INTERVAL_SECS
                },
                Err(_) => DEFAULT_DOM_DEBUG_INTERVAL_SECS,
            },
            None => DEFAULT_DOM_DEBUG_INTERVAL_SECS,
        },
{
    match value {
        None => DEFAULT_DOM_DEBUG_INTERVAL_SECS,
        Some(v) => {
            let c = chars_of(v);
            match parse_u64(&c) {
                Ok(n) => if n >= 1 {
                    n
                } else {
                    DEFAULT_DOM_DEBUG_INTERVAL_SECS
                },
                Err(_) => DEFAULT_DOM_DEBUG_INTERVAL_SECS,
            }
        },
    }
}

} // verus!
