//! Media players (MPRIS): which player is shown, its label and its controls.
use vstd::prelude::*;
use crate::common::{lemma_seq_lt_asym, lemma_seq_lt_irrefl, lemma_seq_lt_total_trans, pair, seq_lt, str_lt};
use crate::markup::{escape, escape_markup_text, render_markup_template, render_plain, render_plain_template, render_template};
use crate::text::{chars_of, is_blank, is_blank_str, lowercase, lowercase_chars, opt_str_view, owned, push_all, push_str, starts_with, starts_with_str, str_eq, string_from_chars, strip_prefix, strip_prefix_chars};

verus! {

/// Module type name in the config.
pub const MODULE_TYPE: &'static str = "playerctl";
/// Bus-name prefix of MPRIS players.
pub const MPRIS_PREFIX: &'static str = "org.mpris.MediaPlayer2.";
/// Object path of an MPRIS player.
pub const MPRIS_PATH: &'static str = "/org/mpris/MediaPlayer2";
/// The MPRIS player interface.
pub const MPRIS_PLAYER_INTERFACE: &'static str = "org.mpris.MediaPlayer2.Player";
/// The MPRIS root interface.
pub const MPRIS_ROOT_INTERFACE: &'static str = "org.mpris.MediaPlayer2";
/// Poll interval named in the config by default (the backend is event driven).
pub const DEFAULT_PLAYERCTL_INTERVAL_SECS: u32 = 1;
/// Label format used when the config names none.
pub const DEFAULT_PLAYERCTL_FORMAT: &'static str = "{status_icon} {title}";
/// Label shown when no player runs.
pub const DEFAULT_NO_PLAYER_TEXT: &'static str = "No media";
/// State class shown when no player runs.
pub const NO_PLAYER_CLASS: &'static str = "no-player";
/// Placeholder shown for empty metadata in the controls.
pub const EMPTY_VALUE_TEXT: &'static str = "\u{2014}";
/// Time shown when a position or length is unknown.
pub const ZERO_TIMESTAMP: &'static str = "00:00";
/// Icon of the play button.
pub const PLAY_ICON: &'static str = "\u{f04b}";
/// Icon of the pause button.
pub const PAUSE_ICON: &'static str = "\u{f04c}";
/// Icon of the stop state.
pub const STOP_ICON: &'static str = "\u{f04d}";
/// Icon of an unknown state.
pub const MUSIC_ICON: &'static str = "\u{f001}";
/// Icon of the previous-track button.
pub const PREVIOUS_ICON: &'static str = "\u{f048}";
/// Icon of the next-track button.
pub const NEXT_ICON: &'static str = "\u{f051}";

// ---------------------------------------------------------------------------
// Config
// ---------------------------------------------------------------------------

/// When the label scrolls text that does not fit.
#[derive(Debug, Clone, Copy, PartialEq, Eq, Structural)]
pub enum PlayerctlMarqueeMode {
    Off,
    Hover,
    Open,
    Always,
}

/// How the controls popover opens.
#[derive(Debug, Clone, Copy, PartialEq, Eq, Structural)]
pub enum PlayerctlControlsOpenMode {
    LeftClick,
}

/// The `controls` section of the config.
#[derive(Debug, Clone)]
pub struct PlayerctlControlsConfig {
    pub enabled: bool,
    pub open: PlayerctlControlsOpenMode,
    pub show_seek: bool,
}

/// The module config as written.
#[derive(Debug, Clone)]
pub struct PlayerctlConfig {
    pub format: Option<String>,
    pub click: Option<String>,
    pub on_click: Option<String>,
    pub interval_secs: u32,
    pub player: Option<String>,
    pub class: Option<String>,
    pub no_player_text: String,
    pub hide_when_idle: bool,
    pub show_when_paused: bool,
    pub controls: PlayerctlControlsConfig,
    pub fixed_width: Option<u32>,
    pub marquee: PlayerctlMarqueeMode,
}

/// The config with its defaults filled in.
#[derive(Debug, Clone)]
pub struct PlayerctlViewConfig {
    pub format: String,
    pub click_command: Option<String>,
    pub interval_secs: u32,
    pub player: Option<String>,
    pub class: Option<String>,
    pub no_player_text: String,
    pub hide_when_idle: bool,
    pub show_when_paused: bool,
    pub controls_enabled: bool,
    pub controls_open: PlayerctlControlsOpenMode,
    pub controls_show_seek: bool,
    pub fixed_width: Option<u32>,
    pub marquee: PlayerctlMarqueeMode,
}

/// The poll interval named in the config by default.
pub fn default_playerctl_interval() -> (r: u32)
    ensures
        r == DEFAULT_PLAYERCTL_INTERVAL_SECS,
{
    DEFAULT_PLAYERCTL_INTERVAL_SECS
}

/// The label shown when no player runs, by default.
pub fn default_no_player_text() -> (r: String)
    ensures
        r@ == DEFAULT_NO_PLAYER_TEXT@,
{
    owned(DEFAULT_NO_PLAYER_TEXT)
}

/// Paused players are shown by default.
pub fn default_show_when_paused() -> (r: bool)
    ensures
        r,
{
    true
}

/// The seek bar is shown by default.
pub fn default_show_seek() -> (r: bool)
    ensures
        r,
{
    true
}

/// The default `controls` section: disabled, opened by a left click, with
/// a seek bar.
pub fn default_controls_config() -> (c: PlayerctlControlsConfig)
    ensures
        !c.enabled,
        c.open == PlayerctlControlsOpenMode::LeftClick,
        c.show_seek,
{
    PlayerctlControlsConfig {
        enabled: false,
        open: PlayerctlControlsOpenMode::LeftClick,
        show_seek: default_show_seek(),
    }
}

/// A fixed width of zero means none.
pub fn normalize_fixed_width(value: u32) -> (r: Option<u32>)
    ensures
        r == if value == 0 { None } else { Some(value) },
{
    if value == 0 {
        return None;
    }
    Some(value)
}

impl PlayerctlConfig {
    /// Fills in the defaults: the default format, `click` before `on-click`,
    /// a zero fixed width dropped.
    pub fn into_view(self) -> (v: PlayerctlViewConfig)
        ensures
            v.format@ == match self.format {
                Some(f) => f@,
                None => DEFAULT_PLAYERCTL_FORMAT@,
            },
            v.click_command == match self.click {
                Some(c) => Some(c),
                None => self.on_click,
            },
            v.interval_secs == self.interval_secs,
            v.player == self.player,
            v.class == self.class,
            v.no_player_text == self.no_player_text,
            v.hide_when_idle == self.hide_when_idle,
            v.show_when_paused == self.show_when_paused,
            v.controls_enabled == self.controls.enabled,
            v.controls_open == self.controls.open,
            v.controls_show_seek == self.controls.show_seek,
            v.fixed_width == match self.fixed_width {
                Some(w) => if w == 0 { None } else { Some(w) },
                None => None,
            },
            v.marquee == self.marquee,
    {
        let format = match self.format {
            Some(f) => f,
            None => owned(DEFAULT_PLAYERCTL_FORMAT),
        };
        let click_command = match self.click {
            Some(c) => Some(c),
            None => self.on_click,
        };
        let fixed_width = match self.fixed_width {
            Some(w) => normalize_fixed_width(w),
            None => None,
        };
        PlayerctlViewConfig {
            format,
            click_command,
            interval_secs: self.interval_secs,
            player: self.player,
            class: self.class,
            no_player_text: self.no_player_text,
            hide_when_idle: self.hide_when_idle,
            show_when_paused: self.show_when_paused,
            controls_enabled: self.controls.enabled,
            controls_open: self.controls.open,
            controls_show_seek: self.controls.show_seek,
            fixed_width,
            marquee: self.marquee,
        }
    }
}

// ---------------------------------------------------------------------------
// Player names and states
// ---------------------------------------------------------------------------

/// `bus_name` is the player the filter names, in full or without the MPRIS
/// prefix.
pub open spec fn player_matches(bus_name: Seq<char>, filter: Seq<char>) -> bool {
    bus_name == filter || strip_prefix(bus_name, MPRIS_PREFIX@) == Some(filter)
}

/// Whether a player's bus name matches the `player` filter of the config.
pub fn matches_player_filter(bus_name: &str, filter: &str) -> (r: bool)
    ensures
        r == player_matches(bus_name@, filter@),
{
    if str_eq(bus_name, filter) {
        return true;
    }
    let b = chars_of(bus_name);
    let p = chars_of(MPRIS_PREFIX);
    match strip_prefix_chars(&b, &p) {
        Some(rest) => {
            proof {
                crate::text::lemma_chars_deep_view(rest);
            }
            let f = chars_of(filter);
            crate::text::chars_eq(&rest, &f)
        },
        None => false,
    }
}

/// The bus name without the MPRIS prefix.
pub open spec fn short_name(bus_name: Seq<char>) -> Seq<char> {
    match strip_prefix(bus_name, MPRIS_PREFIX@) {
        Some(rest) => rest,
        None => bus_name,
    }
}

/// A player's name for display when it has no identity.
pub fn short_player_name(bus_name: &str) -> (r: String)
    ensures
        r@ == short_name(bus_name@),
{
    let b = chars_of(bus_name);
    let p = chars_of(MPRIS_PREFIX);
    match strip_prefix_chars(&b, &p) {
        Some(rest) => {
            proof {
                crate::text::lemma_chars_deep_view(rest);
            }
            string_from_chars(&rest)
        },
        None => owned(bus_name),
    }
}

/// The playback status compared in lower case.
pub fn normalize_status(status: &str) -> (r: String)
    ensures
        r@ == lowercase(status@),
{
    let v = chars_of(status);
    let l = lowercase_chars(&v);
    string_from_chars(&l)
}

/// The icon for a playback status.
pub open spec fn status_icon(status: Seq<char>) -> Seq<char> {
    if status == "playing"@ {
        PLAY_ICON@
    } else if status == "paused"@ {
        PAUSE_ICON@
    } else if status == "stopped"@ {
        STOP_ICON@
    } else {
        MUSIC_ICON@
    }
}

/// The icon for a playback status.
pub fn status_icon_for(status: &str) -> (r: String)
    ensures
        r@ == status_icon(status@),
{
    if str_eq(status, "playing") {
        owned(PLAY_ICON)
    } else if str_eq(status, "paused") {
        owned(PAUSE_ICON)
    } else if str_eq(status, "stopped") {
        owned(STOP_ICON)
    } else {
        owned(MUSIC_ICON)
    }
}

/// The state class for a playback status.
pub open spec fn status_class(status: Seq<char>) -> Seq<char> {
    if status == "playing"@ {
        "status-playing"@
    } else if status == "paused"@ {
        "status-paused"@
    } else if status == "stopped"@ {
        "status-stopped"@
    } else {
        NO_PLAYER_CLASS@
    }
}

/// The state class for a playback status.
pub fn status_css_class(status: &str) -> (r: String)
    ensures
        r@ == status_class(status@),
{
    if str_eq(status, "playing") {
        owned("status-playing")
    } else if str_eq(status, "paused") {
        owned("status-paused")
    } else if str_eq(status, "stopped") {
        owned("status-stopped")
    } else {
        owned(NO_PLAYER_CLASS)
    }
}

/// How strongly a status asks to be shown: playing, paused, stopped, other.
pub open spec fn rank(status: Seq<char>) -> u8 {
    if status == "playing"@ {
        0
    } else if status == "paused"@ {
        1
    } else if status == "stopped"@ {
        2
    } else {
        3
    }
}

/// How strongly a status asks to be shown (lower first).
pub fn active_rank(status: &str) -> (r: u8)
    ensures
        r == rank(status@),
{
    if str_eq(status, "playing") {
        0
    } else if str_eq(status, "paused") {
        1
    } else if str_eq(status, "stopped") {
        2
    } else {
        3
    }
}

// ---------------------------------------------------------------------------
// Metadata
// ---------------------------------------------------------------------------

/// What the bar knows of one player.
#[derive(Debug, Clone)]
pub struct PlayerctlMetadata {
    pub status: String,
    pub status_icon: String,
    pub player: String,
    pub artist: String,
    pub album: String,
    pub title: String,
    pub position_micros: Option<i64>,
    pub length_micros: Option<i64>,
    pub can_go_previous: bool,
    pub can_go_next: bool,
    pub can_play: bool,
    pub can_pause: bool,
    pub can_seek: bool,
    pub track_id: Option<String>,
    pub bus_name: String,
}

/// `a` is shown in preference to `b`: a lower status rank, or the same
/// rank and a bus name that sorts first.
pub open spec fn player_before(a: PlayerctlMetadata, b: PlayerctlMetadata) -> bool {
    rank(a.status@) < rank(b.status@) || (rank(a.status@) == rank(b.status@) && seq_lt(
        a.bus_name@,
        b.bus_name@,
    ))
}

/// The index of the player `Iterator::min_by` picks: the first of those
/// that no other player precedes.
pub open spec fn active_player_index(s: Seq<PlayerctlMetadata>) -> Option<int>
    decreases s.len(),
{
    if s.len() == 0 {
        None
    } else {
        match active_player_index(s.drop_last()) {
            None => Some(s.len() - 1),
            Some(b) => if player_before(s.last(), s[b]) {
                Some(s.len() - 1)
            } else {
                Some(b)
            },
        }
    }
}

/// `active_player_index` names an index of the sequence.
proof fn lemma_active_index_in_range(s: Seq<PlayerctlMetadata>)
    ensures
        active_player_index(s) matches Some(i) ==> 0 <= i < s.len(),
        s.len() > 0 ==> active_player_index(s) is Some,
    decreases s.len(),
{
    if s.len() > 0 {
        lemma_active_index_in_range(s.drop_last());
    }
}

/// If `a` precedes `b` and `c` does not, then `a` precedes `c`.
proof fn lemma_before_total_trans(a: PlayerctlMetadata, b: PlayerctlMetadata, c: PlayerctlMetadata)
    requires
        player_before(a, b),
        !player_before(c, b),
    ensures
        player_before(a, c),
{
    if rank(a.status@) == rank(b.status@) && rank(c.status@) == rank(b.status@) {
        lemma_seq_lt_total_trans(a.bus_name@, b.bus_name@, c.bus_name@);
    }
}

/// Preceding is asymmetric and irreflexive.
proof fn lemma_before_asym(a: PlayerctlMetadata, b: PlayerctlMetadata)
    ensures
        player_before(a, b) ==> !player_before(b, a),
        !player_before(a, a),
{
    lemma_seq_lt_irrefl(a.bus_name@);
    if player_before(a, b) && rank(a.status@) == rank(b.status@) {
        lemma_seq_lt_asym(a.bus_name@, b.bus_name@);
    }
}

/// The player shown is one that no candidate precedes, and the first such:
/// it precedes every candidate before it.
pub proof fn lemma_active_player_is_first_minimum(s: Seq<PlayerctlMetadata>)
    requires
        s.len() > 0,
    ensures
        active_player_index(s) matches Some(i) && 0 <= i < s.len()
            && (forall|j: int| 0 <= j < s.len() ==> !player_before(#[trigger] s[j], s[i]))
            && (forall|j: int| 0 <= j < i ==> player_before(s[i], #[trigger] s[j])),
    decreases s.len(),
{
    let r = s.drop_last();
    let e = s.last();
    lemma_before_asym(e, e);
    if r.len() == 0 {
        assert(active_player_index(r) is None);
    } else {
        lemma_active_player_is_first_minimum(r);
        let b = active_player_index(r).unwrap();
        assert(r[b] == s[b]);
        if player_before(e, s[b]) {
            assert forall|j: int| 0 <= j < s.len() - 1 implies player_before(e, #[trigger] s[j]) by {
                assert(s[j] == r[j]);
                lemma_before_total_trans(e, s[b], s[j]);
            }
            assert forall|j: int| 0 <= j < s.len() implies !player_before(#[trigger] s[j], e) by {
                if j < s.len() - 1 {
                    lemma_before_asym(e, s[j]);
                }
            }
        } else {
            assert forall|j: int| 0 <= j < s.len() implies !player_before(#[trigger] s[j], s[b]) by {
                if j < s.len() - 1 {
                    assert(s[j] == r[j]);
                }
            }
            assert forall|j: int| 0 <= j < b implies player_before(s[b], #[trigger] s[j]) by {
                assert(s[j] == r[j]);
            }
        }
    }
}

/// Whether `a` is shown in preference to `b`.
fn precedes(a: &PlayerctlMetadata, b: &PlayerctlMetadata) -> (r: bool)
    ensures
        r == player_before(*a, *b),
{
    let ra = active_rank(a.status.as_str());
    let rb = active_rank(b.status.as_str());
    ra < rb || (ra == rb && str_lt(a.bus_name.as_str(), b.bus_name.as_str()))
}

/// The player to show: playing before paused before stopped before the
/// rest, then by bus name; the first of equals.
pub fn select_active_player(candidates: Vec<PlayerctlMetadata>) -> (r: Option<PlayerctlMetadata>)
    ensures
        match active_player_index(candidates@) {
            None => r is None,
            Some(i) => r == Some(candidates@[i]),
        },
{
    let mut candidates = candidates;
    let ghost all = candidates@;
    let mut best: usize = 0;
    let mut i: usize = 0;
    while i < candidates.len()
        invariant
            all == candidates@,
            i <= candidates.len(),
            i > 0 ==> best < i && active_player_index(all.take(i as int)) == Some(best as int),
            i == 0 ==> active_player_index(all.take(0)) is None,
        decreases candidates.len() - i,
    {
        assert(all.take(i + 1).drop_last() =~= all.take(i as int));
        assert(all.take(i + 1).last() == all[i as int]);
        if i > 0 {
            assert(all.take(i + 1)[best as int] == all[best as int]);
            if precedes(&candidates[i], &candidates[best]) {
                best = i;
            }
        } else {
            best = 0;
        }
        i = i + 1;
    }
    assert(all.take(candidates.len() as int) =~= all);
    if candidates.len() == 0 {
        return None;
    }
    Some(candidates.swap_remove(best))
}

/// The artists joined with `, `, empty names left out.
pub open spec fn joined_artists(names: Seq<Seq<char>>) -> Seq<char>
    decreases names.len(),
{
    if names.len() == 0 {
        Seq::empty()
    } else {
        let prev = joined_artists(names.drop_last());
        let name = names.last();
        if name.len() == 0 {
            prev
        } else if prev.len() == 0 {
            name
        } else {
            prev + ", "@ + name
        }
    }
}

/// The artist text of the metadata: the joined list when the value is a
/// list and the joined text is not empty, else the value as a single
/// non-empty string.
pub open spec fn artist_text(list: Option<Seq<Seq<char>>>, single: Option<Seq<char>>) -> Option<Seq<char>> {
    match list {
        Some(l) if joined_artists(l).len() > 0 => Some(joined_artists(l)),
        _ => match single {
            Some(s) => if s.len() > 0 {
                Some(s)
            } else {
                None
            },
            None => None,
        },
    }
}

/// Joins the artist names of `xesam:artist`.
pub fn join_artists(names: &Vec<String>) -> (r: String)
    ensures
        r@ == joined_artists(names.deep_view()),
{
    let mut out: Vec<char> = Vec::new();
    let mut i: usize = 0;
    while i < names.len()
        invariant
            i <= names.len(),
            out@ == joined_artists(names.deep_view().take(i as int)),
        decreases names.len() - i,
    {
        assert(names.deep_view().take(i + 1).drop_last() =~= names.deep_view().take(i as int));
        assert(names.deep_view().take(i + 1).last() == names[i as int]@);
        let name = chars_of(names[i].as_str());
        if name.len() > 0 {
            if out.len() > 0 {
                push_str(&mut out, ", ");
            }
            push_all(&mut out, &name);
        }
        i = i + 1;
    }
    assert(names.deep_view().take(names.len() as int) =~= names.deep_view());
    string_from_chars(&out)
}

/// The artist of a track from `xesam:artist`, read either as a list of
/// names or as one name.
pub fn metadata_artist(list: Option<Vec<String>>, single: Option<String>) -> (r: Option<String>)
    ensures
        match r {
            Some(s) => artist_text(
                match list {
                    Some(l) => Some(l.deep_view()),
                    None => None,
                },
                crate::text::opt_view(single),
            ) == Some(s@),
            None => artist_text(
                match list {
                    Some(l) => Some(l.deep_view()),
                    None => None,
                },
                crate::text::opt_view(single),
            ) is None,
        },
{
    match list {
        Some(l) => {
            let joined = join_artists(&l);
            if !joined.as_str().is_empty() {
                return Some(joined);
            }
        },
        None => {},
    }
    match single {
        Some(s) => if s.as_str().is_empty() {
            None
        } else {
            Some(s)
        },
        None => None,
    }
}

/// The player properties as read from the bus; `None` where reading failed.
#[derive(Debug, Clone)]
pub struct PlayerProperties {
    pub identity: Option<String>,
    pub artist: Option<String>,
    pub album: Option<String>,
    pub title: Option<String>,
    pub position_micros: Option<i64>,
    pub length_micros: Option<i64>,
    pub can_go_previous: Option<bool>,
    pub can_go_next: Option<bool>,
    pub can_play: Option<bool>,
    pub can_pause: Option<bool>,
    pub can_seek: Option<bool>,
    pub track_id: Option<String>,
}

/// A text property, empty when absent.
pub open spec fn text_or_empty(o: Option<String>) -> Seq<char> {
    match o {
        Some(s) => s@,
        None => Seq::empty(),
    }
}

/// A flag property, false when absent.
pub open spec fn flag_or_false(o: Option<bool>) -> bool {
    match o {
        Some(b) => b,
        None => false,
    }
}

/// Builds a player's metadata from its bus name, its raw `PlaybackStatus`
/// and its other properties.
pub fn player_metadata_from_properties(
    bus_name: &str,
    raw_status: &str,
    props: PlayerProperties,
) -> (m: PlayerctlMetadata)
    ensures
        m.status@ == lowercase(raw_status@),
        m.status_icon@ == status_icon(lowercase(raw_status@)),
        m.player@ == match props.identity {
            Some(i) => if i@.len() > 0 {
                i@
            } else {
                short_name(bus_name@)
            },
            None => short_name(bus_name@),
        },
        m.artist@ == text_or_empty(props.artist),
        m.album@ == text_or_empty(props.album),
        m.title@ == text_or_empty(props.title),
        m.position_micros == props.position_micros,
        m.length_micros == props.length_micros,
        m.can_go_previous == flag_or_false(props.can_go_previous),
        m.can_go_next == flag_or_false(props.can_go_next),
        m.can_play == flag_or_false(props.can_play),
        m.can_pause == flag_or_false(props.can_pause),
        m.can_seek == flag_or_false(props.can_seek),
        m.track_id == props.track_id,
        m.bus_name@ == bus_name@,
{
    let status = normalize_status(raw_status);
    let icon = status_icon_for(status.as_str());
    let player = match props.identity {
        Some(i) => if i.as_str().is_empty() {
            short_player_name(bus_name)
        } else {
            i
        },
        None => short_player_name(bus_name),
    };
    let artist = match props.artist {
        Some(s) => s,
        None => String::new(),
    };
    let album = match props.album {
        Some(s) => s,
        None => String::new(),
    };
    let title = match props.title {
        Some(s) => s,
        None => String::new(),
    };
    PlayerctlMetadata {
        status,
        status_icon: icon,
        player,
        artist,
        album,
        title,
        position_micros: props.position_micros,
        length_micros: props.length_micros,
        can_go_previous: match props.can_go_previous {
            Some(b) => b,
            None => false,
        },
        can_go_next: match props.can_go_next {
            Some(b) => b,
            None => false,
        },
        can_play: match props.can_play {
            Some(b) => b,
            None => false,
        },
        can_pause: match props.can_pause {
            Some(b) => b,
            None => false,
        },
        can_seek: match props.can_seek {
            Some(b) => b,
            None => false,
        },
        track_id: props.track_id,
        bus_name: owned(bus_name),
    }
}

/// Whether a `PropertiesChanged` signal concerns an MPRIS player.
pub fn is_mpris_properties_changed(interface_name: &str) -> (r: bool)
    ensures
        r == (interface_name@ == MPRIS_PLAYER_INTERFACE@ || interface_name@ == MPRIS_ROOT_INTERFACE@),
{
    str_eq(interface_name, MPRIS_PLAYER_INTERFACE) || str_eq(interface_name, MPRIS_ROOT_INTERFACE)
}

/// Whether a bus name that changed owner is an MPRIS player.
pub fn name_owner_changed_is_mpris(name: &str) -> (r: bool)
    ensures
        r == starts_with(name@, MPRIS_PREFIX@),
{
    let v = chars_of(name);
    starts_with_str(&v, MPRIS_PREFIX)
}

/// The players to query: the MPRIS bus names, kept in order, narrowed to
/// those the filter names.
pub open spec fn player_candidates(names: Seq<Seq<char>>, filter: Option<Seq<char>>) -> Seq<Seq<char>> {
    names.filter(
        |n: Seq<char>|
            starts_with(n, MPRIS_PREFIX@) && match filter {
                Some(f) => player_matches(n, f),
                None => true,
            },
    )
}

/// Picks the MPRIS players among the bus names.
pub fn mpris_player_names(names: &Vec<String>, filter: Option<&str>) -> (r: Vec<String>)
    ensures
        r.deep_view() == player_candidates(names.deep_view(), opt_str_view(filter)),
{
    let ghost all = names.deep_view();
    let ghost f = opt_str_view(filter);
    let mut out: Vec<String> = Vec::new();
    let mut i: usize = 0;
    while i < names.len()
        invariant
            all == names.deep_view(),
            f == opt_str_view(filter),
            i <= names.len(),
            out.deep_view() == player_candidates(all.take(i as int), f),
        decreases names.len() - i,
    {
        proof {
            reveal(Seq::filter);
            assert(all.take(i + 1).drop_last() =~= all.take(i as int));
            assert(all.take(i + 1).last() == names[i as int]@);
        }
        let name = names[i].as_str();
        let keep = name_owner_changed_is_mpris(name) && match filter {
            Some(fl) => matches_player_filter(name, fl),
            None => true,
        };
        if keep {
            let ghost before = out.deep_view();
            out.push(names[i].clone());
            assert(out.deep_view() =~= before.push(names[i as int]@));
        }
        i = i + 1;
    }
    assert(all.take(names.len() as int) =~= all);
    out
}

// ---------------------------------------------------------------------------
// Label
// ---------------------------------------------------------------------------

/// The placeholders of the label and their values, in the order they are
/// replaced.
pub open spec fn metadata_pairs(m: PlayerctlMetadata) -> Seq<(Seq<char>, Seq<char>)> {
    seq![
        ("{status}"@, m.status@),
        ("{status_icon}"@, m.status_icon@),
        ("{player}"@, m.player@),
        ("{artist}"@, m.artist@),
        ("{album}"@, m.album@),
        ("{title}"@, m.title@),
    ]
}

/// The placeholder pairs as values.
fn metadata_replacements(metadata: &PlayerctlMetadata) -> (r: Vec<(String, String)>)
    ensures
        r.deep_view() == metadata_pairs(*metadata),
{
    let mut reps: Vec<(String, String)> = Vec::new();
    reps.push(pair("{status}", metadata.status.clone()));
    reps.push(pair("{status_icon}", metadata.status_icon.clone()));
    reps.push(pair("{player}", metadata.player.clone()));
    reps.push(pair("{artist}", metadata.artist.clone()));
    reps.push(pair("{album}", metadata.album.clone()));
    reps.push(pair("{title}", metadata.title.clone()));
    assert(reps.deep_view() =~= metadata_pairs(*metadata));
    reps
}

/// The label text: each placeholder replaced by its value as it is.
pub fn render_format(format: &str, metadata: &PlayerctlMetadata) -> (r: String)
    ensures
        r@ == render_plain(format@, metadata_pairs(*metadata)),
{
    let reps = metadata_replacements(metadata);
    render_plain_template(format, &reps)
}

/// The label markup: each placeholder replaced by its escaped value.
pub fn render_markup_format(format: &str, metadata: &PlayerctlMetadata) -> (r: String)
    ensures
        r@ == render_template(format@, metadata_pairs(*metadata)),
{
    let reps = metadata_replacements(metadata);
    render_markup_template(format, &reps)
}

/// Whether the metadata is shown: always unless the module hides when
/// idle; then only for a playing player, or a paused one when asked.
pub open spec fn shows_metadata(status: Option<Seq<char>>, hide_when_idle: bool, show_when_paused: bool) -> bool {
    if !hide_when_idle {
        true
    } else {
        match status {
            None => false,
            Some(s) => if s == "playing"@ {
                true
            } else if s == "paused"@ {
                show_when_paused
            } else {
                false
            },
        }
    }
}

/// The status of optional metadata.
pub open spec fn opt_status(m: Option<&PlayerctlMetadata>) -> Option<Seq<char>> {
    match m {
        Some(x) => Some(x.status@),
        None => None,
    }
}

/// Whether the module shows anything for the current player.
pub fn should_show_metadata(
    metadata: Option<&PlayerctlMetadata>,
    hide_when_idle: bool,
    show_when_paused: bool,
) -> (r: bool)
    ensures
        r == shows_metadata(opt_status(metadata), hide_when_idle, show_when_paused),
{
    if !hide_when_idle {
        return true;
    }
    match metadata {
        None => false,
        Some(m) => if str_eq(m.status.as_str(), "playing") {
            true
        } else if str_eq(m.status.as_str(), "paused") {
            show_when_paused
        } else {
            false
        },
    }
}

/// Two decimal digits, with a leading zero below ten.
pub open spec fn two_digits(n: nat) -> Seq<char> {
    if n < 10 {
        seq!['0'] + crate::num::dec(n)
    } else {
        crate::num::dec(n)
    }
}

/// `mm:ss` of a position in microseconds (negative counts as zero; the
/// minutes are not wrapped at an hour); `00:00` when unknown.
pub open spec fn timestamp(value: Option<i64>) -> Seq<char> {
    match value {
        None => ZERO_TIMESTAMP@,
        Some(micros) => {
            let total = if micros < 0 { 0nat } else { (micros / 1_000_000) as nat };
            two_digits(total / 60) + seq![':'] + two_digits(total % 60)
        },
    }
}

/// Appends `n` with at least two digits.
fn push_two_digits(out: &mut Vec<char>, n: u64)
    ensures
        final(out)@ == old(out)@ + two_digits(n as nat),
{
    if n < 10 {
        out.push('0');
    }
    let d = crate::num::u64_to_chars(n);
    push_all(out, &d);
    if n < 10 {
        assert(final(out)@ =~= old(out)@ + two_digits(n as nat));
    }
}

/// Formats a position or length for the seek bar.
pub fn format_timestamp_micros(value: Option<i64>) -> (r: String)
    ensures
        r@ == timestamp(value),
{
    match value {
        None => owned(ZERO_TIMESTAMP),
        Some(micros) => {
            let clamped: i64 = if micros < 0 { 0 } else { micros };
            let total: u64 = (clamped / 1_000_000) as u64;
            let mut out: Vec<char> = Vec::new();
            push_two_digits(&mut out, total / 60);
            out.push(':');
            push_two_digits(&mut out, total % 60);
            assert(out@ =~= timestamp(value));
            string_from_chars(&out)
        },
    }
}

/// Empty metadata shows as a dash in the controls.
pub fn non_empty_or_dash(text: &str) -> (r: String)
    ensures
        r@ == if text@.len() == 0 { EMPTY_VALUE_TEXT@ } else { text@ },
{
    if text.is_empty() {
        owned(EMPTY_VALUE_TEXT)
    } else {
        owned(text)
    }
}

// ---------------------------------------------------------------------------
// Backend updates and what the module shows
// ---------------------------------------------------------------------------

/// What the backend sends after each query of the bus.
#[derive(Debug, Clone)]
pub enum BackendUpdate {
    /// The player to show, or none when no player runs.
    Snapshot(Option<PlayerctlMetadata>),
    /// The bus could not be queried.
    Error(String),
}

/// The update for the result of one query of the bus.
pub fn backend_update(result: Result<Option<PlayerctlMetadata>, String>) -> (u: BackendUpdate)
    ensures
        match result {
            Ok(s) => u == BackendUpdate::Snapshot(s),
            Err(e) => u == BackendUpdate::Error(e),
        },
{
    match result {
        Ok(s) => BackendUpdate::Snapshot(s),
        Err(e) => BackendUpdate::Error(e),
    }
}

/// What the label shows after an update.
#[derive(Debug, Clone)]
pub struct PlayerctlLabelUpdate {
    pub plain_text: String,
    pub markup_text: String,
    pub visible: bool,
    pub state_class: String,
}

/// The label text for an update: the rendered format for a player, the
/// no-player text, or the error prefixed with `playerctl error: `.
pub open spec fn update_text(update: BackendUpdate, format: Seq<char>, no_player_text: Seq<char>) -> Seq<char> {
    match update {
        BackendUpdate::Snapshot(Some(m)) => render_plain(format, metadata_pairs(m)),
        BackendUpdate::Snapshot(None) => no_player_text,
        BackendUpdate::Error(e) => "playerctl error: "@ + e@,
    }
}

/// The label markup for an update.
pub open spec fn update_markup(update: BackendUpdate, format: Seq<char>, no_player_text: Seq<char>) -> Seq<char> {
    match update {
        BackendUpdate::Snapshot(Some(m)) => render_template(format, metadata_pairs(m)),
        _ => escape(update_text(update, format, no_player_text)),
    }
}

/// Whether the module is visible after an update: errors always are;
/// otherwise as `shows_metadata` says; and never with blank text.
pub open spec fn update_visible(
    update: BackendUpdate,
    format: Seq<char>,
    no_player_text: Seq<char>,
    hide_when_idle: bool,
    show_when_paused: bool,
) -> bool {
    let shown = match update {
        BackendUpdate::Snapshot(Some(m)) => shows_metadata(Some(m.status@), hide_when_idle, show_when_paused),
        BackendUpdate::Snapshot(None) => shows_metadata(None, hide_when_idle, show_when_paused),
        BackendUpdate::Error(_) => true,
    };
    shown && !is_blank(update_text(update, format, no_player_text))
}

/// The state class after an update.
pub open spec fn update_class(update: BackendUpdate) -> Seq<char> {
    match update {
        BackendUpdate::Snapshot(Some(m)) => status_class(m.status@),
        _ => NO_PLAYER_CLASS@,
    }
}

/// What the label shows for one backend update.
pub fn playerctl_label_update(
    update: &BackendUpdate,
    format: &str,
    no_player_text: &str,
    hide_when_idle: bool,
    show_when_paused: bool,
) -> (r: PlayerctlLabelUpdate)
    ensures
        r.plain_text@ == update_text(*update, format@, no_player_text@),
        r.markup_text@ == update_markup(*update, format@, no_player_text@),
        r.visible == update_visible(*update, format@, no_player_text@, hide_when_idle, show_when_paused),
        r.state_class@ == update_class(*update),
{
    let (plain, markup, shown, class) = match update {
        BackendUpdate::Snapshot(Some(m)) => {
            let plain = render_format(format, m);
            let markup = render_markup_format(format, m);
            let shown = should_show_metadata(Some(m), hide_when_idle, show_when_paused);
            let class = status_css_class(m.status.as_str());
            (plain, markup, shown, class)
        },
        BackendUpdate::Snapshot(None) => {
            let plain = owned(no_player_text);
            let markup = escape_markup_text(no_player_text);
            let shown = should_show_metadata(None, hide_when_idle, show_when_paused);
            (plain, markup, shown, owned(NO_PLAYER_CLASS))
        },
        BackendUpdate::Error(e) => {
            let mut v = chars_of("playerctl error: ");
            crate::text::push_str(&mut v, e.as_str());
            let plain = string_from_chars(&v);
            let markup = escape_markup_text(plain.as_str());
            (plain, markup, true, owned(NO_PLAYER_CLASS))
        },
    };
    let visible = shown && !is_blank_str(plain.as_str());
    PlayerctlLabelUpdate { plain_text: plain, markup_text: markup, visible, state_class: class }
}

/// What the controls popover shows.
#[derive(Debug, Clone)]
pub struct ControlsView {
    pub status_text: String,
    pub player_text: String,
    pub artist_text: String,
    pub album_text: String,
    pub title_text: String,
    pub previous_sensitive: bool,
    pub play_pause_sensitive: bool,
    pub play_pause_icon: String,
    pub next_sensitive: bool,
    pub seek_sensitive: bool,
    pub position_text: String,
    pub length_text: String,
}

/// A metadata value as the controls show it.
pub open spec fn dash_if_empty(s: Seq<char>) -> Seq<char> {
    if s.len() == 0 {
        EMPTY_VALUE_TEXT@
    } else {
        s
    }
}

/// Seeking is possible: the player allows it, knows the track length and
/// names the track.
pub open spec fn can_seek_track(m: PlayerctlMetadata) -> bool {
    m.can_seek && (m.length_micros matches Some(l) && l > 0) && m.track_id is Some
}

/// What the controls show for the current player, or for none.
pub open spec fn controls_match(v: ControlsView, m: Option<PlayerctlMetadata>, fallback: Seq<char>) -> bool {
    match m {
        None => {
            &&& v.status_text@ == fallback
            &&& v.player_text@ == EMPTY_VALUE_TEXT@
            &&& v.artist_text@ == EMPTY_VALUE_TEXT@
            &&& v.album_text@ == EMPTY_VALUE_TEXT@
            &&& v.title_text@ == EMPTY_VALUE_TEXT@
            &&& !v.previous_sensitive && !v.play_pause_sensitive && !v.next_sensitive
            &&& v.play_pause_icon@ == PLAY_ICON@
            &&& !v.seek_sensitive
            &&& v.position_text@ == ZERO_TIMESTAMP@
            &&& v.length_text@ == ZERO_TIMESTAMP@
        },
        Some(m) => {
            &&& v.status_text@ == m.status@
            &&& v.player_text@ == m.player@
            &&& v.artist_text@ == dash_if_empty(m.artist@)
            &&& v.album_text@ == dash_if_empty(m.album@)
            &&& v.title_text@ == dash_if_empty(m.title@)
            &&& v.previous_sensitive == m.can_go_previous
            &&& v.next_sensitive == m.can_go_next
            &&& v.play_pause_sensitive == (m.can_play || m.can_pause)
            &&& v.play_pause_icon@ == if m.status@ == "playing"@ { PAUSE_ICON@ } else { PLAY_ICON@ }
            &&& v.seek_sensitive == can_seek_track(m)
            &&& v.position_text@ == timestamp(m.position_micros)
            &&& v.length_text@ == timestamp(m.length_micros)
        },
    }
}

/// The optional metadata by value.
pub open spec fn opt_metadata(m: Option<&PlayerctlMetadata>) -> Option<PlayerctlMetadata> {
    match m {
        Some(x) => Some(*x),
        None => None,
    }
}

/// What the controls popover shows for the current player.
pub fn controls_view(metadata: Option<&PlayerctlMetadata>, fallback_status_text: &str) -> (v: ControlsView)
    ensures
        controls_match(v, opt_metadata(metadata), fallback_status_text@),
{
    match metadata {
        None => ControlsView {
            status_text: owned(fallback_status_text),
            player_text: owned(EMPTY_VALUE_TEXT),
            artist_text: owned(EMPTY_VALUE_TEXT),
            album_text: owned(EMPTY_VALUE_TEXT),
            title_text: owned(EMPTY_VALUE_TEXT),
            previous_sensitive: false,
            play_pause_sensitive: false,
            play_pause_icon: owned(PLAY_ICON),
            next_sensitive: false,
            seek_sensitive: false,
            position_text: owned(ZERO_TIMESTAMP),
            length_text: owned(ZERO_TIMESTAMP),
        },
        Some(m) => {
            let icon = if str_eq(m.status.as_str(), "playing") {
                owned(PAUSE_ICON)
            } else {
                owned(PLAY_ICON)
            };
            let seek = m.can_seek && match m.length_micros {
                Some(l) => l > 0,
                None => false,
            } && m.track_id.is_some();
            ControlsView {
                status_text: m.status.clone(),
                player_text: m.player.clone(),
                artist_text: non_empty_or_dash(m.artist.as_str()),
                album_text: non_empty_or_dash(m.album.as_str()),
                title_text: non_empty_or_dash(m.title.as_str()),
                previous_sensitive: m.can_go_previous,
                play_pause_sensitive: m.can_play || m.can_pause,
                play_pause_icon: icon,
                next_sensitive: m.can_go_next,
                seek_sensitive: seek,
                position_text: format_timestamp_micros(m.position_micros),
                length_text: format_timestamp_micros(m.length_micros),
            }
        },
    }
}

/// Where a seek goes: the player, the track and its length.
#[derive(Debug, Clone)]
pub struct SeekTarget {
    pub bus_name: String,
    pub track_id: String,
    pub length_micros: i64,
}

/// The seek a move of the seek bar asks for, when the player allows one.
pub fn seek_target(metadata: &PlayerctlMetadata) -> (r: Option<SeekTarget>)
    ensures
        r is Some <==> can_seek_track(*metadata),
        r matches Some(t) ==> t.bus_name@ == metadata.bus_name@ && Some(t.track_id)
            == metadata.track_id && Some(t.length_micros) == metadata.length_micros,
{
    let length = match metadata.length_micros {
        Some(l) => l,
        None => {
            return None;
        },
    };
    if length <= 0 || !metadata.can_seek {
        return None;
    }
    match &metadata.track_id {
        Some(track) => Some(
            SeekTarget { bus_name: metadata.bus_name.clone(), track_id: track.clone(), length_micros: length },
        ),
        None => None,
    }
}

/// A button of the controls popover.
#[derive(Debug, Clone, Copy, PartialEq, Eq, Structural)]
pub enum PlayerControl {
    Previous,
    PlayPause,
    Next,
}

/// The MPRIS method a control button calls.
pub fn control_method(control: PlayerControl) -> (r: String)
    ensures
        r@ == match control {
            PlayerControl::Previous => "Previous"@,
            PlayerControl::PlayPause => "PlayPause"@,
            PlayerControl::Next => "Next"@,
        },
{
    match control {
        PlayerControl::Previous => owned("Previous"),
        PlayerControl::PlayPause => owned("PlayPause"),
        PlayerControl::Next => owned("Next"),
    }
}

/// The width the controls popover takes: the module's widest measure, at
/// least one pixel.
pub fn controls_width(width_request: i32, allocated_width: i32, label_width: i32) -> (r: i32)
    ensures
        r >= 1,
        r >= width_request && r >= allocated_width && r >= label_width,
        r == width_request || r == allocated_width || r == label_width || r == 1,
{
    let mut w = width_request;
    if allocated_width > w {
        w = allocated_width;
    }
    if label_width > w {
        w = label_width;
    }
    if w < 1 {
        w = 1;
    }
    w
}

// ---------------------------------------------------------------------------
// Scrolling label
// ---------------------------------------------------------------------------

/// What one animation tick of the scrolling label does.
#[derive(Debug, Clone, Copy, PartialEq, Eq, Structural)]
pub enum CarouselTick {
    /// Scrolling is off: nothing changes.
    Idle,
    /// Scrolling waits for hover or an open popover: only the clock moves.
    Paused,
    /// The text fits: back to the start, no hold, no restart pending.
    ResetToStart,
    /// A hold is running: nothing moves.
    Holding,
    /// The end hold ran out: back to the start and hold there.
    RestartFromStart,
    /// The text moves on (an expired hold is dropped).
    Advance,
}

/// The step of one animation tick, from the scroll mode and the state:
/// `hold_running` is `Some(true)` while a hold lasts, `Some(false)` once it
/// ran out and `None` without a hold.
pub open spec fn tick_action(
    marquee: PlayerctlMarqueeMode,
    hover_active: bool,
    open_active: bool,
    text_empty: bool,
    text_fits: bool,
    hold_running: Option<bool>,
    waiting_restart: bool,
) -> CarouselTick {
    if marquee == PlayerctlMarqueeMode::Off {
        CarouselTick::Idle
    } else if (marquee == PlayerctlMarqueeMode::Hover && !hover_active) || (marquee
        == PlayerctlMarqueeMode::Open && !open_active) {
        CarouselTick::Paused
    } else if text_empty || text_fits {
        CarouselTick::ResetToStart
    } else {
        match hold_running {
            Some(true) => CarouselTick::Holding,
            Some(false) => if waiting_restart {
                CarouselTick::RestartFromStart
            } else {
                CarouselTick::Advance
            },
            None => CarouselTick::Advance,
        }
    }
}

/// Decides one animation tick of the scrolling label.
pub fn carousel_tick_action(
    marquee: PlayerctlMarqueeMode,
    hover_active: bool,
    open_active: bool,
    text_empty: bool,
    text_fits: bool,
    hold_running: Option<bool>,
    waiting_restart: bool,
) -> (r: CarouselTick)
    ensures
        r == tick_action(marquee, hover_active, open_active, text_empty, text_fits, hold_running, waiting_restart),
{
    match marquee {
        PlayerctlMarqueeMode::Off => {
            return CarouselTick::Idle;
        },
        PlayerctlMarqueeMode::Hover => if !hover_active {
            return CarouselTick::Paused;
        },
        PlayerctlMarqueeMode::Open => if !open_active {
            return CarouselTick::Paused;
        },
        PlayerctlMarqueeMode::Always => {},
    }
    if text_empty || text_fits {
        return CarouselTick::ResetToStart;
    }
    match hold_running {
        Some(true) => CarouselTick::Holding,
        Some(false) => if waiting_restart {
            CarouselTick::RestartFromStart
        } else {
            CarouselTick::Advance
        },
        None => CarouselTick::Advance,
    }
}

/// Whether the `…` hint marks text that does not fit: when it does not
/// fit and is not scrolling at the moment.
pub fn should_show_overflow_hint(
    overflowing: bool,
    marquee: PlayerctlMarqueeMode,
    hover_active: bool,
    open_active: bool,
) -> (r: bool)
    ensures
        r == (overflowing && match marquee {
            PlayerctlMarqueeMode::Off => true,
            PlayerctlMarqueeMode::Hover => !hover_active,
            PlayerctlMarqueeMode::Open => !open_active,
            PlayerctlMarqueeMode::Always => false,
        }),
{
    if !overflowing {
        return false;
    }
    match marquee {
        PlayerctlMarqueeMode::Off => true,
        PlayerctlMarqueeMode::Hover => !hover_active,
        PlayerctlMarqueeMode::Open => !open_active,
        PlayerctlMarqueeMode::Always => false,
    }
}

/// The visible width of the scrolling label for a text of `text_width_px`:
/// the text width (at least one pixel), at most the width limit.
pub fn carousel_viewport_width(text_width_px: i32, width_limit_px: i32) -> (r: i32)
    ensures
        r == {
            let content = if text_width_px < 1 { 1 } else { text_width_px };
            if content < width_limit_px { content } else { width_limit_px }
        },
{
    let content = if text_width_px < 1 { 1 } else { text_width_px };
    if content < width_limit_px {
        content
    } else {
        width_limit_px
    }
}

} // verus!
