//! PulseAudio: the volume label, its icons, sink classification and the
//! controls popover.
use vstd::prelude::*;
use crate::common::pair;
use crate::markup::{escape, escape_markup_text, render_markup_template, render_template};
use crate::num::{dec, u64_to_string};
use crate::order::{sort_by_key, stable_sorted, SortKey};
use crate::text::{chars_of, contains, contains_str, is_alnum, is_ascii_alnum, lowercase, lowercase_chars, opt_view, owned, push_str, str_eq, string_from_chars, sub_chars};

verus! {

/// Module type name in the config.
pub const MODULE_TYPE: &'static str = "pulseaudio";
/// Label format used when the config names none.
pub const DEFAULT_FORMAT: &'static str = "{volume}% {icon}  {format_source}";
/// Label format for a Bluetooth sink.
pub const DEFAULT_FORMAT_BLUETOOTH: &'static str = "{volume}% {icon}\u{f294} {format_source}";
/// Label format for a muted Bluetooth sink.
pub const DEFAULT_FORMAT_BLUETOOTH_MUTED: &'static str = "\u{f6a9} {icon}\u{f294} {format_source}";
/// Label format for a muted sink.
pub const DEFAULT_FORMAT_MUTED: &'static str = "\u{f6a9} {format_source}";
/// Source part of the label.
pub const DEFAULT_FORMAT_SOURCE: &'static str = "\u{f130}";
/// Source part of the label when the source is muted.
pub const DEFAULT_FORMAT_SOURCE_MUTED: &'static str = "\u{f131}";
/// The controls popover is off by default.
pub const DEFAULT_CONTROLS_ENABLED: bool = false;
/// Low volume icon.
pub const ICON_VOLUME_LOW: &'static str = "\u{f026}";
/// Medium volume icon.
pub const ICON_VOLUME_MEDIUM: &'static str = "\u{f027}";
/// High volume icon.
pub const ICON_VOLUME_HIGH: &'static str = "\u{f028}";
/// Headphone icon.
pub const ICON_HEADPHONE: &'static str = "\u{f025}";
/// Hands-free icon.
pub const ICON_HANDS_FREE: &'static str = "\u{f590}";
/// Headset icon.
pub const ICON_HEADSET: &'static str = "\u{f590}";
/// Phone icon.
pub const ICON_PHONE: &'static str = "\u{f095}";
/// Portable speaker icon.
pub const ICON_PORTABLE: &'static str = "\u{f095}";
/// Car icon.
pub const ICON_CAR: &'static str = "\u{f1b9}";
/// Muted icon.
pub const ICON_MUTED: &'static str = "\u{f6a9}";

// ---------------------------------------------------------------------------
// Sink classification
// ---------------------------------------------------------------------------

/// The kind of device a sink is, which picks its icon.
#[derive(Debug, Clone, Copy, PartialEq, Eq, Structural)]
pub enum IconKind {
    Headphone,
    Speaker,
    Hdmi,
    HandsFree,
    Headset,
    Phone,
    Portable,
    Car,
    Hifi,
    Default,
}

/// Characters that split words: all but ASCII letters, digits and `-`.
pub open spec fn is_word_separator(c: char) -> bool {
    !is_alnum(c) && c != '-'
}

/// `s[i..j]` is one of the pieces `s` splits into at word separators.
pub open spec fn token_at(s: Seq<char>, i: int, j: int) -> bool {
    &&& 0 <= i <= j <= s.len()
    &&& (i == 0 || is_word_separator(s[i - 1]))
    &&& (j == s.len() || is_word_separator(s[j]))
    &&& forall|k: int| i <= k < j ==> !is_word_separator(#[trigger] s[k])
}

/// One of the pieces of `s` is exactly `word`.
pub open spec fn has_word(s: Seq<char>, word: Seq<char>) -> bool {
    exists|i: int, j: int| token_at(s, i, j) && s.subrange(i, j) == word
}

/// Whether `content`, split at every character that is neither an ASCII
/// letter or digit nor `-`, has `needle` as one of its pieces.
pub fn contains_word(content: &str, needle: &str) -> (r: bool)
    ensures
        r == has_word(content@, needle@),
{
    let s = chars_of(content);
    let w = chars_of(needle);
    let ghost sv = s@;
    let mut start: usize = 0;
    let mut p: usize = 0;
    while p < s.len()
        invariant
            sv == s@,
            sv == content@,
            w@ == needle@,
            start <= p <= s.len(),
            start == 0 || is_word_separator(sv[start - 1]),
            forall|k: int| start <= k < p ==> !is_word_separator(#[trigger] sv[k]),
            forall|i: int, j: int| token_at(sv, i, j) && j < p ==> sv.subrange(i, j) != w@,
        decreases s.len() - p,
    {
        if !is_ascii_alnum(s[p]) && s[p] != '-' {
            assert(token_at(sv, start as int, p as int));
            let piece = sub_chars(&s, start, p);
            if crate::text::chars_eq(&piece, &w) {
                return true;
            }
            assert forall|i: int, j: int| token_at(sv, i, j) && j < p + 1 implies sv.subrange(i, j)
                != w@ by {
                if j == p {
                    if i < start {
                        assert(!is_word_separator(sv[start - 1]));
                    }
                    if i > start {
                        assert(is_word_separator(sv[i - 1]));
                    }
                }
            }
            start = p + 1;
        } else {
            assert forall|i: int, j: int| token_at(sv, i, j) && j < p + 1 implies sv.subrange(i, j)
                != w@ by {
                if j == p {
                    assert(is_word_separator(sv[j]));
                }
            }
        }
        p = p + 1;
    }
    assert(token_at(sv, start as int, p as int));
    let piece = sub_chars(&s, start, p);
    if crate::text::chars_eq(&piece, &w) {
        return true;
    }
    assert forall|i: int, j: int| token_at(sv, i, j) implies sv.subrange(i, j) != w@ by {
        if j == p {
            if i < start {
                assert(!is_word_separator(sv[start - 1]));
            }
            if i > start {
                assert(is_word_separator(sv[i - 1]));
            }
        }
    }
    false
}

/// The device kind named in a sink's port name and form factor (lower
/// case), checked in this order: headphone, speaker, hdmi, headset,
/// hands-free, portable, the word car, hifi, phone.
pub open spec fn icon_kind(content: Seq<char>) -> IconKind {
    if contains(content, "headphone"@) {
        IconKind::Headphone
    } else if contains(content, "speaker"@) {
        IconKind::Speaker
    } else if contains(content, "hdmi"@) {
        IconKind::Hdmi
    } else if contains(content, "headset"@) {
        IconKind::Headset
    } else if contains(content, "hands-free"@) || contains(content, "handsfree"@) {
        IconKind::HandsFree
    } else if contains(content, "portable"@) {
        IconKind::Portable
    } else if has_word(content, "car"@) {
        IconKind::Car
    } else if contains(content, "hifi"@) {
        IconKind::Hifi
    } else if contains(content, "phone"@) {
        IconKind::Phone
    } else {
        IconKind::Default
    }
}

/// Classifies a sink by its port name and form factor.
pub fn classify_icon_kind_by_priority(content: &str) -> (r: IconKind)
    ensures
        r == icon_kind(content@),
{
    let v = chars_of(content);
    if contains_str(&v, "headphone") {
        return IconKind::Headphone;
    }
    if contains_str(&v, "speaker") {
        return IconKind::Speaker;
    }
    if contains_str(&v, "hdmi") {
        return IconKind::Hdmi;
    }
    if contains_str(&v, "headset") {
        return IconKind::Headset;
    }
    if contains_str(&v, "hands-free") || contains_str(&v, "handsfree") {
        return IconKind::HandsFree;
    }
    if contains_str(&v, "portable") {
        return IconKind::Portable;
    }
    if contains_word(content, "car") {
        return IconKind::Car;
    }
    if contains_str(&v, "hifi") {
        return IconKind::Hifi;
    }
    if contains_str(&v, "phone") {
        return IconKind::Phone;
    }
    IconKind::Default
}

/// The text a sink is classified by: its active port name and form
/// factor, joined and in lower case.
pub open spec fn sink_descriptor(port_name: Option<String>, form_factor: Option<String>) -> Seq<char> {
    lowercase(
        (match port_name {
            Some(p) => p@,
            None => Seq::empty(),
        }) + (match form_factor {
            Some(f) => f@,
            None => Seq::empty(),
        }),
    )
}

/// Whether a sink is Bluetooth, and its device kind, from its active port
/// name and form factor.
pub fn sink_traits(port_name: Option<String>, form_factor: Option<String>) -> (r: (bool, IconKind))
    ensures
        r.0 == (contains(sink_descriptor(port_name, form_factor), "bluez"@) || contains(
            sink_descriptor(port_name, form_factor),
            "bluetooth"@,
        )),
        r.1 == icon_kind(sink_descriptor(port_name, form_factor)),
{
    let mut joined: Vec<char> = Vec::new();
    match &port_name {
        Some(p) => push_str(&mut joined, p.as_str()),
        None => {},
    }
    match &form_factor {
        Some(f) => push_str(&mut joined, f.as_str()),
        None => {},
    }
    assert(joined@ =~= (match port_name {
        Some(p) => p@,
        None => Seq::<char>::empty(),
    }) + (match form_factor {
        Some(f) => f@,
        None => Seq::<char>::empty(),
    }));
    let lower = lowercase_chars(&joined);
    let bluetooth = contains_str(&lower, "bluez") || contains_str(&lower, "bluetooth");
    let text = string_from_chars(&lower);
    (bluetooth, classify_icon_kind_by_priority(text.as_str()))
}

// ---------------------------------------------------------------------------
// Icons
// ---------------------------------------------------------------------------

/// The `format-icons` section of the config.
#[derive(Debug, Clone)]
pub struct PulseAudioFormatIcons {
    pub headphone: Option<String>,
    pub speaker: Option<String>,
    pub hdmi: Option<String>,
    pub hands_free: Option<String>,
    pub headset: Option<String>,
    pub phone: Option<String>,
    pub portable: Option<String>,
    pub car: Option<String>,
    pub hifi: Option<String>,
    pub default: Vec<String>,
}

/// The default volume icons: low, medium, high.
pub fn default_volume_icons() -> (r: Vec<String>)
    ensures
        r.deep_view() == seq![ICON_VOLUME_LOW@, ICON_VOLUME_MEDIUM@, ICON_VOLUME_HIGH@],
{
    let mut r: Vec<String> = Vec::new();
    r.push(owned(ICON_VOLUME_LOW));
    r.push(owned(ICON_VOLUME_MEDIUM));
    r.push(owned(ICON_VOLUME_HIGH));
    assert(r.deep_view() =~= seq![ICON_VOLUME_LOW@, ICON_VOLUME_MEDIUM@, ICON_VOLUME_HIGH@]);
    r
}

/// The default `format-icons`: no device icons, the default volume icons.
pub fn default_format_icons() -> (r: PulseAudioFormatIcons)
    ensures
        r.headphone is None && r.speaker is None && r.hdmi is None && r.hands_free is None
            && r.headset is None && r.phone is None && r.portable is None && r.car is None
            && r.hifi is None,
        r.default.deep_view() == seq![ICON_VOLUME_LOW@, ICON_VOLUME_MEDIUM@, ICON_VOLUME_HIGH@],
{
    PulseAudioFormatIcons {
        headphone: None,
        speaker: None,
        hdmi: None,
        hands_free: None,
        headset: None,
        phone: None,
        portable: None,
        car: None,
        hifi: None,
        default: default_volume_icons(),
    }
}

/// The controls popover is off by default.
pub fn default_controls_enabled() -> (r: bool)
    ensures
        r == DEFAULT_CONTROLS_ENABLED,
{
    DEFAULT_CONTROLS_ENABLED
}

/// The volume icon from a list: for `n` icons, the one at
/// `min(volume, 100) * n / 100`, at most the last; without icons, low at
/// zero, medium below 67 and high above.
pub open spec fn volume_icon(icons: Seq<Seq<char>>, volume: nat) -> Seq<char> {
    if icons.len() == 0 {
        if volume == 0 {
            ICON_VOLUME_LOW@
        } else if volume < 67 {
            ICON_VOLUME_MEDIUM@
        } else {
            ICON_VOLUME_HIGH@
        }
    } else {
        let clamped: nat = if volume > 100 { 100 } else { volume };
        let idx = (clamped * icons.len()) / 100;
        if idx < icons.len() {
            icons[idx as int]
        } else {
            icons[icons.len() - 1]
        }
    }
}

/// Picks the volume icon from a list.
pub fn volume_icon_from_list(icons: &Vec<String>, volume: u32) -> (r: String)
    ensures
        r@ == volume_icon(icons.deep_view(), volume as nat),
{
    if icons.len() == 0 {
        return if volume == 0 {
            owned(ICON_VOLUME_LOW)
        } else if volume < 67 {
            owned(ICON_VOLUME_MEDIUM)
        } else {
            owned(ICON_VOLUME_HIGH)
        };
    }
    let clamped: u64 = if volume > 100 { 100 } else { volume as u64 };
    let len = icons.len() as u64;
    assert(clamped * len <= 100 * len) by (nonlinear_arith)
        requires clamped <= 100;
    let idx: u128 = (clamped as u128) * (len as u128) / 100;
    if idx < len as u128 {
        icons[idx as usize].clone()
    } else {
        icons[icons.len() - 1].clone()
    }
}

/// A device icon from the config, or its default.
pub open spec fn icon_or(o: Option<String>, default: Seq<char>) -> Seq<char> {
    match o {
        Some(s) => s@,
        None => default,
    }
}

/// The icon for a kind of device at a volume.
pub open spec fn kind_icon(icons: PulseAudioFormatIcons, kind: IconKind, volume: nat) -> Seq<char> {
    match kind {
        IconKind::Headphone => icon_or(icons.headphone, ICON_HEADPHONE@),
        IconKind::Speaker => icon_or(icons.speaker, ICON_VOLUME_HIGH@),
        IconKind::Hdmi => icon_or(icons.hdmi, ICON_VOLUME_HIGH@),
        IconKind::HandsFree => icon_or(icons.hands_free, ICON_HANDS_FREE@),
        IconKind::Headset => icon_or(icons.headset, ICON_HEADSET@),
        IconKind::Phone => icon_or(icons.phone, ICON_PHONE@),
        IconKind::Portable => icon_or(icons.portable, ICON_PORTABLE@),
        IconKind::Car => icon_or(icons.car, ICON_CAR@),
        IconKind::Hifi => icon_or(icons.hifi, ICON_VOLUME_HIGH@),
        IconKind::Default => volume_icon(icons.default.deep_view(), volume),
    }
}

/// A configured icon or its default, as a string.
fn icon_or_default(o: &Option<String>, default: &str) -> (r: String)
    ensures
        r@ == icon_or(*o, default@),
{
    match o {
        Some(s) => s.clone(),
        None => owned(default),
    }
}

impl PulseAudioFormatIcons {
    /// The icon for a kind of device at a volume.
    pub fn icon_for(&self, kind: IconKind, volume: u32) -> (r: String)
        ensures
            r@ == kind_icon(*self, kind, volume as nat),
    {
        match kind {
            IconKind::Headphone => icon_or_default(&self.headphone, ICON_HEADPHONE),
            IconKind::Speaker => icon_or_default(&self.speaker, ICON_VOLUME_HIGH),
            IconKind::Hdmi => icon_or_default(&self.hdmi, ICON_VOLUME_HIGH),
            IconKind::HandsFree => icon_or_default(&self.hands_free, ICON_HANDS_FREE),
            IconKind::Headset => icon_or_default(&self.headset, ICON_HEADSET),
            IconKind::Phone => icon_or_default(&self.phone, ICON_PHONE),
            IconKind::Portable => icon_or_default(&self.portable, ICON_PORTABLE),
            IconKind::Car => icon_or_default(&self.car, ICON_CAR),
            IconKind::Hifi => icon_or_default(&self.hifi, ICON_VOLUME_HIGH),
            IconKind::Default => volume_icon_from_list(&self.default, volume),
        }
    }
}

// ---------------------------------------------------------------------------
// The label
// ---------------------------------------------------------------------------

/// The parts of the config that shape the label.
#[derive(Debug, Clone)]
pub struct PulseAudioFormats {
    pub format: Option<String>,
    pub format_bluetooth: Option<String>,
    pub format_bluetooth_muted: Option<String>,
    pub format_muted: Option<String>,
    pub format_source: Option<String>,
    pub format_source_muted: Option<String>,
    pub format_icons: PulseAudioFormatIcons,
}

/// The state of the default sink and source.
#[derive(Debug, Clone)]
pub struct PulseState {
    pub volume: u32,
    pub muted: bool,
    pub source_muted: bool,
    pub bluetooth: bool,
    pub icon_kind: IconKind,
}

/// The label format for a state: muted or not, Bluetooth or not.
pub open spec fn chosen_format(f: PulseAudioFormats, s: PulseState) -> Seq<char> {
    if s.muted {
        if s.bluetooth {
            icon_or(f.format_bluetooth_muted, DEFAULT_FORMAT_BLUETOOTH_MUTED@)
        } else {
            icon_or(f.format_muted, DEFAULT_FORMAT_MUTED@)
        }
    } else if s.bluetooth {
        icon_or(f.format_bluetooth, DEFAULT_FORMAT_BLUETOOTH@)
    } else {
        icon_or(f.format, DEFAULT_FORMAT@)
    }
}

/// The source part of the label.
pub open spec fn chosen_source(f: PulseAudioFormats, s: PulseState) -> Seq<char> {
    if s.source_muted {
        icon_or(f.format_source_muted, DEFAULT_FORMAT_SOURCE_MUTED@)
    } else {
        icon_or(f.format_source, DEFAULT_FORMAT_SOURCE@)
    }
}

/// The label markup: `{volume}`, `{icon}` and `{format_source}` replaced,
/// in that order, by their escaped values.
pub open spec fn pulse_label(f: PulseAudioFormats, s: PulseState) -> Seq<char> {
    render_template(
        chosen_format(f, s),
        seq![
            ("{volume}"@, dec(s.volume as nat)),
            ("{icon}"@, kind_icon(f.format_icons, s.icon_kind, s.volume as nat)),
            ("{format_source}"@, chosen_source(f, s)),
        ],
    )
}

/// Which configured format shapes the label. A muted sink's label never
/// depends on the unmuted formats, and an unmuted one's never on the muted
/// formats; a Bluetooth sink's label never depends on the formats for other
/// sinks, and another sink's never on the Bluetooth formats. A muted
/// Bluetooth sink uses `format_bluetooth_muted` when it is set, and else
/// its own default, which is not the unmuted Bluetooth default.
pub proof fn lemma_label_format_follows_mute_and_bluetooth(
    f: PulseAudioFormats,
    s: PulseState,
    a: Option<String>,
    b: Option<String>,
)
    ensures
        s.muted ==> pulse_label(PulseAudioFormats { format: a, format_bluetooth: b, ..f }, s) == pulse_label(f, s),
        !s.muted ==> pulse_label(PulseAudioFormats { format_muted: a, format_bluetooth_muted: b, ..f }, s)
            == pulse_label(f, s),
        s.bluetooth ==> pulse_label(PulseAudioFormats { format: a, format_muted: b, ..f }, s) == pulse_label(f, s),
        !s.bluetooth ==> pulse_label(PulseAudioFormats { format_bluetooth: a, format_bluetooth_muted: b, ..f }, s)
            == pulse_label(f, s),
        s.muted && s.bluetooth ==> chosen_format(f, s) == match f.format_bluetooth_muted {
            Some(t) => t@,
            None => DEFAULT_FORMAT_BLUETOOTH_MUTED@,
        },
        DEFAULT_FORMAT_BLUETOOTH_MUTED@ != DEFAULT_FORMAT_BLUETOOTH@,
{
    reveal_strlit("\u{f6a9} {icon}\u{f294} {format_source}");
    reveal_strlit("{volume}% {icon}\u{f294} {format_source}");
    assert(DEFAULT_FORMAT_BLUETOOTH_MUTED@[0] != DEFAULT_FORMAT_BLUETOOTH@[0]);
}

/// Renders the volume label.
pub fn render_format(formats: &PulseAudioFormats, state: &PulseState) -> (r: String)
    ensures
        r@ == pulse_label(*formats, *state),
{
    let format = if state.muted {
        if state.bluetooth {
            icon_or_default(&formats.format_bluetooth_muted, DEFAULT_FORMAT_BLUETOOTH_MUTED)
        } else {
            icon_or_default(&formats.format_muted, DEFAULT_FORMAT_MUTED)
        }
    } else if state.bluetooth {
        icon_or_default(&formats.format_bluetooth, DEFAULT_FORMAT_BLUETOOTH)
    } else {
        icon_or_default(&formats.format, DEFAULT_FORMAT)
    };
    let source = if state.source_muted {
        icon_or_default(&formats.format_source_muted, DEFAULT_FORMAT_SOURCE_MUTED)
    } else {
        icon_or_default(&formats.format_source, DEFAULT_FORMAT_SOURCE)
    };
    let icon = formats.format_icons.icon_for(state.icon_kind, state.volume);
    let mut reps: Vec<(String, String)> = Vec::new();
    reps.push(pair("{volume}", u64_to_string(state.volume as u64)));
    reps.push(pair("{icon}", icon));
    reps.push(pair("{format_source}", source));
    assert(reps.deep_view() =~= seq![
        ("{volume}"@, dec(state.volume as nat)),
        ("{icon}"@, kind_icon(formats.format_icons, state.icon_kind, state.volume as nat)),
        ("{format_source}"@, chosen_source(*formats, *state)),
    ]);
    render_markup_template(format.as_str(), &reps)
}

/// The label shown when the sound server cannot be reached or queried.
pub fn audio_error_label(err: &str) -> (r: String)
    ensures
        r@ == escape("audio error: "@ + err@),
{
    let mut v = chars_of("audio error: ");
    push_str(&mut v, err);
    let s = string_from_chars(&v);
    escape_markup_text(s.as_str())
}

/// The label is shown unless its text is blank.
pub fn pulse_label_visible(label_text: &str) -> (r: bool)
    ensures
        r == !crate::text::is_blank(label_text@),
{
    !crate::text::is_blank_str(label_text)
}

// ---------------------------------------------------------------------------
// Clicks
// ---------------------------------------------------------------------------

/// Which click opens the controls popover.
#[derive(Debug, Clone, Copy, PartialEq, Eq, Structural)]
pub enum PulseAudioControlsOpenMode {
    LeftClick,
    RightClick,
}

/// The `controls` section of the config.
#[derive(Debug, Clone)]
pub struct PulseAudioControlsConfig {
    pub enabled: bool,
    pub open: PulseAudioControlsOpenMode,
}

/// The default `controls` section: disabled, opened by a right click.
pub fn default_controls_config() -> (c: PulseAudioControlsConfig)
    ensures
        c.enabled == DEFAULT_CONTROLS_ENABLED,
        c.open == PulseAudioControlsOpenMode::RightClick,
{
    PulseAudioControlsConfig { enabled: default_controls_enabled(), open: PulseAudioControlsOpenMode::RightClick }
}

/// The commands bound to the left and right click: a click that opens the
/// controls runs no command.
pub fn pulse_click_bindings(
    controls: &PulseAudioControlsConfig,
    click_command: Option<String>,
    right_click_command: Option<String>,
) -> (r: (Option<String>, Option<String>))
    ensures
        r.0 == if controls.enabled && controls.open == PulseAudioControlsOpenMode::LeftClick {
            None
        } else {
            click_command
        },
        r.1 == if controls.enabled && controls.open == PulseAudioControlsOpenMode::RightClick {
            None
        } else {
            right_click_command
        },
{
    let left = if controls.enabled && controls.open == PulseAudioControlsOpenMode::LeftClick {
        None
    } else {
        click_command
    };
    let right = if controls.enabled && controls.open == PulseAudioControlsOpenMode::RightClick {
        None
    } else {
        right_click_command
    };
    (left, right)
}

// ---------------------------------------------------------------------------
// Server events and query results
// ---------------------------------------------------------------------------

/// The kind of object a server event concerns.
#[derive(Debug, Clone, Copy, PartialEq, Eq, Structural)]
pub enum Facility {
    Sink,
    Source,
    SinkInput,
    SourceOutput,
    Module,
    Client,
    SampleCache,
    Server,
    Card,
}

/// What happened to the object.
#[derive(Debug, Clone, Copy, PartialEq, Eq, Structural)]
pub enum Operation {
    New,
    Changed,
    Removed,
}

/// Whether a server event can change what the module shows: any operation
/// on a sink, source, the server, a card or a playback stream.
pub fn is_relevant_pulse_event(facility: Option<Facility>, operation: Option<Operation>) -> (r: bool)
    ensures
        r == (match facility {
            Some(f) => f == Facility::Sink || f == Facility::Source || f == Facility::Server || f
                == Facility::Card || f == Facility::SinkInput,
            None => false,
        } && operation is Some),
{
    match facility {
        None => false,
        Some(f) => {
            let relevant = match f {
                Facility::Sink | Facility::Source | Facility::Server | Facility::Card
                | Facility::SinkInput => true,
                _ => false,
            };
            relevant && operation.is_some()
        },
    }
}

/// One callback of a server query that lists objects.
#[derive(Debug, Clone)]
pub enum ListEvent<T> {
    Item(T),
    End,
    Error,
}

/// The result slot of a query for one object after one callback: an item
/// is the answer; the end without an answer means not found; an error is a
/// failure.
pub open spec fn single_item_next<T>(slot: Option<Result<T, String>>, event: ListEvent<T>, not_found: Seq<char>, failed: Seq<char>) -> Option<Result<T, Seq<char>>> {
    match event {
        ListEvent::Item(v) => Some(Ok(v)),
        ListEvent::End => match slot {
            None => Some(Err(not_found)),
            Some(Ok(v)) => Some(Ok(v)),
            Some(Err(e)) => Some(Err(e@)),
        },
        ListEvent::Error => Some(Err(failed)),
    }
}

/// The view of a result slot.
pub open spec fn slot_view<T>(slot: Option<Result<T, String>>) -> Option<Result<T, Seq<char>>> {
    match slot {
        None => None,
        Some(Ok(v)) => Some(Ok(v)),
        Some(Err(e)) => Some(Err(e@)),
    }
}

/// Takes in one callback of a query for one object.
pub fn single_item_step<T>(
    slot: Option<Result<T, String>>,
    event: ListEvent<T>,
    not_found: &str,
    failed: &str,
) -> (r: Option<Result<T, String>>)
    ensures
        slot_view(r) == single_item_next(slot, event, not_found@, failed@),
{
    match event {
        ListEvent::Item(v) => Some(Ok(v)),
        ListEvent::End => match slot {
            None => Some(Err(owned(not_found))),
            Some(x) => Some(x),
        },
        ListEvent::Error => Some(Err(owned(failed))),
    }
}

/// The outcome of a query once the server is done: what the slot holds,
/// or `no_data` when no callback came.
pub fn single_item_outcome<T>(slot: Option<Result<T, String>>, no_data: &str) -> (r: Result<T, String>)
    ensures
        match slot {
            Some(x) => r == x,
            None => r matches Err(e) && e@ == no_data@,
        },
{
    match slot {
        Some(x) => x,
        None => Err(owned(no_data)),
    }
}

/// The default sink and source of the server.
#[derive(Debug, Clone)]
pub struct ServerDefaults {
    pub sink_name: String,
    pub source_name: Option<String>,
}

/// The server defaults from its info: a default sink is required.
pub fn server_defaults(sink_name: Option<String>, source_name: Option<String>) -> (r: Result<ServerDefaults, String>)
    ensures
        match sink_name {
            Some(s) => r matches Ok(d) && d.sink_name == s && d.source_name == source_name,
            None => r matches Err(e) && e@ == "pulseaudio default sink is unavailable"@,
        },
{
    match sink_name {
        Some(s) => Ok(ServerDefaults { sink_name: s, source_name }),
        None => Err(owned("pulseaudio default sink is unavailable")),
    }
}

// ---------------------------------------------------------------------------
// Sinks, ports and streams
// ---------------------------------------------------------------------------

/// Whether a port can be used.
#[derive(Debug, Clone, Copy, PartialEq, Eq, Structural)]
pub enum PortAvailability {
    Unknown,
    No,
    Yes,
}

/// A port of the selected sink.
#[derive(Debug, Clone)]
pub struct SinkPortEntry {
    pub name: String,
    pub description: String,
    pub available: PortAvailability,
}

/// A sink the user can select.
#[derive(Debug, Clone)]
pub struct SinkDeviceEntry {
    pub name: String,
    pub description: String,
    pub available: bool,
    pub is_default: bool,
}

/// A playback stream.
#[derive(Debug, Clone)]
pub struct SinkInputEntry {
    pub index: u32,
    pub name: String,
    pub volume: u32,
    pub muted: bool,
}

impl SortKey for SinkDeviceEntry {
    open spec fn sort_key(&self) -> Seq<char> {
        self.description@
    }

    fn key_str(&self) -> (r: &str) {
        self.description.as_str()
    }
}

impl SortKey for SinkInputEntry {
    open spec fn sort_key(&self) -> Seq<char> {
        self.name@
    }

    fn key_str(&self) -> (r: &str) {
        self.name.as_str()
    }
}

/// A port entry: ports without a name are skipped; the description
/// defaults to the name.
pub fn sink_port_entry(name: Option<String>, description: Option<String>, available: PortAvailability) -> (r: Option<SinkPortEntry>)
    ensures
        match name {
            None => r is None,
            Some(n) => r matches Some(p) && p.name == n && p.description@ == icon_or(description, n@)
                && p.available == available,
        },
{
    match name {
        None => None,
        Some(n) => {
            let description = match description {
                Some(d) => d,
                None => n.clone(),
            };
            Some(SinkPortEntry { name: n, description, available })
        },
    }
}

/// A sink with ports is available when one of them is not known to be
/// unavailable; a sink without ports always is.
pub open spec fn sink_available(ports: Seq<PortAvailability>) -> bool {
    ports.len() == 0 || exists|i: int| 0 <= i < ports.len() && ports[i] != PortAvailability::No
}

/// Whether a sink can be selected.
pub fn sink_is_available(ports: &Vec<PortAvailability>) -> (r: bool)
    ensures
        r == sink_available(ports@),
{
    if ports.len() == 0 {
        return true;
    }
    let mut i: usize = 0;
    while i < ports.len()
        invariant
            i <= ports.len(),
            forall|j: int| 0 <= j < i ==> ports@[j] == PortAvailability::No,
        decreases ports.len() - i,
    {
        if ports[i] != PortAvailability::No {
            return true;
        }
        i = i + 1;
    }
    false
}

/// A sink entry: sinks without a name are skipped; the description
/// defaults to the name; the entry is the default when its name is.
pub fn sink_device_entry(
    name: Option<String>,
    description: Option<String>,
    ports: &Vec<PortAvailability>,
    default_sink_name: &str,
) -> (r: Option<SinkDeviceEntry>)
    ensures
        match name {
            None => r is None,
            Some(n) => r matches Some(d) && d.name == n && d.description@ == icon_or(description, n@)
                && d.available == sink_available(ports@) && d.is_default == (n@ == default_sink_name@),
        },
{
    match name {
        None => None,
        Some(n) => {
            let description = match description {
                Some(d) => d,
                None => n.clone(),
            };
            let available = sink_is_available(ports);
            let is_default = str_eq(n.as_str(), default_sink_name);
            Some(SinkDeviceEntry { name: n, description, available, is_default })
        },
    }
}

/// The name a stream is shown under: the application name, the media
/// name, the process binary, the stream name, else `Stream <index>`.
pub open spec fn stream_name(
    application: Option<String>,
    media: Option<String>,
    binary: Option<String>,
    name: Option<String>,
    index: u32,
) -> Seq<char> {
    match application {
        Some(a) => a@,
        None => match media {
            Some(m) => m@,
            None => match binary {
                Some(b) => b@,
                None => match name {
                    Some(n) => n@,
                    None => "Stream "@ + dec(index as nat),
                },
            },
        },
    }
}

/// The name a playback stream is shown under.
pub fn sink_input_display_name(
    application: Option<String>,
    media: Option<String>,
    binary: Option<String>,
    name: Option<String>,
    index: u32,
) -> (r: String)
    ensures
        r@ == stream_name(application, media, binary, name, index),
{
    match application {
        Some(a) => a,
        None => match media {
            Some(m) => m,
            None => match binary {
                Some(b) => b,
                None => match name {
                    Some(n) => n,
                    None => {
                        let mut v = chars_of("Stream ");
                        let d = crate::num::u64_to_chars(index as u64);
                        crate::text::push_all(&mut v, &d);
                        string_from_chars(&v)
                    },
                },
            },
        },
    }
}

/// A stream entry: streams without a volume are skipped.
pub fn sink_input_entry(index: u32, has_volume: bool, name: String, volume: u32, muted: bool) -> (r: Option<SinkInputEntry>)
    ensures
        r is Some <==> has_volume,
        r matches Some(e) ==> e.index == index && e.name == name && e.volume == volume && e.muted == muted,
{
    if !has_volume {
        return None;
    }
    Some(SinkInputEntry { index, name, volume, muted })
}

/// The sinks in the order the popover lists them: by description.
pub fn sort_sinks(sinks: Vec<SinkDeviceEntry>) -> (r: Vec<SinkDeviceEntry>)
    ensures
        r@ == stable_sorted(sinks@),
{
    sort_by_key(sinks)
}

/// The streams in the order the popover lists them: by name.
pub fn sort_sink_inputs(inputs: Vec<SinkInputEntry>) -> (r: Vec<SinkInputEntry>)
    ensures
        r@ == stable_sorted(inputs@),
{
    sort_by_key(inputs)
}

// ---------------------------------------------------------------------------
// The controls popover
// ---------------------------------------------------------------------------

/// Shown when there is no sink.
pub const NO_SINKS_TEXT: &'static str = "No output devices";
/// Shown when the sink has no ports.
pub const NO_PORTS_TEXT: &'static str = "No output ports";
/// Shown when nothing plays.
pub const NO_STREAMS_TEXT: &'static str = "No active playback streams";

/// What the selected sink reports.
#[derive(Debug, Clone)]
pub struct SinkSnapshot {
    pub volume: u32,
    pub muted: bool,
    pub bluetooth: bool,
    pub icon_kind: IconKind,
    pub ports: Vec<SinkPortEntry>,
    pub active_port_name: Option<String>,
}

/// Everything the controls popover shows.
#[derive(Debug, Clone)]
pub struct AudioControlsState {
    pub sink_name: String,
    pub sinks: Vec<SinkDeviceEntry>,
    pub selected_sink_name: String,
    pub sink_volume: u32,
    pub sink_muted: bool,
    pub sink_ports: Vec<SinkPortEntry>,
    pub active_sink_port: Option<String>,
    pub sink_inputs: Vec<SinkInputEntry>,
}

/// Puts the answers of one round of queries together: the label state and
/// the controls state.
pub fn current_state(
    defaults: &ServerDefaults,
    sinks: Vec<SinkDeviceEntry>,
    sink: SinkSnapshot,
    sink_inputs: Vec<SinkInputEntry>,
    source_muted: bool,
) -> (r: (PulseState, AudioControlsState))
    ensures
        r.0.volume == sink.volume,
        r.0.muted == sink.muted,
        r.0.source_muted == source_muted,
        r.0.bluetooth == sink.bluetooth,
        r.0.icon_kind == sink.icon_kind,
        r.1.sink_name == defaults.sink_name,
        r.1.selected_sink_name == defaults.sink_name,
        r.1.sinks == sinks,
        r.1.sink_volume == sink.volume,
        r.1.sink_muted == sink.muted,
        r.1.sink_ports == sink.ports,
        r.1.active_sink_port == sink.active_port_name,
        r.1.sink_inputs == sink_inputs,
{
    let state = PulseState {
        volume: sink.volume,
        muted: sink.muted,
        source_muted,
        bluetooth: sink.bluetooth,
        icon_kind: sink.icon_kind,
    };
    let controls = AudioControlsState {
        sink_name: defaults.sink_name.clone(),
        sinks,
        selected_sink_name: defaults.sink_name.clone(),
        sink_volume: sink.volume,
        sink_muted: sink.muted,
        sink_ports: sink.ports,
        active_sink_port: sink.active_port_name,
        sink_inputs,
    };
    (state, controls)
}

/// A button of the popover.
#[derive(Debug, Clone)]
pub struct DeviceButton {
    pub label: String,
    pub active: bool,
    pub sensitive: bool,
}

/// The label of a sink button: its description, marked as the default,
/// and whether it is available.
pub open spec fn sink_label(sink: SinkDeviceEntry) -> Seq<char> {
    let status = if sink.available { "available"@ } else { "unavailable"@ };
    if sink.is_default {
        sink.description@ + " (default, "@ + status + ")"@
    } else {
        sink.description@ + " ("@ + status + ")"@
    }
}

/// The button for a sink: active when selected, usable when available.
pub fn sink_button(sink: &SinkDeviceEntry, selected_sink_name: &str) -> (b: DeviceButton)
    ensures
        b.label@ == sink_label(*sink),
        b.active == (sink.name@ == selected_sink_name@),
        b.sensitive == sink.available,
{
    let mut v = chars_of(sink.description.as_str());
    if sink.is_default {
        push_str(&mut v, " (default, ");
    } else {
        push_str(&mut v, " (");
    }
    if sink.available {
        push_str(&mut v, "available");
    } else {
        push_str(&mut v, "unavailable");
    }
    push_str(&mut v, ")");
    let label = string_from_chars(&v);
    DeviceButton { label, active: str_eq(sink.name.as_str(), selected_sink_name), sensitive: sink.available }
}

/// The button for a port: active when it is the sink's active port,
/// usable unless known to be unavailable.
pub fn port_button(port: &SinkPortEntry, active_port: Option<&str>) -> (b: DeviceButton)
    ensures
        b.label@ == port.description@,
        b.active == (crate::text::opt_str_view(active_port) == Some(port.name@)),
        b.sensitive == (port.available != PortAvailability::No),
{
    let active = match active_port {
        Some(a) => str_eq(a, port.name.as_str()),
        None => false,
    };
    DeviceButton { label: port.description.clone(), active, sensitive: port.available != PortAvailability::No }
}

/// The icon of a mute button.
pub fn mute_icon(muted: bool) -> (r: String)
    ensures
        r@ == if muted { ICON_MUTED@ } else { ICON_VOLUME_HIGH@ },
{
    if muted {
        owned(ICON_MUTED)
    } else {
        owned(ICON_VOLUME_HIGH)
    }
}

/// A volume in percent as shown next to a slider.
pub fn percent_text(volume: u32) -> (r: String)
    ensures
        r@ == dec(volume as nat) + "%"@,
{
    let mut v = crate::num::u64_to_chars(volume as u64);
    push_str(&mut v, "%");
    string_from_chars(&v)
}

/// The tooltip of the sink slider.
pub fn sink_volume_tooltip(volume: u32) -> (r: String)
    ensures
        r@ == "Selected sink: "@ + dec(volume as nat) + "%"@,
{
    let mut v = chars_of("Selected sink: ");
    let d = crate::num::u64_to_chars(volume as u64);
    crate::text::push_all(&mut v, &d);
    push_str(&mut v, "%");
    string_from_chars(&v)
}

/// The tooltip of a stream's mute button.
pub fn sink_input_mute_tooltip(name: &str) -> (r: String)
    ensures
        r@ == "Mute "@ + name@,
{
    let mut v = chars_of("Mute ");
    push_str(&mut v, name);
    string_from_chars(&v)
}

/// The stream rows to drop: those whose stream is gone, in the order given.
pub open spec fn stale_rows(existing: Seq<u32>, inputs: Seq<SinkInputEntry>) -> Seq<u32> {
    existing.filter(|index: u32| !(exists|k: int| 0 <= k < inputs.len() && inputs[k].index == index))
}

/// Whether a stream with `index` plays.
fn has_stream(inputs: &Vec<SinkInputEntry>, index: u32) -> (r: bool)
    ensures
        r == exists|k: int| 0 <= k < inputs@.len() && inputs@[k].index == index,
{
    let mut k: usize = 0;
    while k < inputs.len()
        invariant
            k <= inputs.len(),
            forall|m: int| 0 <= m < k ==> inputs@[m].index != index,
        decreases inputs.len() - k,
    {
        if inputs[k].index == index {
            return true;
        }
        k = k + 1;
    }
    false
}

/// The rows of streams that are gone.
pub fn stale_sink_input_rows(existing: &Vec<u32>, inputs: &Vec<SinkInputEntry>) -> (r: Vec<u32>)
    ensures
        r@ == stale_rows(existing@, inputs@),
{
    let mut out: Vec<u32> = Vec::new();
    let mut i: usize = 0;
    while i < existing.len()
        invariant
            i <= existing.len(),
            out@ == stale_rows(existing@.take(i as int), inputs@),
        decreases existing.len() - i,
    {
        proof {
            reveal(Seq::filter);
            assert(existing@.take(i + 1).drop_last() =~= existing@.take(i as int));
            assert(existing@.take(i + 1).last() == existing@[i as int]);
        }
        if !has_stream(inputs, existing[i]) {
            out.push(existing[i]);
        }
        i = i + 1;
    }
    assert(existing@.take(existing.len() as int) =~= existing@);
    out
}

} // verus!
