//! Backlight module: device selection, percentages, rendering and brightness steps.
use vstd::prelude::*;
use crate::common::{icon_for_pct, icon_for_percentage, pair};
use crate::markup::{escape, escape_markup_text, render_markup_template, render_template};
use crate::num::{dec, u64_to_string, IntErr, int_err_text, int_err_message, parse_uint, parse_u64};
use crate::text::{opt_str_view, opt_view, owned, push_str, str_eq, string_from_chars, trim, trim_str};

verus! {

/// Module type name in the config.
pub const MODULE_TYPE: &'static str = "backlight";
/// Refresh interval used when the config names none.
pub const DEFAULT_BACKLIGHT_INTERVAL_SECS: u32 = 2;
/// Lowest accepted refresh interval.
pub const MIN_BACKLIGHT_INTERVAL_SECS: u32 = 1;
/// Label format used when the config names none.
pub const DEFAULT_BACKLIGHT_FORMAT: &'static str = "{percent}% {icon}";

/// One device under `/sys/class/backlight`.
#[derive(Debug, Clone)]
pub struct BacklightDevice {
    pub name: String,
    pub actual_brightness: u64,
    pub max_brightness: u64,
    pub powered: bool,
}

impl BacklightDevice {
    /// A copy of the device record.
    pub fn duplicate(&self) -> (r: Self)
        ensures
            r == *self,
    {
        BacklightDevice {
            name: self.name.clone(),
            actual_brightness: self.actual_brightness,
            max_brightness: self.max_brightness,
            powered: self.powered,
        }
    }
}

/// The selected device and its brightness in percent.
#[derive(Debug, Clone)]
pub struct BacklightSnapshot {
    pub device: BacklightDevice,
    pub percent: u16,
}

/// What the label shows after a refresh.
#[derive(Debug, Clone)]
pub struct BacklightUiUpdate {
    pub text: String,
    pub visible: bool,
    pub level_class: String,
}

/// The backend's view of the devices and its last error.
#[derive(Debug, Clone)]
pub struct BacklightBackend {
    pub preferred_device: Option<String>,
    pub devices: Vec<BacklightDevice>,
    pub selected: Option<BacklightSnapshot>,
    pub last_error: Option<String>,
}

/// The refresh interval actually used: at least one second.
pub fn normalized_backlight_interval(interval_secs: u32) -> (r: u32)
    ensures
        r == if interval_secs < MIN_BACKLIGHT_INTERVAL_SECS {
            MIN_BACKLIGHT_INTERVAL_SECS
        } else {
            interval_secs
        },
{
    if interval_secs < MIN_BACKLIGHT_INTERVAL_SECS {
        MIN_BACKLIGHT_INTERVAL_SECS
    } else {
        interval_secs
    }
}

/// The nine brightness icons used when the config names none.
pub fn default_backlight_icons() -> (r: Vec<String>)
    ensures
        r.len() == 9,
        r.deep_view() == seq![
            "\u{e38d}"@, "\u{e3d3}"@, "\u{e3d1}"@, "\u{e3cf}"@, "\u{e3ce}"@,
            "\u{e3cd}"@, "\u{e3ca}"@, "\u{e3c8}"@, "\u{e39b}"@,
        ],
{
    let mut r: Vec<String> = Vec::new();
    r.push(owned("\u{e38d}"));
    r.push(owned("\u{e3d3}"));
    r.push(owned("\u{e3d1}"));
    r.push(owned("\u{e3cf}"));
    r.push(owned("\u{e3ce}"));
    r.push(owned("\u{e3cd}"));
    r.push(owned("\u{e3ca}"));
    r.push(owned("\u{e3c8}"));
    r.push(owned("\u{e39b}"));
    assert(r.deep_view() =~= seq![
        "\u{e38d}"@, "\u{e3d3}"@, "\u{e3d1}"@, "\u{e3cf}"@, "\u{e3ce}"@,
        "\u{e3cd}"@, "\u{e3ca}"@, "\u{e3c8}"@, "\u{e39b}"@,
    ]);
    r
}

/// Brightness of a device in percent: `100 * actual / max`, at most 100, and
/// 100 when the device reports a maximum of zero.
pub open spec fn percent_of(actual: u64, max: u64) -> nat {
    if max == 0 {
        100
    } else {
        let p = (if actual as int * 100 > u64::MAX { u64::MAX as int } else { actual * 100 }) / (
        max as int);
        if p > 100 {
            100
        } else {
            p as nat
        }
    }
}

/// The snapshot of a device: the device and its percentage.
pub fn snapshot_from_device(device: BacklightDevice) -> (r: BacklightSnapshot)
    ensures
        r.device == device,
        r.percent as nat == percent_of(device.actual_brightness, device.max_brightness),
{
    let percent: u16 = if device.max_brightness == 0 {
        100
    } else {
        let scaled: u64 = if device.actual_brightness > u64::MAX / 100 {
            u64::MAX
        } else {
            device.actual_brightness * 100
        };
        let p = scaled / device.max_brightness;
        if p > 100 {
            100
        } else {
            p as u16
        }
    };
    BacklightSnapshot { device, percent }
}

/// `i` is the first device named `p`.
pub open spec fn is_first_named(d: Seq<BacklightDevice>, p: Seq<char>, i: int) -> bool {
    &&& 0 <= i < d.len()
    &&& d[i].name@ == p
    &&& forall|j: int| 0 <= j < i ==> #[trigger] d[j].name@ != p
}

/// `i` is the last device of greatest maximum brightness.
pub open spec fn is_last_max(d: Seq<BacklightDevice>, i: int) -> bool {
    &&& 0 <= i < d.len()
    &&& forall|j: int| 0 <= j < d.len() ==> #[trigger] d[j].max_brightness <= d[i].max_brightness
    &&& forall|j: int| i < j < d.len() ==> #[trigger] d[j].max_brightness < d[i].max_brightness
}

/// Some device bears the preferred name.
pub open spec fn has_named(d: Seq<BacklightDevice>, preferred: Option<Seq<char>>) -> bool {
    match preferred {
        Some(p) => exists|i: int| 0 <= i < d.len() && #[trigger] d[i].name@ == p,
        None => false,
    }
}

/// The device that `select_best_device` picks: the first device named as the
/// preferred one, else the last device of greatest maximum brightness.
pub open spec fn best_device_index(d: Seq<BacklightDevice>, preferred: Option<Seq<char>>) -> Option<int> {
    if has_named(d, preferred) {
        Some(choose|i: int| is_first_named(d, preferred->0, i))
    } else if d.len() == 0 {
        None
    } else {
        Some(choose|i: int| is_last_max(d, i))
    }
}

/// The first named device and the last maximal device are each unique, so
/// `best_device_index` names the index that satisfies its condition.
pub proof fn lemma_best_index(d: Seq<BacklightDevice>, preferred: Option<Seq<char>>, k: int)
    requires
        (has_named(d, preferred) && is_first_named(d, preferred->0, k)) || (!has_named(d, preferred)
            && is_last_max(d, k)),
    ensures
        best_device_index(d, preferred) == Some(k),
{
    if has_named(d, preferred) {
        let i = choose|i: int| is_first_named(d, preferred->0, i);
        assert(is_first_named(d, preferred->0, i));
        if i < k {
            assert(d[i].name@ != preferred->0);
        }
        if k < i {
            assert(d[k].name@ != preferred->0);
        }
    } else {
        let i = choose|i: int| is_last_max(d, i);
        assert(is_last_max(d, i));
        if i < k {
            assert(d[k].max_brightness < d[i].max_brightness);
            assert(d[k].max_brightness >= d[i].max_brightness);
        }
        if k < i {
            assert(d[i].max_brightness < d[k].max_brightness);
            assert(d[i].max_brightness >= d[k].max_brightness);
        }
    }
}

/// Picks the device to show: the preferred one when present, else the one of
/// greatest maximum brightness (the last of several such).
pub fn select_best_device(devices: &Vec<BacklightDevice>, preferred: Option<&str>) -> (r: Option<usize>)
    ensures
        r matches Some(i) ==> i < devices.len(),
        best_device_index(devices@, opt_str_view(preferred)) matches Some(i) ==> 0 <= i
            < devices.len(),
        r == (match best_device_index(devices@, opt_str_view(preferred)) {
            Some(i) => Some(i as usize),
            None => None::<usize>,
        }),
{
    if let Some(p) = preferred {
        let mut i: usize = 0;
        while i < devices.len()
            invariant
                i <= devices.len(),
                preferred == Some(p),
                forall|j: int| 0 <= j < i ==> #[trigger] devices@[j].name@ != p@,
            decreases devices.len() - i,
        {
            if str_eq(devices[i].name.as_str(), p) {
                assert(devices@[i as int].name@ == p@);
                assert(has_named(devices@, opt_str_view(preferred)));
                proof {
                    lemma_best_index(devices@, opt_str_view(preferred), i as int);
                }
                return Some(i);
            }
            i = i + 1;
        }
    }
    if devices.len() == 0 {
        return None;
    }
    let mut best: usize = 0;
    let mut i: usize = 1;
    while i < devices.len()
        invariant
            1 <= i <= devices.len(),
            best < i,
            forall|j: int| 0 <= j < i ==> #[trigger] devices@[j].max_brightness
                <= devices@[best as int].max_brightness,
            forall|j: int| best < j < i ==> #[trigger] devices@[j].max_brightness
                < devices@[best as int].max_brightness,
        decreases devices.len() - i,
    {
        if devices[i].max_brightness >= devices[best].max_brightness {
            best = i;
        }
        i = i + 1;
    }
    proof {
        lemma_best_index(devices@, opt_str_view(preferred), best as int);
    }
    Some(best)
}

/// The brightness CSS class: low below 34 %, medium below 67 %, else high.
pub open spec fn brightness_class(percent: nat) -> Seq<char> {
    if percent < 34 {
        "brightness-low"@
    } else if percent < 67 {
        "brightness-medium"@
    } else {
        "brightness-high"@
    }
}

/// CSS class for a brightness percentage.
pub fn brightness_css_class(percent: u16) -> (r: String)
    ensures
        r@ == brightness_class(percent as nat),
{
    if percent < 34 {
        owned("brightness-low")
    } else if percent < 67 {
        owned("brightness-medium")
    } else {
        owned("brightness-high")
    }
}

/// The label text for a snapshot: `{percent}`, `{icon}`, `{brightness}`,
/// `{max}` and `{device}` replaced in that order, values escaped.
pub open spec fn backlight_text(format: Seq<char>, snapshot: BacklightSnapshot, icons: Seq<Seq<char>>) -> Seq<char> {
    render_template(
        format,
        seq![
            ("{percent}"@, dec(snapshot.percent as nat)),
            ("{icon}"@, icon_for_pct(icons, snapshot.percent as nat)),
            ("{brightness}"@, dec(snapshot.device.actual_brightness as nat)),
            ("{max}"@, dec(snapshot.device.max_brightness as nat)),
            ("{device}"@, snapshot.device.name@),
        ],
    )
}

/// Icon for a brightness percentage (see `icon_for_pct`).
pub fn icon_for_percent(format_icons: &Vec<String>, percent: u16) -> (r: String)
    ensures
        r@ == icon_for_pct(format_icons.deep_view(), percent as nat),
{
    icon_for_percentage(format_icons, percent as u64)
}

/// Renders the backlight label text.
pub fn render_format(format: &str, snapshot: &BacklightSnapshot, format_icons: &Vec<String>) -> (r: String)
    ensures
        r@ == backlight_text(format@, *snapshot, format_icons.deep_view()),
{
    let icon = icon_for_percent(format_icons, snapshot.percent);
    let mut reps: Vec<(String, String)> = Vec::new();
    reps.push(pair("{percent}", u64_to_string(snapshot.percent as u64)));
    reps.push(pair("{icon}", icon));
    reps.push(pair("{brightness}", u64_to_string(snapshot.device.actual_brightness)));
    reps.push(pair("{max}", u64_to_string(snapshot.device.max_brightness)));
    reps.push(pair("{device}", snapshot.device.name.clone()));
    let ghost expected = seq![
        ("{percent}"@, dec(snapshot.percent as nat)),
        ("{icon}"@, icon_for_pct(format_icons.deep_view(), snapshot.percent as nat)),
        ("{brightness}"@, dec(snapshot.device.actual_brightness as nat)),
        ("{max}"@, dec(snapshot.device.max_brightness as nat)),
        ("{device}"@, snapshot.device.name@),
    ];
    assert(reps.deep_view() =~= expected);
    render_markup_template(format, &reps)
}

/// Error text shown when no device can be used.
pub open spec fn no_devices_text() -> Seq<char> {
    "no backlight devices found"@
}

impl BacklightBackend {
    /// A backend that has not read any device yet.
    pub fn new(preferred_device: Option<String>) -> (r: Self)
        ensures
            r.preferred_device == preferred_device,
            r.devices@.len() == 0,
            r.selected is None,
            r.last_error is None,
    {
        BacklightBackend { preferred_device, devices: Vec::new(), selected: None, last_error: None }
    }

    /// Takes in the result of reading `/sys/class/backlight`: on success the
    /// device list is replaced and the best device selected (an error is kept
    /// when none is); on failure the error is kept and nothing is selected.
    pub fn refresh_from_devices(&mut self, read: Result<Vec<BacklightDevice>, String>)
        ensures
            final(self).preferred_device == old(self).preferred_device,
            match read {
                Ok(devices) => {
                    &&& final(self).devices@ == devices@
                    &&& match best_device_index(devices@, opt_view(old(self).preferred_device)) {
                        Some(i) => {
                            &&& final(self).selected is Some
                            &&& final(self).selected->0.device == devices@[i]
                            &&& final(self).selected->0.percent as nat == percent_of(
                                devices@[i].actual_brightness,
                                devices@[i].max_brightness,
                            )
                            &&& final(self).last_error is None
                        },
                        None => {
                            &&& final(self).selected is None
                            &&& final(self).last_error is Some
                            &&& final(self).last_error->0@ == no_devices_text()
                        },
                    }
                },
                Err(e) => {
                    &&& final(self).devices@ == old(self).devices@
                    &&& final(self).selected is None
                    &&& final(self).last_error == Some(e)
                },
            },
    {
        match read {
            Ok(devices) => {
                let pick = match &self.preferred_device {
                    Some(p) => {
                        let ps = p.as_str();
                        assert(opt_str_view(Some(ps)) == opt_view(self.preferred_device));
                        select_best_device(&devices, Some(ps))
                    },
                    None => select_best_device(&devices, None),
                };
                match pick {
                    Some(i) => {
                        let d = devices[i].duplicate();
                        assert(d == devices@[i as int]);
                        let snap = snapshot_from_device(d);
                        self.selected = Some(snap);
                        self.last_error = None;
                    },
                    None => {
                        self.selected = None;
                        self.last_error = Some(owned("no backlight devices found"));
                    },
                }
                self.devices = devices;
            },
            Err(e) => {
                self.last_error = Some(e);
                self.selected = None;
            },
        }
    }

    /// The label update for the current state: the rendered text when a device
    /// is selected (shown only when the device is powered), else an error text.
    pub fn build_ui_update(&self, format: &str, format_icons: &Vec<String>) -> (r: BacklightUiUpdate)
        ensures
            match self.selected {
                Some(s) => {
                    &&& r.text@ == backlight_text(format@, s, format_icons.deep_view())
                    &&& r.visible == s.device.powered
                    &&& r.level_class@ == brightness_class(s.percent as nat)
                },
                None => {
                    &&& r.text@ == escape("backlight error: "@ + match self.last_error {
                        Some(e) => e@,
                        None => no_devices_text(),
                    })
                    &&& r.visible
                    &&& r.level_class@ == "brightness-unknown"@
                },
            },
    {
        match &self.selected {
            Some(snapshot) => BacklightUiUpdate {
                text: render_format(format, snapshot, format_icons),
                visible: snapshot.device.powered,
                level_class: brightness_css_class(snapshot.percent),
            },
            None => {
                let mut msg: Vec<char> = Vec::new();
                push_str(&mut msg, "backlight error: ");
                match &self.last_error {
                    Some(e) => push_str(&mut msg, e.as_str()),
                    None => push_str(&mut msg, "no backlight devices found"),
                }
                let m = string_from_chars(&msg);
                BacklightUiUpdate {
                    text: escape_markup_text(m.as_str()),
                    visible: true,
                    level_class: owned("brightness-unknown"),
                }
            },
        }
    }
}


/// The error text for a sysfs value that is not an integer.
pub open spec fn not_integer_message(trimmed: Seq<char>, e: IntErr) -> Seq<char> {
    "failed to parse '"@ + trimmed + "' as integer: "@ + int_err_text(e)
}

/// Reads an unsigned integer from the text of a sysfs attribute (`u64` after
/// trimming white space).
pub fn read_u64_text(raw: &str) -> (r: Result<u64, String>)
    ensures
        match parse_uint(trim(raw@), u64::MAX as nat) {
            Ok(v) => r == Ok::<u64, String>(v as u64),
            Err(e) => r matches Err(m) && m@ == not_integer_message(trim(raw@), e),
        },
{
    let t = trim_str(raw);
    match parse_u64(&t) {
        Ok(v) => Ok(v),
        Err(e) => {
            let mut m: Vec<char> = Vec::new();
            push_str(&mut m, "failed to parse '");
            crate::text::push_all(&mut m, &t);
            push_str(&mut m, "' as integer: ");
            let et = int_err_message(e);
            push_str(&mut m, et.as_str());
            Err(string_from_chars(&m))
        },
    }
}

/// Whether `bl_power` says the panel is on: it parses as a `u8` equal to 0.
pub fn powered_flag(raw: &str) -> (r: Option<bool>)
    ensures
        r == (match parse_uint(trim(raw@), 255) {
            Ok(v) => Some(v == 0),
            Err(_) => None::<bool>,
        }),
{
    let t = trim_str(raw);
    match crate::num::parse_unsigned(&t, 255) {
        Ok(v) => Some(v == 0),
        Err(_) => None,
    }
}

/// The brightness to set for a scroll step, given the step and the floor in
/// device units: `Err` when the device's maximum is 0, `None` when nothing
/// changes, else the new value (truncated to 32 bits as the D-Bus call takes).
pub open spec fn target_spec(current: u64, max: u64, increase: bool, step_abs: u64, min_abs: u64) -> Result<Option<u32>, ()> {
    if max == 0 {
        Err(())
    } else if step_abs == 0 {
        Ok(None)
    } else if !increase && current <= min_abs {
        Ok(None)
    } else {
        let target: int = if increase {
            let up = current + step_abs;
            let up = if up > u64::MAX { u64::MAX as int } else { up };
            if up > max { max as int } else { up }
        } else {
            let down = if current >= step_abs { current - step_abs } else { 0 };
            if down < min_abs { min_abs as int } else { down }
        };
        if target == current {
            Ok(None)
        } else {
            Ok(Some((target % 0x1_0000_0000) as u32))
        }
    }
}

/// A scroll step up never sets more than the device's maximum; a scroll
/// step down never sets less than the floor, and always less than before.
pub proof fn lemma_scroll_step_stays_in_range(current: u64, max: u64, increase: bool, step_abs: u64, min_abs: u64)
    requires
        max <= u32::MAX,
        current <= u32::MAX,
    ensures
        increase ==> (target_spec(current, max, increase, step_abs, min_abs) matches Ok(Some(t)) ==> t <= max),
        !increase ==> (target_spec(current, max, increase, step_abs, min_abs) matches Ok(Some(t)) ==> min_abs <= t
            && t < current),
{
}

/// What a scroll step sets, for a step of at least one unit on a device
/// whose brightness fits the 32-bit D-Bus value: a step up sets
/// `min(current + step, max)`, and nothing when that is the current value;
/// a step down does nothing at or below the floor, and otherwise sets
/// `max(current - step, floor)`.
pub proof fn lemma_scroll_step_target(current: u64, max: u64, step_abs: u64, min_abs: u64)
    requires
        0 < max <= u32::MAX,
        current <= u32::MAX,
        step_abs > 0,
    ensures
        current + step_abs <= max ==> target_spec(current, max, true, step_abs, min_abs) == Ok::<Option<u32>, ()>(
            Some((current + step_abs) as u32),
        ),
        current < max < current + step_abs ==> target_spec(current, max, true, step_abs, min_abs) == Ok::<
            Option<u32>,
            (),
        >(Some(max as u32)),
        current == max ==> target_spec(current, max, true, step_abs, min_abs) == Ok::<Option<u32>, ()>(None),
        current <= min_abs ==> target_spec(current, max, false, step_abs, min_abs) == Ok::<Option<u32>, ()>(None),
        min_abs < current && min_abs + step_abs <= current ==> target_spec(current, max, false, step_abs, min_abs)
            == Ok::<Option<u32>, ()>(Some((current - step_abs) as u32)),
        min_abs < current < min_abs + step_abs ==> target_spec(current, max, false, step_abs, min_abs) == Ok::<
            Option<u32>,
            (),
        >(Some(min_abs as u32)),
{
    assert(current + step_abs <= max ==> (current + step_abs) % 0x1_0000_0000 == current + step_abs);
    assert(max % 0x1_0000_0000 == max);
    assert(current - step_abs >= 0 ==> (current - step_abs) % 0x1_0000_0000 == current - step_abs);
    assert(min_abs < current ==> min_abs % 0x1_0000_0000 == min_abs);
}

/// Computes the brightness that a scroll step sets on `device`.
pub fn brightness_target(device: &BacklightDevice, increase: bool, step_abs: u64, min_abs: u64) -> (r: Result<Option<u32>, String>)
    ensures
        match target_spec(device.actual_brightness, device.max_brightness, increase, step_abs, min_abs) {
            Ok(t) => r == Ok::<Option<u32>, String>(t),
            Err(_) => r matches Err(m) && m@ == "backlight max_brightness is 0"@,
        },
{
    let max = device.max_brightness;
    if max == 0 {
        return Err(owned("backlight max_brightness is 0"));
    }
    if step_abs == 0 {
        return Ok(None);
    }
    let current = device.actual_brightness;
    let mut target: u64 = if increase {
        let up: u64 = if current > u64::MAX - step_abs { u64::MAX } else { current + step_abs };
        if up > max { max } else { up }
    } else {
        if current >= step_abs { current - step_abs } else { 0 }
    };
    if !increase && current <= min_abs {
        return Ok(None);
    }
    if !increase && target < min_abs {
        target = min_abs;
    }
    if target == current {
        return Ok(None);
    }
    Ok(Some((target % 0x1_0000_0000) as u32))
}

impl BacklightBackend {
    /// The selected device, or the error that no device is available.
    pub fn selected_device(&self) -> (r: Result<BacklightDevice, String>)
        ensures
            match self.selected {
                Some(s) => r == Ok::<BacklightDevice, String>(s.device),
                None => r matches Err(m) && m@ == no_devices_text(),
            },
    {
        match &self.selected {
            Some(s) => Ok(s.device.duplicate()),
            None => Err(owned("no backlight devices found")),
        }
    }
}

} // verus!
