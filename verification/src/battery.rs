//! Battery module: capacity parsing, device choice, classes and rendering.
use vstd::prelude::*;
use crate::common::{icon_for_pct, icon_for_percentage, lemma_seq_lt_asym, lemma_seq_lt_irrefl, lemma_seq_lt_total_trans, pair, seq_lt, str_lt};
use crate::markup::{escape, escape_markup_text, render_markup_template, render_template};
use crate::num::{dec, int_err_message, int_err_text, parse_uint, parse_unsigned, IntErr};
use crate::text::{
    chars_of, eq_ignore_ascii_case_str, eq_ignore_case, is_blank, is_blank_str, owned, push_all,
    push_str, starts_with, starts_with_str, string_from_chars, trim, trim_chars, trim_str,
};

verus! {

/// Module type name in the config.
pub const MODULE_TYPE: &'static str = "battery";
/// Where the kernel lists power supplies.
pub const POWER_SUPPLY_PATH: &'static str = "/sys/class/power_supply";
/// Lowest accepted refresh interval.
pub const MIN_BATTERY_INTERVAL_SECS: u32 = 1;
/// Refresh interval used when the config names none.
pub const DEFAULT_BATTERY_INTERVAL_SECS: u32 = 10;
/// Label format used when the config names none.
pub const DEFAULT_BATTERY_FORMAT: &'static str = "{capacity}% {icon}";

/// What the battery device reports.
#[derive(Debug, Clone)]
pub struct BatterySnapshot {
    pub device_name: String,
    pub capacity: u8,
    pub status: String,
}

/// What the label shows after a refresh.
#[derive(Debug, Clone)]
pub struct BatteryUiUpdate {
    pub text: String,
    pub visible: bool,
    pub level_class: String,
    pub status_class: String,
}

/// The backend's last reading and its last error.
#[derive(Debug, Clone)]
pub struct BatteryBackend {
    pub preferred_device: Option<String>,
    pub snapshot: Option<BatterySnapshot>,
    pub last_error: Option<String>,
}

/// The refresh interval actually used: at least one second.
pub fn normalized_battery_interval(interval_secs: u32) -> (r: u32)
    ensures
        r == if interval_secs < MIN_BATTERY_INTERVAL_SECS {
            MIN_BATTERY_INTERVAL_SECS
        } else {
            interval_secs
        },
{
    if interval_secs < MIN_BATTERY_INTERVAL_SECS {
        MIN_BATTERY_INTERVAL_SECS
    } else {
        interval_secs
    }
}

/// The icon list used when the config names none: five empty icons.
pub fn default_battery_icons() -> (r: Vec<String>)
    ensures
        r.deep_view() == seq![""@, ""@, ""@, ""@, ""@],
{
    let mut r: Vec<String> = Vec::new();
    let mut i: usize = 0;
    while i < 5
        invariant
            i <= 5,
            r.deep_view() == Seq::new(i as nat, |k: int| ""@),
        decreases 5 - i,
    {
        let ghost before = r;
        r.push(owned(""));
        assert(r.deep_view() =~= before.deep_view().push(""@));
        i = i + 1;
        assert(r.deep_view() =~= Seq::new(i as nat, |k: int| ""@));
    }
    assert(r.deep_view() =~= seq![""@, ""@, ""@, ""@, ""@]);
    r
}

/// Icon for a capacity (see `icon_for_pct`).
pub fn icon_for_capacity(format_icons: &Vec<String>, capacity: u8) -> (r: String)
    ensures
        r@ == icon_for_pct(format_icons.deep_view(), capacity as nat),
{
    icon_for_percentage(format_icons, capacity as u64)
}

/// The level class: critical below 15 %, low below 35 %, medium below 70 %, else high.
pub open spec fn level_class(capacity: nat) -> Seq<char> {
    if capacity < 15 {
        "battery-critical"@
    } else if capacity < 35 {
        "battery-low"@
    } else if capacity < 70 {
        "battery-medium"@
    } else {
        "battery-high"@
    }
}

/// Each capacity gets exactly one of four distinct level classes, by the
/// thresholds 15, 35 and 70: `battery-critical` exactly below 15 %,
/// `battery-low` exactly from 15 % to below 35 %, `battery-medium` exactly
/// from 35 % to below 70 %, and `battery-high` exactly from 70 %.
pub proof fn lemma_level_class_thresholds(capacity: nat)
    ensures
        level_class(capacity) == "battery-critical"@ <==> capacity < 15,
        level_class(capacity) == "battery-low"@ <==> 15 <= capacity < 35,
        level_class(capacity) == "battery-medium"@ <==> 35 <= capacity < 70,
        level_class(capacity) == "battery-high"@ <==> 70 <= capacity,
{
    reveal_strlit("battery-critical");
    reveal_strlit("battery-low");
    reveal_strlit("battery-medium");
    reveal_strlit("battery-high");
    assert("battery-critical"@ != "battery-low"@ && "battery-critical"@ != "battery-medium"@
        && "battery-critical"@ != "battery-high"@) by {
        assert("battery-critical"@[8] != "battery-low"@[8]);
        assert("battery-critical"@[8] != "battery-medium"@[8]);
        assert("battery-critical"@[8] != "battery-high"@[8]);
    }
    assert("battery-low"@ != "battery-medium"@ && "battery-low"@ != "battery-high"@) by {
        assert("battery-low"@[8] != "battery-medium"@[8]);
        assert("battery-low"@[8] != "battery-high"@[8]);
    }
    assert("battery-medium"@ != "battery-high"@) by {
        assert("battery-medium"@[8] != "battery-high"@[8]);
    }
}

/// CSS class for a capacity.
pub fn battery_level_css_class(capacity: u8) -> (r: String)
    ensures
        r@ == level_class(capacity as nat),
{
    if capacity < 15 {
        owned("battery-critical")
    } else if capacity < 35 {
        owned("battery-low")
    } else if capacity < 70 {
        owned("battery-medium")
    } else {
        owned("battery-high")
    }
}

/// The status class, matching the kernel's status names without regard to case.
pub open spec fn status_class(status: Seq<char>) -> Seq<char> {
    if eq_ignore_case(status, "charging"@) {
        "status-charging"@
    } else if eq_ignore_case(status, "discharging"@) {
        "status-discharging"@
    } else if eq_ignore_case(status, "full"@) {
        "status-full"@
    } else if eq_ignore_case(status, "not charging"@) {
        "status-not-charging"@
    } else {
        "status-unknown"@
    }
}

/// CSS class for a charging status.
pub fn battery_status_css_class(status: &str) -> (r: String)
    ensures
        r@ == status_class(status@),
{
    let s = chars_of(status);
    if eq_ignore_ascii_case_str(&s, "charging") {
        owned("status-charging")
    } else if eq_ignore_ascii_case_str(&s, "discharging") {
        owned("status-discharging")
    } else if eq_ignore_ascii_case_str(&s, "full") {
        owned("status-full")
    } else if eq_ignore_ascii_case_str(&s, "not charging") {
        owned("status-not-charging")
    } else {
        owned("status-unknown")
    }
}

/// The label text: `{capacity}`, `{percent}`, `{status}`, `{icon}` and
/// `{device}` replaced in that order, values escaped.
pub open spec fn battery_text(format: Seq<char>, s: BatterySnapshot, icons: Seq<Seq<char>>) -> Seq<char> {
    render_template(
        format,
        seq![
            ("{capacity}"@, dec(s.capacity as nat)),
            ("{percent}"@, dec(s.capacity as nat)),
            ("{status}"@, s.status@),
            ("{icon}"@, icon_for_pct(icons, s.capacity as nat)),
            ("{device}"@, s.device_name@),
        ],
    )
}

/// Renders the battery label text.
pub fn render_format(format: &str, snapshot: &BatterySnapshot, format_icons: &Vec<String>) -> (r: String)
    ensures
        r@ == battery_text(format@, *snapshot, format_icons.deep_view()),
{
    let icon = icon_for_capacity(format_icons, snapshot.capacity);
    let mut reps: Vec<(String, String)> = Vec::new();
    reps.push(pair("{capacity}", crate::num::u64_to_string(snapshot.capacity as u64)));
    reps.push(pair("{percent}", crate::num::u64_to_string(snapshot.capacity as u64)));
    reps.push(pair("{status}", snapshot.status.clone()));
    reps.push(pair("{icon}", icon));
    reps.push(pair("{device}", snapshot.device_name.clone()));
    assert(reps.deep_view() =~= seq![
        ("{capacity}"@, dec(snapshot.capacity as nat)),
        ("{percent}"@, dec(snapshot.capacity as nat)),
        ("{status}"@, snapshot.status@),
        ("{icon}"@, icon_for_pct(format_icons.deep_view(), snapshot.capacity as nat)),
        ("{device}"@, snapshot.device_name@),
    ]);
    render_markup_template(format, &reps)
}

impl BatteryBackend {
    /// A backend that has not read the device yet.
    pub fn new(preferred_device: Option<String>) -> (r: Self)
        ensures
            r.preferred_device == preferred_device,
            r.snapshot is None,
            r.last_error is None,
    {
        BatteryBackend { preferred_device, snapshot: None, last_error: None }
    }

    /// Takes in the result of reading the power-supply directory: a reading
    /// (or none when no battery exists) clears the error; a failure keeps the
    /// error and drops the reading.
    pub fn refresh_from_reading(&mut self, read: Result<Option<BatterySnapshot>, String>)
        ensures
            final(self).preferred_device == old(self).preferred_device,
            match read {
                Ok(s) => final(self).snapshot == s && final(self).last_error is None,
                Err(e) => final(self).snapshot is None && final(self).last_error == Some(e),
            },
    {
        match read {
            Ok(snapshot) => {
                self.snapshot = snapshot;
                self.last_error = None;
            },
            Err(err) => {
                self.snapshot = None;
                self.last_error = Some(err);
            },
        }
    }

    /// The label update: the rendered reading (hidden when blank), else the
    /// escaped error, else nothing at all.
    pub fn build_ui_update(&self, format: &str, format_icons: &Vec<String>) -> (r: BatteryUiUpdate)
        ensures
            match self.snapshot {
                Some(s) => {
                    &&& r.text@ == battery_text(format@, s, format_icons.deep_view())
                    &&& r.visible == !is_blank(r.text@)
                    &&& r.level_class@ == level_class(s.capacity as nat)
                    &&& r.status_class@ == status_class(s.status@)
                },
                None => match self.last_error {
                    Some(e) => {
                        &&& r.text@ == escape("battery error: "@ + e@)
                        &&& r.visible
                        &&& r.level_class@ == "battery-unknown"@
                        &&& r.status_class@ == "status-unknown"@
                    },
                    None => {
                        &&& r.text@ == Seq::<char>::empty()
                        &&& !r.visible
                        &&& r.level_class@ == "battery-unknown"@
                        &&& r.status_class@ == "status-unknown"@
                    },
                },
            },
    {
        if let Some(snapshot) = &self.snapshot {
            let text = render_format(format, snapshot, format_icons);
            let visible = !is_blank_str(text.as_str());
            return BatteryUiUpdate {
                text,
                visible,
                level_class: battery_level_css_class(snapshot.capacity),
                status_class: battery_status_css_class(snapshot.status.as_str()),
            };
        }
        if let Some(err) = &self.last_error {
            let mut m: Vec<char> = Vec::new();
            push_str(&mut m, "battery error: ");
            push_str(&mut m, err.as_str());
            let ms = string_from_chars(&m);
            return BatteryUiUpdate {
                text: escape_markup_text(ms.as_str()),
                visible: true,
                level_class: owned("battery-unknown"),
                status_class: owned("status-unknown"),
            };
        }
        proof {
            reveal_strlit("");
        }
        BatteryUiUpdate {
            text: owned(""),
            visible: false,
            level_class: owned("battery-unknown"),
            status_class: owned("status-unknown"),
        }
    }
}

/// The error text for a capacity file that is not a number.
pub open spec fn not_percentage_message(trimmed: Seq<char>, e: IntErr) -> Seq<char> {
    "failed to parse '"@ + trimmed + "' as percentage: "@ + int_err_text(e)
}

/// Reads the capacity file's text: a `u16` after trimming, capped at 100.
pub fn percentage_from_text(raw: &str) -> (r: Result<u8, String>)
    ensures
        match parse_uint(trim(raw@), u16::MAX as nat) {
            Ok(v) => r == Ok::<u8, String>(if v > 100 { 100u8 } else { v as u8 }),
            Err(e) => r matches Err(m) && m@ == not_percentage_message(trim(raw@), e),
        },
{
    let t = trim_str(raw);
    match parse_unsigned(&t, 0xffff) {
        Ok(v) => Ok(if v > 100 { 100u8 } else { v as u8 }),
        Err(e) => {
            let mut m: Vec<char> = Vec::new();
            push_str(&mut m, "failed to parse '");
            push_all(&mut m, &t);
            push_str(&mut m, "' as percentage: ");
            let et = int_err_message(e);
            push_str(&mut m, et.as_str());
            Err(string_from_chars(&m))
        },
    }
}

/// The trimmed file contents, or `default` when the file could not be read or
/// holds only white space.
pub fn trimmed_or_default(content: Option<&str>, default: &str) -> (r: String)
    ensures
        r@ == (match content {
            Some(c) => if trim(c@).len() == 0 {
                default@
            } else {
                trim(c@)
            },
            None => default@,
        }),
{
    match content {
        Some(c) => {
            let t = trim_str(c);
            if t.len() == 0 {
                owned(default)
            } else {
                string_from_chars(&t)
            }
        },
        None => owned(default),
    }
}

/// Whether a power-supply entry is a battery: a directory with a `capacity`
/// file, whose name starts with `BAT` or whose `type` reads `battery` in any case.
pub open spec fn battery_entry_spec(is_dir: bool, has_capacity: bool, name: Option<Seq<char>>, type_text: Option<Seq<char>>) -> bool {
    if !is_dir || !has_capacity {
        false
    } else {
        match name {
            None => false,
            Some(n) => if starts_with(n, "BAT"@) {
                true
            } else {
                match type_text {
                    Some(t) => eq_ignore_case(trim(t), "battery"@),
                    None => false,
                }
            },
        }
    }
}

/// Decides whether a power-supply entry is a battery from what was read of it.
pub fn is_battery_device_entry(is_dir: bool, has_capacity: bool, name: Option<&str>, type_text: Option<&str>) -> (r: bool)
    ensures
        r == battery_entry_spec(
            is_dir,
            has_capacity,
            match name {
                Some(n) => Some(n@),
                None => None,
            },
            match type_text {
                Some(t) => Some(t@),
                None => None,
            },
        ),
{
    if !is_dir || !has_capacity {
        return false;
    }
    match name {
        None => false,
        Some(n) => {
            let nv = chars_of(n);
            if starts_with_str(&nv, "BAT") {
                return true;
            }
            match type_text {
                Some(t) => {
                    let tv = trim_str(t);
                    eq_ignore_ascii_case_str(&tv, "battery")
                },
                None => false,
            }
        },
    }
}

/// The checks on a configured battery device: it must exist under the
/// power-supply directory, and be a battery.
pub fn check_preferred_battery(
    device: &str,
    root: &str,
    device_path: &str,
    exists: bool,
    is_battery: bool,
) -> (r: Result<(), String>)
    ensures
        !exists ==> (r matches Err(e) && e@ == "preferred battery device '"@ + device@ + "' not found in "@ + root@),
        exists && !is_battery ==> (r matches Err(e) && e@ == "preferred device '"@ + device_path@
            + "' is not a battery device"@),
        exists && is_battery ==> r is Ok,
{
    if !exists {
        let mut m = chars_of("preferred battery device '");
        push_str(&mut m, device);
        push_str(&mut m, "' not found in ");
        push_str(&mut m, root);
        proof {
            reveal_strlit("preferred battery device '");
            reveal_strlit("' not found in ");
        }
        return Err(string_from_chars(&m));
    }
    if !is_battery {
        let mut m = chars_of("preferred device '");
        push_str(&mut m, device_path);
        push_str(&mut m, "' is not a battery device");
        proof {
            reveal_strlit("preferred device '");
            reveal_strlit("' is not a battery device");
        }
        return Err(string_from_chars(&m));
    }
    Ok(())
}

/// `i` holds the first of the smallest names (what a stable sort by name puts first).
pub open spec fn is_first_smallest(names: Seq<Seq<char>>, i: int) -> bool {
    &&& 0 <= i < names.len()
    &&& forall|j: int| 0 <= j < names.len() ==> !seq_lt(#[trigger] names[j], names[i])
    &&& forall|j: int| 0 <= j < i ==> seq_lt(names[i], #[trigger] names[j])
}

/// Picks the candidate that sorts first by name.
pub fn first_by_name(names: &Vec<String>) -> (r: Option<usize>)
    ensures
        r is None <==> names.len() == 0,
        r matches Some(i) ==> is_first_smallest(names.deep_view(), i as int),
{
    if names.len() == 0 {
        return None;
    }
    let mut best: usize = 0;
    let mut i: usize = 1;
    proof {
        lemma_seq_lt_irrefl(names.deep_view()[0]);
    }
    while i < names.len()
        invariant
            1 <= i <= names.len(),
            best < i,
            forall|j: int| 0 <= j < i ==> !seq_lt(#[trigger] names.deep_view()[j], names.deep_view()[best as int]),
            forall|j: int| 0 <= j < best ==> seq_lt(names.deep_view()[best as int], #[trigger] names.deep_view()[j]),
        decreases names.len() - i,
    {
        if str_lt(names[i].as_str(), names[best].as_str()) {
            proof {
                assert forall|j: int| 0 <= j < i implies seq_lt(names.deep_view()[i as int], #[trigger] names.deep_view()[j]) by {
                    lemma_seq_lt_total_trans(names.deep_view()[i as int], names.deep_view()[best as int], names.deep_view()[j]);
                }
                assert forall|j: int| 0 <= j <= i implies !seq_lt(#[trigger] names.deep_view()[j], names.deep_view()[i as int]) by {
                    if j < i {
                        lemma_seq_lt_asym(names.deep_view()[i as int], names.deep_view()[j]);
                    } else {
                        lemma_seq_lt_irrefl(names.deep_view()[i as int]);
                    }
                }
            }
            best = i;
        }
        i = i + 1;
    }
    Some(best)
}

} // verus!
