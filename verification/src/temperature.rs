//! The temperature module: sensor path, thresholds and the label.
use vstd::prelude::*;
use crate::backlight::not_integer_message;
use crate::common::{icon_for_pct, icon_for_percentage, pair};
use crate::markup::{escape, escape_markup_text, lemma_render_single_placeholder, render_markup_template, render_template};
use crate::num::{dec, int_dec, int_err_message, parse_i64, parse_i64_spec};
use crate::text::{chars_of, is_blank, is_blank_str, owned, push_all, push_str, string_from_chars, trim, trim_str};

verus! {

/// Module type name in the config.
pub const MODULE_TYPE: &'static str = "temperature";
/// Lowest accepted refresh interval.
pub const MIN_TEMPERATURE_INTERVAL_SECS: u32 = 1;
/// Refresh interval used when the config names none.
pub const DEFAULT_TEMPERATURE_INTERVAL_SECS: u32 = 10;
/// Label format used when the config names none.
pub const DEFAULT_TEMPERATURE_FORMAT: &'static str = "{temperatureC}\u{b0}C {icon}";
/// Class below the warning threshold.
pub const NORMAL_CLASS: &'static str = "temperature-normal";
/// Class at or above the warning threshold.
pub const WARNING_CLASS: &'static str = "temperature-warning";
/// Class at or above the critical threshold.
pub const CRITICAL_CLASS: &'static str = "temperature-critical";
/// Class when the sensor cannot be read.
pub const UNKNOWN_CLASS: &'static str = "temperature-unknown";

/// The refresh interval used when the config names none.
pub fn default_temperature_interval() -> (r: u32)
    ensures
        r == DEFAULT_TEMPERATURE_INTERVAL_SECS,
{
    DEFAULT_TEMPERATURE_INTERVAL_SECS
}

/// The default icons, from cold to hot.
pub fn default_temperature_icons() -> (r: Vec<String>)
    ensures
        r.deep_view() == seq!["\u{f2cb}"@, "\u{f2ca}"@, "\u{f2c9}"@, "\u{f2c8}"@, "\u{f2c7}"@],
{
    let mut r: Vec<String> = Vec::new();
    r.push(owned("\u{f2cb}"));
    r.push(owned("\u{f2ca}"));
    r.push(owned("\u{f2c9}"));
    r.push(owned("\u{f2c8}"));
    r.push(owned("\u{f2c7}"));
    assert(r.deep_view() =~= seq!["\u{f2cb}"@, "\u{f2ca}"@, "\u{f2c9}"@, "\u{f2c8}"@, "\u{f2c7}"@]);
    r
}

/// The refresh interval actually used: at least one second.
pub fn normalized_temperature_interval(interval_secs: u32) -> (r: u32)
    ensures
        r == if interval_secs < MIN_TEMPERATURE_INTERVAL_SECS {
            MIN_TEMPERATURE_INTERVAL_SECS
        } else {
            interval_secs
        },
{
    if interval_secs < MIN_TEMPERATURE_INTERVAL_SECS {
        MIN_TEMPERATURE_INTERVAL_SECS
    } else {
        interval_secs
    }
}

/// The sensor file: the configured path, else the thermal zone's file
/// (zone 0 by default).
pub open spec fn sensor_path(explicit_path: Option<String>, thermal_zone: Option<u32>) -> Seq<char> {
    match explicit_path {
        Some(p) => p@,
        None => "/sys/class/thermal/thermal_zone"@ + dec(
            match thermal_zone {
                Some(z) => z as nat,
                None => 0,
            },
        ) + "/temp"@,
    }
}

/// Resolves the sensor file to read.
pub fn resolve_temperature_sensor_path(explicit_path: Option<String>, thermal_zone: Option<u32>) -> (r: String)
    ensures
        r@ == sensor_path(explicit_path, thermal_zone),
{
    match explicit_path {
        Some(p) => p,
        None => {
            let zone: u32 = match thermal_zone {
                Some(z) => z,
                None => 0,
            };
            let mut v = chars_of("/sys/class/thermal/thermal_zone");
            let d = crate::num::u64_to_chars(zone as u64);
            push_all(&mut v, &d);
            push_str(&mut v, "/temp");
            string_from_chars(&v)
        },
    }
}

/// Reads the integer a sensor file holds (white space trimmed).
pub fn parse_temperature_raw(raw: &str) -> (r: Result<i64, String>)
    ensures
        match parse_i64_spec(trim(raw@)) {
            Ok(v) => r == Ok::<i64, String>(v as i64),
            Err(e) => r matches Err(m) && m@ == not_integer_message(trim(raw@), e),
        },
{
    let t = trim_str(raw);
    match parse_i64(&t) {
        Ok(v) => Ok(v),
        Err(e) => {
            let mut m: Vec<char> = Vec::new();
            push_str(&mut m, "failed to parse '");
            push_all(&mut m, &t);
            push_str(&mut m, "' as integer: ");
            let et = int_err_message(e);
            push_str(&mut m, et.as_str());
            Err(string_from_chars(&m))
        },
    }
}

/// The state class for a temperature (rounded to whole degrees Celsius):
/// critical at or above the critical threshold, else warning at or above
/// the warning threshold, else normal.
pub open spec fn state_class(celsius: i32, warning: Option<i32>, critical: Option<i32>) -> Seq<char> {
    if critical matches Some(c) && celsius >= c {
        CRITICAL_CLASS@
    } else if warning matches Some(w) && celsius >= w {
        WARNING_CLASS@
    } else {
        NORMAL_CLASS@
    }
}

/// The state class for a temperature in whole degrees Celsius.
pub fn temperature_state_class(celsius: i32, warning_threshold: Option<i32>, critical_threshold: Option<i32>) -> (r: String)
    ensures
        r@ == state_class(celsius, warning_threshold, critical_threshold),
{
    match critical_threshold {
        Some(c) => if celsius >= c {
            return owned(CRITICAL_CLASS);
        },
        None => {},
    }
    match warning_threshold {
        Some(w) => if celsius >= w {
            return owned(WARNING_CLASS);
        },
        None => {},
    }
    owned(NORMAL_CLASS)
}

/// The format for a state: the critical or warning format when the state
/// asks for it and one is configured, else the base format.
pub open spec fn format_for_state(class: Seq<char>, base: Seq<char>, warning: Option<String>, critical: Option<String>) -> Seq<char> {
    if class == CRITICAL_CLASS@ && critical is Some {
        critical.unwrap()@
    } else if class == WARNING_CLASS@ && warning is Some {
        warning.unwrap()@
    } else {
        base
    }
}

/// Picks the format for a state class.
pub fn temperature_format_for(class: &str, base: &str, warning: &Option<String>, critical: &Option<String>) -> (r: String)
    ensures
        r@ == format_for_state(class@, base@, *warning, *critical),
{
    proof {
        reveal_strlit("temperature-critical");
        reveal_strlit("temperature-warning");
        assert(CRITICAL_CLASS@ != WARNING_CLASS@) by {
            assert(CRITICAL_CLASS@.len() != WARNING_CLASS@.len());
        }
    }
    if crate::text::str_eq(class, CRITICAL_CLASS) {
        match critical {
            Some(c) => {
                return c.clone();
            },
            None => {},
        }
    } else if crate::text::str_eq(class, WARNING_CLASS) {
        match warning {
            Some(w) => {
                return w.clone();
            },
            None => {},
        }
    }
    owned(base)
}

/// The placeholders of the label and their values.
pub open spec fn temperature_pairs(celsius: i32, fahrenheit: i32, kelvin: i32, icons: Seq<Seq<char>>) -> Seq<(Seq<char>, Seq<char>)> {
    let clamped: nat = if celsius < 0 { 0 } else if celsius > 100 { 100 } else { celsius as nat };
    seq![
        ("{temperature_c}"@, int_dec(celsius as int)),
        ("{temperature_f}"@, int_dec(fahrenheit as int)),
        ("{temperature_k}"@, int_dec(kelvin as int)),
        ("{temperatureC}"@, int_dec(celsius as int)),
        ("{temperatureF}"@, int_dec(fahrenheit as int)),
        ("{temperatureK}"@, int_dec(kelvin as int)),
        ("{icon}"@, icon_for_pct(icons, clamped)),
    ]
}

/// Each temperature placeholder, used alone as the label's format, shows
/// the decimal of its own scale: `{temperature_c}` and `{temperatureC}`
/// the Celsius value, `{temperature_f}` and `{temperatureF}` the
/// Fahrenheit value, `{temperature_k}` and `{temperatureK}` the Kelvin
/// value.
pub proof fn lemma_placeholders_show_their_scale(celsius: i32, fahrenheit: i32, kelvin: i32, icons: Seq<Seq<char>>)
    ensures
        render_template("{temperature_c}"@, temperature_pairs(celsius, fahrenheit, kelvin, icons)) == int_dec(celsius as int),
        render_template("{temperatureC}"@, temperature_pairs(celsius, fahrenheit, kelvin, icons)) == int_dec(celsius as int),
        render_template("{temperature_f}"@, temperature_pairs(celsius, fahrenheit, kelvin, icons)) == int_dec(fahrenheit as int),
        render_template("{temperatureF}"@, temperature_pairs(celsius, fahrenheit, kelvin, icons)) == int_dec(fahrenheit as int),
        render_template("{temperature_k}"@, temperature_pairs(celsius, fahrenheit, kelvin, icons)) == int_dec(kelvin as int),
        render_template("{temperatureK}"@, temperature_pairs(celsius, fahrenheit, kelvin, icons)) == int_dec(kelvin as int),
{
    reveal_strlit("{temperature_c}");
    reveal_strlit("{temperature_f}");
    reveal_strlit("{temperature_k}");
    reveal_strlit("{temperatureC}");
    reveal_strlit("{temperatureF}");
    reveal_strlit("{temperatureK}");
    reveal_strlit("{icon}");
    let ps = temperature_pairs(celsius, fahrenheit, kelvin, icons);
    crate::num::lemma_int_dec_numeral(celsius as int);
    crate::num::lemma_int_dec_numeral(fahrenheit as int);
    crate::num::lemma_int_dec_numeral(kelvin as int);
    assert(ps[0].0[13] != ps[1].0[13] && ps[0].0[13] != ps[2].0[13] && ps[1].0[13] != ps[2].0[13]);
    assert(ps[3].0[12] != ps[4].0[12] && ps[3].0[12] != ps[5].0[12] && ps[4].0[12] != ps[5].0[12]);
    assert(forall|i: int| 0 <= i < 7 ==> (#[trigger] ps[i]).0.len() > 0 && ps[i].0[0] == '{');
    lemma_render_single_placeholder(ps[0].0, ps, 0);
    lemma_render_single_placeholder(ps[1].0, ps, 1);
    lemma_render_single_placeholder(ps[2].0, ps, 2);
    lemma_render_single_placeholder(ps[3].0, ps, 3);
    lemma_render_single_placeholder(ps[4].0, ps, 4);
    lemma_render_single_placeholder(ps[5].0, ps, 5);
}

/// Renders the label for a temperature given in whole degrees Celsius,
/// Fahrenheit and Kelvin; the icon goes by the Celsius value between 0
/// and 100.
pub fn render_temperature_format(format: &str, celsius: i32, fahrenheit: i32, kelvin: i32, format_icons: &Vec<String>) -> (r: String)
    ensures
        r@ == render_template(format@, temperature_pairs(celsius, fahrenheit, kelvin, format_icons.deep_view())),
{
    let clamped: u64 = if celsius < 0 {
        0
    } else if celsius > 100 {
        100
    } else {
        celsius as u64
    };
    let icon = icon_for_percentage(format_icons, clamped);
    let c = crate::num::i64_to_string(celsius as i64);
    let f = crate::num::i64_to_string(fahrenheit as i64);
    let k = crate::num::i64_to_string(kelvin as i64);
    let mut reps: Vec<(String, String)> = Vec::new();
    reps.push(pair("{temperature_c}", c.clone()));
    reps.push(pair("{temperature_f}", f.clone()));
    reps.push(pair("{temperature_k}", k.clone()));
    reps.push(pair("{temperatureC}", c));
    reps.push(pair("{temperatureF}", f));
    reps.push(pair("{temperatureK}", k));
    reps.push(pair("{icon}", icon));
    assert(reps.deep_view() =~= temperature_pairs(celsius, fahrenheit, kelvin, format_icons.deep_view()));
    render_markup_template(format, &reps)
}

/// What the label shows after a reading.
#[derive(Debug, Clone)]
pub struct TemperatureUiUpdate {
    pub text: String,
    pub state_class: String,
    pub visible: bool,
}

/// The update for a temperature in whole degrees: its state, the format for
/// that state, the rendered text, visible unless blank.
pub fn temperature_update(
    celsius: i32,
    fahrenheit: i32,
    kelvin: i32,
    base_format: &str,
    warning_format: &Option<String>,
    critical_format: &Option<String>,
    warning_threshold: Option<i32>,
    critical_threshold: Option<i32>,
    format_icons: &Vec<String>,
) -> (u: TemperatureUiUpdate)
    ensures
        u.state_class@ == state_class(celsius, warning_threshold, critical_threshold),
        u.text@ == render_template(
            format_for_state(
                state_class(celsius, warning_threshold, critical_threshold),
                base_format@,
                *warning_format,
                *critical_format,
            ),
            temperature_pairs(celsius, fahrenheit, kelvin, format_icons.deep_view()),
        ),
        u.visible == !is_blank(u.text@),
{
    let class = temperature_state_class(celsius, warning_threshold, critical_threshold);
    let format = temperature_format_for(class.as_str(), base_format, warning_format, critical_format);
    let text = render_temperature_format(format.as_str(), celsius, fahrenheit, kelvin, format_icons);
    let visible = !is_blank_str(text.as_str());
    TemperatureUiUpdate { text, state_class: class, visible }
}

/// The update when the sensor cannot be read.
pub fn temperature_error_update(err: &str) -> (u: TemperatureUiUpdate)
    ensures
        u.text@ == escape("temperature error: "@ + err@),
        u.state_class@ == UNKNOWN_CLASS@,
        u.visible,
{
    let mut v = chars_of("temperature error: ");
    push_str(&mut v, err);
    let s = string_from_chars(&v);
    TemperatureUiUpdate { text: escape_markup_text(s.as_str()), state_class: owned(UNKNOWN_CLASS), visible: true }
}

} // verus!
