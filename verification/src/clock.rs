//! The clock module: its formats and label.
use vstd::prelude::*;
use crate::markup::{render_markup_template, render_template};
use crate::text::{is_blank, is_blank_str, opt_view, owned};

verus! {

/// Module type name in the config.
pub const MODULE_TYPE: &'static str = "clock";
/// `strftime` format of the time used when the config names none.
pub const DEFAULT_CLOCK_FMT: &'static str = "%a %d. %b %H:%M:%S";
/// Label template used when the config names none; `{}` is the time.
pub const DEFAULT_CLOCK_TEMPLATE: &'static str = "{}";

/// The label template and time format used: the configured ones, else the
/// defaults.
pub fn resolve_clock_formats(format: Option<String>, time_format: Option<String>) -> (r: (String, String))
    ensures
        r.0@ == match format {
            Some(f) => f@,
            None => DEFAULT_CLOCK_TEMPLATE@,
        },
        r.1@ == match time_format {
            Some(f) => f@,
            None => DEFAULT_CLOCK_FMT@,
        },
{
    let template = match format {
        Some(f) => f,
        None => owned(DEFAULT_CLOCK_TEMPLATE),
    };
    let time_fmt = match time_format {
        Some(f) => f,
        None => owned(DEFAULT_CLOCK_FMT),
    };
    (template, time_fmt)
}

/// The label for the formatted time: `{}` replaced by the escaped time;
/// shown unless blank.
pub fn clock_label(template: &str, rendered_time: &str) -> (r: (String, bool))
    ensures
        r.0@ == render_template(template@, seq![("{}"@, rendered_time@)]),
        r.1 == !is_blank(r.0@),
{
    let mut reps: Vec<(String, String)> = Vec::new();
    reps.push((owned("{}"), owned(rendered_time)));
    assert(reps.deep_view() =~= seq![("{}"@, rendered_time@)]);
    let text = render_markup_template(template, &reps);
    let visible = !is_blank_str(text.as_str());
    (text, visible)
}

/// What chrono writes for the instant `unix_secs` seconds and
/// `subsec_nanos` nanoseconds after the Unix epoch, seen at the fixed UTC
/// offset `utc_offset_secs`, under the `strftime`-style `time_format`;
/// `None` where chrono has no such instant or offset, or the format does not
/// write.
pub uninterp spec fn chrono_time_text(unix_secs: int, subsec_nanos: nat, utc_offset_secs: int, time_format: Seq<char>) -> Option<Seq<char>>;

/// Formats an instant with chrono: `DateTime::from_timestamp`, then
/// `with_timezone` at `FixedOffset::east_opt(utc_offset_secs)`, then
/// `format(time_format)` written into a `String` with `write_to`. The
/// result is the named `chrono_time_text` of the arguments: `None` where
/// `from_timestamp` or `east_opt` give `None` or writing the format fails
/// (a format item chrono cannot read). What chrono writes for each format
/// item is not stated here.
#[verifier::external_body]
fn format_time(unix_secs: i64, subsec_nanos: u32, utc_offset_secs: i32, time_format: &str) -> (r: Option<String>)
    ensures
        opt_view(r) == chrono_time_text(unix_secs as int, subsec_nanos as nat, utc_offset_secs as int, time_format@),
{
    let offset = chrono::FixedOffset::east_opt(utc_offset_secs)?;
    let instant = chrono::DateTime::from_timestamp(unix_secs, subsec_nanos)?;
    let mut text = String::new();
    match instant.with_timezone(&offset).format(time_format).write_to(&mut text) {
        Ok(()) => Some(text),
        Err(_) => None,
    }
}

/// The clock's label at an instant (seconds and nanoseconds after the Unix
/// epoch, at the local UTC offset): the time written by chrono under
/// `time_format`, put into `template` as by `clock_label`. `None` exactly
/// where chrono cannot write the time.
pub fn clock_text(template: &str, unix_secs: i64, subsec_nanos: u32, utc_offset_secs: i32, time_format: &str) -> (r: Option<(String, bool)>)
    ensures
        match chrono_time_text(unix_secs as int, subsec_nanos as nat, utc_offset_secs as int, time_format@) {
            Some(t) => r matches Some(p) && p.0@ == render_template(template@, seq![("{}"@, t)]) && p.1 == !is_blank(p.0@),
            None => r is None,
        },
{
    match format_time(unix_secs, subsec_nanos, utc_offset_secs, time_format) {
        Some(t) => Some(clock_label(template, t.as_str())),
        None => None,
    }
}

} // verus!
