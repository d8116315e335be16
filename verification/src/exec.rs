//! The exec module: config, refresh signals and the rendering of a
//! command's output (plain, i3blocks style or JSON).
use vstd::prelude::*;
use serde_json::Value;
use crate::markup::{escape, escape_markup_text, render_markup_template, render_template};
use crate::num::int_dec;
use crate::text::{chars_of, is_blank, is_blank_chars, is_blank_str, owned, push_all, push_str, split_whitespace_strings, split_ws, str_eq, string_from_chars, trim, trim_chars};

verus! {

/// Module type name in the config.
pub const MODULE_TYPE: &'static str = "exec";
/// Refresh interval used when the config names none.
pub const DEFAULT_EXEC_INTERVAL_SECS: u32 = 5;
/// Label format used when the config names none.
pub const DEFAULT_EXEC_FORMAT: &'static str = "{text}";
/// Error for a refresh signal below one.
pub const SIGNAL_TOO_LOW_MESSAGE: &'static str = "invalid exec module config: `signal` must be >= 1";
/// Start of the error for a refresh signal above the realtime range.
pub const SIGNAL_TOO_HIGH_PREFIX: &'static str = "invalid exec module config: `signal` must be <= ";

/// The module config as written.
#[derive(Debug, Clone)]
pub struct ExecConfig {
    pub command: String,
    pub format: String,
    pub click: Option<String>,
    pub on_click: Option<String>,
    pub interval_secs: u32,
    pub signal: Option<i32>,
    pub class: Option<String>,
}

/// The refresh interval used when the config names none.
pub fn default_exec_interval() -> (r: u32)
    ensures
        r == DEFAULT_EXEC_INTERVAL_SECS,
{
    DEFAULT_EXEC_INTERVAL_SECS
}

/// The label format used when the config names none.
pub fn default_exec_format() -> (r: String)
    ensures
        r@ == DEFAULT_EXEC_FORMAT@,
{
    owned(DEFAULT_EXEC_FORMAT)
}

// ---------------------------------------------------------------------------
// Refresh signals
// ---------------------------------------------------------------------------

/// `libc::SIGRTMIN()`: the lowest realtime signal the C library leaves to
/// programs. It is read from the C library at run time, so nothing is
/// stated of it.
#[verifier::external_body]
fn sigrtmin() -> (r: i32) {
    libc::SIGRTMIN()
}

/// `libc::SIGRTMAX()`: the highest realtime signal. Read at run time;
/// nothing is stated of it.
#[verifier::external_body]
fn sigrtmax() -> (r: i32) {
    libc::SIGRTMAX()
}

/// The signal number for refresh signal `signal` (counted from one above
/// the lowest realtime signal), or the error text: below one is refused,
/// and so is anything above `rt_max - rt_min`.
pub open spec fn signum_for(signal: int, rt_min: int, rt_max: int) -> Result<int, Seq<char>> {
    if signal < 1 {
        Err(SIGNAL_TOO_LOW_MESSAGE@)
    } else if signal > rt_max - rt_min {
        Err(SIGNAL_TOO_HIGH_PREFIX@ + int_dec(rt_max - rt_min))
    } else {
        Ok(rt_min + signal)
    }
}

/// The view of a result with a text error.
pub open spec fn result_view(r: Result<i32, String>) -> Result<int, Seq<char>> {
    match r {
        Ok(v) => Ok(v as int),
        Err(e) => Err(e@),
    }
}

/// Maps a refresh signal to a signal number, given the realtime range.
pub fn exec_signal_to_signum_with(signal: i32, rt_min: i32, rt_max: i32) -> (r: Result<i32, String>)
    ensures
        result_view(r) == signum_for(signal as int, rt_min as int, rt_max as int),
{
    if signal < 1 {
        return Err(owned(SIGNAL_TOO_LOW_MESSAGE));
    }
    let max_signal: i64 = (rt_max as i64) - (rt_min as i64);
    if (signal as i64) > max_signal {
        let mut v = chars_of(SIGNAL_TOO_HIGH_PREFIX);
        let d = crate::num::i64_to_chars(max_signal);
        push_all(&mut v, &d);
        return Err(string_from_chars(&v));
    }
    Ok(rt_min + signal)
}

/// Maps a refresh signal to a signal number of this system: the mapping of
/// `exec_signal_to_signum_with` over the realtime range that the C library
/// reports at run time.
fn exec_signal_to_signum(signal: i32) -> (r: Result<i32, String>)
    ensures
        exists|lo: i32, hi: i32| result_view(r) == #[trigger] signum_for(signal as int, lo as int, hi as int),
{
    let rt_min = sigrtmin();
    let rt_max = sigrtmax();
    let r = exec_signal_to_signum_with(signal, rt_min, rt_max);
    assert(result_view(r) == signum_for(signal as int, rt_min as int, rt_max as int));
    r
}

/// The checked `signal` setting for a realtime range: none stays none,
/// otherwise the mapping of `signum_for`.
pub open spec fn normalized_signal(signal: Option<i32>, rt_min: int, rt_max: int) -> Result<Option<int>, Seq<char>> {
    match signal {
        None => Ok(None),
        Some(s) => match signum_for(s as int, rt_min, rt_max) {
            Ok(n) => Ok(Some(n)),
            Err(e) => Err(e),
        },
    }
}

/// The view of a checked signal setting.
pub open spec fn signal_setting_view(r: Result<Option<i32>, String>) -> Result<Option<int>, Seq<char>> {
    match r {
        Ok(Some(v)) => Ok(Some(v as int)),
        Ok(None) => Ok(None),
        Err(e) => Err(e@),
    }
}

/// Checks the `signal` of the config against the realtime range of this
/// system: none stays none; a signal below one is refused; otherwise the
/// signal number, or the error when it lies beyond the range.
pub fn normalize_exec_signal(signal: Option<i32>) -> (r: Result<Option<i32>, String>)
    ensures
        exists|lo: i32, hi: i32| signal_setting_view(r) == #[trigger] normalized_signal(signal, lo as int, hi as int),
        signal is None ==> r == Ok::<Option<i32>, String>(None),
        (signal matches Some(s) && s < 1) ==> (r matches Err(e) && e@ == SIGNAL_TOO_LOW_MESSAGE@),
{
    match signal {
        None => {
            assert(signal_setting_view(Ok(None)) == normalized_signal(signal, 0, 0));
            Ok(None)
        },
        Some(s) => {
            let m = exec_signal_to_signum(s);
            let ghost (lo, hi) = choose|lo: i32, hi: i32| result_view(m) == #[trigger] signum_for(s as int, lo as int, hi as int);
            let r = match m {
                Ok(n) => Ok(Some(n)),
                Err(e) => Err(e),
            };
            assert(signal_setting_view(r) == normalized_signal(signal, lo as int, hi as int));
            r
        },
    }
}

// ---------------------------------------------------------------------------
// Rendered output
// ---------------------------------------------------------------------------

/// What the label shows after a run of the command.
#[derive(Debug, Clone, PartialEq, Eq)]
pub struct ExecRenderedOutput {
    pub text: String,
    pub classes: Vec<String>,
    pub visible: bool,
}

/// The output has this text, these classes and this visibility.
pub open spec fn output_is(o: ExecRenderedOutput, text: Seq<char>, classes: Seq<Seq<char>>, visible: bool) -> bool {
    o.text@ == text && o.classes.deep_view() == classes && o.visible == visible
}

impl ExecRenderedOutput {
    /// Nothing to show.
    pub fn empty() -> (r: Self)
        ensures
            output_is(r, Seq::empty(), Seq::empty(), false),
    {
        let r = ExecRenderedOutput { text: String::new(), classes: Vec::new(), visible: false };
        assert(r.classes.deep_view() =~= Seq::<Seq<char>>::empty());
        r
    }
}

/// The label markup: `{}` and `{text}` replaced by the text, then each
/// JSON field, all escaped.
pub open spec fn exec_markup(text: Seq<char>, vars: Seq<(Seq<char>, Seq<char>)>, template: Seq<char>) -> Seq<char> {
    render_template(template, seq![("{}"@, text), ("{text}"@, text)] + vars)
}

/// Renders the text with the format; the label is visible unless the text
/// is blank.
pub fn apply_exec_format(
    text: String,
    classes: Vec<String>,
    json_vars: Vec<(String, String)>,
    template: &str,
) -> (r: ExecRenderedOutput)
    ensures
        output_is(r, exec_markup(text@, json_vars.deep_view(), template@), classes.deep_view(), !is_blank(text@)),
{
    let visible = !is_blank_str(text.as_str());
    let ghost tv = text@;
    let mut reps: Vec<(String, String)> = Vec::new();
    reps.push((owned("{}"), text.clone()));
    reps.push((owned("{text}"), text));
    let ghost head = reps.deep_view();
    assert(head =~= seq![("{}"@, tv), ("{text}"@, tv)]);
    let mut i: usize = 0;
    while i < json_vars.len()
        invariant
            i <= json_vars.len(),
            reps.deep_view() == head + json_vars.deep_view().take(i as int),
        decreases json_vars.len() - i,
    {
        let ghost before = reps.deep_view();
        reps.push((json_vars[i].0.clone(), json_vars[i].1.clone()));
        assert(reps.deep_view() =~= before.push(json_vars.deep_view()[i as int]));
        assert(json_vars.deep_view().take(i + 1) =~= json_vars.deep_view().take(i as int).push(
            json_vars.deep_view()[i as int],
        ));
        i = i + 1;
    }
    assert(json_vars.deep_view().take(json_vars.len() as int) =~= json_vars.deep_view());
    let rendered = render_markup_template(template, &reps);
    ExecRenderedOutput { text: rendered, classes, visible }
}

// ---------------------------------------------------------------------------
// i3blocks style output
// ---------------------------------------------------------------------------

/// `s` without trailing `\r` and `\n`.
pub open spec fn trim_newlines(s: Seq<char>) -> Seq<char>
    decreases s.len(),
{
    if s.len() > 0 && (s.last() == '\r' || s.last() == '\n') {
        trim_newlines(s.drop_last())
    } else {
        s
    }
}

/// `s` without trailing `\r`.
pub open spec fn trim_cr(s: Seq<char>) -> Seq<char>
    decreases s.len(),
{
    if s.len() > 0 && s.last() == '\r' {
        trim_cr(s.drop_last())
    } else {
        s
    }
}

/// Drops trailing characters while `cr_only` (only `\r`) or any line break.
fn trim_end_breaks(s: &Vec<char>, cr_only: bool) -> (r: Vec<char>)
    ensures
        r@ == if cr_only { trim_cr(s@) } else { trim_newlines(s@) },
{
    let mut n = s.len();
    assert(s@.take(s.len() as int) =~= s@);
    while n > 0 && (s[n - 1] == '\r' || (!cr_only && s[n - 1] == '\n'))
        invariant
            n <= s.len(),
            (if cr_only { trim_cr(s@) } else { trim_newlines(s@) }) == (if cr_only {
                trim_cr(s@.take(n as int))
            } else {
                trim_newlines(s@.take(n as int))
            }),
        decreases n,
    {
        assert(s@.take(n as int).drop_last() =~= s@.take(n - 1));
        n = n - 1;
    }
    assert(s@.take(s.len() as int) =~= s@);
    crate::text::sub_chars(s, 0, n)
}

/// The pieces of `s` split at `\n`, as scanned so far, and the piece being read.
pub open spec fn piece_scan(s: Seq<char>) -> (Seq<Seq<char>>, Seq<char>)
    decreases s.len(),
{
    if s.len() == 0 {
        (Seq::empty(), Seq::empty())
    } else {
        let prev = piece_scan(s.drop_last());
        if s.last() == '\n' {
            (prev.0.push(prev.1), Seq::empty())
        } else {
            (prev.0, prev.1.push(s.last()))
        }
    }
}

/// `str::split('\n')`: always at least one piece.
pub open spec fn split_newlines(s: Seq<char>) -> Seq<Seq<char>> {
    piece_scan(s).0.push(piece_scan(s).1)
}

/// Splits at `\n`.
fn split_newline_pieces(s: &Vec<char>) -> (r: Vec<Vec<char>>)
    ensures
        r.deep_view() == split_newlines(s@),
        r.len() >= 1,
        forall|i: int| 0 <= i < r.len() ==> #[trigger] r.deep_view()[i] == r@[i]@,
{
    let mut pieces: Vec<Vec<char>> = Vec::new();
    let mut cur: Vec<char> = Vec::new();
    let mut i: usize = 0;
    while i < s.len()
        invariant
            i <= s.len(),
            pieces.deep_view() == piece_scan(s@.take(i as int)).0,
            cur@ == piece_scan(s@.take(i as int)).1,
        decreases s.len() - i,
    {
        assert(s@.take(i + 1).drop_last() =~= s@.take(i as int));
        assert(s@.take(i + 1).last() == s@[i as int]);
        if s[i] == '\n' {
            let ghost before = pieces.deep_view();
            let done = cur;
            pieces.push(done);
            proof {
                crate::text::lemma_chars_deep_view(done);
            }
            assert(pieces.deep_view() =~= before.push(done@));
            cur = Vec::new();
        } else {
            cur.push(s[i]);
        }
        i = i + 1;
    }
    assert(s@.take(s.len() as int) =~= s@);
    let ghost before = pieces.deep_view();
    let last = cur;
    pieces.push(last);
    proof {
        crate::text::lemma_chars_deep_view(last);
    }
    assert(pieces.deep_view() =~= before.push(last@));
    assert forall|i: int| 0 <= i < pieces.len() implies #[trigger] pieces.deep_view()[i] == pieces@[i]@ by {
        crate::text::lemma_chars_deep_view(pieces@[i]);
    }
    pieces
}

/// The i3blocks reading of output: the first line is the text and the
/// third line, if any, the white-space separated classes (each line
/// without trailing `\r`).
pub open spec fn i3blocks_parts(raw: Seq<char>) -> (Seq<char>, Seq<Seq<char>>) {
    let lines = split_newlines(raw);
    (trim_cr(lines[0]), if lines.len() >= 3 { split_ws(trim_cr(lines[2])) } else { Seq::empty() })
}

/// Renders i3blocks style output.
pub fn parse_i3blocks_exec_output(raw: &str, format: &str) -> (r: ExecRenderedOutput)
    ensures
        output_is(
            r,
            exec_markup(i3blocks_parts(raw@).0, Seq::empty(), format@),
            i3blocks_parts(raw@).1,
            !is_blank(i3blocks_parts(raw@).0),
        ),
{
    let v = chars_of(raw);
    let pieces = split_newline_pieces(&v);
    assert(pieces.deep_view()[0] == pieces@[0]@);
    let first = trim_end_breaks(&pieces[0], true);
    let classes = if pieces.len() >= 3 {
        assert(pieces.deep_view()[2] == pieces@[2]@);
        let third = trim_end_breaks(&pieces[2], true);
        split_whitespace_strings(&third)
    } else {
        Vec::new()
    };
    let text = string_from_chars(&first);
    let vars: Vec<(String, String)> = Vec::new();
    assert(vars.deep_view() =~= Seq::<(Seq<char>, Seq<char>)>::empty());
    assert(classes.deep_view() =~= i3blocks_parts(raw@).1);
    apply_exec_format(text, classes, vars, format)
}

// ---------------------------------------------------------------------------
// JSON output
// ---------------------------------------------------------------------------

/// A field of a JSON object as the module reads it.
#[derive(Debug, Clone)]
pub enum JsonValue {
    /// A string.
    Text(String),
    /// A number, in the text `serde_json` writes for it.
    Number(String),
    /// `true` or `false`.
    Bool(bool),
    /// An array; its string items, and `None` for each other item.
    List(Vec<Option<String>>),
    /// `null` or an object.
    Other,
}

/// The view of a JSON field.
pub enum JsonValueView {
    Text(Seq<char>),
    Number(Seq<char>),
    Bool(bool),
    List(Seq<Option<Seq<char>>>),
    Other,
}

/// What the command's output is as JSON.
#[derive(Debug, Clone)]
pub enum JsonDocument {
    /// Not JSON.
    Invalid,
    /// JSON, but not an object.
    NotObject,
    /// An object: its fields in the order the parsed map holds them.
    Object(Vec<(String, JsonValue)>),
}

/// The view of a JSON document.
pub enum JsonDocumentView {
    Invalid,
    NotObject,
    Object(Seq<(Seq<char>, JsonValueView)>),
}

/// The view of an optional string.
pub open spec fn opt_text(o: Option<String>) -> Option<Seq<char>> {
    match o {
        Some(s) => Some(s@),
        None => None,
    }
}

impl View for JsonValue {
    type V = JsonValueView;

    open spec fn view(&self) -> JsonValueView {
        match self {
            JsonValue::Text(s) => JsonValueView::Text(s@),
            JsonValue::Number(s) => JsonValueView::Number(s@),
            JsonValue::Bool(b) => JsonValueView::Bool(*b),
            JsonValue::List(items) => JsonValueView::List(items@.map_values(|o: Option<String>| opt_text(o))),
            JsonValue::Other => JsonValueView::Other,
        }
    }
}

/// The view of the fields of an object.
pub open spec fn fields_view(v: Seq<(String, JsonValue)>) -> Seq<(Seq<char>, JsonValueView)> {
    v.map_values(|e: (String, JsonValue)| (e.0@, e.1@))
}

impl View for JsonDocument {
    type V = JsonDocumentView;

    open spec fn view(&self) -> JsonDocumentView {
        match self {
            JsonDocument::Invalid => JsonDocumentView::Invalid,
            JsonDocument::NotObject => JsonDocumentView::NotObject,
            JsonDocument::Object(fields) => JsonDocumentView::Object(fields_view(fields@)),
        }
    }
}

/// What `serde_json::from_str::<Value>` makes of a text, read as above.
pub uninterp spec fn json_document(raw: Seq<char>) -> JsonDocumentView;

/// Parses text as JSON with `serde_json::from_str::<serde_json::Value>`
/// and reads the fields of an object. The result is the named
/// `json_document` of the text; what `serde_json` accepts and how it writes
/// numbers is not stated here.
#[verifier::external_body]
fn parse_json_document(raw: &str) -> (r: JsonDocument)
    ensures
        r@ == json_document(raw@),
{
    let map = match serde_json::from_str::<Value>(raw) {
        Err(_) => return JsonDocument::Invalid,
        Ok(Value::Object(map)) => map,
        Ok(_) => return JsonDocument::NotObject,
    };
    JsonDocument::Object(map.into_iter().map(|(key, value)| (key, match value {
        Value::String(s) => JsonValue::Text(s),
        Value::Number(n) => JsonValue::Number(n.to_string()),
        Value::Bool(b) => JsonValue::Bool(b),
        Value::Array(items) => JsonValue::List(items.into_iter().map(|i| match i { Value::String(s) => Some(s), _ => None }).collect()),
        _ => JsonValue::Other,
    })).collect())
}

/// The value of the first field named `key`.
pub open spec fn json_lookup(fields: Seq<(Seq<char>, JsonValueView)>, key: Seq<char>) -> Option<JsonValueView>
    decreases fields.len(),
{
    if fields.len() == 0 {
        None
    } else if fields[0].0 == key {
        Some(fields[0].1)
    } else {
        json_lookup(fields.drop_first(), key)
    }
}

/// Finds the first field named `key`.
fn find_field<'a>(fields: &'a Vec<(String, JsonValue)>, key: &str) -> (r: Option<&'a JsonValue>)
    ensures
        match r {
            Some(v) => json_lookup(fields_view(fields@), key@) == Some(v@),
            None => json_lookup(fields_view(fields@), key@) is None,
        },
{
    let ghost all = fields_view(fields@);
    let mut i: usize = 0;
    assert(all.skip(0) =~= all);
    while i < fields.len()
        invariant
            all == fields_view(fields@),
            i <= fields.len(),
            json_lookup(all, key@) == json_lookup(all.skip(i as int), key@),
        decreases fields.len() - i,
    {
        assert(all.skip(i as int)[0] == (fields@[i as int].0@, fields@[i as int].1@));
        if str_eq(fields[i].0.as_str(), key) {
            return Some(&fields[i].1);
        }
        assert(all.skip(i as int).drop_first() =~= all.skip(i + 1));
        i = i + 1;
    }
    assert(all.skip(i as int).len() == 0);
    None
}

/// The text of the `text` field: empty unless it is a string.
pub open spec fn json_text(fields: Seq<(Seq<char>, JsonValueView)>) -> Seq<char> {
    match json_lookup(fields, "text"@) {
        Some(JsonValueView::Text(s)) => s,
        _ => Seq::empty(),
    }
}

/// The classes named by the string items of a `class` array, in order.
pub open spec fn list_classes(items: Seq<Option<Seq<char>>>) -> Seq<Seq<char>>
    decreases items.len(),
{
    if items.len() == 0 {
        Seq::empty()
    } else {
        list_classes(items.drop_last()) + match items.last() {
            Some(s) => split_ws(s),
            None => Seq::empty(),
        }
    }
}

/// The classes of the `class` field: the words of a string, or of each
/// string item of an array.
pub open spec fn json_classes(fields: Seq<(Seq<char>, JsonValueView)>) -> Seq<Seq<char>> {
    match json_lookup(fields, "class"@) {
        Some(JsonValueView::Text(s)) => split_ws(s),
        Some(JsonValueView::List(items)) => list_classes(items),
        _ => Seq::empty(),
    }
}

/// The placeholder `{key}` of a field.
pub open spec fn placeholder(key: Seq<char>) -> Seq<char> {
    seq!['{'] + key + seq!['}']
}

/// The placeholders the fields fill: each string, number or boolean field
/// gives `{key}` and its text, in field order.
pub open spec fn json_vars(fields: Seq<(Seq<char>, JsonValueView)>) -> Seq<(Seq<char>, Seq<char>)>
    decreases fields.len(),
{
    if fields.len() == 0 {
        Seq::empty()
    } else {
        let prev = json_vars(fields.drop_last());
        let f = fields.last();
        match f.1 {
            JsonValueView::Text(s) => prev.push((placeholder(f.0), s)),
            JsonValueView::Number(s) => prev.push((placeholder(f.0), s)),
            JsonValueView::Bool(b) => prev.push((placeholder(f.0), if b { "true"@ } else { "false"@ })),
            _ => prev,
        }
    }
}

/// The words of a text as strings.
fn words_of(s: &String) -> (r: Vec<String>)
    ensures
        r.deep_view() == split_ws(s@),
{
    let v = chars_of(s.as_str());
    split_whitespace_strings(&v)
}

/// The classes of a `class` array.
fn classes_of_list(items: &Vec<Option<String>>) -> (r: Vec<String>)
    ensures
        r.deep_view() == list_classes(items@.map_values(|o: Option<String>| opt_text(o))),
{
    let ghost all = items@.map_values(|o: Option<String>| opt_text(o));
    let mut out: Vec<String> = Vec::new();
    let mut i: usize = 0;
    while i < items.len()
        invariant
            all == items@.map_values(|o: Option<String>| opt_text(o)),
            i <= items.len(),
            out.deep_view() == list_classes(all.take(i as int)),
        decreases items.len() - i,
    {
        assert(all.take(i + 1).drop_last() =~= all.take(i as int));
        assert(all.take(i + 1).last() == opt_text(items@[i as int]));
        match &items[i] {
            Some(s) => {
                let words = words_of(s);
                let mut j: usize = 0;
                let ghost base = out.deep_view();
                while j < words.len()
                    invariant
                        j <= words.len(),
                        out.deep_view() == base + words.deep_view().take(j as int),
                    decreases words.len() - j,
                {
                    let ghost before = out.deep_view();
                    out.push(words[j].clone());
                    assert(out.deep_view() =~= before.push(words.deep_view()[j as int]));
                    assert(words.deep_view().take(j + 1) =~= words.deep_view().take(j as int).push(
                        words.deep_view()[j as int],
                    ));
                    j = j + 1;
                }
                assert(words.deep_view().take(words.len() as int) =~= words.deep_view());
            },
            None => {
                assert(out.deep_view() =~= list_classes(all.take(i as int)) + Seq::<Seq<char>>::empty());
            },
        }
        i = i + 1;
    }
    assert(all.take(items.len() as int) =~= all);
    out
}

/// The `{key}` placeholders filled by the fields.
fn vars_of_fields(fields: &Vec<(String, JsonValue)>) -> (r: Vec<(String, String)>)
    ensures
        r.deep_view() == json_vars(fields_view(fields@)),
{
    let ghost all = fields_view(fields@);
    let mut out: Vec<(String, String)> = Vec::new();
    let mut i: usize = 0;
    while i < fields.len()
        invariant
            all == fields_view(fields@),
            i <= fields.len(),
            out.deep_view() == json_vars(all.take(i as int)),
        decreases fields.len() - i,
    {
        assert(all.take(i + 1).drop_last() =~= all.take(i as int));
        assert(all.take(i + 1).last() == (fields@[i as int].0@, fields@[i as int].1@));
        let mut key = chars_of("{");
        push_str(&mut key, fields[i].0.as_str());
        push_str(&mut key, "}");
        proof {
            reveal_strlit("{");
            reveal_strlit("}");
        }
        assert(key@ =~= placeholder(fields@[i as int].0@));
        let value: Option<String> = match &fields[i].1 {
            JsonValue::Text(s) => Some(s.clone()),
            JsonValue::Number(s) => Some(s.clone()),
            JsonValue::Bool(b) => if *b {
                Some(owned("true"))
            } else {
                Some(owned("false"))
            },
            _ => None,
        };
        match value {
            Some(v) => {
                let ghost before = out.deep_view();
                let k = string_from_chars(&key);
                out.push((k, v));
                assert(out.deep_view() =~= before.push((k@, v@)));
            },
            None => {},
        }
        i = i + 1;
    }
    assert(all.take(fields.len() as int) =~= all);
    out
}

/// The output for a JSON object: its text, classes and placeholders.
pub open spec fn json_output_is(r: ExecRenderedOutput, fields: Seq<(Seq<char>, JsonValueView)>, format: Seq<char>) -> bool {
    output_is(
        r,
        exec_markup(json_text(fields), json_vars(fields), format),
        json_classes(fields),
        !is_blank(json_text(fields)),
    )
}

/// Renders a JSON object.
pub fn parse_json_exec_output(fields: &Vec<(String, JsonValue)>, format: &str) -> (r: ExecRenderedOutput)
    ensures
        json_output_is(r, fields_view(fields@), format@),
{
    let text = match find_field(fields, "text") {
        Some(JsonValue::Text(s)) => s.clone(),
        _ => String::new(),
    };
    let classes = match find_field(fields, "class") {
        Some(JsonValue::Text(s)) => words_of(s),
        Some(JsonValue::List(items)) => classes_of_list(items),
        _ => {
            let c: Vec<String> = Vec::new();
            assert(c.deep_view() =~= Seq::<Seq<char>>::empty());
            c
        },
    };
    let vars = vars_of_fields(fields);
    apply_exec_format(text, classes, vars, format)
}

/// The output for command output, trimmed of trailing line breaks, read
/// as JSON (`doc`) or, when it is not JSON, i3blocks style.
pub open spec fn document_output_is(r: ExecRenderedOutput, trimmed: Seq<char>, doc: JsonDocumentView, format: Seq<char>) -> bool {
    match doc {
        JsonDocumentView::Invalid => output_is(
            r,
            exec_markup(i3blocks_parts(trimmed).0, Seq::empty(), format),
            i3blocks_parts(trimmed).1,
            !is_blank(i3blocks_parts(trimmed).0),
        ),
        JsonDocumentView::NotObject => output_is(r, exec_markup(Seq::empty(), Seq::empty(), format), Seq::empty(), false),
        JsonDocumentView::Object(fields) => json_output_is(r, fields, format),
    }
}

/// Renders command output given what it is as JSON.
pub fn exec_output_from_document(trimmed: &str, doc: &JsonDocument, format: &str) -> (r: ExecRenderedOutput)
    ensures
        document_output_is(r, trimmed@, doc@, format@),
{
    match doc {
        JsonDocument::Invalid => parse_i3blocks_exec_output(trimmed, format),
        JsonDocument::NotObject => {
            let vars: Vec<(String, String)> = Vec::new();
            assert(vars.deep_view() =~= Seq::<(Seq<char>, Seq<char>)>::empty());
            let r = apply_exec_format(String::new(), Vec::new(), vars, format);
            assert(r.classes.deep_view() =~= Seq::<Seq<char>>::empty());
            assert(is_blank(Seq::<char>::empty()));
            r
        },
        JsonDocument::Object(fields) => parse_json_exec_output(fields, format),
    }
}

/// Renders a command's standard output: nothing for output that is empty
/// once trailing line breaks are dropped; otherwise as
/// `exec_output_from_document` says of what `serde_json` makes of it.
pub fn parse_exec_output(raw: &str, format: &str) -> (r: ExecRenderedOutput)
    ensures
        trim_newlines(raw@).len() == 0 ==> output_is(r, Seq::empty(), Seq::empty(), false),
        trim_newlines(raw@).len() > 0 ==> document_output_is(
            r,
            trim_newlines(raw@),
            json_document(trim_newlines(raw@)),
            format@,
        ),
{
    let v = chars_of(raw);
    let t = trim_end_breaks(&v, false);
    if t.len() == 0 {
        return ExecRenderedOutput::empty();
    }
    let trimmed = string_from_chars(&t);
    let doc = parse_json_document(trimmed.as_str());
    exec_output_from_document(trimmed.as_str(), &doc, format)
}

/// What a run of the command shows: its standard output unless blank,
/// else its trimmed standard error as plain text, else nothing.
pub fn exec_output_from_streams(stdout: &str, stderr: &str, format: &str) -> (r: ExecRenderedOutput)
    ensures
        !is_blank(stdout@) ==> document_output_is(
            r,
            trim_newlines(stdout@),
            json_document(trim_newlines(stdout@)),
            format@,
        ),
        is_blank(stdout@) && !is_blank(stderr@) ==> output_is(
            r,
            exec_markup(trim(stderr@), Seq::empty(), format@),
            Seq::empty(),
            true,
        ),
        is_blank(stdout@) && is_blank(stderr@) ==> output_is(r, Seq::empty(), Seq::empty(), false),
{
    if !is_blank_str(stdout) {
        proof {
            lemma_blank_trim_newlines(stdout@);
        }
        return parse_exec_output(stdout, format);
    }
    if !is_blank_str(stderr) {
        let ev = chars_of(stderr);
        let t = trim_chars(&ev);
        proof {
            crate::text::lemma_trim_blank(stderr@);
        }
        let text = string_from_chars(&t);
        let vars: Vec<(String, String)> = Vec::new();
        assert(vars.deep_view() =~= Seq::<(Seq<char>, Seq<char>)>::empty());
        let r = apply_exec_format(text, Vec::new(), vars, format);
        assert(r.classes.deep_view() =~= Seq::<Seq<char>>::empty());
        return r;
    }
    ExecRenderedOutput::empty()
}

/// Output that is not blank keeps something once trailing line breaks go.
proof fn lemma_blank_trim_newlines(s: Seq<char>)
    requires
        !is_blank(s),
    ensures
        trim_newlines(s).len() > 0,
    decreases s.len(),
{
    if s.len() > 0 && (s.last() == '\r' || s.last() == '\n') {
        assert(crate::text::is_ws(s.last()));
        if is_blank(s.drop_last()) {
            assert forall|i: int| 0 <= i < s.len() implies crate::text::is_ws(#[trigger] s[i]) by {
                if i < s.len() - 1 {
                    assert(s[i] == s.drop_last()[i]);
                }
            }
        }
        lemma_blank_trim_newlines(s.drop_last());
    }
}

/// What the label shows when the command cannot be started.
pub fn exec_error_output(err: &str) -> (r: ExecRenderedOutput)
    ensures
        output_is(r, escape("exec error: "@ + err@), Seq::empty(), true),
{
    let mut v = chars_of("exec error: ");
    push_str(&mut v, err);
    let s = string_from_chars(&v);
    let text = escape_markup_text(s.as_str());
    let r = ExecRenderedOutput { text, classes: Vec::new(), visible: true };
    assert(r.classes.deep_view() =~= Seq::<Seq<char>>::empty());
    r
}

} // verus!
