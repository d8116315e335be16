use vibar::common::check_module_type;
use vibar::exec::{
    apply_exec_format, default_exec_format, default_exec_interval, exec_error_output,
    exec_output_from_document, exec_output_from_streams, exec_signal_to_signum_with,
    normalize_exec_signal, parse_exec_output, ExecRenderedOutput, JsonDocument, JsonValue,
    MODULE_TYPE,
};
use vibar::intervals::normalized_exec_interval;
use vibar::registry::Broadcaster;

#[test]
fn normalized_exec_interval_enforces_lower_bound() {
    assert_eq!(normalized_exec_interval(0), 1);
    assert_eq!(normalized_exec_interval(1), 1);
    assert_eq!(normalized_exec_interval(10), 10);
}

#[test]
fn exec_parse_config_rejects_wrong_module_type() {
    let err = check_module_type(MODULE_TYPE, "clock").expect_err("wrong type should fail");
    assert!(err.contains("expected module type 'exec'"));
}

#[test]
fn normalize_exec_signal_accepts_none() {
    assert_eq!(normalize_exec_signal(None).expect("none should be valid"), None);
}

#[test]
fn normalize_exec_signal_rejects_zero() {
    let err = normalize_exec_signal(Some(0)).expect_err("signal=0 should be invalid");
    assert!(err.contains("`signal` must be >= 1"));
}

#[test]
fn normalize_exec_signal_maps_to_realtime_signal_number() {
    let signum = normalize_exec_signal(Some(8))
        .expect("signal=8 should be valid")
        .expect("signal number should be present");
    assert_eq!(signum, libc::SIGRTMIN() + 8);
}

#[test]
fn normalize_exec_signal_rejects_values_above_rtmax() {
    let max_signal = libc::SIGRTMAX() - libc::SIGRTMIN();
    let err = normalize_exec_signal(Some(max_signal + 1))
        .expect_err("signal above rtmax should be invalid");
    assert!(err.contains("`signal` must be <="));
}

#[test]
fn signal_mapping_with_a_given_range() {
    assert_eq!(exec_signal_to_signum_with(3, 34, 64), Ok(37));
    assert_eq!(exec_signal_to_signum_with(30, 34, 64), Ok(64));
    assert_eq!(
        exec_signal_to_signum_with(31, 34, 64),
        Err("invalid exec module config: `signal` must be <= 30".to_string())
    );
    assert_eq!(
        exec_signal_to_signum_with(-2, 34, 64),
        Err("invalid exec module config: `signal` must be >= 1".to_string())
    );
}

#[test]
fn parse_exec_output_supports_i3blocks_style_class_line() {
    let output = parse_exec_output("42%\n\nmedium", "{text}");
    assert_eq!(output.text, "42%");
    assert_eq!(output.classes, vec!["medium"]);
    assert!(output.visible);
}

#[test]
fn parse_exec_output_supports_json_class_string() {
    let output = parse_exec_output(r#"{"text":"42%","class":"medium warning"}"#, "{text}");
    assert_eq!(output.text, "42%");
    assert_eq!(output.classes, vec!["medium", "warning"]);
    assert!(output.visible);
}

#[test]
fn parse_exec_output_supports_json_class_array() {
    let output = parse_exec_output(r#"{"text":"42%","class":["medium","battery"]}"#, "{text}");
    assert_eq!(output.text, "42%");
    assert_eq!(output.classes, vec!["medium", "battery"]);
    assert!(output.visible);
}

#[test]
fn parse_exec_output_applies_template_to_plain_text() {
    let output = parse_exec_output("42%", "<span style=\"italic\">{}</span>");
    assert_eq!(output.text, "<span style=\"italic\">42%</span>");
    assert!(output.visible);
}

#[test]
fn parse_exec_output_maps_json_fields_into_template() {
    let output = parse_exec_output(
        r#"{"text":"42%","host":"n1","temp":66,"ok":true}"#,
        "{host} {text} {temp} {ok}",
    );
    assert_eq!(output.text, "n1 42% 66 true");
    assert!(output.visible);
}

#[test]
fn parse_exec_output_escapes_template_values() {
    let output = parse_exec_output(r#"{"text":"<b>x</b>","name":"a&b"}"#, "<span>{name} {text}</span>");
    assert_eq!(output.text, "<span>a&amp;b &lt;b&gt;x&lt;/b&gt;</span>");
    assert!(output.visible);
}

#[test]
fn parse_exec_output_hides_when_text_is_empty() {
    let output = parse_exec_output(r#"{"text":"","class":"idle"}"#, "{text}");
    assert_eq!(output.text, "");
    assert_eq!(output.classes, vec!["idle"]);
    assert!(!output.visible);
}

#[test]
fn output_edge_cases() {
    let blank = parse_exec_output("\r\n\n", "x{text}");
    assert_eq!(blank, ExecRenderedOutput { text: String::new(), classes: Vec::new(), visible: false });
    let number = parse_exec_output("42", "<{text}>");
    assert_eq!(number.text, "<>");
    assert!(!number.visible);
    let lines = parse_exec_output("a\r\nb\r\n c  d \r\n", "{}");
    assert_eq!(lines.text, "a");
    assert_eq!(lines.classes, vec!["c", "d"]);
    assert_eq!(default_exec_format(), "{text}");
    assert_eq!(default_exec_interval(), 5);
}

#[test]
fn documents_render_without_parsing() {
    let doc = JsonDocument::Object(vec![
        ("class".to_string(), JsonValue::List(vec![Some("a b".to_string()), None, Some("c".to_string())])),
        ("n".to_string(), JsonValue::Number("1.5".to_string())),
        ("text".to_string(), JsonValue::Text("t".to_string())),
        ("z".to_string(), JsonValue::Other),
    ]);
    let output = exec_output_from_document("ignored", &doc, "{text} {n} {z}");
    assert_eq!(output.text, "t 1.5 {z}");
    assert_eq!(output.classes, vec!["a", "b", "c"]);
    let plain = exec_output_from_document("x\ny\nz w", &JsonDocument::Invalid, "{}");
    assert_eq!(plain.classes, vec!["z", "w"]);
    let formatted = apply_exec_format(" ".to_string(), Vec::new(), vec![("{a}".to_string(), "&".to_string())], "{a}{}");
    assert_eq!(formatted.text, "&amp; ");
    assert!(!formatted.visible);
}

#[test]
fn streams_prefer_stdout_then_stderr() {
    let out = exec_output_from_streams("out", "err", "{text}");
    assert_eq!(out.text, "out");
    let err = exec_output_from_streams("  \n", "  err-only \n", "{text}");
    assert_eq!(err.text, "err-only");
    assert!(err.visible);
    let none = exec_output_from_streams("", " ", "{text}");
    assert_eq!(none.text, "");
    assert!(!none.visible);
    assert_eq!(exec_error_output("no <sh>").text, "exec error: no &lt;sh&gt;");
}

fn rendered(text: &str, class: &str) -> ExecRenderedOutput {
    ExecRenderedOutput { text: text.to_string(), classes: vec![class.to_string()], visible: true }
}

#[test]
fn shared_exec_backend_broadcasts_to_all_subscribers() {
    let mut backend = Broadcaster::new();
    let (a, _) = backend.subscribe();
    let (b, _) = backend.subscribe();
    let targets = backend.broadcast(rendered("42", "ok"));
    assert_eq!(targets, vec![a, b]);
    assert_eq!(backend.latest, Some(rendered("42", "ok")));
}

#[test]
fn shared_exec_backend_replays_latest_to_new_subscriber() {
    let mut backend = Broadcaster::new();
    backend.broadcast(rendered("latest", "cached"));
    let (_, replay) = backend.subscribe();
    assert!(replay);
    assert_eq!(backend.latest, Some(rendered("latest", "cached")));
}

#[test]
fn shared_exec_backend_drops_disconnected_subscribers() {
    let mut backend = Broadcaster::new();
    let (_dead, _) = backend.subscribe();
    let (alive, _) = backend.subscribe();
    let targets = backend.broadcast(ExecRenderedOutput { text: "x".to_string(), classes: Vec::new(), visible: true });
    assert_eq!(targets.len(), 2);
    backend.record_deliveries(&vec![false, true]);
    assert_eq!(backend.subscriber_count(), 1);
    assert_eq!(backend.subscribers, vec![alive]);
}

#[test]
fn run_exec_command_prefers_stdout() {
    // `printf 'out'; printf 'err' >&2` writes these two streams.
    let output = exec_output_from_streams("out", "err", "{text}");
    assert_eq!(output.text, "out");
    assert!(output.classes.is_empty());
    assert!(output.visible);
}

#[test]
fn run_exec_command_falls_back_to_stderr() {
    // `printf 'err-only' >&2` leaves stdout empty.
    let output = exec_output_from_streams("", "err-only", "{text}");
    assert_eq!(output.text, "err-only");
    assert!(output.classes.is_empty());
    assert!(output.visible);
}

#[test]
fn run_exec_command_hides_when_output_is_empty() {
    // `printf ''` writes nothing to either stream.
    let output = exec_output_from_streams("", "", "{text}");
    assert_eq!(output.text, "");
    assert!(output.classes.is_empty());
    assert!(!output.visible);
}
