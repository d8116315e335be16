use vibar::common::check_module_type;
use vibar::pulseaudio::{
    audio_error_label, classify_icon_kind_by_priority, contains_word, default_controls_config,
    default_controls_enabled, default_format_icons, default_volume_icons, is_relevant_pulse_event,
    mute_icon, percent_text, port_button, pulse_click_bindings, render_format, server_defaults,
    single_item_outcome, single_item_step, sink_button, sink_device_entry,
    sink_input_display_name, sink_input_entry, sink_is_available, sink_port_entry, sink_traits,
    sort_sink_inputs, sort_sinks, stale_sink_input_rows, volume_icon_from_list, Facility,
    IconKind, ListEvent, Operation, PortAvailability, PulseAudioControlsOpenMode,
    PulseAudioFormats, PulseState, SinkDeviceEntry, SinkInputEntry, MODULE_TYPE,
};

fn formats_with_icons(icons: Vec<String>) -> PulseAudioFormats {
    let mut format_icons = default_format_icons();
    format_icons.default = icons;
    PulseAudioFormats {
        format: None,
        format_bluetooth: None,
        format_bluetooth_muted: None,
        format_muted: None,
        format_source: None,
        format_source_muted: None,
        format_icons,
    }
}

#[test]
fn pulseaudio_parse_config_rejects_wrong_module_type() {
    let err = check_module_type(MODULE_TYPE, "clock").expect_err("wrong type should fail");
    assert!(err.contains("expected module type 'pulseaudio'"));
}

#[test]
fn pulseaudio_render_format_applies_muted_and_source_placeholders() {
    let formats = formats_with_icons(vec!["a".to_string(), "b".to_string(), "c".to_string()]);
    let text = render_format(
        &formats,
        &PulseState { volume: 80, muted: true, source_muted: false, bluetooth: false, icon_kind: IconKind::Default },
    );
    assert_eq!(text, "\u{f6a9} \u{f130}");
}

#[test]
fn mod_render_format_applies_muted_and_source_placeholders() {
    let formats = formats_with_icons(vec!["a".to_string(), "b".to_string(), "c".to_string()]);
    let text = render_format(
        &formats,
        &PulseState { volume: 80, muted: true, source_muted: false, bluetooth: false, icon_kind: IconKind::Default },
    );
    assert_eq!(text, "\u{f6a9} \u{f130}");
}

#[test]
fn parse_config_controls_defaults_to_disabled_right_click() {
    let controls = default_controls_config();
    assert!(!controls.enabled);
    assert!(matches!(controls.open, PulseAudioControlsOpenMode::RightClick));
    assert!(!default_controls_enabled());
}

#[test]
fn pulseaudio_volume_icon_from_list_maps_range() {
    let icons = vec!["low".to_string(), "med".to_string(), "high".to_string()];
    assert_eq!(volume_icon_from_list(&icons, 0), "low");
    assert_eq!(volume_icon_from_list(&icons, 50), "med");
    assert_eq!(volume_icon_from_list(&icons, 100), "high");
}

#[test]
fn mod_volume_icon_from_list_maps_range() {
    let icons = vec!["low".to_string(), "med".to_string(), "high".to_string()];
    assert_eq!(volume_icon_from_list(&icons, 0), "low");
    assert_eq!(volume_icon_from_list(&icons, 50), "med");
    assert_eq!(volume_icon_from_list(&icons, 100), "high");
}

fn check_event_filter() {
    assert!(is_relevant_pulse_event(Some(Facility::Sink), Some(Operation::Changed)));
    assert!(is_relevant_pulse_event(Some(Facility::Source), Some(Operation::New)));
    assert!(is_relevant_pulse_event(Some(Facility::Server), Some(Operation::Removed)));
    assert!(is_relevant_pulse_event(Some(Facility::SinkInput), Some(Operation::Changed)));
    assert!(!is_relevant_pulse_event(Some(Facility::Client), Some(Operation::New)));
    assert!(!is_relevant_pulse_event(Some(Facility::Sink), None));
}

#[test]
fn pulseaudio_subscription_event_filter_matches_audio_updates() {
    check_event_filter();
}

#[test]
fn mod_subscription_event_filter_matches_audio_updates() {
    check_event_filter();
}

fn check_classification() {
    assert_eq!(classify_icon_kind_by_priority("headphone speaker"), IconKind::Headphone);
    assert_eq!(classify_icon_kind_by_priority("my speaker"), IconKind::Speaker);
    assert_eq!(classify_icon_kind_by_priority("dock hdmi"), IconKind::Hdmi);
    assert_eq!(classify_icon_kind_by_priority("usb hifi"), IconKind::Hifi);
    assert_eq!(classify_icon_kind_by_priority("built in sound card"), IconKind::Default);
    assert_eq!(classify_icon_kind_by_priority("usb car kit"), IconKind::Car);
}

#[test]
fn pulseaudio_classify_icon_kind_matches_priority_order() {
    check_classification();
}

#[test]
fn mod_classify_icon_kind_matches_priority_order() {
    check_classification();
}

#[test]
fn words_are_split_at_separators() {
    assert!(contains_word("usb car kit", "car"));
    assert!(contains_word("car", "car"));
    assert!(!contains_word("carbon", "car"));
    assert!(!contains_word("my-car", "car"));
    assert!(contains_word("a,car", "car"));
    assert!(contains_word("a  b", ""));
}

#[test]
fn default_icons_and_volume_thresholds() {
    assert_eq!(default_volume_icons(), vec!["\u{f026}", "\u{f027}", "\u{f028}"]);
    let empty: Vec<String> = Vec::new();
    assert_eq!(volume_icon_from_list(&empty, 0), "\u{f026}");
    assert_eq!(volume_icon_from_list(&empty, 66), "\u{f027}");
    assert_eq!(volume_icon_from_list(&empty, 67), "\u{f028}");
    let two = vec!["x".to_string(), "y".to_string()];
    assert_eq!(volume_icon_from_list(&two, 150), "y");
    assert_eq!(volume_icon_from_list(&two, 49), "x");
}

#[test]
fn sink_traits_detect_bluetooth_and_kind() {
    assert_eq!(
        sink_traits(Some("headset-output".to_string()), Some("BlueZ".to_string())),
        (true, IconKind::Headset)
    );
    assert_eq!(sink_traits(None, Some("car".to_string())), (false, IconKind::Car));
    assert_eq!(sink_traits(None, None), (false, IconKind::Default));
}

#[test]
fn label_formats_follow_state() {
    let formats = formats_with_icons(vec!["v".to_string()]);
    let state = PulseState { volume: 42, muted: false, source_muted: true, bluetooth: true, icon_kind: IconKind::Default };
    assert_eq!(render_format(&formats, &state), "42% v\u{f294} \u{f131}");
    assert_eq!(audio_error_label("a<b"), "audio error: a&lt;b");
}

#[test]
fn click_bindings_skip_the_popover_click() {
    let mut controls = default_controls_config();
    assert_eq!(pulse_click_bindings(&controls, Some("l".to_string()), Some("r".to_string())),
        (Some("l".to_string()), Some("r".to_string())));
    controls.enabled = true;
    assert_eq!(pulse_click_bindings(&controls, Some("l".to_string()), Some("r".to_string())),
        (Some("l".to_string()), None));
    controls.open = PulseAudioControlsOpenMode::LeftClick;
    assert_eq!(pulse_click_bindings(&controls, Some("l".to_string()), Some("r".to_string())),
        (None, Some("r".to_string())));
}

#[test]
fn query_results_and_entries() {
    let slot = single_item_step(None, ListEvent::Item(5u32), "nf", "failed");
    let slot = single_item_step(slot, ListEvent::End, "nf", "failed");
    assert_eq!(single_item_outcome(slot, "none"), Ok(5));
    let missing = single_item_step(None::<Result<u32, String>>, ListEvent::End, "nf", "failed");
    assert_eq!(single_item_outcome(missing, "none"), Err("nf".to_string()));
    assert_eq!(single_item_outcome::<u32>(None, "none"), Err("none".to_string()));
    assert!(server_defaults(None, None).is_err());
    assert!(sink_is_available(&Vec::new()));
    assert!(!sink_is_available(&vec![PortAvailability::No]));
    assert!(sink_is_available(&vec![PortAvailability::No, PortAvailability::Unknown]));
    let port = sink_port_entry(Some("p".to_string()), None, PortAvailability::Yes).expect("port");
    assert_eq!(port.description, "p");
    assert!(sink_port_entry(None, Some("d".to_string()), PortAvailability::Yes).is_none());
    let sink = sink_device_entry(Some("s".to_string()), Some("Speakers".to_string()), &Vec::new(), "s").expect("sink");
    assert!(sink.is_default && sink.available);
    assert_eq!(sink_input_display_name(None, None, None, None, 7), "Stream 7");
    assert_eq!(sink_input_display_name(None, Some("m".to_string()), Some("b".to_string()), None, 7), "m");
    assert!(sink_input_entry(1, false, "x".to_string(), 10, false).is_none());
}

#[test]
fn popover_buttons_and_sorting() {
    let sinks = vec![
        SinkDeviceEntry { name: "b".to_string(), description: "Zeta".to_string(), available: false, is_default: false },
        SinkDeviceEntry { name: "a".to_string(), description: "Alpha".to_string(), available: true, is_default: true },
    ];
    let sorted = sort_sinks(sinks);
    assert_eq!(sorted[0].name, "a");
    let button = sink_button(&sorted[0], "a");
    assert_eq!(button.label, "Alpha (default, available)");
    assert!(button.active && button.sensitive);
    let other = sink_button(&sorted[1], "a");
    assert_eq!(other.label, "Zeta (unavailable)");
    assert!(!other.active && !other.sensitive);
    let port = sink_port_entry(Some("p".to_string()), Some("Port".to_string()), PortAvailability::No).unwrap();
    let pb = port_button(&port, Some("p"));
    assert!(pb.active && !pb.sensitive);
    assert_eq!(mute_icon(true), "\u{f6a9}");
    assert_eq!(percent_text(35), "35%");
    let inputs = sort_sink_inputs(vec![
        SinkInputEntry { index: 4, name: "mpv".to_string(), volume: 1, muted: false },
        SinkInputEntry { index: 2, name: "firefox".to_string(), volume: 1, muted: false },
    ]);
    assert_eq!(inputs[0].index, 2);
    assert_eq!(stale_sink_input_rows(&vec![1, 2, 4], &inputs), vec![1]);
}
