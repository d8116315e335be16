use vibar::common::check_module_type;
use vibar::playerctl::{
    active_rank, backend_update, carousel_tick_action, carousel_viewport_width, control_method,
    controls_view, controls_width, default_controls_config, default_no_player_text,
    default_playerctl_interval, default_show_seek, default_show_when_paused,
    format_timestamp_micros, matches_player_filter, metadata_artist, mpris_player_names,
    normalize_fixed_width, normalize_status, player_metadata_from_properties,
    playerctl_label_update, render_format, render_markup_format, seek_target,
    select_active_player, short_player_name, should_show_metadata, should_show_overflow_hint,
    status_css_class, status_icon_for, BackendUpdate, CarouselTick, PlayerControl,
    PlayerProperties, PlayerctlConfig, PlayerctlControlsOpenMode, PlayerctlMarqueeMode,
    PlayerctlMetadata, MODULE_TYPE,
};

fn metadata(status: &str, player: &str, bus_name: &str) -> PlayerctlMetadata {
    PlayerctlMetadata {
        status: status.to_string(),
        status_icon: String::new(),
        player: player.to_string(),
        artist: String::new(),
        album: String::new(),
        title: String::new(),
        position_micros: None,
        length_micros: None,
        can_go_previous: false,
        can_go_next: false,
        can_play: false,
        can_pause: false,
        can_seek: false,
        track_id: None,
        bus_name: bus_name.to_string(),
    }
}

#[test]
fn playerctl_parse_config_rejects_wrong_module_type() {
    let err = check_module_type(MODULE_TYPE, "clock").expect_err("wrong type should fail");
    assert!(err.contains("expected module type 'playerctl'"));
}

#[test]
fn matches_player_filter_accepts_full_and_short_names() {
    assert!(matches_player_filter(
        "org.mpris.MediaPlayer2.spotify",
        "org.mpris.MediaPlayer2.spotify"
    ));
    assert!(matches_player_filter("org.mpris.MediaPlayer2.spotify", "spotify"));
    assert!(!matches_player_filter("org.mpris.MediaPlayer2.spotify", "mpv"));
}

#[test]
fn select_active_player_prefers_playing_then_name() {
    let chosen = select_active_player(vec![
        metadata("paused", "vlc", "org.mpris.MediaPlayer2.vlc"),
        metadata("playing", "spotify", "org.mpris.MediaPlayer2.spotify"),
    ])
    .expect("one player should be selected");

    assert_eq!(chosen.status, "playing");
    assert_eq!(chosen.bus_name, "org.mpris.MediaPlayer2.spotify");
}

#[test]
fn playerctl_render_format_replaces_placeholders() {
    let mut m = metadata("paused", "spotify", "org.mpris.MediaPlayer2.spotify");
    m.status_icon = "\u{f04c}".to_string();
    m.artist = "Boards of Canada".to_string();
    m.album = "Music Has the Right to Children".to_string();
    m.title = "Roygbiv".to_string();

    let text = render_format("{status_icon} {artist} - {title} ({player}) [{status}]", &m);
    assert_eq!(text, "\u{f04c} Boards of Canada - Roygbiv (spotify) [paused]");
}

#[test]
fn parse_config_applies_visibility_defaults() {
    assert!(default_show_when_paused());
    assert!(default_show_seek());
    let controls = default_controls_config();
    assert!(!controls.enabled);
    assert_eq!(controls.open, PlayerctlControlsOpenMode::LeftClick);
}

#[test]
fn should_show_metadata_respects_visibility_settings() {
    let playing = metadata("playing", "", "");
    let paused = metadata("paused", "", "");
    let stopped = metadata("stopped", "", "");

    assert!(should_show_metadata(Some(&playing), true, true));
    assert!(should_show_metadata(Some(&paused), true, true));
    assert!(!should_show_metadata(Some(&paused), true, false));
    assert!(!should_show_metadata(Some(&stopped), true, true));
    assert!(!should_show_metadata(None, true, true));
    assert!(should_show_metadata(None, false, false));
}

#[test]
fn status_css_class_maps_statuses() {
    assert_eq!(status_css_class("playing"), "status-playing");
    assert_eq!(status_css_class("paused"), "status-paused");
    assert_eq!(status_css_class("stopped"), "status-stopped");
    assert_eq!(status_css_class("unknown"), "no-player");
}

#[test]
fn player_names_icons_and_ranks() {
    assert_eq!(short_player_name("org.mpris.MediaPlayer2.mpv"), "mpv");
    assert_eq!(short_player_name("com.example.player"), "com.example.player");
    assert_eq!(normalize_status("Playing"), "playing");
    assert_eq!(status_icon_for("playing"), "\u{f04b}");
    assert_eq!(status_icon_for("paused"), "\u{f04c}");
    assert_eq!(status_icon_for("stopped"), "\u{f04d}");
    assert_eq!(status_icon_for("other"), "\u{f001}");
    assert_eq!(active_rank("playing"), 0);
    assert_eq!(active_rank("paused"), 1);
    assert_eq!(active_rank("stopped"), 2);
    assert_eq!(active_rank(""), 3);
    assert_eq!(default_playerctl_interval(), 1);
    assert_eq!(default_no_player_text(), "No media");
    assert_eq!(normalize_fixed_width(0), None);
    assert_eq!(normalize_fixed_width(12), Some(12));
}

#[test]
fn select_active_player_keeps_first_of_equals_and_orders_names() {
    let chosen = select_active_player(vec![
        metadata("paused", "b", "org.mpris.MediaPlayer2.b"),
        metadata("paused", "a", "org.mpris.MediaPlayer2.a"),
        metadata("stopped", "c", "org.mpris.MediaPlayer2.0"),
    ])
    .expect("a player");
    assert_eq!(chosen.player, "a");
    assert!(select_active_player(Vec::new()).is_none());
    let same = select_active_player(vec![metadata("x", "first", "n"), metadata("y", "second", "n")])
        .expect("a player");
    assert_eq!(same.player, "first");
}

#[test]
fn timestamps_are_minutes_and_seconds() {
    assert_eq!(format_timestamp_micros(None), "00:00");
    assert_eq!(format_timestamp_micros(Some(-5)), "00:00");
    assert_eq!(format_timestamp_micros(Some(65_000_000)), "01:05");
    assert_eq!(format_timestamp_micros(Some(3_725_999_999)), "62:05");
}

#[test]
fn artist_lists_are_joined() {
    assert_eq!(
        metadata_artist(Some(vec!["A".to_string(), String::new(), "B".to_string()]), None),
        Some("A, B".to_string())
    );
    assert_eq!(metadata_artist(Some(vec![String::new()]), Some("Solo".to_string())), Some("Solo".to_string()));
    assert_eq!(metadata_artist(None, Some(String::new())), None);
}

#[test]
fn metadata_from_properties_fills_defaults() {
    let props = PlayerProperties {
        identity: Some(String::new()),
        artist: None,
        album: Some("Album".to_string()),
        title: None,
        position_micros: Some(5),
        length_micros: None,
        can_go_previous: Some(true),
        can_go_next: None,
        can_play: None,
        can_pause: Some(true),
        can_seek: None,
        track_id: None,
    };
    let m = player_metadata_from_properties("org.mpris.MediaPlayer2.vlc", "Paused", props);
    assert_eq!(m.status, "paused");
    assert_eq!(m.status_icon, "\u{f04c}");
    assert_eq!(m.player, "vlc");
    assert_eq!(m.album, "Album");
    assert_eq!(m.artist, "");
    assert!(m.can_go_previous && !m.can_go_next && m.can_pause);
}

#[test]
fn player_names_are_filtered() {
    let names = vec![
        "org.freedesktop.DBus".to_string(),
        "org.mpris.MediaPlayer2.spotify".to_string(),
        "org.mpris.MediaPlayer2.mpv".to_string(),
    ];
    assert_eq!(
        mpris_player_names(&names, None),
        vec!["org.mpris.MediaPlayer2.spotify".to_string(), "org.mpris.MediaPlayer2.mpv".to_string()]
    );
    assert_eq!(mpris_player_names(&names, Some("mpv")), vec!["org.mpris.MediaPlayer2.mpv".to_string()]);
}

#[test]
fn label_updates_for_each_backend_outcome() {
    let mut m = metadata("playing", "p", "b");
    m.title = "<t>".to_string();
    let update = playerctl_label_update(&BackendUpdate::Snapshot(Some(m)), "{title}", "No media", true, true);
    assert_eq!(update.plain_text, "<t>");
    assert_eq!(update.markup_text, "&lt;t&gt;");
    assert!(update.visible);
    assert_eq!(update.state_class, "status-playing");

    let none = playerctl_label_update(&BackendUpdate::Snapshot(None), "{title}", "No media", true, true);
    assert_eq!(none.plain_text, "No media");
    assert!(!none.visible);
    assert_eq!(none.state_class, "no-player");

    let err = playerctl_label_update(&backend_update(Err("boom".to_string())), "{title}", "x", true, false);
    assert_eq!(err.plain_text, "playerctl error: boom");
    assert!(err.visible);
    assert_eq!(render_markup_format("{player}", &metadata("", "a&b", "")), "a&amp;b");
}

#[test]
fn controls_show_player_state() {
    let none = controls_view(None, "No media");
    assert_eq!(none.status_text, "No media");
    assert_eq!(none.title_text, "\u{2014}");
    assert_eq!(none.play_pause_icon, "\u{f04b}");
    assert!(!none.seek_sensitive);

    let mut m = metadata("playing", "p", "bus");
    m.can_seek = true;
    m.length_micros = Some(10);
    m.track_id = Some("/t/1".to_string());
    m.can_play = true;
    let v = controls_view(Some(&m), "");
    assert_eq!(v.play_pause_icon, "\u{f04c}");
    assert!(v.seek_sensitive && v.play_pause_sensitive);
    assert_eq!(v.length_text, "00:00");
    let target = seek_target(&m).expect("seekable");
    assert_eq!(target.track_id, "/t/1");
    m.length_micros = Some(0);
    assert!(seek_target(&m).is_none());
    assert_eq!(control_method(PlayerControl::PlayPause), "PlayPause");
    assert_eq!(controls_width(0, 5, 3), 5);
    assert_eq!(controls_width(-4, 0, 0), 1);
}

#[test]
fn carousel_steps() {
    assert_eq!(carousel_tick_action(PlayerctlMarqueeMode::Off, true, true, false, false, None, false), CarouselTick::Idle);
    assert_eq!(carousel_tick_action(PlayerctlMarqueeMode::Hover, false, true, false, false, None, false), CarouselTick::Paused);
    assert_eq!(carousel_tick_action(PlayerctlMarqueeMode::Always, false, false, false, true, None, false), CarouselTick::ResetToStart);
    assert_eq!(carousel_tick_action(PlayerctlMarqueeMode::Always, false, false, false, false, Some(true), true), CarouselTick::Holding);
    assert_eq!(carousel_tick_action(PlayerctlMarqueeMode::Open, false, true, false, false, Some(false), true), CarouselTick::RestartFromStart);
    assert_eq!(carousel_tick_action(PlayerctlMarqueeMode::Always, false, false, false, false, None, false), CarouselTick::Advance);
    assert!(should_show_overflow_hint(true, PlayerctlMarqueeMode::Off, false, false));
    assert!(!should_show_overflow_hint(true, PlayerctlMarqueeMode::Always, false, false));
    assert!(!should_show_overflow_hint(true, PlayerctlMarqueeMode::Hover, true, false));
    assert!(!should_show_overflow_hint(false, PlayerctlMarqueeMode::Off, false, false));
    assert_eq!(carousel_viewport_width(0, 100), 1);
    assert_eq!(carousel_viewport_width(250, 100), 100);
}

#[test]
fn config_view_fills_defaults() {
    let config = PlayerctlConfig {
        format: None,
        click: None,
        on_click: Some("cmd".to_string()),
        interval_secs: 1,
        player: None,
        class: None,
        no_player_text: "No media".to_string(),
        hide_when_idle: false,
        show_when_paused: true,
        controls: default_controls_config(),
        fixed_width: Some(0),
        marquee: PlayerctlMarqueeMode::Off,
    };
    let view = config.into_view();
    assert_eq!(view.format, "{status_icon} {title}");
    assert_eq!(view.click_command.as_deref(), Some("cmd"));
    assert_eq!(view.fixed_width, None);
}
