use vibar::common::check_module_type;
use vibar::tray::{
    activate_item, tray_host_step, TrayHostAction, TrayHostEvent, context_menu_item, fallback_icon_name, icon_lookup_candidates,
    is_item_owned_by_name, is_method_missing_error, is_tray_item_properties_changed,
    is_tray_relevant_name, item_snapshot_from_properties, next_method_after,
    normalize_registered_item_id, normalized_icon_size, normalized_poll_interval_secs,
    parse_item_address, pixmap_rgba, remove_registered_items_for_name, select_icon_pixmap,
    sort_tray_items, start_refresh_listeners, MethodCallOutcome, TrayItemSnapshot, RefreshListener, TrayIconPixmap,
    TrayItemProperties, WatcherState, ITEM_INTERFACE, MIN_ICON_SIZE, MIN_POLL_INTERVAL_SECS,
    MODULE_TYPE,
};
use vibar::tray_menu::{
    collect_submenu_ids, has_visible_menu_entries, menu_entry_from_properties, menu_level_rows,
    read_menu_label, MenuEntryProperties, MenuLevels, MenuRow, TrayMenuEntry,
};

#[test]
fn select_icon_pixmap_picks_largest_valid_entry() {
    let picked = select_icon_pixmap(vec![
        (16, 16, vec![0; 16 * 16 * 4]),
        (24, 24, vec![0; 24 * 24 * 4]),
        (32, 32, vec![0; 16]),
    ])
    .expect("a valid pixmap should be selected");

    assert_eq!(picked.width, 24);
    assert_eq!(picked.height, 24);
}

#[test]
fn parse_item_address_accepts_service_name_without_path() {
    let parsed = parse_item_address("org.kde.StatusNotifierItem-123-1".to_string())
        .expect("service-only address should parse");
    assert_eq!(parsed.0, "org.kde.StatusNotifierItem-123-1");
    assert_eq!(parsed.1, "org.kde.StatusNotifierItem-123-1");
    assert_eq!(parsed.2, "/StatusNotifierItem");
}

#[test]
fn parse_item_address_rejects_empty_value() {
    assert!(parse_item_address(String::new()).is_none());
}

#[test]
fn normalize_registered_item_id_uses_sender_for_path_only() {
    let id = normalize_registered_item_id("/StatusNotifierItem", Some(":1.42"))
        .expect("path-only service should normalize");
    assert_eq!(id, ":1.42/StatusNotifierItem");
}

#[test]
fn normalize_registered_item_id_defaults_service_only_path() {
    let id = normalize_registered_item_id("org.example.Tray", None)
        .expect("service-only entry should normalize");
    assert_eq!(id, "org.example.Tray/StatusNotifierItem");
}

#[test]
fn remove_registered_items_for_name_drops_matching_owner_entries() {
    let mut items = vec![
        ":1.42/StatusNotifierItem".to_string(),
        ":1.43/org/example/Item".to_string(),
        "org.example.Service/StatusNotifierItem".to_string(),
    ];
    let removed = remove_registered_items_for_name(&mut items, ":1.42");
    assert_eq!(removed, 1);
    assert_eq!(
        items,
        vec![
            ":1.43/org/example/Item".to_string(),
            "org.example.Service/StatusNotifierItem".to_string()
        ]
    );
}

#[test]
fn is_item_owned_by_name_checks_boundary() {
    assert!(is_item_owned_by_name(":1.5/StatusNotifierItem", ":1.5"));
    assert!(!is_item_owned_by_name(":1.50/StatusNotifierItem", ":1.5"));
}

#[test]
fn is_tray_relevant_name_ignores_unique_bus_names() {
    assert!(!is_tray_relevant_name(":1.2048"));
    assert!(is_tray_relevant_name("org.kde.StatusNotifierWatcher"));
    assert!(is_tray_relevant_name("org.ayatana.indicator.application"));
}

#[test]
fn tray_parse_config_rejects_wrong_module_type() {
    let err = check_module_type(MODULE_TYPE, "clock").expect_err("wrong type should fail");
    assert!(err.contains("expected module type 'tray'"));
}

#[test]
fn tray_parse_item_address_parses_destination_and_path() {
    let parsed = parse_item_address(":1.42/StatusNotifierItem".to_string())
        .expect("valid path should parse");
    assert_eq!(parsed.1, ":1.42");
    assert_eq!(parsed.2, "/StatusNotifierItem");
}

#[test]
fn tray_normalized_values_enforce_minimums() {
    assert_eq!(normalized_icon_size(2), MIN_ICON_SIZE);
    assert_eq!(normalized_poll_interval_secs(0), MIN_POLL_INTERVAL_SECS);
}

#[test]
fn mod_parse_item_address_parses_destination_and_path() {
    let parsed = parse_item_address(":1.42/StatusNotifierItem".to_string())
        .expect("valid path should parse");
    assert_eq!(parsed.1, ":1.42");
    assert_eq!(parsed.2, "/StatusNotifierItem");
}

#[test]
fn mod_normalized_values_enforce_minimums() {
    assert_eq!(normalized_icon_size(2), MIN_ICON_SIZE);
    assert_eq!(normalized_poll_interval_secs(0), MIN_POLL_INTERVAL_SECS);
}

#[test]
fn item_address_with_nested_path_keeps_the_tail() {
    let parsed = parse_item_address(":1.43/org/example/Item".to_string()).expect("should parse");
    assert_eq!(parsed.0, ":1.43/org/example/Item");
    assert_eq!(parsed.1, ":1.43");
    assert_eq!(parsed.2, "/org/example/Item");
    assert!(parse_item_address("/StatusNotifierItem".to_string()).is_none());
    assert!(parse_item_address(":1.42/".to_string()).is_none());
}

#[test]
fn registered_item_id_edge_cases() {
    assert!(normalize_registered_item_id("", Some(":1.2")).is_none());
    assert!(normalize_registered_item_id("/Item", None).is_none());
    assert_eq!(
        normalize_registered_item_id(":1.7/org/Item", Some(":1.9")).as_deref(),
        Some(":1.7/org/Item")
    );
}

#[test]
fn watcher_registers_each_item_once() {
    let mut watcher = WatcherState::new();
    watcher.register_status_notifier_item("org.example.Tray", None);
    watcher.register_status_notifier_item("org.example.Tray", Some(":1.3"));
    watcher.register_status_notifier_item("/StatusNotifierItem", Some(":1.4"));
    watcher.register_status_notifier_item("/StatusNotifierItem", None);
    assert_eq!(
        watcher.registered_status_notifier_items(),
        vec![
            "org.example.Tray/StatusNotifierItem".to_string(),
            ":1.4/StatusNotifierItem".to_string()
        ]
    );
    assert!(!watcher.host_registered);
    watcher.register_status_notifier_host();
    assert!(watcher.host_registered);
    assert!(watcher.is_status_notifier_host_registered());
    assert_eq!(watcher.protocol_version(), 0);
    assert_eq!(watcher.remove_owner(":1.4"), 1);
    assert_eq!(
        watcher.registered_status_notifier_items(),
        vec!["org.example.Tray/StatusNotifierItem".to_string()]
    );
}

#[test]
fn select_icon_pixmap_prefers_last_of_equal_sizes_and_rejects_invalid() {
    let picked = select_icon_pixmap(vec![(8, 8, vec![1; 256]), (8, 8, vec![2; 256])])
        .expect("valid pixmap");
    assert_eq!(picked.argb_data[0], 2);
    assert!(select_icon_pixmap(vec![(0, 8, vec![0; 64]), (4, -1, vec![0; 64])]).is_none());
    assert!(select_icon_pixmap(Vec::new()).is_none());
}

#[test]
fn pixmap_rgba_moves_alpha_last() {
    let pixmap = TrayIconPixmap {
        width: 1,
        height: 2,
        argb_data: vec![10, 20, 30, 40, 50, 60, 70, 80],
    };
    let (rgba, stride) = pixmap_rgba(&pixmap).expect("convertible");
    assert_eq!(rgba, vec![20, 30, 40, 10, 60, 70, 80, 50]);
    assert_eq!(stride, 4);
    let short = TrayIconPixmap { width: 2, height: 2, argb_data: vec![0; 15] };
    assert!(pixmap_rgba(&short).is_none());
}

#[test]
fn click_methods_fall_back_only_on_missing_methods() {
    let call = context_menu_item("org.example".to_string(), "/Item".to_string(), 3, 4);
    assert_eq!(call.methods, vec!["ContextMenu", "SecondaryActivate", "Activate"]);
    assert_eq!(next_method_after(&call, 0, MethodCallOutcome::MethodMissing), Some(1));
    assert_eq!(next_method_after(&call, 1, MethodCallOutcome::Failed), None);
    assert_eq!(next_method_after(&call, 1, MethodCallOutcome::Succeeded), None);
    assert_eq!(next_method_after(&call, 2, MethodCallOutcome::MethodMissing), None);
    let activate = activate_item("a".to_string(), "/b".to_string(), 1, 2);
    assert_eq!(activate.methods, vec!["Activate"]);
    assert_eq!((activate.x, activate.y), (1, 2));
    assert!(is_method_missing_error("org.freedesktop.DBus.Error.UnknownMethod"));
    assert!(is_method_missing_error("org.freedesktop.DBus.Error.UnknownInterface"));
    assert!(!is_method_missing_error("org.freedesktop.DBus.Error.Failed"));
}

#[test]
fn refresh_listeners_and_property_signals() {
    assert_eq!(
        start_refresh_listeners(),
        vec![
            RefreshListener::NameOwnerChanged,
            RefreshListener::WatcherItemRegistered,
            RefreshListener::WatcherItemUnregistered,
            RefreshListener::ItemPropertiesChanged
        ]
    );
    assert!(is_tray_item_properties_changed(ITEM_INTERFACE, 1, 0));
    assert!(!is_tray_item_properties_changed(ITEM_INTERFACE, 0, 0));
    assert!(!is_tray_item_properties_changed("org.other", 2, 2));
}

fn props() -> TrayItemProperties {
    TrayItemProperties {
        status: None,
        icon_name: None,
        attention_icon_name: None,
        icon_pixmap: None,
        attention_icon_pixmap: None,
        title: None,
        icon_theme_path: None,
    }
}

#[test]
fn item_snapshot_applies_fallbacks() {
    let mut p = props();
    p.attention_icon_name = Some("alert".to_string());
    p.title = Some(String::new());
    p.icon_theme_path = Some(String::new());
    p.icon_pixmap = Some(vec![(0, 0, Vec::new())]);
    p.attention_icon_pixmap = Some(vec![(1, 1, vec![0; 4])]);
    let snap = item_snapshot_from_properties("id".to_string(), "d".to_string(), "/p".to_string(), p)
        .expect("active item");
    assert_eq!(snap.icon_name, "alert");
    assert_eq!(snap.title, "id");
    assert!(snap.icon_theme_path.is_none());
    assert_eq!(snap.icon_pixmap.expect("pixmap").width, 1);

    let mut passive = props();
    passive.status = Some("PASSIVE".to_string());
    assert!(item_snapshot_from_properties("id".to_string(), "d".to_string(), "/p".to_string(), passive).is_none());
}

#[test]
fn icon_candidates_and_fallback() {
    assert_eq!(icon_lookup_candidates("audio-symbolic"), vec!["audio-symbolic", "audio"]);
    assert_eq!(icon_lookup_candidates("audio"), vec!["audio"]);
    assert_eq!(fallback_icon_name(""), "image-missing");
    assert_eq!(fallback_icon_name("app"), "app");
}

fn entry(id: i32, visible: bool, separator: bool, submenu: bool, children: Vec<TrayMenuEntry>) -> TrayMenuEntry {
    TrayMenuEntry {
        id,
        label: format!("item {id}"),
        icon_name: None,
        icon_data: None,
        enabled: true,
        visible,
        is_separator: separator,
        submenu_hint: submenu,
        children,
    }
}

#[test]
fn menu_labels_and_entries() {
    assert_eq!(read_menu_label(Some("_Open".to_string())), "Open");
    assert_eq!(read_menu_label(Some(" _ ".to_string())), "Menu item");
    assert_eq!(read_menu_label(None), "Menu item");
    let e = menu_entry_from_properties(
        7,
        MenuEntryProperties {
            label: Some("Quit".to_string()),
            icon_name: Some(String::new()),
            icon_data: Some(Vec::new()),
            enabled: None,
            visible: Some(false),
            item_type: Some("Separator".to_string()),
            children_display: Some("SUBMENU".to_string()),
        },
        Vec::new(),
    );
    assert_eq!(e.id, 7);
    assert_eq!(e.label, "Quit");
    assert!(e.icon_name.is_none() && e.icon_data.is_none());
    assert!(e.enabled && !e.visible && e.is_separator && e.submenu_hint);
}

#[test]
fn menu_rows_collapse_separators_and_collect_submenus() {
    let entries = vec![
        entry(1, true, true, false, Vec::new()),
        entry(2, true, false, true, vec![entry(5, true, false, true, Vec::new())]),
        entry(3, true, true, false, Vec::new()),
        entry(4, true, true, false, Vec::new()),
        entry(6, false, false, false, Vec::new()),
        entry(7, true, false, false, Vec::new()),
    ];
    assert!(has_visible_menu_entries(&entries));
    assert_eq!(
        menu_level_rows(&entries, 1),
        vec![MenuRow::Entry(1), MenuRow::Separator, MenuRow::Entry(5)]
    );
    assert_eq!(
        menu_level_rows(&entries, 2)[..2].to_vec(),
        vec![MenuRow::Back, MenuRow::Separator]
    );
    let mut ids = Vec::new();
    collect_submenu_ids(&entries, &mut ids);
    assert_eq!(ids, vec![2, 5]);

    let mut levels = MenuLevels::new(entries);
    assert_eq!(levels.depth(), 1);
    levels.open_submenu(vec![entry(9, true, false, false, Vec::new())]);
    assert_eq!(levels.depth(), 2);
    assert_eq!(levels.current_rows(), vec![MenuRow::Back, MenuRow::Separator, MenuRow::Entry(0)]);
    levels.go_back();
    levels.go_back();
    assert_eq!(levels.depth(), 1);
}

fn snapshot_with_id(id: &str, title: &str) -> TrayItemSnapshot {
    TrayItemSnapshot {
        id: id.to_string(),
        destination: id.to_string(),
        path: "/StatusNotifierItem".to_string(),
        icon_name: String::new(),
        icon_pixmap: None,
        icon_theme_path: None,
        title: title.to_string(),
    }
}

#[test]
fn sort_tray_items_orders_by_id_and_keeps_ties_in_order() {
    let sorted = sort_tray_items(vec![
        snapshot_with_id(":1.9/StatusNotifierItem", "nine"),
        snapshot_with_id(":1.10/StatusNotifierItem", "ten"),
        snapshot_with_id(":1.9/StatusNotifierItem", "nine again"),
        snapshot_with_id("org.kde.app", "app"),
    ]);
    let titles: Vec<&str> = sorted.iter().map(|s| s.title.as_str()).collect();
    assert_eq!(titles, vec!["ten", "nine", "nine again", "app"]);
}

#[test]
fn registered_items_read_back_as_their_owner_and_path() {
    let id = normalize_registered_item_id("org.kde.foo", None).expect("bus name registers");
    assert_eq!(
        parse_item_address(id.clone()),
        Some((id.clone(), "org.kde.foo".to_string(), "/StatusNotifierItem".to_string()))
    );
    assert!(is_item_owned_by_name(&id, "org.kde.foo"));

    let id = normalize_registered_item_id("/org/ayatana/NotificationItem/app", Some(":1.5")).expect("path registers");
    assert_eq!(
        parse_item_address(id.clone()),
        Some((id.clone(), ":1.5".to_string(), "/org/ayatana/NotificationItem/app".to_string()))
    );
    assert!(is_item_owned_by_name(&id, ":1.5"));
}

#[test]
fn host_registers_once_before_reading_items() {
    assert_eq!(tray_host_step(false, TrayHostEvent::WatcherReady), (false, TrayHostAction::RegisterHost));
    assert_eq!(tray_host_step(false, TrayHostEvent::RegisterSucceeded), (true, TrayHostAction::ReadItems));
    assert_eq!(tray_host_step(true, TrayHostEvent::WatcherReady), (true, TrayHostAction::ReadItems));
    assert_eq!(tray_host_step(false, TrayHostEvent::RegisterFailed), (false, TrayHostAction::ReturnEmpty));
    assert_eq!(tray_host_step(true, TrayHostEvent::WatcherUnavailable), (false, TrayHostAction::ReturnEmpty));
}

#[test]
fn menu_with_no_level_shows_no_rows() {
    let levels = MenuLevels { levels: Vec::new() };
    assert!(levels.current_rows().is_empty());
}
