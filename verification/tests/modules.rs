use vibar::backlight::{
    icon_for_percent, normalized_backlight_interval, render_format as backlight_render,
    brightness_target, select_best_device, BacklightDevice, BacklightSnapshot,
};
use vibar::bar::{
    default_config_paths, first_parsed, dom_debug_interval_secs, is_truthy_flag, join_path, monitor_key,
    resolve_style_path, resolve_style_path_from_parent, window_sync_plan,
};
use vibar::battery::{
    battery_status_css_class, check_preferred_battery, icon_for_capacity, normalized_battery_interval,
    render_format as battery_render, BatterySnapshot,
};
use vibar::clock::{clock_label, clock_text, resolve_clock_formats, DEFAULT_CLOCK_FMT};
use vibar::common::check_module_type;
use vibar::intervals::millis_until_next_resync;
use vibar::markup::{escape_markup_text, render_markup_template};
use vibar::cpu::{cpu_line_sums_fit, normalized_cpu_interval, parse_proc_stat_cpu_line, render_format as cpu_render};
use vibar::disk::{disk_error_text, disk_status_from_stat, normalized_disk_interval, resolve_disk_config};
use vibar::group::{
    check_group_modules, child_module_error, drawer_from_input, drawer_toggle_label,
    normalized_spacing, GroupDrawerConfig, GroupDrawerInput,
};
use vibar::memory::{normalized_memory_interval, parse_meminfo};
use vibar::modules::{css_classes, module_kind, module_label_classes, ModuleKind};
use vibar::sway::{default_format, mode_update, window_shown_on, WindowUpdate};
use vibar::temperature::{
    default_temperature_icons, normalized_temperature_interval, parse_temperature_raw,
    render_temperature_format, resolve_temperature_sensor_path, temperature_state_class,
    temperature_update,
};

fn rejects(module_type: &str) {
    let err = check_module_type(module_type, "clock").expect_err("wrong type should fail");
    assert!(err.contains(&format!("expected module type '{module_type}'")));
}

#[test]
fn backlight_parse_config_rejects_wrong_module_type() {
    rejects("backlight");
}

#[test]
fn normalized_backlight_interval_enforces_lower_bound() {
    assert_eq!(normalized_backlight_interval(0), 1);
    assert_eq!(normalized_backlight_interval(1), 1);
    assert_eq!(normalized_backlight_interval(10), 10);
}

fn devices() -> Vec<BacklightDevice> {
    vec![
        BacklightDevice {
            name: "intel_backlight".to_string(),
            actual_brightness: 100,
            max_brightness: 1200,
            powered: true,
        },
        BacklightDevice {
            name: "amdgpu_bl0".to_string(),
            actual_brightness: 80,
            max_brightness: 255,
            powered: true,
        },
    ]
}

#[test]
fn select_best_device_prefers_explicit_match() {
    let devices = devices();
    let selected = select_best_device(&devices, Some("amdgpu_bl0")).expect("device expected");
    assert_eq!(devices[selected].name, "amdgpu_bl0");
}

#[test]
fn select_best_device_uses_largest_max_brightness_without_preference() {
    let devices = devices();
    let selected = select_best_device(&devices, None).expect("device expected");
    assert_eq!(devices[selected].name, "intel_backlight");
}

#[test]
fn icon_for_percent_maps_full_range() {
    let icons = vec!["low".to_string(), "mid".to_string(), "high".to_string()];
    assert_eq!(icon_for_percent(&icons, 0), "low");
    assert_eq!(icon_for_percent(&icons, 50), "mid");
    assert_eq!(icon_for_percent(&icons, 100), "high");
}

#[test]
fn backlight_render_format_replaces_placeholders() {
    let snapshot = BacklightSnapshot {
        device: BacklightDevice {
            name: "intel_backlight".to_string(),
            actual_brightness: 480,
            max_brightness: 960,
            powered: true,
        },
        percent: 50,
    };
    let icons = vec!["icon".to_string()];
    let rendered = backlight_render("{percent} {icon} {brightness}/{max} {device}", &snapshot, &icons);
    assert_eq!(rendered, "50 icon 480/960 intel_backlight");
}

#[test]
fn battery_parse_config_rejects_wrong_module_type() {
    rejects("battery");
}

#[test]
fn normalized_battery_interval_enforces_lower_bound() {
    assert_eq!(normalized_battery_interval(0), 1);
    assert_eq!(normalized_battery_interval(1), 1);
    assert_eq!(normalized_battery_interval(15), 15);
}

#[test]
fn battery_render_format_replaces_placeholders() {
    let snapshot = BatterySnapshot {
        device_name: "BAT0".to_string(),
        capacity: 42,
        status: "Discharging".to_string(),
    };
    let icons = vec!["low".to_string(), "high".to_string()];
    let rendered = battery_render("{capacity} {percent} {status} {icon} {device}", &snapshot, &icons);
    assert_eq!(rendered, "42 42 Discharging low BAT0");
}

#[test]
fn icon_for_capacity_maps_full_range() {
    let icons = vec!["low".to_string(), "mid".to_string(), "high".to_string()];
    assert_eq!(icon_for_capacity(&icons, 0), "low");
    assert_eq!(icon_for_capacity(&icons, 50), "mid");
    assert_eq!(icon_for_capacity(&icons, 100), "high");
}

#[test]
fn battery_status_css_class_maps_known_statuses() {
    assert_eq!(battery_status_css_class("Charging"), "status-charging");
    assert_eq!(battery_status_css_class("Discharging"), "status-discharging");
    assert_eq!(battery_status_css_class("Full"), "status-full");
    assert_eq!(battery_status_css_class("Not charging"), "status-not-charging");
    assert_eq!(battery_status_css_class("Unknown"), "status-unknown");
}

#[test]
fn clock_parse_config_rejects_wrong_module_type() {
    let err = check_module_type("clock", "exec").expect_err("wrong type should fail");
    assert!(err.contains("expected module type 'clock'"));
}

#[test]
fn resolve_clock_formats_uses_explicit_fields() {
    let (template, time_fmt) = resolve_clock_formats(
        Some("<span style=\"italic\">{}</span>".to_string()),
        Some("%H:%M".to_string()),
    );
    assert_eq!(template, "<span style=\"italic\">{}</span>");
    assert_eq!(time_fmt, "%H:%M");

    let (template, time_fmt) = resolve_clock_formats(Some("{}".to_string()), None);
    assert_eq!(template, "{}");
    assert_eq!(time_fmt, DEFAULT_CLOCK_FMT);
}

#[test]
fn clock_label_escapes_time() {
    assert_eq!(clock_label("<b>{}</b>", "1 < 2"), ("<b>1 &lt; 2</b>".to_string(), true));
    assert_eq!(clock_label("{}", " "), (" ".to_string(), false));
}

#[test]
fn cpu_parse_config_rejects_wrong_module_type() {
    rejects("cpu");
}

#[test]
fn normalized_cpu_interval_enforces_lower_bound() {
    assert_eq!(normalized_cpu_interval(0), 1);
    assert_eq!(normalized_cpu_interval(1), 1);
    assert_eq!(normalized_cpu_interval(10), 10);
}

#[test]
fn parse_proc_stat_cpu_line_parses_totals() {
    let stat = "cpu  100 20 30 400 50 0 0 0 0 0\ncpu0 1 2 3 4 5 6 7 8 9 10\n";
    let snapshot = parse_proc_stat_cpu_line(stat).expect("cpu line should parse");
    assert_eq!(snapshot.idle, 450);
    assert_eq!(snapshot.total, 600);
}

#[test]
fn cpu_render_format_with_whole_percentages() {
    assert_eq!(cpu_render("{used_percentage}% {idle_percentage}%", 62), "62% 38%");
}

#[test]
fn disk_parse_config_rejects_wrong_module_type() {
    rejects("disk");
}

#[test]
fn normalized_disk_interval_enforces_lower_bound() {
    assert_eq!(normalized_disk_interval(0), 1);
    assert_eq!(normalized_disk_interval(1), 1);
    assert_eq!(normalized_disk_interval(10), 10);
}

#[test]
fn disk_figures_from_statvfs() {
    let status = disk_status_from_stat("/", 4096, 100, 40, 50);
    assert_eq!(status.total_bytes, 409_600);
    assert_eq!(status.free_bytes, 163_840);
    assert_eq!(status.used_bytes, 204_800);
    assert_eq!(disk_status_from_stat("/", 1, 1, 0, 2).used_bytes, 0);
    assert_eq!(resolve_disk_config(None, None), ("/".to_string(), "{free}".to_string()));
    assert_eq!(disk_error_text("a&b"), "disk error: a&amp;b");
}

#[test]
fn group_parse_config_rejects_wrong_module_type() {
    rejects("group");
}

#[test]
fn parse_config_requires_modules() {
    let err = check_group_modules(0).expect_err("missing modules should fail");
    assert!(err.contains("field `modules` must not be empty"));
    assert!(check_group_modules(1).is_ok());
}

#[test]
fn drawer_settings() {
    let drawer = drawer_from_input(Some(GroupDrawerInput::Enabled(true))).expect("drawer");
    assert_eq!(drawer.label_closed, "\u{f106}");
    assert_eq!(drawer.label_open, "\u{f107}");
    assert!(!drawer.start_open);
    assert!(drawer_from_input(Some(GroupDrawerInput::Enabled(false))).is_none());
    let custom = GroupDrawerConfig { label_closed: ">".to_string(), label_open: "v".to_string(), start_open: true };
    let kept = drawer_from_input(Some(GroupDrawerInput::Config(custom))).expect("drawer");
    assert_eq!(drawer_toggle_label(&kept, kept.start_open), "v");
    assert_eq!(normalized_spacing(-3), 0);
    assert_eq!(child_module_error(2, "bad"), "invalid child module at index 2: bad");
}

#[test]
fn memory_parse_config_rejects_wrong_module_type() {
    rejects("memory");
}

#[test]
fn normalized_memory_interval_enforces_lower_bound() {
    assert_eq!(normalized_memory_interval(0), 1);
    assert_eq!(normalized_memory_interval(1), 1);
    assert_eq!(normalized_memory_interval(10), 10);
}

#[test]
fn parse_meminfo_parses_bytes() {
    let meminfo = "MemTotal:       8000000 kB\nMemAvailable:   2000000 kB\n";
    let status = parse_meminfo(meminfo).expect("meminfo should parse");
    assert_eq!(status.total_bytes, 8_000_000 * 1024);
    assert_eq!(status.available_bytes, 2_000_000 * 1024);
    assert_eq!(status.used_bytes, 6_000_000 * 1024);
}

#[test]
fn build_module_rejects_unknown_module_type() {
    let err = module_kind("does-not-exist").expect_err("unknown module should fail");
    assert!(err.contains("unknown module type 'does-not-exist'"));
    assert_eq!(module_kind("sway/workspaces"), Ok(ModuleKind::SwayWorkspaces));
    assert_eq!(module_kind("tray"), Ok(ModuleKind::Tray));
}

#[test]
fn mod_parse_config_rejects_wrong_module_type() {
    rejects("playerctl");
}

#[test]
fn module_classes() {
    assert_eq!(css_classes(Some(" a  b ")), vec!["a", "b"]);
    assert!(css_classes(None).is_empty());
    assert_eq!(
        module_label_classes("disk", Some("x"), &Some("cmd".to_string())),
        vec!["module", "disk", "x", "clickable"]
    );
}

#[test]
fn mode_parse_config_rejects_wrong_module_type() {
    rejects("sway/mode");
}

#[test]
fn window_parse_config_rejects_wrong_module_type() {
    rejects("sway/window");
}

#[test]
fn parse_config_has_default_format() {
    assert_eq!(default_format(), "{}");
}

#[test]
fn sway_labels() {
    let hidden = mode_update("default", "{}");
    assert!(!hidden.visible && hidden.text.is_empty());
    let resize = mode_update("resize", "<{}>");
    assert_eq!(resize.text, "<resize>");
    assert!(resize.visible);
    let update = WindowUpdate { title: "t".to_string(), output: Some("DP-1".to_string()), visible: true };
    assert!(window_shown_on(Some("DP-1"), &update));
    assert!(!window_shown_on(Some("HDMI-1"), &update));
    assert!(window_shown_on(None, &update));
}

#[test]
fn temperature_parse_config_rejects_wrong_module_type() {
    rejects("temperature");
}

#[test]
fn normalized_temperature_interval_enforces_lower_bound() {
    assert_eq!(normalized_temperature_interval(0), 1);
    assert_eq!(normalized_temperature_interval(1), 1);
    assert_eq!(normalized_temperature_interval(10), 10);
}

#[test]
fn resolve_temperature_sensor_path_prefers_explicit_path() {
    let path = resolve_temperature_sensor_path(Some("/tmp/sensor".to_string()), Some(4));
    assert_eq!(path, "/tmp/sensor");
}

#[test]
fn resolve_temperature_sensor_path_uses_thermal_zone() {
    let path = resolve_temperature_sensor_path(None, Some(2));
    assert_eq!(path, "/sys/class/thermal/thermal_zone2/temp");
}

#[test]
fn temperature_rendering_with_whole_degrees() {
    let text = render_temperature_format(
        "{temperatureC} {temperatureF} {temperatureK} {icon}",
        43,
        109,
        316,
        &vec!["cold".to_string(), "hot".to_string()],
    );
    assert_eq!(text, "43 109 316 cold");
    assert!(render_temperature_format("", 42, 108, 315, &Vec::new()).trim().is_empty());
    assert_eq!(temperature_state_class(44, Some(45), Some(80)), "temperature-normal");
    assert_eq!(temperature_state_class(45, Some(45), Some(80)), "temperature-warning");
    assert_eq!(temperature_state_class(80, Some(45), Some(80)), "temperature-critical");
    assert_eq!(parse_temperature_raw("42500\n"), Ok(42500));
    assert!(parse_temperature_raw("x").unwrap_err().starts_with("failed to parse 'x' as integer"));
    assert_eq!(default_temperature_icons().len(), 5);
    let update = temperature_update(90, 194, 363, "{temperatureC}", &None, &Some("!{temperatureC}".to_string()), Some(50), Some(85), &Vec::new());
    assert_eq!(update.text, "!90");
    assert_eq!(update.state_class, "temperature-critical");
}

#[test]
fn resolve_style_path_expands_tilde() {
    let result = resolve_style_path("~/styles/vibar.css", None, Some("/home/user"));
    assert!(result.starts_with('/'));
    assert_eq!(result, "/home/user/styles/vibar.css");
}

#[test]
fn resolve_style_path_uses_config_parent_for_relative_paths() {
    let result = resolve_style_path("style.local.css", Some("/tmp/vibar/config.jsonc"), None);
    assert_eq!(result, "/tmp/vibar/style.local.css");
}

#[test]
fn paths_and_switches() {
    assert_eq!(join_path("/a/", "b"), "/a/b");
    assert_eq!(join_path("", "b"), "b");
    assert_eq!(join_path("/a", "/b"), "/b");
    assert_eq!(
        default_config_paths(None, Some("/home/u")),
        vec!["/home/u/.config/vibar/config.jsonc", "./config.jsonc"]
    );
    assert_eq!(
        default_config_paths(Some("/x"), Some("/home/u")),
        vec!["/x/vibar/config.jsonc", "./config.jsonc"]
    );
    assert_eq!(default_config_paths(None, None), vec!["./config.jsonc"]);
    assert_eq!(resolve_style_path_from_parent("/abs.css", Some("/c"), None), "/abs.css");
    assert_eq!(resolve_style_path_from_parent("~/x.css", None, None), "~/x.css");
    assert!(is_truthy_flag(Some("YES")));
    assert!(!is_truthy_flag(Some("2")));
    assert!(!is_truthy_flag(None));
    assert_eq!(dom_debug_interval_secs(Some("0")), 10);
    assert_eq!(dom_debug_interval_secs(Some("3")), 3);
    assert_eq!(monitor_key(Some("DP-1"), "0x1"), "connector:DP-1|ptr:0x1");
    assert_eq!(monitor_key(None, "0x1"), "ptr:0x1");
}

#[test]
fn windows_follow_monitors() {
    let open = vec!["__fallback__".to_string(), "m1".to_string(), "gone".to_string()];
    let monitors = vec!["m1".to_string(), "m2".to_string()];
    let plan = window_sync_plan(&open, &monitors);
    assert_eq!(plan.remove, vec!["gone", "__fallback__"]);
    assert_eq!(plan.create, vec![1]);
    assert!(!plan.create_fallback);
    let none = window_sync_plan(&vec!["m1".to_string()], &Vec::new());
    assert_eq!(none.remove, vec!["m1"]);
    assert!(none.create_fallback);
}

#[test]
fn millis_until_next_resync_counts_down_to_zero() {
    assert_eq!(millis_until_next_resync(0, 2000), 2000);
    assert_eq!(millis_until_next_resync(1500, 2000), 500);
    assert_eq!(millis_until_next_resync(2000, 2000), 0);
    assert_eq!(millis_until_next_resync(9000, 2000), 0);
}

// The module samples usage as a float and shows whole percentages, cut
// towards zero; the label is built from that whole number.
fn whole_percent(usage: f64) -> u16 {
    usage.clamp(0.0, 100.0) as u16
}

#[test]
fn cpu_render_format_replaces_placeholders() {
    let text = cpu_render("{used_percentage}% {idle_percentage}%", whole_percent(62.4));
    assert_eq!(text, "62% 38%");
}

#[test]
fn render_format_truncates_percentage() {
    let text = cpu_render("{used_percentage}% {idle_percentage}%", whole_percent(62.9));
    assert_eq!(text, "62% 38%");
}

// The sensor reading is a float in degrees Celsius; the label shows it
// rounded in Celsius, Fahrenheit and Kelvin.
fn whole_degrees(celsius: f64) -> (i32, i32, i32) {
    (
        celsius.round() as i32,
        (celsius * 1.8 + 32.0).round() as i32,
        (celsius + 273.15).round() as i32,
    )
}

#[test]
fn render_temperature_format_replaces_placeholders() {
    let (c, f, k) = whole_degrees(42.5);
    let text = render_temperature_format(
        "{temperatureC} {temperatureF} {temperatureK} {icon}",
        c,
        f,
        k,
        &vec!["cold".to_string(), "hot".to_string()],
    );
    assert_eq!(text, "43 109 316 cold");
}

#[test]
fn temperature_state_class_applies_thresholds() {
    assert_eq!(temperature_state_class(whole_degrees(44.0).0, Some(45), Some(80)), "temperature-normal");
    assert_eq!(temperature_state_class(whole_degrees(45.0).0, Some(45), Some(80)), "temperature-warning");
    assert_eq!(temperature_state_class(whole_degrees(80.0).0, Some(45), Some(80)), "temperature-critical");
}

#[test]
fn temperature_visibility_hides_when_selected_format_is_empty() {
    let (c, f, k) = whole_degrees(42.0);
    let text = render_temperature_format("", c, f, k, &Vec::new());
    assert!(text.trim().is_empty());
}

#[test]
fn carrying_out_a_sync_plan_leaves_one_window_per_monitor() {
    let open = vec!["__fallback__".to_string(), "m1".to_string(), "gone".to_string()];
    let monitors = vec!["m1".to_string(), "m2".to_string(), "m3".to_string()];
    let plan = window_sync_plan(&open, &monitors);
    let mut after: Vec<String> = open.into_iter().filter(|k| !plan.remove.contains(k)).collect();
    after.extend(plan.create.iter().map(|&i| monitors[i].clone()));
    after.sort();
    assert_eq!(after, vec!["m1", "m2", "m3"]);
}

fn panel(actual: u64, max: u64) -> BacklightDevice {
    BacklightDevice { name: "panel".to_string(), actual_brightness: actual, max_brightness: max, powered: true }
}

#[test]
fn scroll_steps_stay_between_floor_and_maximum() {
    assert_eq!(brightness_target(&panel(95, 100), true, 10, 5), Ok(Some(100)));
    assert_eq!(brightness_target(&panel(100, 100), true, 10, 5), Ok(None));
    assert_eq!(brightness_target(&panel(12, 100), false, 10, 5), Ok(Some(5)));
    assert_eq!(brightness_target(&panel(5, 100), false, 10, 5), Ok(None));
    assert_eq!(brightness_target(&panel(50, 100), false, 10, 5), Ok(Some(40)));
    assert_eq!(brightness_target(&panel(50, 0), true, 10, 5), Err("backlight max_brightness is 0".to_string()));
}

#[test]
fn escaped_values_hold_no_markup_tags() {
    let escaped = escape_markup_text("<b>bold</b> & 'q' \"x\"\u{1}");
    assert_eq!(escaped, "&lt;b&gt;bold&lt;/b&gt; &amp; &#39;q&#39; &quot;x&quot;&#x1;");
    assert!(!escaped.contains('<') && !escaped.contains('>'));
    let label = render_markup_template("<i>{}</i>", &vec![("{}".to_string(), "</i><big>".to_string())]);
    assert_eq!(label, "<i>&lt;/i&gt;&lt;big&gt;</i>");
}

#[test]
fn preferred_battery_must_exist_and_be_a_battery() {
    let root = "/sys/class/power_supply";
    assert_eq!(
        check_preferred_battery("BAT9", root, "/sys/class/power_supply/BAT9", false, false),
        Err("preferred battery device 'BAT9' not found in /sys/class/power_supply".to_string())
    );
    assert_eq!(
        check_preferred_battery("AC", root, "/sys/class/power_supply/AC", true, false),
        Err("preferred device '/sys/class/power_supply/AC' is not a battery device".to_string())
    );
    assert_eq!(check_preferred_battery("BAT0", root, "/sys/class/power_supply/BAT0", true, true), Ok(()));
}

#[test]
fn cpu_line_sums_fit_detects_overflowing_totals() {
    assert!(cpu_line_sums_fit("cpu  10 20 30 40 5\ncpu0 1 2 3 4\n"));
    assert!(cpu_line_sums_fit("no cpu line here\n"));
    assert!(!cpu_line_sums_fit("cpu 18446744073709551615 1 0 0\n"));
    assert!(!cpu_line_sums_fit("cpu 0 0 0 18446744073709551615 1\n"));
}

#[test]
fn first_parsed_config_wins_over_unreadable_and_broken_files() {
    assert_eq!(first_parsed(&vec![None, Some(false), Some(true), Some(true)]), Some(2));
    assert_eq!(first_parsed(&vec![Some(true)]), Some(0));
    assert_eq!(first_parsed(&vec![None, Some(false)]), None);
    assert_eq!(first_parsed(&vec![]), None);
}

#[test]
fn workspaces_module_is_registered_under_its_documented_type() {
    assert_eq!(module_kind("sway/workspaces"), Ok(ModuleKind::SwayWorkspaces));
    assert!(module_kind("workspaces").is_err());
}

#[test]
fn clock_text_formats_the_instant_at_the_local_offset() {
    // 2022-02-01 13:50:00 UTC, a Tuesday, seen one hour east of UTC.
    let (text, visible) = clock_text("<b>{}</b>", 1_643_723_400, 0, 3600, "%H:%M").expect("formats");
    assert_eq!(text, "<b>14:50</b>");
    assert!(visible);
    let (default_text, _) = clock_text("{}", 1_643_723_400, 0, 0, DEFAULT_CLOCK_FMT).expect("formats");
    assert_eq!(default_text, "Tue 01. Feb 13:50:00");
    let (escaped, _) = clock_text("{}", 0, 0, 0, "<%Y>").expect("formats");
    assert_eq!(escaped, "&lt;1970&gt;");
    let (blank, shown) = clock_text("{}", 0, 0, 0, " ").expect("formats");
    assert_eq!(blank, " ");
    assert!(!shown);
}

#[test]
fn clock_text_is_none_where_chrono_cannot_write_the_time() {
    assert_eq!(clock_text("{}", 0, 0, 0, "%"), None);
    assert_eq!(clock_text("{}", 0, 0, 90_000, "%H"), None);
}
