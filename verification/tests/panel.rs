//! The aggregation plan and the rendered panel.

use draconis::config::Config;
use draconis::config::IconKind;
use draconis::config::ManagerSelection;
use draconis::config::PackagesConfig;
use draconis::config::SystemConfig;
use draconis::config::TimeConfig;
use draconis::config::WeatherConfig;
use draconis::render::render;
use draconis::schedule::provider_plan;
use draconis::schedule::ExecMode;
use draconis::schedule::ProviderKind;

fn quiet_config() -> Config {
    Config {
        width: 30,
        hostname: None,
        name: None,
        greeting_enabled: false,
        icons: IconKind::Plain,
        time: TimeConfig { enabled: false, kind: None },
        weather: WeatherConfig {
            enabled: false,
            api_key: None,
            location: None,
            lang: None,
            units: None,
        },
        system: SystemConfig {
            release_enabled: false,
            kernel_enabled: false,
            mem_usage_enabled: false,
            disk_usage_enabled: false,
            desktop_env_enabled: false,
        },
        packages: PackagesConfig {
            package_managers: ManagerSelection::Unset,
            package_count_enabled: false,
            update_count_enabled: false,
        },
        song_enabled: false,
    }
}

#[test]
fn plan_has_the_fixed_row_order_and_modes() {
    let cfg = quiet_config();
    let plan = provider_plan(&cfg);
    assert_eq!(plan.len(), 12);
    assert!(matches!(plan[0].kind, ProviderKind::Hostname));
    assert!(matches!(plan[0].mode, ExecMode::Pure));
    assert!(matches!(plan[3].kind, ProviderKind::Weather));
    assert!(matches!(plan[3].mode, ExecMode::Async));
    assert!(matches!(plan[4].kind, ProviderKind::Release));
    assert!(matches!(plan[4].mode, ExecMode::Blocking));
    assert!(matches!(plan[11].kind, ProviderKind::Song));
    assert!(matches!(plan[11].mode, ExecMode::Blocking));
}

#[test]
fn disabled_providers_are_never_dispatched() {
    // Everything but the header identity is switched off: no slot but the
    // first may run, so no subprocess, network or file read can be
    // attributed to any of them.
    let cfg = quiet_config();
    let plan = provider_plan(&cfg);
    assert!(plan[0].run);
    for slot in plan.iter().skip(1) {
        assert!(!slot.run);
    }
}

#[test]
fn weather_with_missing_api_key_is_not_dispatched() {
    let mut cfg = quiet_config();
    cfg.weather.enabled = true;
    cfg.weather.location = Some("Berlin".to_string());
    cfg.weather.lang = Some("en".to_string());
    cfg.weather.units = Some("metric".to_string());
    // The switch is on, but without an API key the provider stays idle.
    let plan = provider_plan(&cfg);
    assert!(!plan[3].run);
}

#[test]
fn update_counter_without_managers_is_not_dispatched() {
    let mut cfg = quiet_config();
    cfg.packages.update_count_enabled = true;
    let plan = provider_plan(&cfg);
    assert!(!plan[9].run);
}

fn rows_with(greeting: Option<&str>, song: Option<&str>) -> Vec<Option<String>> {
    let mut rows: Vec<Option<String>> = vec![None; 12];
    rows[0] = Some("host".to_string());
    rows[1] = greeting.map(|s| s.to_string());
    rows[11] = song.map(|s| s.to_string());
    rows
}

#[test]
fn panel_has_borders_and_only_reported_rows() {
    let cfg = quiet_config();
    let lines = render(&cfg, rows_with(Some("hi"), Some("tune"))).unwrap();
    assert_eq!(lines.len(), 4);
    assert_eq!(
        lines[0],
        format!("\u{256D}\u{2500} host {}\u{256E}", "\u{2500}".repeat(26))
    );
    assert_eq!(lines[1], format!("\u{2502} hi{}\u{2502}", " ".repeat(21)));
    assert_eq!(lines[2], format!("\u{2502} tune{}\u{2502}", " ".repeat(20)));
    assert_eq!(
        lines[3],
        format!("\u{2570}\u{2500}{}\u{256F}", "\u{2500}".repeat(23))
    );
}

#[test]
fn absent_rows_leave_no_blank_line_behind() {
    // The weather slot reports nothing (a missing API key, say): the
    // panel holds no weather line, no placeholder, and every other line
    // is exactly what it was.
    let cfg = quiet_config();
    let with_weather = {
        let mut rows = rows_with(Some("hi"), Some("tune"));
        rows[3] = Some("Clear 12\u{B0}C".to_string());
        rows
    };
    let full = render(&cfg, with_weather).unwrap();
    let bare = render(&cfg, rows_with(Some("hi"), Some("tune"))).unwrap();
    assert_eq!(full.len(), 5);
    assert_eq!(bare.len(), 4);
    // The weather line sat between the greeting and the song.
    assert_eq!(full[0], bare[0]);
    assert_eq!(full[1], bare[1]);
    assert_eq!(full[3], bare[2]);
    assert_eq!(full[4], bare[3]);
}

#[test]
fn one_failing_provider_leaves_the_rest_untouched() {
    // The same run with the greeting provider failed: its line is gone,
    // the panel still renders, and the other lines are unchanged.
    let cfg = quiet_config();
    let healthy = render(&cfg, rows_with(Some("hi"), Some("tune"))).unwrap();
    let degraded = render(&cfg, rows_with(None, Some("tune"))).unwrap();
    assert_eq!(healthy.len(), 4);
    assert_eq!(degraded.len(), 3);
    assert_eq!(degraded[0], healthy[0]);
    assert_eq!(degraded[1], healthy[2]);
    assert_eq!(degraded[2], healthy[3]);
}

#[test]
fn song_slot_is_truncated_by_column_width() {
    let cfg = quiet_config();
    let long = "s".repeat(40);
    let lines = render(&cfg, rows_with(None, Some(&long))).unwrap();
    // "│ " and forty letters measure 43 columns, over the 27-column song
    // target: the border, the space and 21 letters fill the 24-column
    // budget, and the ellipsis brings the row to the target exactly.
    assert_eq!(lines[1], format!("\u{2502} {}...\u{2502}", "s".repeat(21)));
}

#[test]
fn over_long_header_refuses_to_render() {
    let cfg = quiet_config();
    let mut rows = rows_with(None, None);
    rows[0] = Some("h".repeat(40));
    assert_eq!(render(&cfg, rows), None);
}
