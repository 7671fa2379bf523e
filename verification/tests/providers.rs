//! The providers: greeting, header identity, clock, weather, song and
//! host facts.

use draconis::config::Config;
use draconis::config::IconKind;
use draconis::config::ManagerSelection;
use draconis::config::PackagesConfig;
use draconis::config::SystemConfig;
use draconis::config::TimeConfig;
use draconis::config::WeatherConfig;
use draconis::greet::get_hostname;
use draconis::greet::greeting;
use draconis::misc::get_datetime;
use draconis::misc::get_song;
use draconis::misc::get_weather;
use draconis::misc::WeatherObs;
use draconis::system_info::get_disk_usage;
use draconis::system_info::get_environment;
use draconis::system_info::get_kernel_blocking;
use draconis::system_info::get_memory;
use draconis::system_info::get_release_blocking;
use draconis::system_info::used_memory_bytes;

fn base_config() -> Config {
    Config {
        width: 50,
        hostname: None,
        name: None,
        greeting_enabled: true,
        icons: IconKind::Plain,
        time: TimeConfig { enabled: true, kind: Some("12h".to_string()) },
        weather: WeatherConfig {
            enabled: true,
            api_key: Some("k".to_string()),
            location: Some("Berlin".to_string()),
            lang: Some("en".to_string()),
            units: Some("metric".to_string()),
        },
        system: SystemConfig {
            release_enabled: true,
            kernel_enabled: true,
            mem_usage_enabled: true,
            disk_usage_enabled: true,
            desktop_env_enabled: true,
        },
        packages: PackagesConfig {
            package_managers: ManagerSelection::One("pacman".to_string()),
            package_count_enabled: true,
            update_count_enabled: true,
        },
        song_enabled: true,
    }
}

#[test]
fn greeting_picks_the_phrase_by_hour() {
    let cfg = base_config();
    assert_eq!(greeting(&cfg, 9, "alice").unwrap(), "Good morning, alice");
    assert_eq!(greeting(&cfg, 13, "alice").unwrap(), "Good afternoon, alice");
    assert_eq!(greeting(&cfg, 20, "alice").unwrap(), "Good evening, alice");
    assert_eq!(greeting(&cfg, 23, "alice").unwrap(), "Good night, alice");
    assert_eq!(greeting(&cfg, 2, "alice").unwrap(), "Good night, alice");
}

#[test]
fn greeting_prefers_the_configured_name() {
    let mut cfg = base_config();
    cfg.name = Some("Bob".to_string());
    assert_eq!(greeting(&cfg, 9, "alice").unwrap(), "Good morning, Bob");
}

#[test]
fn greeting_with_emoji_icons_carries_a_glyph() {
    let mut cfg = base_config();
    cfg.icons = IconKind::Emoji;
    assert_eq!(
        greeting(&cfg, 13, "alice").unwrap(),
        "\u{1F31E} Good afternoon, alice"
    );
}

#[test]
fn disabled_greeting_yields_nothing() {
    let mut cfg = base_config();
    cfg.greeting_enabled = false;
    assert_eq!(greeting(&cfg, 9, "alice"), None);
}

#[test]
fn hostname_override_wins() {
    let mut cfg = base_config();
    cfg.hostname = Some("box".to_string());
    assert_eq!(
        get_hostname(&cfg, "alice", Some("real".to_string())).unwrap(),
        "box"
    );
}

#[test]
fn hostname_joins_user_and_host() {
    let cfg = base_config();
    assert_eq!(
        get_hostname(&cfg, "alice", Some("island".to_string())).unwrap(),
        "alice@island"
    );
    assert_eq!(get_hostname(&cfg, "alice", None), None);
}

#[test]
fn datetime_renders_twelve_hour_clock_and_ordinal_date() {
    let cfg = base_config();
    assert_eq!(
        get_datetime(&cfg, 13, 5, 21, 10).unwrap(),
        "October 21st, 1:05 PM"
    );
    assert_eq!(get_datetime(&cfg, 0, 0, 2, 1).unwrap(), "January 2nd, 12:00 AM");
    assert_eq!(get_datetime(&cfg, 12, 30, 23, 6).unwrap(), "June 23rd, 12:30 PM");
    // The 31st deliberately keeps the regular suffix.
    assert_eq!(get_datetime(&cfg, 9, 59, 31, 3).unwrap(), "March 31th, 9:59 AM");
}

#[test]
fn datetime_renders_twenty_four_hour_clock() {
    let mut cfg = base_config();
    cfg.time.kind = Some("24h".to_string());
    assert_eq!(get_datetime(&cfg, 9, 7, 4, 12).unwrap(), "December 4th, 09:07");
}

#[test]
fn datetime_with_unknown_kind_reads_off() {
    let mut cfg = base_config();
    cfg.time.kind = Some("siesta".to_string());
    assert_eq!(get_datetime(&cfg, 9, 7, 4, 12).unwrap(), "December 4th, off");
}

#[test]
fn datetime_without_kind_or_switch_yields_nothing() {
    let mut cfg = base_config();
    cfg.time.kind = None;
    assert_eq!(get_datetime(&cfg, 9, 7, 4, 12), None);
    let mut cfg = base_config();
    cfg.time.enabled = false;
    assert_eq!(get_datetime(&cfg, 9, 7, 4, 12), None);
}

#[test]
fn datetime_with_emoji_icons_shows_a_clock_face() {
    let mut cfg = base_config();
    cfg.icons = IconKind::Emoji;
    assert_eq!(
        get_datetime(&cfg, 13, 5, 21, 10).unwrap(),
        "\u{1F550} October 21st, 1:05 PM"
    );
}

fn obs(code: &str, main: &str, temp: &str) -> WeatherObs {
    WeatherObs { icon: code.to_string(), main: main.to_string(), temp: temp.to_string() }
}

#[test]
fn weather_row_without_icons_is_condition_and_degrees() {
    let cfg = base_config();
    assert_eq!(
        get_weather(&cfg, Some(obs("01d", "Clear", "12.5"))).unwrap(),
        "Clear 12\u{B0}C"
    );
}

#[test]
fn weather_row_with_emoji_icons_picks_the_code_glyph() {
    let mut cfg = base_config();
    cfg.icons = IconKind::Emoji;
    assert_eq!(
        get_weather(&cfg, Some(obs("01d", "Clear", "12.5"))).unwrap(),
        "\u{2600}\u{FE0F} Clear 12\u{B0}C"
    );
    assert_eq!(
        get_weather(&cfg, Some(obs("13n", "Snow", "-3.1"))).unwrap(),
        "\u{2744}\u{FE0F} Snow -3\u{B0}C"
    );
    assert_eq!(
        get_weather(&cfg, Some(obs("99x", "Odd", "7.0"))).unwrap(),
        "\u{1F321}\u{FE0F} Odd 7.\u{B0}C"
    );
}

#[test]
fn imperial_units_switch_the_degree_letter() {
    let mut cfg = base_config();
    cfg.weather.units = Some("imperial".to_string());
    assert_eq!(
        get_weather(&cfg, Some(obs("01d", "Clear", "55.4"))).unwrap(),
        "Clear 55\u{B0}F"
    );
    // A quoted value from the configuration file still counts as imperial.
    cfg.weather.units = Some("\"imperial\"".to_string());
    assert_eq!(
        get_weather(&cfg, Some(obs("01d", "Clear", "55.4"))).unwrap(),
        "Clear 55\u{B0}F"
    );
}

#[test]
fn weather_without_api_key_yields_nothing() {
    let mut cfg = base_config();
    cfg.weather.api_key = None;
    assert_eq!(get_weather(&cfg, Some(obs("01d", "Clear", "12.5"))), None);
}

#[test]
fn failed_weather_fetch_yields_nothing() {
    let cfg = base_config();
    assert_eq!(get_weather(&cfg, None), None);
}

#[test]
fn song_row_joins_artists_and_title() {
    let cfg = base_config();
    let artists = vec!["A".to_string(), "B".to_string()];
    assert_eq!(
        get_song(&cfg, Some(artists), Some("T".to_string())).unwrap(),
        "A, B - T"
    );
}

#[test]
fn song_row_trims_trailing_newline() {
    let cfg = base_config();
    assert_eq!(
        get_song(&cfg, Some(vec!["A".to_string()]), Some("T\n".to_string())).unwrap(),
        "A - T"
    );
}

#[test]
fn long_song_is_cut_with_an_ellipsis() {
    let cfg = base_config();
    let title = "a".repeat(60);
    let out = get_song(&cfg, Some(vec!["A".to_string()]), Some(title)).unwrap();
    assert_eq!(out, format!("A - {}...", "a".repeat(34)));
}

#[test]
fn disabled_song_or_missing_metadata_yields_nothing() {
    let mut cfg = base_config();
    cfg.song_enabled = false;
    assert_eq!(get_song(&cfg, Some(vec!["A".to_string()]), Some("T".to_string())), None);
    let cfg = base_config();
    assert_eq!(get_song(&cfg, None, Some("T".to_string())), None);
    assert_eq!(get_song(&cfg, Some(vec!["A".to_string()]), None), None);
}

#[test]
fn release_row_strips_quotes_and_newline() {
    let cfg = base_config();
    assert_eq!(
        get_release_blocking(&cfg, Some("\"Arch Linux\"\n".to_string())).unwrap(),
        "Arch Linux"
    );
    assert_eq!(get_release_blocking(&cfg, None), None);
}

#[test]
fn long_release_is_cut_with_an_ellipsis() {
    let cfg = base_config();
    let rel = format!("\"{}\"", "r".repeat(60));
    let out = get_release_blocking(&cfg, Some(rel)).unwrap();
    assert_eq!(out, format!("{}...", "r".repeat(38)));
}

#[test]
fn kernel_row_trims_trailing_newline() {
    let cfg = base_config();
    assert_eq!(
        get_kernel_blocking(&cfg, Some("6.1.0-arch1\n".to_string())).unwrap(),
        "6.1.0-arch1"
    );
}

#[test]
fn memory_and_disk_rows_carry_their_labels() {
    let cfg = base_config();
    assert_eq!(get_memory(&cfg, "3.1 GB".to_string()).unwrap(), "3.1 GB Used");
    assert_eq!(get_disk_usage(&cfg, "120 GB".to_string()).unwrap(), "120 GB Free");
    assert_eq!(used_memory_bytes(8_000, 3_000), 5_000);
    assert_eq!(used_memory_bytes(3_000, 8_000), 0);
}

#[test]
fn desktop_environment_prefers_the_current_desktop() {
    let cfg = base_config();
    assert_eq!(
        get_environment(&cfg, Some("sway".to_string()), Some("kde".to_string())).unwrap(),
        "sway"
    );
    assert_eq!(get_environment(&cfg, None, Some("kde".to_string())).unwrap(), "kde");
    assert_eq!(get_environment(&cfg, None, None).unwrap(), "");
}

#[test]
fn disabled_host_fact_rows_yield_nothing() {
    let mut cfg = base_config();
    cfg.system.release_enabled = false;
    cfg.system.kernel_enabled = false;
    cfg.system.mem_usage_enabled = false;
    cfg.system.disk_usage_enabled = false;
    cfg.system.desktop_env_enabled = false;
    assert_eq!(get_release_blocking(&cfg, Some("x".to_string())), None);
    assert_eq!(get_kernel_blocking(&cfg, Some("x".to_string())), None);
    assert_eq!(get_memory(&cfg, "x".to_string()), None);
    assert_eq!(get_disk_usage(&cfg, "x".to_string()), None);
    assert_eq!(get_environment(&cfg, Some("x".to_string()), None), None);
}
