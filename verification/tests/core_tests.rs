use auto_konsole::args::Args;
use auto_konsole::args::CommandAction;
use auto_konsole::config::Config;
use auto_konsole::listener::decode_setting;
use auto_konsole::listener::setting_matches;
use auto_konsole::listener::step;
use auto_konsole::listener::ListenerAction;
use auto_konsole::listener::ListenerEvent;
use auto_konsole::listener::ListenerState;
use auto_konsole::profile::config_rel_path;
use auto_konsole::profile::home_joined;
use auto_konsole::profile::konsolerc_rel_path;
use auto_konsole::profile::profile_rel_path;
use auto_konsole::profile::schemes_dir_rel_path;
use auto_konsole::schemes::colorscheme_names;
use auto_konsole::session::is_konsole_name;
use auto_konsole::session::konsole_pids;
use auto_konsole::session::konsole_service_name;
use auto_konsole::session::u32_decimal;
use auto_konsole::theme::decode;
use auto_konsole::theme::ThemeType;

#[test]
fn decode_one_is_dark_two_is_light() {
    assert_eq!(decode(1), ThemeType::Dark);
    assert_eq!(decode(2), ThemeType::Light);
}

#[test]
fn decode_everything_else_is_light() {
    assert_eq!(decode(0), ThemeType::Light);
    assert_eq!(decode(3), ThemeType::Light);
    assert_eq!(decode(42), ThemeType::Light);
    assert_eq!(decode(u32::MAX), ThemeType::Light);
}

#[test]
fn try_from_rejects_unknown_values() {
    assert_eq!(ThemeType::try_from(1), Ok(ThemeType::Dark));
    assert_eq!(ThemeType::try_from(2), Ok(ThemeType::Light));
    assert_eq!(ThemeType::try_from(0), Err(()));
    assert_eq!(ThemeType::try_from(7), Err(()));
}

#[test]
fn default_theme_is_light() {
    assert_eq!(ThemeType::default(), ThemeType::Light);
}

#[test]
fn theme_names() {
    assert_eq!(ThemeType::Dark.display_name(), "Dark");
    assert_eq!(ThemeType::Light.display_name(), "Light");
    assert_eq!(ThemeType::Dark.profile_file_name(), "Dark.profile");
    assert_eq!(ThemeType::Light.profile_file_name(), "Light.profile");
}

#[test]
fn decode_setting_falls_back_on_no_integer() {
    assert_eq!(decode_setting(Some(1)), ThemeType::Dark);
    assert_eq!(decode_setting(Some(2)), ThemeType::Light);
    assert_eq!(decode_setting(Some(9)), ThemeType::Light);
    assert_eq!(decode_setting(None), ThemeType::Light);
}

#[test]
fn listener_walks_connect_sync_watch() {
    let (s, a) = step(ListenerState::Connecting, ListenerEvent::Connected);
    assert_eq!(s, ListenerState::Syncing);
    assert_eq!(a, ListenerAction::Proceed);
    let (s, a) = step(s, ListenerEvent::ReadOk { value: Some(1) });
    assert_eq!(s, ListenerState::Watching);
    assert_eq!(a, ListenerAction::Apply(ThemeType::Dark));
    let (s, a) = step(s, ListenerEvent::StreamEnded);
    assert_eq!(s, ListenerState::Terminated);
    assert_eq!(a, ListenerAction::FinishOk);
}

#[test]
fn listener_connect_failure_is_fatal() {
    let (s, a) = step(ListenerState::Connecting, ListenerEvent::ConnectFailed);
    assert_eq!(s, ListenerState::Terminated);
    assert_eq!(a, ListenerAction::FinishErr);
}

#[test]
fn listener_read_failure_still_watches() {
    let (s, a) = step(ListenerState::Syncing, ListenerEvent::ReadFailed);
    assert_eq!(s, ListenerState::Watching);
    assert_eq!(a, ListenerAction::Proceed);
}

#[test]
fn irrelevant_key_causes_no_apply() {
    let event = ListenerEvent::Setting {
        namespace: "org.freedesktop.appearance".to_string(),
        key: "icon-theme".to_string(),
        value: Some(1),
    };
    let (s, a) = step(ListenerState::Watching, event);
    assert_eq!(s, ListenerState::Watching);
    assert_eq!(a, ListenerAction::Proceed);
}

#[test]
fn relevant_notification_applies_decoded_theme() {
    let event = ListenerEvent::Setting {
        namespace: "org.freedesktop.appearance".to_string(),
        key: "color-scheme".to_string(),
        value: Some(1),
    };
    let (s, a) = step(ListenerState::Watching, event);
    assert_eq!(s, ListenerState::Watching);
    assert_eq!(a, ListenerAction::Apply(ThemeType::Dark));
}

#[test]
fn connection_loss_ends_with_error() {
    let (s, a) = step(ListenerState::Watching, ListenerEvent::ConnectionLost);
    assert_eq!(s, ListenerState::Terminated);
    assert_eq!(a, ListenerAction::FinishErr);
}

#[test]
fn setting_matches_exact_pair_only() {
    assert!(setting_matches("org.freedesktop.appearance", "color-scheme"));
    assert!(!setting_matches("org.freedesktop.appearance", "icon-theme"));
    assert!(!setting_matches("org.gnome.desktop", "color-scheme"));
}

#[test]
fn config_defaults_to_breeze() {
    let c = Config::default();
    assert_eq!(c.dark, "Breeze");
    assert_eq!(c.light, "Breeze");
}

#[test]
fn config_set_scheme_keeps_the_other() {
    let mut c = Config::default();
    c.set_scheme(ThemeType::Dark, "NewDarkScheme".to_string());
    assert_eq!(c.dark, "NewDarkScheme");
    assert_eq!(c.light, "Breeze");
    c.set_scheme(ThemeType::Light, "NewLightScheme".to_string());
    assert_eq!(c.dark, "NewDarkScheme");
    assert_eq!(c.light, "NewLightScheme");
    assert_eq!(c.scheme_for(ThemeType::Dark), "NewDarkScheme");
    assert_eq!(c.scheme_for(ThemeType::Light), "NewLightScheme");
}

#[test]
fn scheme_names_keep_stems_in_order() {
    let files = vec![
        "Breeze.colorscheme".to_string(),
        "notes.txt".to_string(),
        ".colorscheme".to_string(),
        "Solarized Dark.colorscheme".to_string(),
    ];
    let names = colorscheme_names(&files);
    assert_eq!(names, vec!["Breeze".to_string(), "Solarized Dark".to_string()]);
}

#[test]
fn scheme_names_empty_listing() {
    let names = colorscheme_names(&Vec::new());
    assert!(names.is_empty());
}

#[test]
fn konsole_name_matching_ignores_ascii_case() {
    assert!(is_konsole_name("konsole"));
    assert!(is_konsole_name("Konsole"));
    assert!(is_konsole_name("KONSOLE"));
    assert!(!is_konsole_name("xterm"));
    assert!(!is_konsole_name("konsoles"));
    assert!(!is_konsole_name(""));
}

#[test]
fn konsole_pids_pick_matching_processes() {
    let procs = vec![
        (1u32, "systemd".to_string()),
        (731u32, "konsole".to_string()),
        (902u32, "Konsole".to_string()),
        (1000u32, "bash".to_string()),
    ];
    assert_eq!(konsole_pids(&procs), vec![731u32, 902u32]);
}

#[test]
fn decimal_rendering() {
    assert_eq!(u32_decimal(0), "0");
    assert_eq!(u32_decimal(7), "7");
    assert_eq!(u32_decimal(10), "10");
    assert_eq!(u32_decimal(305), "305");
    assert_eq!(u32_decimal(u32::MAX), "4294967295");
}

#[test]
fn service_name_embeds_pid() {
    assert_eq!(konsole_service_name(12345), "org.kde.konsole-12345");
}

#[test]
fn rel_paths() {
    assert_eq!(konsolerc_rel_path(), ".config/konsolerc");
    assert_eq!(profile_rel_path(ThemeType::Dark), ".local/share/konsole/Dark.profile");
    assert_eq!(profile_rel_path(ThemeType::Light), ".local/share/konsole/Light.profile");
    assert_eq!(schemes_dir_rel_path(), ".local/share/konsole");
    assert_eq!(config_rel_path(), ".config/auto-konsole/config.toml");
}

#[test]
fn home_joined_ends_with_relative_path() {
    if let Some(p) = home_joined(konsolerc_rel_path()) {
        assert!(p.ends_with("/.config/konsolerc"));
    }
}

#[test]
fn args_precedence() {
    let a = Args { daemon: true, list: true, dark: Some("x".to_string()), light: None };
    assert_eq!(a.action(), CommandAction::Daemon);
    let a = Args { daemon: false, list: true, dark: Some("x".to_string()), light: None };
    assert_eq!(a.action(), CommandAction::List);
    let a = Args { daemon: false, list: false, dark: Some("x".to_string()), light: Some("y".to_string()) };
    assert_eq!(a.action(), CommandAction::SetDark);
    let a = Args { daemon: false, list: false, dark: None, light: Some("y".to_string()) };
    assert_eq!(a.action(), CommandAction::SetLight);
    let a = Args { daemon: false, list: false, dark: None, light: None };
    assert_eq!(a.action(), CommandAction::NoOp);
}
