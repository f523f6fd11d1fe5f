use dbv::application::preferences::Preference;
use dbv::components::selected_color;
use dbv::components::tab::{Tab, TabComponent};
use dbv::config::Config;
use dbv::events::key::Keys;
use dbv::log::LogLevel;
use dbv::utils::{get_path_app_file, get_path_app_folder, is_blank, same_text};

#[test]
fn default_preferences() {
    let p = Preference::default();
    assert_eq!(p.theme_config.selected_color, [255, 165, 0]);
    assert_eq!(p.theme_config.unselected_color, [255, 236, 195]);
    assert_eq!(p.theme_config.help_text_color, [93, 169, 233]);
    assert_eq!(p.theme_config.help_key_color, [100, 149, 237]);
    assert_eq!(p.theme_config.help_desc_color, [255, 236, 195]);
    assert_eq!(p.log_level, LogLevel::INFO);
    let c = Config::default();
    assert_eq!(c.theme_config.selected_color, [255, 165, 0]);
    assert_eq!(c.log_level, LogLevel::INFO);
}

#[test]
fn selected_color_follows_focus() {
    let t = Preference::default().theme_config;
    assert_eq!(selected_color(true, t), [255, 165, 0]);
    assert_eq!(selected_color(false, t), [255, 236, 195]);
}

#[test]
fn log_level_names_and_patterns() {
    assert_eq!(LogLevel::default(), LogLevel::INFO);
    assert_eq!(LogLevel::WARN.name(), "WARN");
    assert_eq!(LogLevel::DEBUG.pattern(), "[{d(%Y-%m-%d %H:%M:%S)} {l} {f}:{L}] {m}{n}");
    assert_eq!(LogLevel::INFO.pattern(), "[{d(%Y-%m-%d %H:%M:%S)} {l}] {m}{n}");
}

#[test]
fn application_paths() {
    assert_eq!(get_path_app_folder("/home/ada"), "/home/ada/.config/dbv/");
    assert_eq!(get_path_app_file("/home/ada", "dbv.json"), "/home/ada/.config/dbv/dbv.json");
}

#[test]
fn text_helpers() {
    assert!(same_text("abc", "abc"));
    assert!(!same_text("abc", "abd"));
    assert!(!same_text("abc", "ab"));
    assert!(is_blank(""));
    assert!(is_blank(" \t\u{3000}"));
    assert!(!is_blank(" x "));
}

#[test]
fn tabs_wrap_around() {
    let mut t = TabComponent::new();
    t.event(&Keys::Char('l'));
    assert_eq!(t.selected_tab, 1);
    t.event(&Keys::ArrowRight);
    assert_eq!(t.selected_tab, 0);
    t.event(&Keys::Char('h'));
    assert_eq!(t.selected_tab, 1);
    assert_eq!(Tab::Record.name(), "Record");
    assert_eq!(Tab::Structure.name(), "Structure");
}
