use std::path::PathBuf;

use slightlybettertext::highlighter::Theme;
use slightlybettertext::settings::{
    application_name, theme_named, Settings, APPLICATION, DEFAULT_THEME, NOTES_FILE_NAME,
    ORGANIZATION, QUALIFIER, SETTINGS_FILE_NAME,
};

fn with_theme(name: &str) -> Settings {
    Settings::new(PathBuf::from("/cfg"), PathBuf::from("/docs/n.txt"), String::from(name), true)
}

#[test]
fn constants_name_the_files_and_the_directory() {
    assert_eq!(SETTINGS_FILE_NAME, "settings.json");
    assert_eq!(NOTES_FILE_NAME, "sbt_notes.txt");
    assert_eq!(DEFAULT_THEME, "solarized");
    assert_eq!(QUALIFIER, "sbt");
    assert_eq!(ORGANIZATION, "slightlybettertext");
    assert_eq!(APPLICATION, "slightlybettertext");
}

#[test]
fn application_name_is_empty_on_windows() {
    assert_eq!(application_name(true), "");
    assert_eq!(application_name(false), "slightlybettertext");
}

#[test]
fn defaults_are_solarized_with_word_wrap() {
    let settings = Settings::defaults(PathBuf::from("/home/u/Documents/sbt_notes.txt"));
    assert_eq!(settings.startup_file_path, PathBuf::from("/home/u/Documents/sbt_notes.txt"));
    assert_eq!(settings.startup_file_path(), &PathBuf::from("/home/u/Documents/sbt_notes.txt"));
    assert_eq!(settings.theme(), "solarized");
    assert!(settings.word_wrap);
    assert!(settings.word_wrap());
    assert_eq!(settings.file_path(), None);
    assert_eq!(settings.get_theme(), Theme::SolarizedDark);
}

#[test]
fn new_holds_the_stored_values_and_the_directory() {
    let settings = Settings::new(
        PathBuf::from("/home/u/.config/sbt"),
        PathBuf::from("/tmp/start.md"),
        String::from("Ocean"),
        false,
    );
    assert_eq!(settings.file_path(), Some(&PathBuf::from("/home/u/.config/sbt")));
    assert_eq!(settings.startup_file_path(), &PathBuf::from("/tmp/start.md"));
    assert_eq!(settings.theme(), "Ocean");
    assert!(!settings.word_wrap());
}

#[test]
fn set_path_changes_the_directory_only() {
    let mut settings = Settings::defaults(PathBuf::from("/docs/sbt_notes.txt"));
    settings.set_path(PathBuf::from("/cfg/one"));
    assert_eq!(settings.file_path(), Some(&PathBuf::from("/cfg/one")));
    settings.set_path(PathBuf::from("/cfg/two"));
    assert_eq!(settings.file_path(), Some(&PathBuf::from("/cfg/two")));
    assert_eq!(settings.startup_file_path(), &PathBuf::from("/docs/sbt_notes.txt"));
    assert_eq!(settings.theme(), "solarized");
    assert!(settings.word_wrap());
}

#[test]
fn stored_values_survive_a_reload_and_the_directory_is_derived_anew() {
    let mut saved = Settings::defaults(PathBuf::from("/docs/sbt_notes.txt"));
    saved.set_path(PathBuf::from("/old/config"));
    let loaded = Settings::new(
        PathBuf::from("/new/config"),
        saved.startup_file_path().clone(),
        String::from(saved.theme()),
        saved.word_wrap(),
    );
    assert_eq!(loaded.startup_file_path(), saved.startup_file_path());
    assert_eq!(loaded.theme(), saved.theme());
    assert_eq!(loaded.word_wrap(), saved.word_wrap());
    assert_eq!(loaded.file_path(), Some(&PathBuf::from("/new/config")));
}

#[test]
fn theme_names_select_their_themes() {
    assert_eq!(theme_named("eighties"), Theme::Base16Eighties);
    assert_eq!(theme_named("mocha"), Theme::Base16Mocha);
    assert_eq!(theme_named("ocean"), Theme::Base16Ocean);
    assert_eq!(theme_named("github"), Theme::InspiredGitHub);
    assert_eq!(theme_named("inspired github"), Theme::InspiredGitHub);
    assert_eq!(theme_named("solarized"), Theme::SolarizedDark);
    assert_eq!(theme_named("solarized dark"), Theme::SolarizedDark);
}

#[test]
fn theme_named_expects_lower_case() {
    assert_eq!(theme_named("Mocha"), Theme::SolarizedDark);
    assert_eq!(theme_named("GITHUB"), Theme::SolarizedDark);
}

#[test]
fn unrecognized_theme_names_select_the_default() {
    assert_eq!(theme_named(""), Theme::SolarizedDark);
    assert_eq!(theme_named("monokai"), Theme::SolarizedDark);
    assert_eq!(theme_named("mocha "), Theme::SolarizedDark);
    assert_eq!(theme_named("inspiredgithub"), Theme::SolarizedDark);
    assert_eq!(with_theme("no such theme").get_theme(), Theme::SolarizedDark);
    assert_eq!(with_theme("").get_theme(), Theme::SolarizedDark);
    assert_eq!(with_theme("océan").get_theme(), Theme::SolarizedDark);
}

#[test]
fn get_theme_ignores_case() {
    assert_eq!(with_theme("Eighties").get_theme(), Theme::Base16Eighties);
    assert_eq!(with_theme("MOCHA").get_theme(), Theme::Base16Mocha);
    assert_eq!(with_theme("oCeAn").get_theme(), Theme::Base16Ocean);
    assert_eq!(with_theme("GitHub").get_theme(), Theme::InspiredGitHub);
    assert_eq!(with_theme("Inspired GitHub").get_theme(), Theme::InspiredGitHub);
    assert_eq!(with_theme("Solarized").get_theme(), Theme::SolarizedDark);
    assert_eq!(with_theme("Solarized Dark").get_theme(), Theme::SolarizedDark);
}

#[test]
fn get_theme_takes_lower_case_names() {
    assert_eq!(with_theme("eighties").get_theme(), Theme::Base16Eighties);
    assert_eq!(with_theme("mocha").get_theme(), Theme::Base16Mocha);
    assert_eq!(with_theme("ocean").get_theme(), Theme::Base16Ocean);
    assert_eq!(with_theme("github").get_theme(), Theme::InspiredGitHub);
    assert_eq!(with_theme("inspired github").get_theme(), Theme::InspiredGitHub);
}

#[test]
fn every_theme_but_inspired_github_is_dark() {
    assert!(Theme::SolarizedDark.is_dark());
    assert!(Theme::Base16Mocha.is_dark());
    assert!(Theme::Base16Ocean.is_dark());
    assert!(Theme::Base16Eighties.is_dark());
    assert!(!Theme::InspiredGitHub.is_dark());
}

#[test]
fn settings_survive_the_json_file() {
    let mut saved = Settings::new(
        PathBuf::from("/old/config"),
        PathBuf::from("/docs/my \"notes\".txt"),
        String::from("Inspired GitHub"),
        false,
    );
    saved.set_path(PathBuf::from("/older/config"));

    let mut fields = serde_json::Map::new();
    fields.insert(
        String::from("startup_file_path"),
        serde_json::Value::from(saved.startup_file_path().to_str().unwrap()),
    );
    fields.insert(String::from("theme"), serde_json::Value::from(saved.theme()));
    fields.insert(String::from("word_wrap"), serde_json::Value::from(saved.word_wrap()));
    let written = serde_json::to_string_pretty(&serde_json::Value::Object(fields)).unwrap();
    assert!(!written.contains("config"));

    let read: serde_json::Value = serde_json::from_str(&written).unwrap();
    let loaded = Settings::new(
        PathBuf::from("/new/config"),
        PathBuf::from(read["startup_file_path"].as_str().unwrap()),
        String::from(read["theme"].as_str().unwrap()),
        read["word_wrap"].as_bool().unwrap(),
    );
    assert_eq!(loaded.startup_file_path(), saved.startup_file_path());
    assert_eq!(loaded.theme(), saved.theme());
    assert_eq!(loaded.word_wrap(), saved.word_wrap());
    assert_eq!(loaded.file_path(), Some(&PathBuf::from("/new/config")));
    assert_eq!(loaded.get_theme(), saved.get_theme());
}
