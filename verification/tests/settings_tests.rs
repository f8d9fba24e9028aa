use vwisper::settings::config_dir_name;
use vwisper::settings::get_settings;
use vwisper::settings::load_settings;
use vwisper::settings::reset_settings;
use vwisper::settings::save_settings;
use vwisper::settings::settings_file_name;
use vwisper::settings::Settings;

fn settings(key: Option<&str>, save_history: bool, save_audio: bool) -> Settings {
    Settings { groq_api_key: key.map(|k| k.to_string()), save_history, save_audio }
}

#[test]
fn default_settings_keep_nothing() {
    assert_eq!(Settings::default(), settings(None, false, false));
}

#[test]
fn missing_settings_file_means_no_key_and_everything_kept() {
    assert_eq!(load_settings(None), settings(None, true, true));
    assert_eq!(get_settings(None), Ok(settings(None, true, true)));
}

#[test]
fn stored_settings_are_in_force() {
    assert_eq!(load_settings(Some(settings(Some("k"), false, true))), settings(Some("k"), false, true));
    assert_eq!(
        get_settings(Some(settings(None, false, false))),
        Ok(settings(None, false, false))
    );
}

#[test]
fn saving_sets_the_key_and_the_named_switches() {
    let saved = save_settings(settings(None, true, true), "k1".to_string(), None, None);
    assert_eq!(saved, settings(Some("k1"), true, true));
    let saved = save_settings(settings(Some("old"), true, true), "k2".to_string(), Some(false), None);
    assert_eq!(saved, settings(Some("k2"), false, true));
    let saved = save_settings(settings(Some("old"), false, false), "k3".to_string(), None, Some(true));
    assert_eq!(saved, settings(Some("k3"), false, true));
    let saved =
        save_settings(settings(None, false, true), String::new(), Some(true), Some(false));
    assert_eq!(saved, settings(Some(""), true, false));
}

#[test]
fn reset_forgets_the_key_and_keeps_everything() {
    assert_eq!(reset_settings(settings(Some("k"), false, false)), settings(None, true, true));
    assert_eq!(reset_settings(settings(None, true, true)), settings(None, true, true));
}

#[test]
fn file_names() {
    assert_eq!(config_dir_name(), "vwisper");
    assert_eq!(settings_file_name(), "settings.json");
}
