use scribe::api_key::{
    after_clearing, after_config, after_keychain, after_migration, keychain_change, KeySearch,
    KeychainChange,
};
use scribe::config::{Config, ConfigFile};

fn holding(api_key: Option<&str>) -> ConfigFile {
    let mut config = Config::default();
    config.api_key = api_key.map(|key| key.to_string());
    ConfigFile::Present(config)
}

#[test]
fn blank_keys_remove_the_key() {
    assert!(matches!(keychain_change(""), KeychainChange::Remove));
    assert!(matches!(keychain_change(" \t"), KeychainChange::Remove));
    match keychain_change(" schlüssel ") {
        KeychainChange::Store(bytes) => assert_eq!(bytes, " schlüssel ".as_bytes()),
        KeychainChange::Remove => panic!("the key was to be kept"),
    }
}

#[test]
fn keys_in_the_keychain_are_the_answer() {
    match after_keychain(Some("schlüssel".as_bytes().to_vec())) {
        KeySearch::Done(answer) => assert_eq!(answer, Ok("schlüssel".to_string())),
        _ => panic!("the key was found"),
    }
    assert!(matches!(after_keychain(None), KeySearch::LoadConfig));
    assert!(matches!(after_keychain(Some(vec![0xff])), KeySearch::LoadConfig));
}

#[test]
fn keys_in_the_settings_move() {
    match after_config(holding(Some("old"))) {
        KeySearch::Migrate(key) => assert_eq!(key, "old"),
        _ => panic!("the key was to move"),
    }
    match after_config(holding(None)) {
        KeySearch::Done(answer) => assert_eq!(answer, Ok(String::new())),
        _ => panic!("there is no key"),
    }
    match after_config(holding(Some(""))) {
        KeySearch::Done(answer) => assert_eq!(answer, Ok(String::new())),
        _ => panic!("there is no key"),
    }
    match after_config(ConfigFile::Poisoned) {
        KeySearch::Done(answer) => assert_eq!(answer, Err("Config lock was poisoned".to_string())),
        _ => panic!("the settings could not be loaded"),
    }
}

#[test]
fn keys_leave_the_settings_once_the_keychain_has_them() {
    match after_migration("old".to_string(), true) {
        KeySearch::ClearConfig(key) => assert_eq!(key, "old"),
        _ => panic!("the settings were to be cleared"),
    }
    match after_migration("old".to_string(), false) {
        KeySearch::Done(answer) => assert_eq!(answer, Ok("old".to_string())),
        _ => panic!("the key was the answer"),
    }
    match after_clearing("old".to_string(), Ok(())) {
        KeySearch::Done(answer) => assert_eq!(answer, Ok("old".to_string())),
        _ => panic!("the key was the answer"),
    }
    match after_clearing("old".to_string(), Err("why".to_string())) {
        KeySearch::Done(answer) => assert_eq!(answer, Err("why".to_string())),
        _ => panic!("the error was the answer"),
    }
}

#[test]
fn keys_that_were_set_are_found() {
    for key in ["sk-1", " schlüssel ", "鍵"] {
        let kept = match keychain_change(key) {
            KeychainChange::Store(bytes) => Some(bytes),
            KeychainChange::Remove => None,
        };
        match after_keychain(kept) {
            KeySearch::Done(answer) => assert_eq!(answer, Ok(key.to_string())),
            _ => panic!("the key was found"),
        }
    }
}
