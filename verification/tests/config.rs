use scribe::config::{
    after_save_step, get_post_process_enabled, get_post_process_prompt, get_prompt,
    get_realtime_transcription_enabled, get_show_recording_overlay, load_config, update_config,
    Config, ConfigChange, ConfigFile, SaveStep, CONFIG_DIRECTORY, CONFIG_FILE,
    DEFAULT_POST_PROCESS_PROMPT, TEMPORARY_EXTENSION,
};
use serde_json::Value;

#[test]
fn invalid_config_is_reported_instead_of_resetting_to_defaults() {
    let words = serde_json::from_str::<Value>("not json").unwrap_err().to_string();

    let error = match load_config(ConfigFile::Invalid(words)) {
        Ok(_) => panic!("invalid config should fail"),
        Err(error) => error,
    };

    assert!(error.contains("Failed to parse config"));
}

fn words(result: Result<Config, String>) -> String {
    match result {
        Ok(_) => panic!("an error was due"),
        Err(error) => error,
    }
}

#[test]
fn errors_tell_what_failed() {
    let why = || "why".to_string();
    assert_eq!(words(load_config(ConfigFile::Unreadable(why()))), "Failed to read config: why");
    assert_eq!(words(load_config(ConfigFile::Invalid(why()))), "Failed to parse config: why");
    assert_eq!(words(load_config(ConfigFile::Poisoned)), "Config lock was poisoned");
    assert_eq!(
        words(load_config(ConfigFile::NoDirectory)),
        "Could not locate the macOS Application Support directory"
    );
    assert_eq!(
        words(load_config(ConfigFile::DirectoryFailed(why()))),
        "Failed to create config directory: why"
    );
    assert_eq!(
        words(update_config(ConfigFile::Invalid(why()), ConfigChange::PostProcess(true))),
        "Failed to parse config: why"
    );
    assert!(get_prompt(ConfigFile::Poisoned).is_err());
}

#[test]
fn a_missing_file_means_defaults() {
    let missing = || ConfigFile::Missing;
    assert_eq!(get_show_recording_overlay(missing()), Ok(true));
    assert_eq!(get_realtime_transcription_enabled(missing()), Ok(false));
    assert_eq!(get_prompt(missing()), Ok(String::new()));
    assert_eq!(get_post_process_enabled(missing()), Ok(false));
    assert_eq!(get_post_process_prompt(missing()), Ok(DEFAULT_POST_PROCESS_PROMPT.to_string()));
    let config = match load_config(missing()) {
        Ok(config) => config,
        Err(error) => panic!("{error}"),
    };
    assert_eq!(config.api_key, None);
}

fn changed(config: Config, change: ConfigChange) -> Config {
    match update_config(ConfigFile::Present(config), change) {
        Ok(config) => config,
        Err(error) => panic!("{error}"),
    }
}

#[test]
fn changes_are_read_back_and_leave_the_rest() {
    let mut config = Config::default();
    config.api_key = Some("key".to_string());
    let config = changed(config, ConfigChange::ShowRecordingOverlay(false));
    let config = changed(config, ConfigChange::RealtimeTranscription(true));
    let config = changed(config, ConfigChange::Prompt("names".to_string()));
    let config = changed(config, ConfigChange::PostProcess(true));
    let config = changed(config, ConfigChange::PostProcessPrompt("tidy".to_string()));
    assert_eq!(config.api_key, Some("key".to_string()));
    let config = changed(config, ConfigChange::ClearApiKey);
    assert_eq!(config.api_key, None);
    assert_eq!(config.show_recording_overlay, Some(false));
    assert_eq!(config.realtime_transcription_enabled, Some(true));
    assert_eq!(config.prompt, Some("names".to_string()));
    assert_eq!(config.post_process_enabled, Some(true));
    assert_eq!(config.post_process_prompt, Some("tidy".to_string()));

    let copy = || {
        let mut copy = Config::default();
        copy.show_recording_overlay = Some(false);
        copy.realtime_transcription_enabled = Some(true);
        copy.prompt = Some("names".to_string());
        copy.post_process_enabled = Some(true);
        copy.post_process_prompt = Some("tidy".to_string());
        ConfigFile::Present(copy)
    };
    assert_eq!(get_show_recording_overlay(copy()), Ok(false));
    assert_eq!(get_realtime_transcription_enabled(copy()), Ok(true));
    assert_eq!(get_prompt(copy()), Ok("names".to_string()));
    assert_eq!(get_post_process_enabled(copy()), Ok(true));
    assert_eq!(get_post_process_prompt(copy()), Ok("tidy".to_string()));
}

#[test]
fn saves_replace_the_file_last() {
    assert_eq!(after_save_step(SaveStep::Encode, Ok(())), Ok(SaveStep::WriteTemporary));
    assert_eq!(after_save_step(SaveStep::WriteTemporary, Ok(())), Ok(SaveStep::Replace));
    assert_eq!(after_save_step(SaveStep::Replace, Ok(())), Ok(SaveStep::Saved));
    let why = || Err("why".to_string());
    assert_eq!(
        after_save_step(SaveStep::Encode, why()),
        Err("Failed to encode config: why".to_string())
    );
    assert_eq!(
        after_save_step(SaveStep::WriteTemporary, why()),
        Err("Failed to write config: why".to_string())
    );
    assert_eq!(
        after_save_step(SaveStep::Replace, why()),
        Err("Failed to replace config: why".to_string())
    );
}

#[test]
fn settings_have_their_place() {
    let path = std::path::Path::new(CONFIG_DIRECTORY).join(CONFIG_FILE);
    assert_eq!(path, std::path::Path::new("scribe/config.json"));
    assert_eq!(
        path.with_extension(TEMPORARY_EXTENSION),
        std::path::Path::new("scribe/config.json.tmp")
    );
}
