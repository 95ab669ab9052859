//! The settings that the app keeps: reading them, changing one, and saving them.

use vstd::prelude::*;

use crate::capture::fails_with;
use crate::text::{concat, text_of};

verus! {

/// The app's directory in the user's configuration directory.
pub const CONFIG_DIRECTORY: &'static str = "scribe";

/// The file of the settings in that directory.
pub const CONFIG_FILE: &'static str = "config.json";

/// The extension of the temporary file, in place of that of the file of the settings.
pub const TEMPORARY_EXTENSION: &'static str = "json.tmp";

/// What the cleanup of a transcript is asked for where nothing else was set.
pub const DEFAULT_POST_PROCESS_PROMPT: &'static str =
    "Clean up this voice transcript. Remove filler words like um, uh, ah, and you know. Fix punctuation, capitalization, spelling, and grammar. Preserve the speaker's meaning, wording, tone, and formatting as much as possible. Return only the cleaned transcript.";

/// The settings. Each may be unset.
pub struct Settings {
    pub api_key: Option<Seq<char>>,
    pub show_recording_overlay: Option<bool>,
    pub realtime_transcription_enabled: Option<bool>,
    pub prompt: Option<Seq<char>>,
    pub post_process_enabled: Option<bool>,
    pub post_process_prompt: Option<Seq<char>>,
}

impl Settings {
    /// Nothing is set.
    pub open spec fn unset() -> Self {
        Settings {
            api_key: None,
            show_recording_overlay: None,
            realtime_transcription_enabled: None,
            prompt: None,
            post_process_enabled: None,
            post_process_prompt: None,
        }
    }

    /// Whether the overlay is shown while recording; it is unless that was changed.
    pub open spec fn shows_overlay(self) -> bool {
        match self.show_recording_overlay {
            Some(show) => show,
            None => true,
        }
    }

    /// Whether speech is transcribed while it is recorded; it is not unless that was changed.
    pub open spec fn transcribes_in_realtime(self) -> bool {
        match self.realtime_transcription_enabled {
            Some(enabled) => enabled,
            None => false,
        }
    }

    /// The prompt for the transcription; there is none unless one was set.
    pub open spec fn transcription_prompt(self) -> Seq<char> {
        match self.prompt {
            Some(prompt) => prompt,
            None => Seq::empty(),
        }
    }

    /// Whether transcripts are cleaned up; they are not unless that was changed.
    pub open spec fn post_processes(self) -> bool {
        match self.post_process_enabled {
            Some(enabled) => enabled,
            None => false,
        }
    }

    /// What the cleanup of a transcript is asked for.
    pub open spec fn cleanup_prompt(self) -> Seq<char> {
        match self.post_process_prompt {
            Some(prompt) => prompt,
            None => DEFAULT_POST_PROCESS_PROMPT@,
        }
    }

    /// The API key that the settings themselves hold, as they did before keys were kept in the
    /// keychain.
    pub open spec fn legacy_api_key(self) -> Seq<char> {
        match self.api_key {
            Some(api_key) => api_key,
            None => Seq::empty(),
        }
    }

    /// The settings after a change.
    pub open spec fn changed(self, change: ConfigChange) -> Self {
        match change {
            ConfigChange::ClearApiKey => Settings { api_key: None, ..self },
            ConfigChange::ShowRecordingOverlay(show) => Settings {
                show_recording_overlay: Some(show),
                ..self
            },
            ConfigChange::RealtimeTranscription(enabled) => Settings {
                realtime_transcription_enabled: Some(enabled),
                ..self
            },
            ConfigChange::Prompt(prompt) => Settings { prompt: Some(prompt@), ..self },
            ConfigChange::PostProcess(enabled) => Settings {
                post_process_enabled: Some(enabled),
                ..self
            },
            ConfigChange::PostProcessPrompt(prompt) => Settings {
                post_process_prompt: Some(prompt@),
                ..self
            },
        }
    }
}

/// The settings as they are kept.
pub struct Config {
    pub api_key: Option<String>,
    pub show_recording_overlay: Option<bool>,
    pub realtime_transcription_enabled: Option<bool>,
    pub prompt: Option<String>,
    pub post_process_enabled: Option<bool>,
    pub post_process_prompt: Option<String>,
}

impl View for Config {
    type V = Settings;

    open spec fn view(&self) -> Settings {
        Settings {
            api_key: text_of(self.api_key),
            show_recording_overlay: self.show_recording_overlay,
            realtime_transcription_enabled: self.realtime_transcription_enabled,
            prompt: text_of(self.prompt),
            post_process_enabled: self.post_process_enabled,
            post_process_prompt: text_of(self.post_process_prompt),
        }
    }
}

impl Default for Config {
    fn default() -> (config: Self)
        ensures
            config@ == Settings::unset(),
    {
        Config {
            api_key: None,
            show_recording_overlay: None,
            realtime_transcription_enabled: None,
            prompt: None,
            post_process_enabled: None,
            post_process_prompt: None,
        }
    }
}

/// A change to one setting.
pub enum ConfigChange {
    ClearApiKey,
    ShowRecordingOverlay(bool),
    RealtimeTranscription(bool),
    Prompt(String),
    PostProcess(bool),
    PostProcessPrompt(String),
}

/// What was found where the settings are kept.
pub enum ConfigFile {
    /// There is no file.
    Missing,
    /// The file could not be read, for this reason.
    Unreadable(String),
    /// The file does not hold settings, for this reason.
    Invalid(String),
    /// The file holds these settings.
    Present(Config),
    /// The place is in an unknown state: someone failed while changing it.
    Poisoned,
    /// There is no place for settings.
    NoDirectory,
    /// The place for settings could not be made, for this reason.
    DirectoryFailed(String),
}

impl ConfigFile {
    /// The settings that the file stands for, or why there are none. Where there is no file,
    /// nothing is set; a file that does not hold settings is an error.
    pub open spec fn loaded(self) -> Result<Settings, Seq<char>> {
        match self {
            ConfigFile::Missing => Ok(Settings::unset()),
            ConfigFile::Unreadable(error) => Err("Failed to read config: "@ + error@),
            ConfigFile::Invalid(error) => Err("Failed to parse config: "@ + error@),
            ConfigFile::Present(config) => Ok(config@),
            ConfigFile::Poisoned => Err("Config lock was poisoned"@),
            ConfigFile::NoDirectory => Err(
                "Could not locate the macOS Application Support directory"@,
            ),
            ConfigFile::DirectoryFailed(error) => Err(
                "Failed to create config directory: "@ + error@,
            ),
        }
    }
}

/// Whether loaded settings are what the result says.
pub open spec fn config_matches(
    config: Result<Config, String>,
    settings: Result<Settings, Seq<char>>,
) -> bool {
    match config {
        Ok(config) => settings == Ok::<Settings, Seq<char>>(config@),
        Err(error) => settings == Err::<Settings, Seq<char>>(error@),
    }
}

/// Loads the settings.
pub fn load_config(file: ConfigFile) -> (config: Result<Config, String>)
    ensures
        config_matches(config, file.loaded()),
{
    match file {
        ConfigFile::Missing => Ok(Config::default()),
        ConfigFile::Unreadable(error) => Err(concat("Failed to read config: ", error.as_str())),
        ConfigFile::Invalid(error) => Err(concat("Failed to parse config: ", error.as_str())),
        ConfigFile::Present(config) => Ok(config),
        ConfigFile::Poisoned => Err("Config lock was poisoned".to_owned()),
        ConfigFile::NoDirectory => Err(
            "Could not locate the macOS Application Support directory".to_owned(),
        ),
        ConfigFile::DirectoryFailed(error) => Err(
            concat("Failed to create config directory: ", error.as_str()),
        ),
    }
}

/// Loads the settings and changes one of them; the result is to be saved. Where the settings
/// cannot be loaded, there is nothing to save.
pub fn update_config(file: ConfigFile, change: ConfigChange) -> (config: Result<Config, String>)
    ensures
        match file.loaded() {
            Ok(settings) => config_matches(config, Ok(settings.changed(change))),
            Err(error) => fails_with(config, error),
        },
{
    let mut config = match load_config(file) {
        Ok(config) => config,
        Err(error) => {
            return Err(error);
        },
    };
    match change {
        ConfigChange::ClearApiKey => {
            config.api_key = None;
        },
        ConfigChange::ShowRecordingOverlay(show) => {
            config.show_recording_overlay = Some(show);
        },
        ConfigChange::RealtimeTranscription(enabled) => {
            config.realtime_transcription_enabled = Some(enabled);
        },
        ConfigChange::Prompt(prompt) => {
            config.prompt = Some(prompt);
        },
        ConfigChange::PostProcess(enabled) => {
            config.post_process_enabled = Some(enabled);
        },
        ConfigChange::PostProcessPrompt(prompt) => {
            config.post_process_prompt = Some(prompt);
        },
    }
    Ok(config)
}

/// Whether the overlay is shown while recording.
pub fn get_show_recording_overlay(file: ConfigFile) -> (r: Result<bool, String>)
    ensures
        match file.loaded() {
            Ok(settings) => r == Ok::<bool, String>(settings.shows_overlay()),
            Err(error) => fails_with(r, error),
        },
{
    match load_config(file) {
        Ok(config) => Ok(config.show_recording_overlay.unwrap_or(true)),
        Err(error) => Err(error),
    }
}

/// Whether speech is transcribed while it is recorded.
pub fn get_realtime_transcription_enabled(file: ConfigFile) -> (r: Result<bool, String>)
    ensures
        match file.loaded() {
            Ok(settings) => r == Ok::<bool, String>(settings.transcribes_in_realtime()),
            Err(error) => fails_with(r, error),
        },
{
    match load_config(file) {
        Ok(config) => Ok(config.realtime_transcription_enabled.unwrap_or(false)),
        Err(error) => Err(error),
    }
}

/// Whether a result is that text.
pub open spec fn text_matches(
    text: Result<String, String>,
    expected: Result<Seq<char>, Seq<char>>,
) -> bool {
    match text {
        Ok(text) => expected == Ok::<Seq<char>, Seq<char>>(text@),
        Err(error) => expected == Err::<Seq<char>, Seq<char>>(error@),
    }
}

/// The prompt for the transcription.
pub fn get_prompt(file: ConfigFile) -> (r: Result<String, String>)
    ensures
        match file.loaded() {
            Ok(settings) => text_matches(r, Ok(settings.transcription_prompt())),
            Err(error) => fails_with(r, error),
        },
{
    match load_config(file) {
        Ok(config) => match config.prompt {
            Some(prompt) => Ok(prompt),
            None => Ok(String::new()),
        },
        Err(error) => Err(error),
    }
}

/// Whether transcripts are cleaned up.
pub fn get_post_process_enabled(file: ConfigFile) -> (r: Result<bool, String>)
    ensures
        match file.loaded() {
            Ok(settings) => r == Ok::<bool, String>(settings.post_processes()),
            Err(error) => fails_with(r, error),
        },
{
    match load_config(file) {
        Ok(config) => Ok(config.post_process_enabled.unwrap_or(false)),
        Err(error) => Err(error),
    }
}

/// What the cleanup of a transcript is asked for.
pub fn get_post_process_prompt(file: ConfigFile) -> (r: Result<String, String>)
    ensures
        match file.loaded() {
            Ok(settings) => text_matches(r, Ok(settings.cleanup_prompt())),
            Err(error) => fails_with(r, error),
        },
{
    match load_config(file) {
        Ok(config) => match config.post_process_prompt {
            Some(prompt) => Ok(prompt),
            None => Ok(DEFAULT_POST_PROCESS_PROMPT.to_owned()),
        },
        Err(error) => Err(error),
    }
}

/// What was set is what is read afterwards.
pub proof fn changes_are_read_back(settings: Settings, flag: bool, words: String)
    ensures
        settings.changed(ConfigChange::ShowRecordingOverlay(flag)).shows_overlay() == flag,
        settings.changed(ConfigChange::RealtimeTranscription(flag)).transcribes_in_realtime()
            == flag,
        settings.changed(ConfigChange::Prompt(words)).transcription_prompt() == words@,
        settings.changed(ConfigChange::PostProcess(flag)).post_processes() == flag,
        settings.changed(ConfigChange::PostProcessPrompt(words)).cleanup_prompt() == words@,
        settings.changed(ConfigChange::ClearApiKey).legacy_api_key().len() == 0,
{
}

/// A change to one setting leaves all others as they are.
pub proof fn changes_leave_other_settings(settings: Settings, change: ConfigChange)
    ensures
        !(change is ClearApiKey) ==> settings.changed(change).api_key == settings.api_key,
        !(change is ShowRecordingOverlay) ==> settings.changed(change).show_recording_overlay
            == settings.show_recording_overlay,
        !(change is RealtimeTranscription) ==> settings.changed(
            change,
        ).realtime_transcription_enabled == settings.realtime_transcription_enabled,
        !(change is Prompt) ==> settings.changed(change).prompt == settings.prompt,
        !(change is PostProcess) ==> settings.changed(change).post_process_enabled
            == settings.post_process_enabled,
        !(change is PostProcessPrompt) ==> settings.changed(change).post_process_prompt
            == settings.post_process_prompt,
{
}

/// What is done to save settings.
#[derive(Clone, Copy, Debug, PartialEq, Eq, Structural)]
pub enum SaveStep {
    /// Write the settings down as text.
    Encode,
    /// Write the text to a temporary file beside the file of the settings.
    WriteTemporary,
    /// Put the temporary file in the place of the file of the settings.
    Replace,
    /// Nothing more: the settings are saved.
    Saved,
}

/// The error of a step that failed.
pub open spec fn save_error(step: SaveStep, error: Seq<char>) -> Seq<char> {
    match step {
        SaveStep::Encode => "Failed to encode config: "@ + error,
        SaveStep::WriteTemporary => "Failed to write config: "@ + error,
        _ => "Failed to replace config: "@ + error,
    }
}

/// The step that follows one that succeeded.
pub open spec fn next_save_step(step: SaveStep) -> SaveStep {
    match step {
        SaveStep::Encode => SaveStep::WriteTemporary,
        SaveStep::WriteTemporary => SaveStep::Replace,
        _ => SaveStep::Saved,
    }
}

/// What is done after a step of saving settings, given what became of it.
pub fn after_save_step(step: SaveStep, outcome: Result<(), String>) -> (r: Result<SaveStep, String>)
    ensures
        match outcome {
            Ok(_) => r == Ok::<SaveStep, String>(next_save_step(step)),
            Err(error) => fails_with(r, save_error(step, error@)),
        },
{
    match outcome {
        Ok(_) => match step {
            SaveStep::Encode => Ok(SaveStep::WriteTemporary),
            SaveStep::WriteTemporary => Ok(SaveStep::Replace),
            _ => Ok(SaveStep::Saved),
        },
        Err(error) => match step {
            SaveStep::Encode => Err(concat("Failed to encode config: ", error.as_str())),
            SaveStep::WriteTemporary => Err(concat("Failed to write config: ", error.as_str())),
            _ => Err(concat("Failed to replace config: ", error.as_str())),
        },
    }
}

/// What the file of the settings and the temporary file beside it hold while settings are saved.
pub struct SaveDisk {
    pub file: Option<Seq<u8>>,
    pub temporary: Option<Seq<u8>>,
}

impl SaveDisk {
    /// Whether a step that succeeded or failed can leave the disk so. A failed write may leave
    /// anything in the temporary file; a failed replacement leaves both files.
    pub open spec fn may_become(
        self,
        step: SaveStep,
        succeeded: bool,
        text: Seq<u8>,
        after: SaveDisk,
    ) -> bool {
        match step {
            SaveStep::WriteTemporary => after.file == self.file && (succeeded ==> after.temporary
                == Some(text)),
            SaveStep::Replace => if succeeded {
                after.file == self.temporary && after.temporary is None
            } else {
                after == self
            },
            _ => after == self,
        }
    }
}

/// Whether a save that was begun on one disk has got to a step on another, with every step so far
/// having succeeded.
pub open spec fn save_reaches(
    disks: Seq<SaveDisk>,
    steps: Seq<SaveStep>,
    text: Seq<u8>,
) -> bool {
    &&& disks.len() == steps.len()
    &&& steps.len() > 0
    &&& steps[0] == SaveStep::Encode
    &&& forall|i: int|
        0 <= i < steps.len() - 1 ==> {
            &&& #[trigger] steps[i + 1] == next_save_step(steps[i])
            &&& disks[i].may_become(steps[i], true, text, disks[i + 1])
        }
}

proof fn lemma_save_progress(
    disks: Seq<SaveDisk>,
    steps: Seq<SaveStep>,
    text: Seq<u8>,
    i: int,
)
    requires
        save_reaches(disks, steps, text),
        0 <= i < steps.len(),
    ensures
        match steps[i] {
            SaveStep::Encode | SaveStep::WriteTemporary => disks[i].file == disks[0].file,
            SaveStep::Replace => disks[i].file == disks[0].file && disks[i].temporary == Some(text),
            SaveStep::Saved => disks[i].file == Some(text) && disks[i].temporary is None,
        },
    decreases i,
{
    if i > 0 {
        lemma_save_progress(disks, steps, text, i - 1);
        assert(steps[i - 1 + 1] == next_save_step(steps[i - 1]));
    }
}

/// Saving is atomic: however far a save gets, and whether its last step succeeds or fails, the
/// file of the settings holds what it held before, or the whole of the new text. A save that is
/// done leaves the new text, and no temporary file.
pub proof fn saves_are_atomic(
    disks: Seq<SaveDisk>,
    steps: Seq<SaveStep>,
    text: Seq<u8>,
    succeeded: bool,
    after: SaveDisk,
)
    requires
        save_reaches(disks, steps, text),
        disks.last().may_become(steps.last(), succeeded, text, after),
    ensures
        after.file == disks[0].file || after.file == Some(text),
        !succeeded && !(steps.last() is Saved) ==> after.file == disks[0].file,
        steps.last() is Saved ==> after.file == Some(text) && after.temporary is None,
{
    lemma_save_progress(disks, steps, text, steps.len() - 1);
}

/// A save that is done is what is loaded: wherever the text that was written stands for the
/// settings, by whatever reading, so does what the file then holds.
pub proof fn saved_settings_are_loaded(
    disks: Seq<SaveDisk>,
    steps: Seq<SaveStep>,
    text: Seq<u8>,
    reading: spec_fn(Seq<u8>) -> Option<Settings>,
    settings: Settings,
)
    requires
        save_reaches(disks, steps, text),
        steps.last() is Saved,
        reading(text) == Some(settings),
    ensures
        disks.last().file is Some,
        reading(disks.last().file->0) == Some(settings),
{
    lemma_save_progress(disks, steps, text, steps.len() - 1);
}

/// Loading a file that holds settings gives exactly those, each of the six as it is in the file,
/// whatever the others are.
pub proof fn loading_gives_what_the_file_holds(config: Config)
    ensures
        ConfigFile::Present(config).loaded() matches Ok(settings) && {
            &&& match config.api_key {
                Some(key) => settings.api_key == Some(key@),
                None => settings.api_key is None,
            }
            &&& settings.show_recording_overlay == config.show_recording_overlay
            &&& settings.realtime_transcription_enabled == config.realtime_transcription_enabled
            &&& match config.prompt {
                Some(prompt) => settings.prompt == Some(prompt@),
                None => settings.prompt is None,
            }
            &&& settings.post_process_enabled == config.post_process_enabled
            &&& match config.post_process_prompt {
                Some(prompt) => settings.post_process_prompt == Some(prompt@),
                None => settings.post_process_prompt is None,
            }
        },
{
}

/// Two files that hold the same settings load the same, and two that differ in one setting load
/// what differs in that one: nothing is lost in loading.
pub proof fn different_files_load_differently(a: Config, b: Config)
    requires
        ConfigFile::Present(a).loaded() == ConfigFile::Present(b).loaded(),
    ensures
        a.api_key is Some <==> b.api_key is Some,
        a.api_key is Some ==> a.api_key->0@ == b.api_key->0@,
        a.show_recording_overlay == b.show_recording_overlay,
        a.realtime_transcription_enabled == b.realtime_transcription_enabled,
        a.prompt is Some <==> b.prompt is Some,
        a.prompt is Some ==> a.prompt->0@ == b.prompt->0@,
        a.post_process_enabled == b.post_process_enabled,
        a.post_process_prompt is Some <==> b.post_process_prompt is Some,
        a.post_process_prompt is Some ==> a.post_process_prompt->0@ == b.post_process_prompt->0@,
{
    loading_gives_what_the_file_holds(a);
    loading_gives_what_the_file_holds(b);
}

/// Where there is no file, nothing is set. Where there is no telling what the file holds, the
/// settings are not defaults but an error, which tells the reason in full.
pub proof fn missing_files_are_unset_and_bad_files_are_errors(reason: String)
    ensures
        ConfigFile::Missing.loaded() matches Ok(settings) && settings.api_key is None
            && settings.show_recording_overlay is None
            && settings.realtime_transcription_enabled is None && settings.prompt is None
            && settings.post_process_enabled is None && settings.post_process_prompt is None,
        ConfigFile::Unreadable(reason).loaded() == Err::<Settings, Seq<char>>(
            "Failed to read config: "@ + reason@,
        ),
        ConfigFile::Invalid(reason).loaded() == Err::<Settings, Seq<char>>(
            "Failed to parse config: "@ + reason@,
        ),
        ConfigFile::DirectoryFailed(reason).loaded() == Err::<Settings, Seq<char>>(
            "Failed to create config directory: "@ + reason@,
        ),
        ConfigFile::Poisoned.loaded() == Err::<Settings, Seq<char>>("Config lock was poisoned"@),
        ConfigFile::NoDirectory.loaded() == Err::<Settings, Seq<char>>(
            "Could not locate the macOS Application Support directory"@,
        ),
{
}

/// A setting that was set is read as it was set, whatever the others are; one that was not is read
/// as its default: the overlay is shown, nothing is transcribed in realtime or cleaned up, there is
/// no prompt and no key, and the cleanup is asked for in the default words.
pub proof fn settings_are_read_as_they_were_set(settings: Settings)
    ensures
        settings.shows_overlay() == (settings.show_recording_overlay != Some(false)),
        settings.transcribes_in_realtime() == (settings.realtime_transcription_enabled == Some(
            true,
        )),
        settings.post_processes() == (settings.post_process_enabled == Some(true)),
        settings.prompt matches Some(prompt) ==> settings.transcription_prompt() == prompt,
        settings.prompt is None ==> settings.transcription_prompt().len() == 0,
        settings.post_process_prompt matches Some(prompt) ==> settings.cleanup_prompt() == prompt,
        settings.post_process_prompt is None ==> settings.cleanup_prompt()
            == "Clean up this voice transcript. Remove filler words like um, uh, ah, and you know. Fix punctuation, capitalization, spelling, and grammar. Preserve the speaker's meaning, wording, tone, and formatting as much as possible. Return only the cleaned transcript."@,
        settings.api_key matches Some(key) ==> settings.legacy_api_key() == key,
        settings.api_key is None ==> settings.legacy_api_key().len() == 0,
{
}

/// Changing one setting of a file that holds settings sets that one, and leaves the other five as
/// the file held them.
pub proof fn changing_a_file_sets_one_setting_and_leaves_five(config: Config, change: ConfigChange)
    ensures
        ConfigFile::Present(config).loaded() matches Ok(held) && {
            let changed = held.changed(change);
            &&& change is ClearApiKey ==> changed.api_key is None
            &&& change matches ConfigChange::ShowRecordingOverlay(show)
                ==> changed.show_recording_overlay == Some(show)
            &&& change matches ConfigChange::RealtimeTranscription(enabled)
                ==> changed.realtime_transcription_enabled == Some(enabled)
            &&& change matches ConfigChange::Prompt(prompt) ==> changed.prompt == Some(prompt@)
            &&& change matches ConfigChange::PostProcess(enabled) ==> changed.post_process_enabled
                == Some(enabled)
            &&& change matches ConfigChange::PostProcessPrompt(prompt)
                ==> changed.post_process_prompt == Some(prompt@)
            &&& !(change is ClearApiKey) ==> changed.api_key == text_of(config.api_key)
            &&& !(change is ShowRecordingOverlay) ==> changed.show_recording_overlay
                == config.show_recording_overlay
            &&& !(change is RealtimeTranscription) ==> changed.realtime_transcription_enabled
                == config.realtime_transcription_enabled
            &&& !(change is Prompt) ==> changed.prompt == text_of(config.prompt)
            &&& !(change is PostProcess) ==> changed.post_process_enabled
                == config.post_process_enabled
            &&& !(change is PostProcessPrompt) ==> changed.post_process_prompt == text_of(
                config.post_process_prompt,
            )
        },
{
}

/// A file that holds what came of a change is read as it was changed: what was set is what is read,
/// and everything else is read as before.
pub proof fn saved_changes_are_read_back(before: Config, change: ConfigChange, after: Config)
    requires
        ConfigFile::Present(before).loaded() matches Ok(held) && after@ == held.changed(change),
    ensures
        ConfigFile::Present(before).loaded() matches Ok(held) && ConfigFile::Present(
            after,
        ).loaded() matches Ok(read) && {
            &&& read.shows_overlay() == match change {
                ConfigChange::ShowRecordingOverlay(show) => show,
                _ => held.shows_overlay(),
            }
            &&& read.transcribes_in_realtime() == match change {
                ConfigChange::RealtimeTranscription(enabled) => enabled,
                _ => held.transcribes_in_realtime(),
            }
            &&& read.transcription_prompt() == match change {
                ConfigChange::Prompt(prompt) => prompt@,
                _ => held.transcription_prompt(),
            }
            &&& read.post_processes() == match change {
                ConfigChange::PostProcess(enabled) => enabled,
                _ => held.post_processes(),
            }
            &&& read.cleanup_prompt() == match change {
                ConfigChange::PostProcessPrompt(prompt) => prompt@,
                _ => held.cleanup_prompt(),
            }
            &&& read.legacy_api_key() == match change {
                ConfigChange::ClearApiKey => Seq::empty(),
                _ => held.legacy_api_key(),
            }
        },
{
}

/// A loaded configuration is what is expected exactly when both hold the same settings, or both
/// failed with the same words; and so it is with a text.
pub proof fn results_match_what_they_say(
    config: Result<Config, String>,
    settings: Result<Settings, Seq<char>>,
    text: Result<String, String>,
    expected: Result<Seq<char>, Seq<char>>,
)
    ensures
        config_matches(config, settings) <==> {
            ||| (config matches Ok(config) && settings matches Ok(settings) && config@ == settings)
            ||| (config matches Err(error) && settings matches Err(words) && error@ == words)
        },
        text_matches(text, expected) <==> {
            ||| (text matches Ok(text) && expected matches Ok(words) && text@ == words)
            ||| (text matches Err(error) && expected matches Err(words) && error@ == words)
        },
{
}

/// Settings are written down, then written beside their file, then put in its place, and only then
/// saved; whichever of these fails tells its reason in full.
pub proof fn saves_go_step_by_step(error: Seq<char>)
    ensures
        next_save_step(SaveStep::Encode) == SaveStep::WriteTemporary,
        next_save_step(SaveStep::WriteTemporary) == SaveStep::Replace,
        next_save_step(SaveStep::Replace) == SaveStep::Saved,
        next_save_step(SaveStep::Saved) == SaveStep::Saved,
        save_error(SaveStep::Encode, error) == "Failed to encode config: "@ + error,
        save_error(SaveStep::WriteTemporary, error) == "Failed to write config: "@ + error,
        save_error(SaveStep::Replace, error) == "Failed to replace config: "@ + error,
{
}

} // verus!
