//! The API key: where it is looked for, and how a key from old settings moves to the keychain.

use vstd::prelude::*;
use vstd::utf8::{
    decode_utf8, encode_utf8, encode_utf8_decode_utf8, encode_utf8_valid_utf8, valid_utf8,
};

use crate::config::{load_config, ConfigChange, ConfigFile, Settings};
use crate::text::{blank, trim, trimmed_is_empty_iff_blank};

verus! {

/// The keychain's service under which the key is kept.
pub const KEYCHAIN_SERVICE: &'static str = "com.scribe.app";

/// The keychain's account under which the key is kept.
pub const KEYCHAIN_ACCOUNT: &'static str = "openai-api-key";

/// What to do to the keychain to set a key.
pub enum KeychainChange {
    /// Remove the key, where there is one.
    Remove,
    /// Keep these bytes.
    Store(Vec<u8>),
}

impl View for KeychainChange {
    type V = Option<Seq<u8>>;

    /// What the keychain holds once this was done.
    open spec fn view(&self) -> Option<Seq<u8>> {
        match *self {
            KeychainChange::Remove => None,
            KeychainChange::Store(bytes) => Some(bytes@),
        }
    }
}

/// What the keychain holds once a key was set. A key of nothing but whitespace removes the one that
/// is there; of any other the UTF-8 bytes are kept as they are.
pub open spec fn keychain_with(key: Seq<char>) -> Option<Seq<u8>> {
    if blank(key) {
        None
    } else {
        Some(encode_utf8(key))
    }
}

/// What to do to the keychain to set a key.
pub fn keychain_change(api_key: &str) -> (change: KeychainChange)
    ensures
        change@ == keychain_with(api_key@),
{
    proof {
        trimmed_is_empty_iff_blank(api_key@);
    }
    if trim(api_key).is_empty() {
        KeychainChange::Remove
    } else {
        KeychainChange::Store(api_key.as_bytes_vec())
    }
}

/// What the search for the key does next.
pub enum KeySearch {
    /// It looks at the settings.
    LoadConfig,
    /// It puts the key, which the settings hold, into the keychain.
    Migrate(String),
    /// It takes the key, which is in the keychain now, out of the settings.
    ClearConfig(String),
    /// It is over.
    Done(Result<String, String>),
}

/// What the search for the key does next, by the words it holds.
pub enum KeySearchView {
    LoadConfig,
    Migrate(Seq<char>),
    ClearConfig(Seq<char>),
    Found(Seq<char>),
    Failed(Seq<char>),
}

impl View for KeySearch {
    type V = KeySearchView;

    open spec fn view(&self) -> KeySearchView {
        match *self {
            KeySearch::LoadConfig => KeySearchView::LoadConfig,
            KeySearch::Migrate(key) => KeySearchView::Migrate(key@),
            KeySearch::ClearConfig(key) => KeySearchView::ClearConfig(key@),
            KeySearch::Done(Ok(key)) => KeySearchView::Found(key@),
            KeySearch::Done(Err(error)) => KeySearchView::Failed(error@),
        }
    }
}

/// The key that the bytes in the keychain stand for. Bytes that are no UTF-8 stand for none.
pub open spec fn key_of(bytes: Option<Seq<u8>>) -> Option<Seq<char>> {
    match bytes {
        Some(bytes) => if valid_utf8(bytes) {
            Some(decode_utf8(bytes))
        } else {
            None
        },
        None => None,
    }
}

/// `String::from_utf8`: the text that UTF-8 bytes stand for, and nothing where the bytes are no
/// UTF-8.
#[verifier::external_body]
fn text_from_utf8(bytes: Vec<u8>) -> (r: Option<String>)
    ensures
        match r {
            Some(text) => valid_utf8(bytes@) && text@ == decode_utf8(bytes@),
            None => !valid_utf8(bytes@),
        },
{
    String::from_utf8(bytes).ok()
}

impl KeySearchView {
    /// What the search does first, given what the keychain holds: a key that is there is the
    /// answer.
    pub open spec fn begun(keychain: Option<Seq<u8>>) -> Self {
        match key_of(keychain) {
            Some(key) => KeySearchView::Found(key),
            None => KeySearchView::LoadConfig,
        }
    }

    /// What the search does after a look at the settings: a key that they hold is to move to the
    /// keychain, and where they hold none there is no key.
    pub open spec fn looked_up(loaded: Result<Settings, Seq<char>>) -> Self {
        match loaded {
            Ok(settings) => if settings.legacy_api_key().len() == 0 {
                KeySearchView::Found(Seq::empty())
            } else {
                KeySearchView::Migrate(settings.legacy_api_key())
            },
            Err(error) => KeySearchView::Failed(error),
        }
    }

    /// What the search does after the key was put into the keychain, or could not be: only where
    /// the keychain took it, it is taken out of the settings.
    pub open spec fn migrated(key: Seq<char>, stored: bool) -> Self {
        if stored {
            KeySearchView::ClearConfig(key)
        } else {
            KeySearchView::Found(key)
        }
    }

    /// What the search does after the key was taken out of the settings, or could not be.
    pub open spec fn cleared(key: Seq<char>, outcome: Result<(), Seq<char>>) -> Self {
        match outcome {
            Ok(_) => KeySearchView::Found(key),
            Err(error) => KeySearchView::Failed(error),
        }
    }
}

/// What the search does after a look into the keychain.
pub fn after_keychain(found: Option<Vec<u8>>) -> (next: KeySearch)
    ensures
        next@ == KeySearchView::begun(
            match found {
                Some(bytes) => Some(bytes@),
                None => None,
            },
        ),
{
    match found {
        Some(bytes) => match text_from_utf8(bytes) {
            Some(key) => KeySearch::Done(Ok(key)),
            None => KeySearch::LoadConfig,
        },
        None => KeySearch::LoadConfig,
    }
}

/// What the search does after a look at the settings.
pub fn after_config(file: ConfigFile) -> (next: KeySearch)
    ensures
        next@ == KeySearchView::looked_up(file.loaded()),
{
    let config = match load_config(file) {
        Ok(config) => config,
        Err(error) => {
            return KeySearch::Done(Err(error));
        },
    };
    let key = match config.api_key {
        Some(key) => key,
        None => String::new(),
    };
    if key.as_str().is_empty() {
        assert(key@ =~= Seq::empty());
        KeySearch::Done(Ok(key))
    } else {
        KeySearch::Migrate(key)
    }
}

/// What the search does after the key was put into the keychain, or could not be.
pub fn after_migration(key: String, stored: bool) -> (next: KeySearch)
    ensures
        next@ == KeySearchView::migrated(key@, stored),
{
    if stored {
        KeySearch::ClearConfig(key)
    } else {
        KeySearch::Done(Ok(key))
    }
}

/// What the search does after the key was taken out of the settings, or could not be.
pub fn after_clearing(key: String, outcome: Result<(), String>) -> (next: KeySearch)
    ensures
        next@ == KeySearchView::cleared(
            key@,
            match outcome {
                Ok(_) => Ok(()),
                Err(error) => Err(error@),
            },
        ),
{
    match outcome {
        Ok(_) => KeySearch::Done(Ok(key)),
        Err(error) => KeySearch::Done(Err(error)),
    }
}

/// A key that was set is the one that is found. Setting a key of nothing but whitespace takes the
/// key away, out of the keychain and out of the settings: then the search finds an empty one.
pub proof fn set_keys_are_found(settings: Settings, key: Seq<char>)
    ensures
        !blank(key) ==> KeySearchView::begun(keychain_with(key)) == KeySearchView::Found(key),
        blank(key) ==> KeySearchView::begun(keychain_with(key)) is LoadConfig,
        KeySearchView::looked_up(Ok(settings.changed(ConfigChange::ClearApiKey)))
            == KeySearchView::Found(Seq::empty()),
{
    encode_utf8_valid_utf8(key);
    encode_utf8_decode_utf8(key);
}

/// A key from old settings is not lost, unless it is nothing but whitespace: it is taken out of the
/// settings only where the keychain took it, and there it is found from then on. It is the answer
/// unless the settings could not be changed.
pub proof fn migrated_keys_are_not_lost(
    settings: Settings,
    stored: bool,
    outcome: Result<(), Seq<char>>,
)
    requires
        !blank(settings.legacy_api_key()),
    ensures
        ({
            let key = settings.legacy_api_key();
            &&& KeySearchView::looked_up(Ok(settings)) == KeySearchView::Migrate(key)
            &&& !stored ==> KeySearchView::migrated(key, stored) == KeySearchView::Found(key)
            &&& stored ==> KeySearchView::migrated(key, stored) == KeySearchView::ClearConfig(key)
            &&& stored ==> KeySearchView::begun(keychain_with(key)) == KeySearchView::Found(key)
            &&& outcome is Ok ==> KeySearchView::cleared(key, outcome) == KeySearchView::Found(key)
        }),
{
    set_keys_are_found(settings, settings.legacy_api_key());
}

/// The keychain is left without a key exactly by a key of nothing but whitespace; any other is kept
/// in bytes of UTF-8, and two different keys in different bytes.
pub proof fn keychains_keep_every_key_that_is_not_blank(key: Seq<char>, other: Seq<char>)
    ensures
        keychain_with(key) is None <==> blank(key),
        keychain_with(key) matches Some(bytes) ==> valid_utf8(bytes) && decode_utf8(bytes) == key
            && bytes == encode_utf8(key),
        !blank(key) && keychain_with(key) == keychain_with(other) ==> key == other,
{
    encode_utf8_valid_utf8(key);
    encode_utf8_decode_utf8(key);
    encode_utf8_decode_utf8(other);
}

/// What is kept in the keychain is a key exactly when it is UTF-8, and then the text that the bytes
/// stand for; the search then ends with it, whatever it is, and otherwise looks at the settings.
pub proof fn searches_begin_with_the_keychain(bytes: Seq<u8>)
    ensures
        valid_utf8(bytes) ==> key_of(Some(bytes)) == Some(decode_utf8(bytes)),
        valid_utf8(bytes) ==> KeySearchView::begun(Some(bytes)) == KeySearchView::Found(
            decode_utf8(bytes),
        ),
        !valid_utf8(bytes) ==> key_of(Some(bytes)) is None,
        !valid_utf8(bytes) ==> KeySearchView::begun(Some(bytes)) is LoadConfig,
        key_of(None) is None,
        KeySearchView::begun(None) is LoadConfig,
{
}

/// The settings' own key, where there is one and it is not empty, is the one that moves, whatever
/// the other settings are; without one there is no key, and settings that could not be loaded end
/// the search with their error.
pub proof fn searches_go_on_with_the_settings(settings: Settings, error: Seq<char>)
    ensures
        settings.api_key is Some && settings.api_key->0.len() > 0 ==> KeySearchView::looked_up(
            Ok(settings),
        ) == KeySearchView::Migrate(settings.api_key->0),
        settings.api_key is None || settings.api_key->0.len() == 0
            ==> KeySearchView::looked_up(Ok(settings)) == KeySearchView::Found(Seq::empty()),
        KeySearchView::looked_up(Err(error)) == KeySearchView::Failed(error),
{
}

/// A key that moves is cleared from the settings exactly where it was stored, and is the answer
/// otherwise; after that it is the answer exactly where it was cleared, and the error is otherwise.
pub proof fn moves_end_with_the_key_or_the_error(key: Seq<char>, error: Seq<char>)
    ensures
        KeySearchView::migrated(key, true) == KeySearchView::ClearConfig(key),
        KeySearchView::migrated(key, false) == KeySearchView::Found(key),
        KeySearchView::cleared(key, Ok(())) == KeySearchView::Found(key),
        KeySearchView::cleared(key, Err(error)) == KeySearchView::Failed(error),
{
}

/// A step of the search, and a change of the keychain, is seen with the very key, error or bytes
/// that it holds.
pub proof fn steps_are_seen_with_what_they_hold(key: String, bytes: Vec<u8>)
    ensures
        KeySearch::LoadConfig@ == KeySearchView::LoadConfig,
        KeySearch::Migrate(key)@ == KeySearchView::Migrate(key@),
        KeySearch::ClearConfig(key)@ == KeySearchView::ClearConfig(key@),
        KeySearch::Done(Ok(key))@ == KeySearchView::Found(key@),
        KeySearch::Done(Err(key))@ == KeySearchView::Failed(key@),
        KeychainChange::Remove@ is None,
        KeychainChange::Store(bytes)@ == Some(bytes@),
{
}

/// The key is kept in the keychain under the app's service and the account of the key.
pub proof fn keys_are_kept_under_their_account()
    ensures
        KEYCHAIN_SERVICE@ == "com.scribe.app"@,
        KEYCHAIN_ACCOUNT@ == "openai-api-key"@,
{
}

} // verus!
