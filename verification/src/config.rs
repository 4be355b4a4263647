//! Reading the session token out of the settings.

use crate::json::{as_object, as_text, member, parse, parsed, value_model, Json};
use crate::record::{appended, Level, Line, LogRecord};
use vstd::prelude::*;

verus! {

/// Where the settings are kept: a path, taken from the working directory.
pub const SETTINGSFILE: &'static str = "settings.txt";

/// The key under which the settings hold the session token.
pub const SESSION_KEY: &'static str = "iksm-session";

/// Why no token could be read.
#[derive(Clone, Copy, Debug, PartialEq, Eq, Structural)]
pub enum ConfigError {
    /// There is no settings file.
    ConfigMissing,
    /// The settings file is there and could not be read.
    ConfigUnreadable,
    /// The settings are no JSON text, or no JSON object.
    ConfigMalformed,
    /// The settings hold nothing under [`SESSION_KEY`].
    ConfigFieldMissing,
    /// What the settings hold under [`SESSION_KEY`] is no string.
    ConfigFieldWrongType,
}

/// Whether an error ends the process. Only a missing settings file does;
/// after any other the next reading is tried in its turn.
pub open spec fn fatal(e: ConfigError) -> bool {
    e == ConfigError::ConfigMissing
}

/// What an error is reported as.
pub open spec fn cause_text(e: ConfigError) -> Seq<char> {
    match e {
        ConfigError::ConfigMissing => "Settings file not found."@,
        ConfigError::ConfigUnreadable => "Could not read the settings file."@,
        ConfigError::ConfigMalformed =>
            "Could not find token information in the settings file. (Invalid JSON structure)"@,
        ConfigError::ConfigFieldMissing =>
            "Could not find token information in the settings file. (Entry 'iksm-session' not found)"@,
        ConfigError::ConfigFieldWrongType =>
            "Could not find token information in the settings file. (Invalid data format for iksm-session)"@,
    }
}

impl ConfigError {
    /// Whether this error ends the process.
    pub fn is_fatal(&self) -> (b: bool)
        ensures
            b == fatal(*self),
    {
        match self {
            ConfigError::ConfigMissing => true,
            _ => false,
        }
    }

    /// The cause, in words.
    pub fn cause(&self) -> (s: &'static str)
        ensures
            s@ == cause_text(*self),
    {
        match self {
            ConfigError::ConfigMissing => "Settings file not found.",
            ConfigError::ConfigUnreadable => "Could not read the settings file.",
            ConfigError::ConfigMalformed =>
                "Could not find token information in the settings file. (Invalid JSON structure)",
            ConfigError::ConfigFieldMissing =>
                "Could not find token information in the settings file. (Entry 'iksm-session' not found)",
            ConfigError::ConfigFieldWrongType =>
                "Could not find token information in the settings file. (Invalid data format for iksm-session)",
        }
    }
}

/// What was found where the settings are kept.
#[derive(Clone, Debug, PartialEq, Eq)]
pub enum SettingsFile {
    /// Nothing is there.
    Missing,
    /// A file is there, and reading it failed.
    Unreadable,
    /// The bytes of the file, all of them.
    Content(Vec<u8>),
}

/// What was found, with the bytes as a sequence.
pub enum SettingsView {
    Missing,
    Unreadable,
    Content(Seq<u8>),
}

impl View for SettingsFile {
    type V = SettingsView;

    open spec fn view(&self) -> SettingsView {
        match self {
            SettingsFile::Missing => SettingsView::Missing,
            SettingsFile::Unreadable => SettingsView::Unreadable,
            SettingsFile::Content(bytes) => SettingsView::Content(bytes@),
        }
    }
}

/// The token that a JSON document holds, or why it holds none.
pub open spec fn token_in(document: Json) -> Result<Seq<char>, ConfigError> {
    match document {
        Json::Object(members) => {
            if members.contains_key(SESSION_KEY@) {
                match members[SESSION_KEY@] {
                    Json::Text(token) => Ok(token),
                    _ => Err(ConfigError::ConfigFieldWrongType),
                }
            } else {
                Err(ConfigError::ConfigFieldMissing)
            }
        },
        _ => Err(ConfigError::ConfigMalformed),
    }
}

/// The token that a settings file holds, or why it holds none.
pub open spec fn token_of(file: SettingsView) -> Result<Seq<char>, ConfigError> {
    match file {
        SettingsView::Missing => Err(ConfigError::ConfigMissing),
        SettingsView::Unreadable => Err(ConfigError::ConfigUnreadable),
        SettingsView::Content(bytes) => match parsed(bytes) {
            Some(document) => token_in(document),
            None => Err(ConfigError::ConfigMalformed),
        },
    }
}

/// A result of reading, with the token as a sequence of characters.
pub open spec fn token_view(r: Result<String, ConfigError>) -> Result<Seq<char>, ConfigError> {
    match r {
        Ok(token) => Ok(token@),
        Err(e) => Err(e),
    }
}

/// The line that reports a reading: the token that was read, or the cause
/// for which none was.
pub open spec fn read_line(outcome: Result<Seq<char>, ConfigError>) -> Line {
    match outcome {
        Ok(token) => Line { level: Level::Info, text: "Read token "@ + token },
        Err(e) => Line { level: Level::Error, text: cause_text(e) },
    }
}

/// The record of one reading, for the log.
pub fn read_record(outcome: &Result<String, ConfigError>) -> (r: LogRecord)
    ensures
        r@ == read_line(token_view(*outcome)),
{
    match outcome {
        Ok(token) => {
            let mut message = String::from_str("Read token ");
            message.append(token.as_str());
            LogRecord { level: Level::Info, message }
        },
        Err(e) => LogRecord::new(Level::Error, e.cause()),
    }
}

/// Takes the token out of a parsed document: the string under
/// [`SESSION_KEY`] of the object at its root, as it stands.
pub fn token_from_document(document: &serde_json::Value) -> (r: Result<String, ConfigError>)
    ensures
        token_view(r) == token_in(value_model(*document)),
{
    match as_object(document) {
        None => Err(ConfigError::ConfigMalformed),
        Some(members) => match member(members, SESSION_KEY) {
            None => Err(ConfigError::ConfigFieldMissing),
            Some(entry) => match as_text(entry) {
                None => Err(ConfigError::ConfigFieldWrongType),
                Some(token) => Ok(String::from_str(token)),
            },
        },
    }
}

/// Reads the token from what was found where the settings are kept, and
/// writes one record of the reading to `log`.
///
/// A missing file, an unreadable one, bytes that are no JSON object, an
/// object without the key and a value that is no string each give their own
/// error, recorded as an error with its cause; a string is returned
/// unchanged and recorded as read.
pub fn read_token(file: &SettingsFile, log: &mut Vec<LogRecord>) -> (r: Result<
    String,
    ConfigError,
>)
    ensures
        token_view(r) == token_of(file@),
        appended(old(log)@, final(log)@, read_line(token_of(file@))),
{
    let outcome = match file {
        SettingsFile::Missing => Err(ConfigError::ConfigMissing),
        SettingsFile::Unreadable => Err(ConfigError::ConfigUnreadable),
        SettingsFile::Content(bytes) => match parse(bytes.as_slice()) {
            Ok(document) => token_from_document(&document),
            Err(_) => Err(ConfigError::ConfigMalformed),
        },
    };
    let record = read_record(&outcome);
    log.push(record);
    assert(log@.drop_last() =~= old(log)@);
    outcome
}

/// Reading is repeatable: as long as the same is found where the settings
/// are kept, every reading gives the same token, or the same error. Here
/// `first` and `second` are what two calls of [`read_token`] return, the one
/// on `once`, the other on `again`.
pub proof fn lemma_reading_repeats(
    once: SettingsFile,
    again: SettingsFile,
    first: Result<String, ConfigError>,
    second: Result<String, ConfigError>,
)
    requires
        once@ == again@,
        token_view(first) == token_of(once@),
        token_view(second) == token_of(again@),
    ensures
        token_view(first) == token_view(second),
        first is Ok ==> second is Ok && first->Ok_0@ == second->Ok_0@,
        first is Err ==> second == first,
{
}

} // verus!
