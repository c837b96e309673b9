//! The config store: one pretty-printed JSON document in a per-user file,
//! holding a single `preferences` member. The functions here decide
//! everything the store does — which text is written, which record is
//! returned, which error is raised — from the outcome of reading the file;
//! the host shell performs the reads and writes themselves.
use crate::json_value::{
    config_doc_pretty, depth_limit, doc_parses, doc_prefs_text, empty_object_value, json_depth,
    json_text, pretty_doc_text, text_to_preferences,
};
use vstd::prelude::*;
use vstd::string::StringExecFns;

verus! {

/// The configuration record: a single opaque JSON preferences value.
pub struct AppConfig {
    pub preferences: serde_json::Value,
}

impl Default for AppConfig {
    /// The canonical initial record: an empty preferences object.
    fn default() -> (r: AppConfig)
        ensures
            json_text(r.preferences) == "{}"@,
            json_depth(r.preferences) == 1,
            pretty_doc_text(r.preferences) == "{\n  \"preferences\": {}\n}"@,
    {
        AppConfig { preferences: empty_object_value() }
    }
}

/// The ways a config operation can fail; each carries the underlying message.
#[derive(Debug)]
pub enum ConfigError {
    ConfigDirError(String),
    CreateDirError(String),
    SerializeError(String),
    WriteError(String),
    ReadError(String),
    ParseError(String),
}

pub open spec fn describe_spec(e: ConfigError) -> Seq<char> {
    match e {
        ConfigError::ConfigDirError(m) => "Failed to get config directory: "@ + m@,
        ConfigError::CreateDirError(m) => "Failed to create config directory: "@ + m@,
        ConfigError::SerializeError(m) => "Failed to serialize config: "@ + m@,
        ConfigError::WriteError(m) => "Failed to write config file: "@ + m@,
        ConfigError::ReadError(m) => "Failed to read config file: "@ + m@,
        ConfigError::ParseError(m) => "Failed to parse config file: "@ + m@,
    }
}

impl ConfigError {
    /// The error as one descriptive line, for the command boundary.
    pub fn describe(&self) -> (r: String)
        ensures
            r@ == describe_spec(*self),
    {
        match self {
            ConfigError::ConfigDirError(m) => "Failed to get config directory: ".to_owned().concat(m.as_str()),
            ConfigError::CreateDirError(m) => "Failed to create config directory: ".to_owned().concat(m.as_str()),
            ConfigError::SerializeError(m) => "Failed to serialize config: ".to_owned().concat(m.as_str()),
            ConfigError::WriteError(m) => "Failed to write config file: ".to_owned().concat(m.as_str()),
            ConfigError::ReadError(m) => "Failed to read config file: ".to_owned().concat(m.as_str()),
            ConfigError::ParseError(m) => "Failed to parse config file: ".to_owned().concat(m.as_str()),
        }
    }
}

/// What reading the config file yielded: no file at the path, a file that
/// could not be read, or the file's text.
pub enum ReadOutcome {
    Missing,
    Unreadable(String),
    Content(String),
}

/// What `load_config` decided: write this default text and use this record,
/// or the load is already settled.
pub enum LoadPlan {
    WriteDefault(String, AppConfig),
    Ready(Result<AppConfig, ConfigError>),
}

/// What a save request decided: write this text, or abort with this error.
pub enum SavePlan {
    Write(String),
    Abort(ConfigError),
}

/// What the boot-time repair decided: the load needs nothing more, write
/// this default document, or only report the error.
pub enum SetupPlan {
    Loaded,
    WriteDefault(String),
    Report(ConfigError),
}

/// The exact text of the default config file.
pub fn default_file_text() -> (r: String)
    ensures
        r@ == "{\n  \"preferences\": {}\n}"@,
{
    "{\n  \"preferences\": {}\n}".to_owned()
}

/// Serializes a record to the pretty-printed document text that
/// `load_config` reads back. Serializing a record cannot fail, so the text
/// is always produced.
pub fn save_config(config: &AppConfig) -> (r: Result<String, ConfigError>)
    ensures
        r matches Ok(t) && t@ == pretty_doc_text(config.preferences),
        r matches Ok(t) ==> (json_depth(config.preferences) <= depth_limit() ==> doc_parses(t@)
            && doc_prefs_text(t@) == json_text(config.preferences)),
{
    match config_doc_pretty(&config.preferences) {
        Ok(t) => Ok(t),
        Err(m) => Err(ConfigError::SerializeError(m)),
    }
}

/// Turns a parser outcome into the loaded record or the store's error: a
/// found member is the record's preferences, a document of the wrong shape
/// and a parser failure are both parse errors. This settles the load for
/// every parser outcome.
pub fn interpret_parsed(parsed: Result<Option<serde_json::Value>, String>) -> (r: Result<
    AppConfig,
    ConfigError,
>)
    ensures
        parsed matches Ok(op) ==> (op matches Some(v) ==> (r matches Ok(c) && c.preferences
            == v)),
        parsed matches Ok(op) ==> (op matches None ==> (r matches Err(e) && e matches
        ConfigError::ParseError(m) && m@ == "the document is not an object with a preferences member"@)),
        parsed matches Err(m) ==> (r matches Err(e) && e matches ConfigError::ParseError(m2)
            && m2 == m),
{
    match parsed {
        Ok(Some(p)) => Ok(AppConfig { preferences: p }),
        Ok(None) => Err(ConfigError::ParseError(
            "the document is not an object with a preferences member".to_owned(),
        )),
        Err(m) => Err(ConfigError::ParseError(m)),
    }
}

/// Parses a config document: exactly the texts that parse as an object with
/// a `preferences` member load, to a record carrying that member; every
/// other text is a parse error.
pub fn parse_config(s: &str) -> (r: Result<AppConfig, ConfigError>)
    ensures
        doc_parses(s@) ==> (r matches Ok(c) && json_text(c.preferences) == doc_prefs_text(s@)),
        !doc_parses(s@) ==> (r matches Err(e) && e matches ConfigError::ParseError(_)),
{
    interpret_parsed(text_to_preferences(s))
}

/// Decides a load from the outcome of reading the file: a missing file is
/// repaired with the default document (which itself loads back), an
/// unreadable file is a read error, and a present file is parsed.
pub fn load_config(r: ReadOutcome) -> (p: LoadPlan)
    ensures
        r matches ReadOutcome::Missing ==> (p matches LoadPlan::WriteDefault(text, config)
            && text@ == "{\n  \"preferences\": {}\n}"@ && json_text(config.preferences) == "{}"@
            && doc_parses(text@) && doc_prefs_text(text@) == "{}"@),
        r matches ReadOutcome::Unreadable(m) ==> (p matches LoadPlan::Ready(res)
            && res matches Err(e) && e matches ConfigError::ReadError(m2) && m2 == m),
        r matches ReadOutcome::Content(s) ==> (p matches LoadPlan::Ready(res)
            && (doc_parses(s@) ==> (res matches Ok(c) && json_text(c.preferences)
                == doc_prefs_text(s@)))
            && (!doc_parses(s@) ==> (res matches Err(e) && e matches ConfigError::ParseError(_)))),
{
    match r {
        ReadOutcome::Missing => {
            let config = AppConfig::default();
            match config_doc_pretty(&config.preferences) {
                Ok(text) => LoadPlan::WriteDefault(text, config),
                Err(m) => LoadPlan::Ready(Err(ConfigError::SerializeError(m))),
            }
        },
        ReadOutcome::Unreadable(m) => LoadPlan::Ready(Err(ConfigError::ReadError(m))),
        ReadOutcome::Content(s) => LoadPlan::Ready(parse_config(s.as_str())),
    }
}

/// Decides a save of new preferences from the result of the preceding load.
/// A loaded record has its preferences replaced wholesale, and a read error
/// means "no existing config", so both plan the write of the new document —
/// a missing or unreadable file never blocks a save; any other load error
/// aborts the save, leaving the file untouched for manual inspection.
pub fn plan_save_preferences(
    loaded: Result<AppConfig, ConfigError>,
    prefs: serde_json::Value,
) -> (p: SavePlan)
    ensures
        (loaded is Ok || loaded matches Err(ConfigError::ReadError(_))) ==> (p matches
        SavePlan::Write(t) && t@ == pretty_doc_text(prefs) && (json_depth(prefs) <= depth_limit()
            ==> doc_parses(t@) && doc_prefs_text(t@) == json_text(prefs))),
        loaded matches Err(e) ==> (!(e matches ConfigError::ReadError(_)) ==> (p matches
        SavePlan::Abort(e2) && e2 == e)),
{
    match loaded {
        Ok(_) => {
            let config = AppConfig { preferences: prefs };
            match save_config(&config) {
                Ok(t) => SavePlan::Write(t),
                Err(e) => SavePlan::Abort(e),
            }
        },
        Err(e) => {
            match e {
                ConfigError::ReadError(_) => {
                    let config = AppConfig { preferences: prefs };
                    match save_config(&config) {
                        Ok(t) => SavePlan::Write(t),
                        Err(e2) => SavePlan::Abort(e2),
                    }
                },
                other => SavePlan::Abort(other),
            }
        },
    }
}

/// Decides the boot-time repair from the result of the initial load: a read
/// failure means no usable config, so the default document is written; a
/// loaded record needs nothing; any other error is only reported.
pub fn plan_setup(loaded: Result<AppConfig, ConfigError>) -> (p: SetupPlan)
    ensures
        loaded is Ok ==> p matches SetupPlan::Loaded,
        loaded matches Err(e) ==> (e matches ConfigError::ReadError(_) ==> (p matches
        SetupPlan::WriteDefault(t) && t@ == "{\n  \"preferences\": {}\n}"@)),
        loaded matches Err(e) ==> (!(e matches ConfigError::ReadError(_)) ==> (p matches
        SetupPlan::Report(e2) && e2 == e)),
{
    match loaded {
        Ok(_) => SetupPlan::Loaded,
        Err(e) => {
            match e {
                ConfigError::ReadError(_) => SetupPlan::WriteDefault(default_file_text()),
                other => SetupPlan::Report(other),
            }
        },
    }
}

/// The get-preferences convenience: a loaded record's preferences value.
pub fn preferences_of(config: AppConfig) -> (r: serde_json::Value)
    ensures
        r == config.preferences,
{
    config.preferences
}

} // verus!
