//! The credential in the configuration file: a TOML document whose `key`
//! entry must hold non-empty text.
use vstd::prelude::*;
use toml::Value;

verus! {

/// Why the configuration gave no credential.
#[derive(Clone, Debug)]
pub enum ConfigError {
    /// The file is not a TOML document; the parser's message.
    Parse(String),
    /// The document has no `key` entry.
    KeyMissing,
    /// The `key` entry is empty, or is not text.
    KeyEmpty,
}

/// The name of the entry that holds the credential.
pub const KEY_ENTRY: &'static str = "key";

/// The message the TOML parser gives for `text`, or `None` when `text` is a
/// document: a function of the text alone.
pub uninterp spec fn toml_error_of(text: Seq<char>) -> Option<Seq<char>>;

/// The top-level entry `name` of the document `text`: `None` when there is
/// none, `Some(None)` when its value is not a string, `Some(Some(t))` when it
/// is the string `t`. A function of the text and name alone.
pub uninterp spec fn toml_entry_of(text: Seq<char>, name: Seq<char>) -> Option<Option<Seq<char>>>;

/// The views of an entry as `toml_entry_of` describes it.
pub open spec fn entry_view(entry: Option<Option<String>>) -> Option<Option<Seq<char>>> {
    match entry {
        None => None,
        Some(None) => Some(None),
        Some(Some(t)) => Some(Some(t@)),
    }
}

/// Relies on `<toml::Value as FromStr>::from_str` and `toml::Value::get`: the
/// document parsed from `text`, or the parser's message; then its top-level
/// entry `name`, told apart by whether it is a string.
#[verifier::external_body]
fn parse_entry(text: &str, name: &str) -> (r: Result<Option<Option<String>>, String>)
    ensures
        r is Err <==> toml_error_of(text@) is Some,
        r matches Err(m) ==> toml_error_of(text@) == Some(m@),
        r matches Ok(e) ==> entry_view(e) == toml_entry_of(text@, name@),
{
    let document = text.parse::<Value>().map_err(|e| e.to_string())?;
    Ok(document.get(name).map(|v| match v {
        Value::String(t) => Some(t.clone()),
        _ => None,
    }))
}

/// The credential an entry stands for: `entry` is `None` when there is no
/// `key` entry, `Some(None)` when it is not text, and `Some(Some(t))` when it
/// holds the text `t`.
pub open spec fn key_result(entry: Option<Option<Seq<char>>>, r: Result<String, ConfigError>) -> bool {
    match entry {
        None => r matches Err(ConfigError::KeyMissing),
        Some(None) => r matches Err(ConfigError::KeyEmpty),
        Some(Some(t)) => if t.len() == 0 {
            r matches Err(ConfigError::KeyEmpty)
        } else {
            r matches Ok(k) && k@ == t
        },
    }
}

/// The credential given the `key` entry of a parsed configuration.
pub fn key_from_entry(entry: Option<Option<String>>) -> (r: Result<String, ConfigError>)
    ensures
        key_result(entry_view(entry), r),
{
    match entry {
        None => Err(ConfigError::KeyMissing),
        Some(None) => Err(ConfigError::KeyEmpty),
        Some(Some(t)) => if t.as_str().is_empty() {
            Err(ConfigError::KeyEmpty)
        } else {
            Ok(t)
        },
    }
}

/// Whether `r` is what the configuration text `text` gives: a parse error
/// carrying the parser's message when `text` is no document, and otherwise
/// the credential that its `key` entry stands for.
pub open spec fn config_result(text: Seq<char>, r: Result<String, ConfigError>) -> bool {
    match toml_error_of(text) {
        Some(m) => r matches Err(ConfigError::Parse(e)) && e@ == m,
        None => key_result(toml_entry_of(text, KEY_ENTRY@), r),
    }
}

/// The credential in the configuration text `text`: the non-empty text of its
/// `key` entry.
pub fn config_key(text: &str) -> (r: Result<String, ConfigError>)
    ensures
        config_result(text@, r),
        r matches Ok(k) ==> k@.len() > 0,
{
    match parse_entry(text, KEY_ENTRY) {
        Err(message) => Err(ConfigError::Parse(message)),
        Ok(found) => key_from_entry(found),
    }
}

} // verus!
