//! The config loader: an API key read from a small TOML credentials
//! document with one required string field.  Locating and reading the file
//! is the binary's job; this module decides what the text means.

use vstd::prelude::*;
use crate::errors::Error;

verus! {

/// The loaded configuration: one opaque bearer credential, immutable for
/// the process lifetime.
#[derive(Debug)]
pub struct Config {
    pub api_key: String,
}

/// The string value at `key` in the TOML document `text`, if `text` parses
/// as a TOML table holding a string there; what `toml_str_field` returns.
pub uninterp spec fn toml_str_field_of(text: Seq<char>, key: Seq<char>) -> Option<Seq<char>>;

/// Relies on `toml::Table`'s `FromStr` and `toml::Value::as_str`: the string
/// value found at `key` in the parsed document is a function of `text` and
/// `key` alone, and absent when the document does not parse or holds no
/// string there.
#[verifier::external_body]
fn toml_str_field(text: &str, key: &str) -> (r: Option<String>)
    ensures
        r.deep_view() == toml_str_field_of(text@, key@),
{
    let table: toml::Table = match text.parse() {
        Ok(t) => t,
        Err(_) => return None,
    };
    match table.get(key) {
        Some(v) => v.as_str().map(|s| s.to_owned()),
        None => None,
    }
}

/// The API key embedded in the credentials document `text`, if any.
pub open spec fn spec_api_key_of(text: Seq<char>) -> Option<Seq<char>> {
    toml_str_field_of(text, "api_key"@)
}

/// Reads the credential out of the credentials document: exactly the
/// embedded key string on a well-formed document, a config error otherwise.
pub fn parse_config(text: &str) -> (r: Result<Config, Error>)
    ensures
        match r {
            Ok(c) => spec_api_key_of(text@) == Some(c.api_key@),
            Err(e) => e == Error::Config && spec_api_key_of(text@) is None,
        },
{
    match toml_str_field(text, "api_key") {
        Some(k) => Ok(Config { api_key: k }),
        None => Err(Error::Config),
    }
}

/// The config loader's whole contract: a missing or unreadable credentials
/// file (`None`) is a config error and nothing else happens; a present one
/// yields exactly the embedded key string, or a config error when the
/// document is malformed.
pub fn load_config(file: Option<&str>) -> (r: Result<Config, Error>)
    ensures
        match file {
            None => r matches Err(e) && e == Error::Config,
            Some(text) => match r {
                Ok(c) => spec_api_key_of(text@) == Some(c.api_key@),
                Err(e) => e == Error::Config && spec_api_key_of(text@) is None,
            },
        },
{
    match file {
        None => Err(Error::Config),
        Some(text) => parse_config(text),
    }
}

/// The fixed name of the credentials file inside the data directory.
pub fn auth_file_name() -> (r: String)
    ensures
        r@ == "client_auth.toml"@,
{
    "client_auth.toml".to_owned()
}

/// The fixed name of the per-user application folder inside the platform's
/// local-data directory, used when no override is given.
pub fn app_dir_name() -> (r: String)
    ensures
        r@ == "tuido"@,
{
    "tuido".to_owned()
}

} // verus!
