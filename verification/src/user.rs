//! The user cache: a remote profile record kept in one local JSON file,
//! written once on first fetch and authoritative forever after.  The binary
//! reads and writes the file and performs the fetch; this module decides
//! what a present, absent or malformed cache means, what text is persisted,
//! and what a fetched response yields.

use vstd::prelude::*;
use vstd::string::*;
use crate::errors::Error;
use crate::text::escaped;

verus! {

/// The user profile; the one attribute the client consumes is the
/// identifier of the account's default "inbox" project.
#[derive(Debug)]
pub struct User {
    pub inbox_project_id: String,
}

/// The string value at `key` in the JSON document `text`, if `text` parses
/// as a JSON object holding a string there; what `json_str_field` returns.
pub uninterp spec fn json_str_field_of(text: Seq<char>, key: Seq<char>) -> Option<Seq<char>>;

/// Relies on `serde_json::from_str`, `serde_json::Value::get` and
/// `Value::as_str`: the string value found at `key` in the parsed object is
/// a function of `text` and `key` alone, and absent when the document does
/// not parse or holds no string there.
#[verifier::external_body]
fn json_str_field(text: &str, key: &str) -> (r: Option<String>)
    ensures
        r.deep_view() == json_str_field_of(text@, key@),
{
    let v: serde_json::Value = match serde_json::from_str(text) {
        Ok(v) => v,
        Err(_) => return None,
    };
    match v.get(key) {
        Some(f) => f.as_str().map(|s| s.to_owned()),
        None => None,
    }
}

/// The string value at `outer.inner` in the JSON document `text`, if `text`
/// parses as an object holding an object at `outer` with a string at
/// `inner`; what `json_nested_str_field` returns.
pub uninterp spec fn json_nested_str_field_of(
    text: Seq<char>,
    outer: Seq<char>,
    inner: Seq<char>,
) -> Option<Seq<char>>;

/// Relies on `serde_json::from_str` and `serde_json::Value::get`: the
/// string value two keys deep in the parsed object is a function of `text`
/// and the keys alone, and absent when any step of the path is missing.
#[verifier::external_body]
fn json_nested_str_field(text: &str, outer: &str, inner: &str) -> (r: Option<String>)
    ensures
        r.deep_view() == json_nested_str_field_of(text@, outer@, inner@),
{
    let v: serde_json::Value = match serde_json::from_str(text) {
        Ok(v) => v,
        Err(_) => return None,
    };
    match v.get(outer).and_then(|o| o.get(inner)) {
        Some(f) => f.as_str().map(|s| s.to_owned()),
        None => None,
    }
}

/// The inbox project identifier held by the cache document `text`, if any.
pub open spec fn spec_cached_inbox_of(text: Seq<char>) -> Option<Seq<char>> {
    json_str_field_of(text, "inbox_project_id"@)
}

/// The inbox project identifier of the user carried by the sync response
/// `text`, if the response carries a user at all.
pub open spec fn spec_response_inbox_of(text: Seq<char>) -> Option<Seq<char>> {
    json_nested_str_field_of(text, "user"@, "inbox_project_id"@)
}

/// Decides what the cache file means.  An absent file (`None`) asks the
/// caller to fetch — and is the only outcome that does; a present,
/// well-formed file yields the cached user verbatim with no fetch; a
/// present but malformed file is a cache error, again with no fetch.
pub fn read_cache(file: Option<&str>) -> (r: Result<Option<User>, Error>)
    ensures
        match file {
            None => r matches Ok(o) && o is None,
            Some(text) => match spec_cached_inbox_of(text@) {
                Some(id) => r matches Ok(o) && o matches Some(u) && u.inbox_project_id@ == id,
                None => r matches Err(e) && e == Error::Cache,
            },
        },
{
    match file {
        None => Ok(None),
        Some(text) => match json_str_field(text, "inbox_project_id") {
            Some(id) => Ok(Some(User { inbox_project_id: id })),
            None => Err(Error::Cache),
        },
    }
}

/// Extracts the user from a sync response that requested one.  A response
/// without a user field is a response error: the contract owed the field,
/// so its absence is unrecoverable rather than an empty value.
pub fn user_from_response(text: &str) -> (r: Result<User, Error>)
    ensures
        match spec_response_inbox_of(text@) {
            Some(id) => r matches Ok(u) && u.inbox_project_id@ == id,
            None => r matches Err(e) && e == Error::Response,
        },
{
    match json_nested_str_field(text, "user", "inbox_project_id") {
        Some(id) => Ok(User { inbox_project_id: id }),
        None => Err(Error::Response),
    }
}

/// The exact text persisted for `u`: the cache document, pretty-printed
/// with a two-space indent.
pub open spec fn user_cache_json(u: User) -> Seq<char> {
    "{\n  \"inbox_project_id\": \""@ + escaped(u.inbox_project_id@) + "\"\n}"@
}

/// Renders the cache document that `read_cache` will accept back.
pub fn render_user_cache(u: &User) -> (out: String)
    ensures
        out@ == user_cache_json(*u),
{
    let mut out: String = "{\n  \"inbox_project_id\": \"".to_owned();
    let esc = crate::text::escape_json(u.inbox_project_id.as_str());
    out.append(esc.as_str());
    out.append("\"\n}");
    out
}

/// The fixed name of the cache folder inside the data directory.
pub fn cache_dir_name() -> (r: String)
    ensures
        r@ == "data"@,
{
    "data".to_owned()
}

/// The fixed name of the cache file inside the cache folder.
pub fn cache_file_name() -> (r: String)
    ensures
        r@ == "user.json"@,
{
    "user.json".to_owned()
}

} // verus!
