//! The stored list of stream addresses: a JSON array of strings.

use vstd::prelude::*;

verus! {

/// The configuration could not be read or written as JSON.
#[derive(Debug, Clone, Copy, PartialEq, Eq, Structural)]
pub struct ConfigError;

/// What the JSON reader makes of a text that is to hold an array of
/// strings: the strings, or nothing where the text is no such array.
pub uninterp spec fn json_string_list(text: Seq<char>) -> Option<Seq<Seq<char>>>;

/// What the JSON writer makes of a list of strings: the text. The writer
/// hands its result out as one that may be missing, and the name keeps that
/// shape.
pub uninterp spec fn json_text(list: Seq<Seq<char>>) -> Option<Seq<char>>;

/// Runs `serde_json::from_str` on `text`, asking for a `Vec<String>`. The
/// outcome depends on the text alone; the contract names it
/// `json_string_list(text)`.
#[verifier::external_body]
fn read_string_list(text: &str) -> (r: Option<Vec<String>>)
    ensures
        r.deep_view() == json_string_list(text@),
{
    serde_json::from_str(text).ok()
}

/// Runs `serde_json::to_string` on `list`. The outcome depends on the list
/// alone; the contract names it `json_text(list)`. The writer fails only
/// where writing to its buffer fails or a value refuses to be written; its
/// buffer is a vector in memory and the values are strings, so the contract
/// claims that a text comes back.
#[verifier::external_body]
fn write_string_list(list: &Vec<String>) -> (r: Option<String>)
    ensures
        r is Some,
        r.deep_view() == json_text(list.deep_view()),
{
    serde_json::to_string(list).ok()
}

/// The text that stands for a configuration that cannot be read: an empty
/// array.
pub open spec fn stored_or_empty(content: Option<Seq<char>>) -> Seq<char> {
    match content {
        Some(text) => text,
        None => "[]"@,
    }
}

/// Reads the stream addresses from the content of the configuration.
/// `None` stands for a configuration that could not be read, and is taken as
/// an empty array.
///
/// Succeeds exactly when the JSON reader finds an array of strings, and
/// then returns those strings.
pub fn load(content: Option<&str>) -> (r: Result<Vec<String>, ConfigError>)
    ensures
        match r {
            Ok(list) => json_string_list(
                stored_or_empty(
                    match content {
                        Some(text) => Some(text@),
                        None => None,
                    },
                ),
            ) == Some(list.deep_view()),
            Err(_) => json_string_list(
                stored_or_empty(
                    match content {
                        Some(text) => Some(text@),
                        None => None,
                    },
                ),
            ) is None,
        },
{
    let text = match content {
        Some(text) => text,
        None => "[]",
    };
    match read_string_list(text) {
        Some(list) => Ok(list),
        None => Err(ConfigError),
    }
}

/// Writes the stream addresses as the content of the configuration.
///
/// Always succeeds, and returns the text that the JSON writer makes of the
/// list.
pub fn save(streams_collection: &Vec<String>) -> (r: Result<String, ConfigError>)
    ensures
        r is Ok,
        json_text(streams_collection.deep_view()) == Some(r->Ok_0@),
{
    match write_string_list(streams_collection) {
        Some(text) => Ok(text),
        None => Err(ConfigError),
    }
}

} // verus!
