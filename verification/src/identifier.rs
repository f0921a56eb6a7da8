//! The file identifier: the digits that follow a `#` in a row's file text,
//! and the link built from them.

use vstd::prelude::*;
use vstd::string::StringExecFns;

verus! {

/// The pattern of a file identifier: `#`, one or more digits (captured),
/// then optionally one whitespace character.
pub const FILE_NUMBER_PATTERN: &'static str = r"#(\d+)\s?";

/// What every file link starts with.
pub const FILE_LINK_PREFIX: &'static str = "https://sarel.mangotopsrv.com/file/";

#[verifier::external_type_specification]
#[verifier::external_body]
pub struct ExRegexError(regex::Error);

/// What the first capture group of `pattern` holds at the leftmost match in
/// `text`: `None` where `pattern` is no regular expression, `Some(None)`
/// where it matches nowhere or the group took no part in the match.
pub uninterp spec fn first_group_of_leftmost_match(
    pattern: Seq<char>,
    text: Seq<char>,
) -> Option<Option<Seq<char>>>;

/// The view of an optional string.
pub open spec fn text_of(s: Option<String>) -> Option<Seq<char>> {
    match s {
        Some(s) => Some(s@),
        None => None,
    }
}

/// The identifier in `text`, if there is one.
pub open spec fn file_number(text: Seq<char>) -> Option<Seq<char>> {
    match first_group_of_leftmost_match(FILE_NUMBER_PATTERN@, text) {
        Some(found) => found,
        None => None,
    }
}

/// The link to the file with identifier `number`.
pub open spec fn link_to(number: Seq<char>) -> Seq<char> {
    FILE_LINK_PREFIX@ + number
}

/// `regex::Regex::new` on `pattern`, then `Regex::captures` on `text`:
/// the text of group 1 in the leftmost match.
#[verifier::external_body]
fn capture_first_group(pattern: &str, text: &str) -> (r: Result<Option<String>, regex::Error>)
    ensures
        match r {
            Ok(found) => first_group_of_leftmost_match(pattern@, text@) == Some(text_of(found)),
            Err(_) => first_group_of_leftmost_match(pattern@, text@) is None,
        },
{
    let re = regex::Regex::new(pattern)?;
    Ok(re.captures(text).and_then(|c| c.get(1)).map(|m| m.as_str().to_string()))
}

/// Extracts the file identifier from `text`: the digits captured by
/// `FILE_NUMBER_PATTERN` at its first match.
pub fn extract_file_number(text: &str) -> (number: Option<String>)
    ensures
        text_of(number) == file_number(text@),
{
    match capture_first_group(FILE_NUMBER_PATTERN, text) {
        Ok(found) => found,
        Err(_) => None,
    }
}

/// Builds the link to the file with identifier `number`.
pub fn file_link(number: &str) -> (link: String)
    ensures
        link@ == link_to(number@),
{
    String::from_str(FILE_LINK_PREFIX).concat(number)
}

} // verus!
