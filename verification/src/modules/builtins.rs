//! What the built-in `regex` module computes, on texts: matching, finding
//! and replacing with a regular expression, with the language's messages for
//! missing arguments and invalid patterns; and whether a text is JSON, for
//! the built-in `json` module.

use crate::cli::args::text_opt;
use vstd::prelude::*;

verus! {

/// The message of the error `regex::Regex::new` gives for the pattern, or
/// `None` when the pattern compiles.
pub uninterp spec fn regex_error(pattern: Seq<char>) -> Option<Seq<char>>;

/// Whether the compiled pattern matches somewhere in the text.
pub uninterp spec fn regex_is_match(pattern: Seq<char>, text: Seq<char>) -> bool;

/// The leftmost-first match of the compiled pattern in the text, if any.
pub uninterp spec fn regex_first(pattern: Seq<char>, text: Seq<char>) -> Option<Seq<char>>;

/// The text with every match of the compiled pattern replaced.
pub uninterp spec fn regex_replaced(pattern: Seq<char>, text: Seq<char>, replacement: Seq<char>) -> Seq<char>;

/// Whether the text is one JSON value, as `serde_json` reads JSON.
pub uninterp spec fn json_valid(text: Seq<char>) -> bool;

/// `serde_json::from_str` into a `serde_json::Value`: whether it reads the
/// text without error.
#[verifier::external_body]
fn parses_as_json(text: &str) -> (r: bool)
    ensures
        r == json_valid(text@),
{
    serde_json::from_str::<serde_json::Value>(text).is_ok()
}

/// json.صالح: whether the text is JSON.
pub fn json_is_valid(text: &str) -> (r: bool)
    ensures
        r == json_valid(text@),
{
    parses_as_json(text)
}

/// `regex::Regex::new`: the message of its error for the pattern, if it
/// refuses the pattern.
#[verifier::external_body]
fn pattern_error(pattern: &str) -> (r: Option<String>)
    ensures
        text_opt(r) == regex_error(pattern@),
{
    match regex::Regex::new(pattern) {
        Ok(_) => None,
        Err(e) => Some(e.to_string()),
    }
}

/// `regex::Regex::is_match` on the compiled pattern.
#[verifier::external_body]
fn matches_pattern(pattern: &str, text: &str) -> (r: bool)
    requires
        regex_error(pattern@) is None,
    ensures
        r == regex_is_match(pattern@, text@),
{
    match regex::Regex::new(pattern) {
        Ok(re) => re.is_match(text),
        Err(_) => false,
    }
}

/// `regex::Regex::find` on the compiled pattern: the matched text.
#[verifier::external_body]
fn first_match(pattern: &str, text: &str) -> (r: Option<String>)
    requires
        regex_error(pattern@) is None,
    ensures
        text_opt(r) == regex_first(pattern@, text@),
{
    match regex::Regex::new(pattern) {
        Ok(re) => match re.find(text) {
            Some(m) => Some(m.as_str().to_string()),
            None => None,
        },
        Err(_) => None,
    }
}

/// `regex::Regex::replace_all` on the compiled pattern.
#[verifier::external_body]
fn replace_matches(pattern: &str, text: &str, replacement: &str) -> (r: String)
    requires
        regex_error(pattern@) is None,
    ensures
        r@ == regex_replaced(pattern@, text@, replacement@),
{
    match regex::Regex::new(pattern) {
        Ok(re) => re.replace_all(text, replacement).to_string(),
        Err(_) => String::new(),
    }
}

/// The message for a pattern that does not compile.
pub open spec fn invalid_pattern_text(error: Seq<char>) -> Seq<char> {
    "نمط غير صالح: "@ + error
}

fn invalid_pattern(error: &str) -> (r: String)
    ensures
        r@ == invalid_pattern_text(error@),
{
    let mut m = String::from_str("نمط غير صالح: ");
    m.append(error);
    m
}

/// `regex.طابق(نص، نمط)`: whether the pattern matches the text.
pub fn regex_match(args: &[String]) -> (r: Result<bool, String>)
    ensures
        args@.len() < 2 ==> (r matches Err(m) && m@ == "طابق يتطلب نصين: النص والنمط"@),
        args@.len() >= 2 ==> match regex_error(args@[1]@) {
            Some(e) => (r matches Err(m) && m@ == invalid_pattern_text(e)),
            None => r == Ok::<bool, String>(regex_is_match(args@[1]@, args@[0]@)),
        },
{
    if args.len() < 2 {
        return Err(String::from_str("طابق يتطلب نصين: النص والنمط"));
    }
    let text = args[0].as_str();
    let pattern = args[1].as_str();
    match pattern_error(pattern) {
        Some(e) => Err(invalid_pattern(e.as_str())),
        None => Ok(matches_pattern(pattern, text)),
    }
}

/// `regex.ابحث(نص، نمط)`: the first match of the pattern in the text, if
/// any.
pub fn regex_find(args: &[String]) -> (r: Result<Option<String>, String>)
    ensures
        args@.len() < 2 ==> (r matches Err(m) && m@ == "ابحث يتطلب نصين: النص والنمط"@),
        args@.len() >= 2 ==> match regex_error(args@[1]@) {
            Some(e) => (r matches Err(m) && m@ == invalid_pattern_text(e)),
            None => (r matches Ok(found) && text_opt(found) == regex_first(args@[1]@, args@[0]@)),
        },
{
    if args.len() < 2 {
        return Err(String::from_str("ابحث يتطلب نصين: النص والنمط"));
    }
    let text = args[0].as_str();
    let pattern = args[1].as_str();
    match pattern_error(pattern) {
        Some(e) => Err(invalid_pattern(e.as_str())),
        None => Ok(first_match(pattern, text)),
    }
}

/// `regex.استبدل(نص، نمط، بديل)`: the text with every match replaced.
pub fn regex_replace(args: &[String]) -> (r: Result<String, String>)
    ensures
        args@.len() < 3 ==> (r matches Err(m) && m@ == "استبدل يتطلب ثلاثة معاملات: النص والنمط والبديل"@),
        args@.len() >= 3 ==> match regex_error(args@[1]@) {
            Some(e) => (r matches Err(m) && m@ == invalid_pattern_text(e)),
            None => (r matches Ok(t) && t@ == regex_replaced(args@[1]@, args@[0]@, args@[2]@)),
        },
{
    if args.len() < 3 {
        return Err(String::from_str("استبدل يتطلب ثلاثة معاملات: النص والنمط والبديل"));
    }
    let text = args[0].as_str();
    let pattern = args[1].as_str();
    let replacement = args[2].as_str();
    match pattern_error(pattern) {
        Some(e) => Err(invalid_pattern(e.as_str())),
        None => Ok(replace_matches(pattern, text, replacement)),
    }
}

} // verus!
