//! The field rules that payloads are held to before anything is dispatched.
use vstd::prelude::*;
use vstd::string::*;
use crate::error::{field_texts, Error, ErrorModel, FieldError};

verus! {

/// Whether `text` is accepted as an e-mail address: a local part and a
/// domain, each within its length and of the shape that HTML5 asks for.
pub uninterp spec fn email_is_valid(text: Seq<char>) -> bool;

/// Whether `text` parses as an absolute URL.
pub uninterp spec fn url_is_valid(text: Seq<char>) -> bool;

/// Whether the regular expression `pattern` finds a match in `text`; `None`
/// where `pattern` is not a regular expression that can be compiled.
pub uninterp spec fn regex_matches(pattern: Seq<char>, text: Seq<char>) -> Option<bool>;

/// A character count within optional bounds, both inclusive.
pub open spec fn spec_length_ok(len: nat, min: Option<u64>, max: Option<u64>) -> bool {
    &&& (min matches Some(m) ==> len >= m)
    &&& (max matches Some(m) ==> len <= m)
}

/// The pattern of a user name: from start to end, one or more characters
/// out of the underscore, the digits and the ASCII letters.
pub open spec fn username_pattern() -> Seq<char> {
    "^[_0-9a-zA-Z]+$"@
}

/// A character that may stand in a user name.
pub open spec fn is_name_char(c: char) -> bool {
    c == '_' || ('0' <= c && c <= '9') || ('a' <= c && c <= 'z') || ('A' <= c && c <= 'Z')
}

/// A text that the user-name pattern matches: not empty, and made of
/// characters that may stand in a user name.
pub open spec fn is_name(text: Seq<char>) -> bool {
    text.len() > 0 && forall|i: int| 0 <= i < text.len() ==> is_name_char(#[trigger] text[i])
}

/// Calls `validator::validate_email`. Trusted to depend on the text alone.
#[verifier::external_body]
pub(crate) fn email_ok(text: &str) -> (r: bool)
    ensures
        r == email_is_valid(text@),
{
    validator::validate_email(text)
}

/// Calls `validator::validate_url`. Trusted to depend on the text alone.
#[verifier::external_body]
pub(crate) fn url_ok(text: &str) -> (r: bool)
    ensures
        r == url_is_valid(text@),
{
    validator::validate_url(text)
}

/// Calls `validator::validate_length` with no `equal` bound. It counts the
/// characters of `text` and holds the count against both bounds.
#[verifier::external_body]
pub(crate) fn length_ok(text: &str, min: Option<u64>, max: Option<u64>) -> (r: bool)
    ensures
        r == spec_length_ok(text@.len(), min, max),
{
    validator::validate_length(text, min, max, None)
}

/// Compiles `pattern` with `regex::Regex::new` and searches `text` with
/// `Regex::is_match`. Trusted to depend on the two texts alone, and to read
/// the user-name pattern as the syntax of the crate says: anchored at both
/// ends of the text, a class of literal ranges, one or more times.
#[verifier::external_body]
pub(crate) fn regex_is_match(pattern: &str, text: &str) -> (r: Option<bool>)
    ensures
        r == regex_matches(pattern@, text@),
        pattern@ == username_pattern() ==> r == Some(is_name(text@)),
{
    match regex::Regex::new(pattern) {
        Ok(re) => Some(re.is_match(text)),
        Err(_) => None,
    }
}

/// The violations found so far, with one more where `ok` is false.
pub open spec fn noted(
    found: Seq<(Seq<char>, Seq<char>)>,
    ok: bool,
    field: Seq<char>,
    message: Seq<char>,
) -> Seq<(Seq<char>, Seq<char>)> {
    if ok {
        found
    } else {
        found.push((field, message))
    }
}

/// Records a violation of `field` unless `ok`.
pub fn note(found: &mut Vec<FieldError>, ok: bool, field: &str, message: &str)
    ensures
        field_texts(final(found)@) == noted(field_texts(old(found)@), ok, field@, message@),
{
    if !ok {
        let e = FieldError::new(field, message);
        found.push(e);
        proof {
            assert(field_texts(found@) =~= field_texts(old(found)@).push((field@, message@)));
        }
    }
}

/// What is said of a text that must not be empty and is.
pub open spec fn empty_message() -> Seq<char> {
    "fails validation - cannot be empty"@
}

/// One more violation where `text` is empty.
pub open spec fn noted_filled(
    found: Seq<(Seq<char>, Seq<char>)>,
    text: Seq<char>,
    field: Seq<char>,
) -> Seq<(Seq<char>, Seq<char>)> {
    noted(found, spec_length_ok(text.len(), Some(1), None), field, empty_message())
}

/// One more violation where `text` is set and empty.
pub open spec fn noted_filled_if_set(
    found: Seq<(Seq<char>, Seq<char>)>,
    text: Option<String>,
    field: Seq<char>,
) -> Seq<(Seq<char>, Seq<char>)> {
    match text {
        Some(t) => noted_filled(found, t@, field),
        None => found,
    }
}

/// Records a violation of `field` where `text` is empty.
pub fn note_filled(found: &mut Vec<FieldError>, text: &str, field: &str)
    ensures
        field_texts(final(found)@) == noted_filled(field_texts(old(found)@), text@, field@),
{
    note(found, length_ok(text, Some(1), None), field, "fails validation - cannot be empty");
}

/// Records a violation of `field` where `text` is set and empty.
pub fn note_filled_if_set(found: &mut Vec<FieldError>, text: &Option<String>, field: &str)
    ensures
        field_texts(final(found)@) == noted_filled_if_set(field_texts(old(found)@), *text, field@),
{
    match text {
        Some(t) => {
            note_filled(found, t.as_str(), field);
        },
        None => {},
    }
}

/// Nothing found is success; anything found is a 422 that lists it all.
pub open spec fn spec_verdict(found: Seq<(Seq<char>, Seq<char>)>, r: Result<(), Error>) -> bool {
    if found.len() == 0 {
        r is Ok
    } else {
        r matches Err(e) && e@ == ErrorModel::UnprocessableEntity(found)
    }
}

/// Turns the violations found into the outcome of validation.
pub fn verdict(found: Vec<FieldError>) -> (r: Result<(), Error>)
    ensures
        spec_verdict(field_texts(found@), r),
{
    if found.len() == 0 {
        Ok(())
    } else {
        Err(Error::UnprocessableEntity(found))
    }
}

} // verus!
