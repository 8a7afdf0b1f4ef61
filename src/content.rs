use crate::context::Settings;
use crate::error::ApubError;
use vstd::prelude::*;

verus! {

/// Whether `text` holds a match of `pattern` compiled case-insensitively; `None` where
/// `pattern` is no valid regular expression.
pub uninterp spec fn regex_matches_ignoring_case(pattern: Seq<char>, text: Seq<char>) -> Option<bool>;

/// Relies on `regex::RegexBuilder::build` (with `case_insensitive(true)`) and
/// `regex::Regex::is_match`.
#[verifier::external_body]
fn find_match(pattern: &str, text: &str) -> (r: Option<bool>)
    ensures
        r == regex_matches_ignoring_case(pattern@, text@),
{
    match regex::RegexBuilder::new(pattern).case_insensitive(true).build() {
        Ok(re) => Some(re.is_match(text)),
        Err(_) => None,
    }
}

/// The text passes the instance's content filter. A filter that is no valid regular
/// expression lets nothing pass: no text can be shown free of the terms it names.
pub open spec fn text_allowed(settings: Settings, text: Seq<char>) -> bool {
    match settings.slur_filter {
        Some(p) => regex_matches_ignoring_case(p@, text) == Some(false),
        None => true,
    }
}

pub open spec fn opt_text_allowed(settings: Settings, text: Option<String>) -> bool {
    match text {
        Some(t) => text_allowed(settings, t@),
        None => true,
    }
}

/// Fails with `ValidationError` unless the text passes the content filter.
pub fn check_slurs(text: &String, settings: &Settings) -> (r: Result<(), ApubError>)
    ensures
        r is Ok <==> text_allowed(*settings, text@),
        r is Err ==> r == Err::<(), ApubError>(ApubError::ValidationError),
{
    match &settings.slur_filter {
        Some(p) => match find_match(p.as_str(), text.as_str()) {
            Some(false) => Ok(()),
            _ => Err(ApubError::ValidationError),
        },
        None => Ok(()),
    }
}

/// As `check_slurs`, for a text that may be absent.
pub fn check_slurs_opt(text: &Option<String>, settings: &Settings) -> (r: Result<(), ApubError>)
    ensures
        r is Ok <==> opt_text_allowed(*settings, *text),
        r is Err ==> r == Err::<(), ApubError>(ApubError::ValidationError),
{
    match text {
        Some(t) => check_slurs(t, settings),
        None => Ok(()),
    }
}

} // verus!
