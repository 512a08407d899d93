//! Checks made on raw input before any parsing.

use crate::error::{AppError, AppErrorView};
use crate::text::{chars_of, starts_with, trim, trimmed};
use vstd::prelude::*;

verus! {

/// What the check of an XML text yields: a text that is blank is refused
/// as empty, one whose first character after leading whitespace is not `<`
/// as not XML.
pub open spec fn validate_xml_content_spec(xml: Seq<char>) -> Result<(), AppErrorView> {
    let body = trimmed(xml);
    if body.len() == 0 {
        Err(AppErrorView::ValidationError("XML content cannot be empty"@))
    } else if body[0] != '<' {
        Err(AppErrorView::ValidationError("Invalid XML format"@))
    } else {
        Ok(())
    }
}

/// What the check of an address yields: it must begin with `http://` or
/// `https://`, else it is refused and handed back.
pub open spec fn validate_url_spec(url: Seq<char>) -> Result<(), AppErrorView> {
    if "http://"@.is_prefix_of(url) || "https://"@.is_prefix_of(url) {
        Ok(())
    } else {
        Err(AppErrorView::InvalidUrl(url))
    }
}

/// Whether a check came out as specified.
pub open spec fn check_is(outcome: Result<(), AppError>, expected: Result<(), AppErrorView>) -> bool {
    match outcome {
        Ok(_) => expected is Ok,
        Err(error) => expected == Err::<(), AppErrorView>(error@),
    }
}

/// Refuses a text that is blank or does not begin, after whitespace, with
/// `<`.
pub fn validate_xml_content(xml: &str) -> (outcome: Result<(), AppError>)
    ensures
        check_is(outcome, validate_xml_content_spec(xml@)),
{
    let body = chars_of(trim(xml));
    if body.len() == 0 {
        return Err(AppError::ValidationError(String::from_str("XML content cannot be empty")));
    }
    if body[0] != '<' {
        return Err(AppError::ValidationError(String::from_str("Invalid XML format")));
    }
    Ok(())
}

/// Refuses an address that begins with neither `http://` nor `https://`.
pub fn validate_url(url: &str) -> (outcome: Result<(), AppError>)
    ensures
        check_is(outcome, validate_url_spec(url@)),
{
    if !starts_with(url, "http://") && !starts_with(url, "https://") {
        return Err(AppError::InvalidUrl(String::from_str(url)));
    }
    Ok(())
}

} // verus!
