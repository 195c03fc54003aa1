//! Calls into the `regex` and `validator` crates, with the contracts this
//! library relies on.
use vstd::prelude::*;
use std::borrow::Cow;
use validator::ValidateLength;
use crate::model::positive_int_schema::LONG_UNDERSCORE_INTEGER;
use crate::text::is_digit;

verus! {

/// Whether `s` is ASCII digits in groups joined by single underscores: the
/// strings that the pattern `^[0-9]+(?:_[0-9]+)*$` matches.
#[verifier::opaque]
pub open spec fn underscore_grouped_digits(s: Seq<char>) -> bool {
    &&& s.len() > 0
    &&& is_digit(s[0])
    &&& is_digit(s.last())
    &&& forall|i: int| 0 <= i < s.len() ==> is_digit(#[trigger] s[i]) || s[i] == '_'
    &&& forall|i: int| 0 <= i < s.len() - 1 ==> !(#[trigger] s[i] == '_' && s[i + 1] == '_')
}

/// Calls `regex::Regex::new(pattern)` and then `Regex::is_match(text)`,
/// `None` where the pattern does not compile. Claimed only of the pattern
/// `LONG_UNDERSCORE_INTEGER`, `^[0-9]+(?:_[0-9]+)*$`: it compiles, and by the
/// crate's syntax (`^` and `$` anchor at the ends of the text outside
/// multi-line mode, `[0-9]` is the ASCII digits) it matches exactly the
/// underscore-grouped digits.
#[verifier::external_body]
pub fn regex_is_match(pattern: &str, text: &str) -> (r: Option<bool>)
    ensures
        pattern@ == LONG_UNDERSCORE_INTEGER@ ==> r == Some(underscore_grouped_digits(text@)),
{
    match regex::Regex::new(pattern) {
        Ok(re) => Some(re.is_match(text)),
        Err(_) => None,
    }
}

/// Calls `validator::ValidateLength::validate_length` on a string with only a
/// minimum. For strings the crate counts characters, so the claim is that the
/// answer is whether `s` has at least `min` characters.
#[verifier::external_body]
pub fn has_min_length(s: &str, min: u64) -> (r: bool)
    ensures
        r == (s@.len() >= min),
{
    s.validate_length(Some(min), None, None)
}

#[verifier::external_type_specification]
#[verifier::external_body]
pub struct ExValidatorErrors(validator::ValidationErrors);

/// Calls `validator::ValidationErrors::new`: no errors yet.
#[verifier::external_body]
pub(crate) fn new_validation_errors() -> validator::ValidationErrors {
    validator::ValidationErrors::new()
}

/// Adds to `errors` a length error of `field`, as the crate's derive for
/// `#[validate(length(min = ..))]` builds one: `ValidationError::new("length")`
/// with the parameters `min` and `value` (`ValidationError::add_param`),
/// added with `ValidationErrors::add`. Nothing is claimed of the result.
#[verifier::external_body]
pub(crate) fn add_length_error(
    errors: &mut validator::ValidationErrors,
    field: &'static str,
    min: u64,
    value: &str,
) {
    let mut error = validator::ValidationError::new("length");
    error.add_param(Cow::from("min"), &min);
    error.add_param(Cow::from("value"), &value);
    errors.add(field, error)
}

/// The text that `validator::ValidationErrors` displays (its `Display`
/// impl, through `to_string`). The crate keeps fields and parameters in hash
/// maps and writes them in the order it walks them, so nothing is claimed of
/// the text.
#[verifier::external_body]
pub(crate) fn validation_errors_text(errors: &validator::ValidationErrors) -> String {
    errors.to_string()
}

} // verus!
