//! Boolean configuration values, written `true` or `false`.
use vstd::prelude::*;
use crate::errors::{field_violation, invalid_value, ValidationError, ValidationErrorView};
use crate::text::str_eq;

verus! {

/// The code of a value that is not a boolean.
pub const INVALID_NOT_BOOLEAN: &'static str = "invalid-not-boolean";

/// The code the boolean validation reports.
pub const INVALID_BOOLEAN: &'static str = "invalid-boolean";

/// What a boolean value must look like, as reported in violations.
pub const JS_BOOLEAN: &'static str = "value must be js boolean";

/// The field that `parse_boolean_schema` reports violations of.
pub const DISABLE_PROCESS_CHECKPOINT_CREATION: &'static str = "DISABLE_PROCESS_CHECKPOINT_CREATION";

/// Validation of optional boolean values.
pub struct TruthyConstraint;

/// Whether `val` is present and reads `true` or `false`.
pub open spec fn spec_is_boolean(val: Option<Seq<char>>) -> bool {
    match val {
        Some(s) => s == "true"@ || s == "false"@,
        None => false,
    }
}

/// The error of a value that is not a boolean.
pub open spec fn boolean_error(val: Option<Seq<char>>, field: Seq<char>) -> ValidationErrorView {
    ValidationErrorView {
        message: None,
        violations: seq![
            field_violation(
                INVALID_BOOLEAN@,
                field,
                match val {
                    Some(s) => s,
                    None => Seq::empty(),
                },
                JS_BOOLEAN@,
            ),
        ],
    }
}

impl TruthyConstraint {
    /// Whether `val` is present and reads `true` or `false`.
    pub fn is_boolean(&self, val: Option<String>) -> (b: bool)
        ensures
            b == spec_is_boolean(val.deep_view()),
    {
        match &val {
            Some(s) => str_eq(s.as_str(), "true") || str_eq(s.as_str(), "false"),
            None => false,
        }
    }

    /// Validates `val`, the value of `field`, as a boolean: `Ok` with the
    /// value where it reads `true` or `false`, otherwise one violation that
    /// carries the value (or nothing, where it is absent).
    pub fn validate(&self, val: Option<String>, field: &str) -> (r: Result<
        Option<String>,
        ValidationError,
    >)
        ensures
            spec_is_boolean(val.deep_view()) ==> r == Ok::<Option<String>, ValidationError>(val),
            !spec_is_boolean(val.deep_view()) ==> (r matches Err(e) && e@ == boolean_error(
                val.deep_view(),
                field@,
            )),
    {
        if self.is_boolean(val.clone()) {
            return Ok(val);
        }
        let actual = match val {
            Some(s) => s,
            None => String::new(),
        };
        let mut violations = Vec::new();
        violations.push(invalid_value(INVALID_BOOLEAN, field, actual, JS_BOOLEAN.to_owned()));
        let e = ValidationError { message: None, violations };
        assert(e@.violations =~= boolean_error(val.deep_view(), field@).violations);
        Err(e)
    }
}

/// Parses the checkpoint-creation switch: whether to disable checkpoint
/// creation, `true` for `true` and `false` for `false`; anything else is
/// refused.
pub fn parse_boolean_schema(val: Option<String>) -> (r: Result<bool, ValidationError>)
    ensures
        spec_is_boolean(val.deep_view()) ==> r == Ok::<bool, ValidationError>(val.deep_view()
            == Some("true"@)),
        !spec_is_boolean(val.deep_view()) ==> (r matches Err(e) && e@ == boolean_error(
            val.deep_view(),
            DISABLE_PROCESS_CHECKPOINT_CREATION@,
        )),
{
    let is_true = match &val {
        Some(s) => str_eq(s.as_str(), "true"),
        None => false,
    };
    match TruthyConstraint.validate(val, DISABLE_PROCESS_CHECKPOINT_CREATION) {
        Ok(_) => Ok(is_true),
        Err(e) => Err(e),
    }
}

} // verus!
