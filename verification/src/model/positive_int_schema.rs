//! Non-negative integers written as digits, optionally grouped with single
//! underscores, such as `1000` or `1_000`.
use vstd::prelude::*;
use crate::errors::{
    field_violation, invalid_optional_value, invalid_value, missing_field_violation,
    ConstraintViolation, ValidationError, ValidationErrorView, ViolationView,
};
use crate::text::{
    is_whitespace, parse_i64, remove_char, spec_parse_i64, trim, trim_end, trim_start, trimmed,
    without_char,
};
use crate::third_party::{regex_is_match, underscore_grouped_digits};
use crate::model::shared_validation::{
    INVALID_EMPTY, INVALID_NOT_MATCH_NUMBER, INVALID_NOT_MATCH_UNDERSCORE,
};

verus! {

/// The shape a positive-int value must have: digits, in groups joined by
/// single underscores.
pub const LONG_UNDERSCORE_INTEGER: &'static str = "^[0-9]+(?:_[0-9]+)*$";

/// The message a failed positive-int parse carries.
pub const POSITIVE_INT_ERROR: &'static str = "Provided invalid value for positive_int_schema";

/// What is expected of a positive-int value, as reported in violations.
pub const NUMBER_VALUE: &'static str = "number value";

/// Validation of optional positive-int values.
pub struct PositiveIntSchemaConstraint;

/// The outcome of testing the trimmed value against `LONG_UNDERSCORE_INTEGER`.
pub open spec fn trimmed_match(s: Seq<char>) -> Option<bool> {
    Some(underscore_grouped_digits(trim(s)))
}

/// The outcome of testing the value as given against `LONG_UNDERSCORE_INTEGER`.
pub open spec fn raw_match(s: Seq<char>) -> Option<bool> {
    Some(underscore_grouped_digits(s))
}

/// The violations of a positive-int value, given whether its trimmed text
/// matches the pattern: none for a matching value; an absent value is
/// reported empty; otherwise the value is reported as not a number, or as a
/// number with a wrong shape where its trimmed text parses as `i64`.
pub open spec fn positive_int_violations(
    val: Option<Seq<char>>,
    field: Seq<char>,
    matches: bool,
) -> Seq<ViolationView> {
    match val {
        None => seq![missing_field_violation(INVALID_EMPTY@, field)],
        Some(s) => if matches {
            Seq::empty()
        } else if spec_parse_i64(trim(s)) is None {
            seq![field_violation(INVALID_NOT_MATCH_NUMBER@, field, s, NUMBER_VALUE@)]
        } else {
            seq![field_violation(INVALID_NOT_MATCH_UNDERSCORE@, field, s, NUMBER_VALUE@)]
        },
    }
}

/// Whether the outcome of parsing could not be formed: the value validates
/// and matches, yet its digits do not fit in an `i64`.
pub open spec fn positive_int_overflows(
    val: Option<Seq<char>>,
    trimmed_matches: bool,
    raw_matches: bool,
) -> bool {
    match val {
        Some(s) => trimmed_matches && raw_matches && spec_parse_i64(without_char(s, '_')) is None,
        None => false,
    }
}

/// The result of parsing a positive-int value, given the outcomes of the two
/// pattern tests. A value with violations is refused with them. A matching
/// value is read with its underscores removed; one that does not match is
/// read as written, and refused with no violations where that fails.
pub open spec fn positive_int_outcome(
    val: Option<Seq<char>>,
    field: Seq<char>,
    trimmed_matches: bool,
    raw_matches: bool,
) -> Result<i64, ValidationErrorView> {
    let violations = positive_int_violations(val, field, trimmed_matches);
    if violations.len() > 0 {
        Err(ValidationErrorView { message: Some(POSITIVE_INT_ERROR@), violations })
    } else {
        match val {
            None => Ok(-1i64),
            Some(s) => if raw_matches {
                Ok(spec_parse_i64(without_char(s, '_')).unwrap())
            } else {
                match spec_parse_i64(s) {
                    Some(v) => Ok(v),
                    None => Err(
                        ValidationErrorView { message: Some(POSITIVE_INT_ERROR@), violations: Seq::empty() },
                    ),
                }
            },
        }
    }
}

/// Whether parsing `val` can be carried out: a value that matches the
/// pattern has digits that fit in an `i64`.
pub open spec fn positive_int_supported(val: Option<Seq<char>>) -> bool {
    match val {
        None => true,
        Some(s) => match trimmed_match(s) {
            None => false,
            Some(false) => true,
            Some(true) => match raw_match(s) {
                None => false,
                Some(rm) => !positive_int_overflows(val, true, rm),
            },
        },
    }
}

/// The violations of `val`, given whether its trimmed text matches the
/// positive-int pattern.
pub fn positive_int_violations_for(val: &Option<String>, field: &str, matches: bool) -> (v: Vec<
    ConstraintViolation,
>)
    ensures
        v@.map_values(|c: ConstraintViolation| c@) == positive_int_violations(
            val.deep_view(),
            field@,
            matches,
        ),
{
    let mut out: Vec<ConstraintViolation> = Vec::new();
    match val {
        None => {
            out.push(invalid_optional_value(INVALID_EMPTY, field, None, None));
        },
        Some(s) => {
            if !matches {
                let t = trimmed(s.as_str());
                let code = if parse_i64(t.as_str()).is_none() {
                    INVALID_NOT_MATCH_NUMBER
                } else {
                    INVALID_NOT_MATCH_UNDERSCORE
                };
                out.push(invalid_value(code, field, s.clone(), NUMBER_VALUE.to_owned()));
            }
        },
    }
    assert(out@.map_values(|c: ConstraintViolation| c@) =~= positive_int_violations(
        val.deep_view(),
        field@,
        matches,
    ));
    out
}

impl PositiveIntSchemaConstraint {
    /// Validates `val` as a positive int: `Ok` with the value where its
    /// trimmed text matches `LONG_UNDERSCORE_INTEGER`, otherwise the
    /// violations, without a message.
    pub fn validate(&self, val: Option<String>, field: &str) -> (r: Result<
        Option<String>,
        ValidationError,
    >)
        ensures
            ({
                let m = match val.deep_view() {
                    Some(s) => trimmed_match(s) == Some(true),
                    None => false,
                };
                let v = positive_int_violations(val.deep_view(), field@, m);
                match r {
                    Ok(x) => v.len() == 0 && x == val,
                    Err(e) => v.len() > 0 && e@ == ValidationErrorView {
                        message: None,
                        violations: v,
                    },
                }
            }),
    {
        let m = match &val {
            Some(s) => {
                let t = trimmed(s.as_str());
                match regex_is_match(LONG_UNDERSCORE_INTEGER, t.as_str()) {
                    Some(b) => b,
                    None => false,
                }
            },
            None => false,
        };
        let violations = positive_int_violations_for(&val, field, m);
        if violations.len() > 0 {
            Err(ValidationError { message: None, violations })
        } else {
            Ok(val)
        }
    }
}

/// Parses a positive-int value given the outcomes of the two pattern tests
/// (`trimmed_matches` for the trimmed text, `raw_matches` for the text as
/// given).
pub fn positive_int_from_matches(
    val: Option<String>,
    field_name: &str,
    trimmed_matches: bool,
    raw_matches: bool,
) -> (r: Result<i64, ValidationError>)
    requires
        !positive_int_overflows(val.deep_view(), trimmed_matches, raw_matches),
    ensures
        match (r, positive_int_outcome(val.deep_view(), field_name@, trimmed_matches, raw_matches)) {
            (Ok(x), Ok(y)) => x == y,
            (Err(e), Err(f)) => e@ == f,
            _ => false,
        },
{
    let violations = positive_int_violations_for(&val, field_name, trimmed_matches);
    if violations.len() > 0 {
        return Err(
            ValidationError { message: Some(POSITIVE_INT_ERROR.to_owned()), violations },
        );
    }
    match val {
        None => Ok(-1),
        Some(s) => {
            if raw_matches {
                let digits = remove_char(s.as_str(), '_');
                match parse_i64(digits.as_str()) {
                    Some(v) => Ok(v),
                    None => {
                        assert(false);
                        Err(ValidationError { message: None, violations: Vec::new() })
                    },
                }
            } else {
                match parse_i64(s.as_str()) {
                    Some(v) => Ok(v),
                    None => {
                        let e = ValidationError {
                            message: Some(POSITIVE_INT_ERROR.to_owned()),
                            violations: Vec::new(),
                        };
                        assert(e@.violations =~= Seq::<ViolationView>::empty());
                        Err(e)
                    },
                }
            }
        },
    }
}

/// The result of parsing `val` as a positive int: the trimmed text must be
/// digit groups joined by single underscores; a value that has that shape
/// as given reads as its digits without the underscores, any other as
/// `str::parse` reads it.
pub open spec fn spec_parse_positive_int_schema(val: Option<Seq<char>>, field: Seq<char>) -> Result<
    i64,
    ValidationErrorView,
> {
    match val {
        None => positive_int_outcome(val, field, false, false),
        Some(s) => {
            let tm = trimmed_match(s) == Some(true);
            let rm = raw_match(s) == Some(true);
            positive_int_outcome(val, field, tm, rm)
        },
    }
}

/// A value written as digit groups joined by single underscores, such as
/// `1_000`, reads as the number written without the underscores (`1000`),
/// where that number fits in an `i64`.
pub proof fn underscores_are_ignored(s: Seq<char>, field: Seq<char>)
    requires
        underscore_grouped_digits(s),
        spec_parse_i64(without_char(s, '_')) is Some,
    ensures
        spec_parse_positive_int_schema(Some(s), field) == Ok::<i64, ValidationErrorView>(
            spec_parse_i64(without_char(s, '_'))->0,
        ),
{
    reveal(underscore_grouped_digits);
    assert(!is_whitespace(s[0]));
    assert(!is_whitespace(s.last()));
    assert(trim_start(s) == s);
    assert(trim_end(s) == s);
}

/// Parses `val` (the value of the field `field_name`) as a non-negative
/// integer written with optional single underscores between digit groups.
/// An absent value, or one whose trimmed text does not have that shape, is
/// refused with the message `POSITIVE_INT_ERROR` and its violations.
pub fn parse_positive_int_schema(val: Option<String>, field_name: &str) -> (r: Result<
    i64,
    ValidationError,
>)
    requires
        positive_int_supported(val.deep_view()),
    ensures
        match (r, spec_parse_positive_int_schema(val.deep_view(), field_name@)) {
            (Ok(x), Ok(y)) => x == y,
            (Err(e), Err(f)) => e@ == f,
            _ => false,
        },
{
    match &val {
        None => positive_int_from_matches(val, field_name, false, false),
        Some(s) => {
            let t = trimmed(s.as_str());
            let tm = match regex_is_match(LONG_UNDERSCORE_INTEGER, t.as_str()) {
                Some(b) => b,
                None => false,
            };
            let rm = if tm {
                match regex_is_match(LONG_UNDERSCORE_INTEGER, s.as_str()) {
                    Some(b) => b,
                    None => false,
                }
            } else {
                false
            };
            proof {
                if !tm {
                    assert(positive_int_outcome(val.deep_view(), field_name@, tm, rm)
                        == positive_int_outcome(val.deep_view(), field_name@, tm, raw_match(s@) == Some(true)));
                }
            }
            positive_int_from_matches(val, field_name, tm, rm)
        },
    }
}

/// Whether `val` can be parsed as a positive int without failing: the
/// pattern tests that parsing makes have an outcome, and digits that match
/// fit in an `i64`.
pub fn positive_int_input_supported(val: &Option<String>) -> (b: bool)
    ensures
        b == positive_int_supported(val.deep_view()),
{
    match val {
        None => true,
        Some(s) => {
            let t = trimmed(s.as_str());
            match regex_is_match(LONG_UNDERSCORE_INTEGER, t.as_str()) {
                None => false,
                Some(false) => true,
                Some(true) => match regex_is_match(LONG_UNDERSCORE_INTEGER, s.as_str()) {
                    None => false,
                    Some(false) => true,
                    Some(true) => {
                        let digits = remove_char(s.as_str(), '_');
                        parse_i64(digits.as_str()).is_some()
                    },
                },
            }
        },
    }
}

/// Parses `val` as a positive int where that can be carried out (see

/// `positive_int_input_supported`), and gives `None` otherwise.
pub fn try_parse_positive_int_schema(val: Option<String>, field_name: &str) -> (r: Option<
    Result<i64, ValidationError>,
>)
    ensures
        r is Some <==> positive_int_supported(val.deep_view()),
        r matches Some(res) ==> match (res, spec_parse_positive_int_schema(val.deep_view(), field_name@)) {
            (Ok(x), Ok(y)) => x == y,
            (Err(e), Err(f)) => e@ == f,
            _ => false,
        },
{
    if positive_int_input_supported(&val) {
        Some(parse_positive_int_schema(val, field_name))
    } else {
        None
    }
}

} // verus!
