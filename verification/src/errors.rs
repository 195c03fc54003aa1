//! Error values of the compute unit and the field validation model that the
//! configuration schemas report through.
use vstd::prelude::*;

verus! {

/// A schema did not accept its input.
pub struct SchemaValidationError {
    pub message: String,
}

/// An error that maps onto an HTTP status.
pub struct HttpError {
    pub status: u32,
    pub message: String,
}

/// The errors of the compute unit's domain. Errors that come from the block
/// gateway or from the database carry the text that they display.
pub enum CuErrors {
    BlockMeta(Option<String>),
    SchemaValidation(SchemaValidationError),
    HttpStatus(HttpError),
    DatabaseError(String),
}

impl CuErrors {
    /// The text the error displays.
    pub open spec fn spec_message(&self) -> Seq<char> {
        match self {
            CuErrors::BlockMeta(Some(e)) => e@,
            CuErrors::BlockMeta(None) => Seq::empty(),
            CuErrors::SchemaValidation(e) => e.message@,
            CuErrors::HttpStatus(e) => e.message@,
            CuErrors::DatabaseError(e) => e@,
        }
    }

    /// The text the error displays: the inner error's text, or nothing for a
    /// block error without a cause.
    pub fn message(&self) -> (s: String)
        ensures
            s@ == self.spec_message(),
    {
        match self {
            CuErrors::BlockMeta(Some(e)) => e.clone(),
            CuErrors::BlockMeta(None) => String::new(),
            CuErrors::SchemaValidation(e) => e.message.clone(),
            CuErrors::HttpStatus(e) => e.message.clone(),
            CuErrors::DatabaseError(e) => e.clone(),
        }
    }
}

/// A schema-validation error carrying `message`.
pub fn schema_error(message: &str) -> (e: CuErrors)
    ensures
        e matches CuErrors::SchemaValidation(v) && v.message@ == message@,
{
    CuErrors::SchemaValidation(SchemaValidationError { message: message.to_owned() })
}

/// An HTTP error with `status` and `message`.
pub fn http_error(status: u32, message: &str) -> (e: CuErrors)
    ensures
        e matches CuErrors::HttpStatus(v) && v.status == status && v.message@ == message@,
{
    CuErrors::HttpStatus(HttpError { status, message: message.to_owned() })
}

/// One violated field constraint: an error code, the field's name, and the
/// actual and expected values where they are known.
pub struct ConstraintViolation {
    pub code: String,
    pub field: String,
    pub actual: Option<String>,
    pub expected: Option<String>,
}

pub struct ViolationView {
    pub code: Seq<char>,
    pub field: Seq<char>,
    pub actual: Option<Seq<char>>,
    pub expected: Option<Seq<char>>,
}

impl View for ConstraintViolation {
    type V = ViolationView;

    open spec fn view(&self) -> ViolationView {
        ViolationView {
            code: self.code@,
            field: self.field@,
            actual: self.actual.deep_view(),
            expected: self.expected.deep_view(),
        }
    }
}

/// A failed validation: an optional context message and the constraints that
/// were violated, in the order they were checked.
pub struct ValidationError {
    pub message: Option<String>,
    pub violations: Vec<ConstraintViolation>,
}

pub struct ValidationErrorView {
    pub message: Option<Seq<char>>,
    pub violations: Seq<ViolationView>,
}

impl View for ValidationError {
    type V = ValidationErrorView;

    open spec fn view(&self) -> ValidationErrorView {
        ValidationErrorView {
            message: self.message.deep_view(),
            violations: self.violations@.map_values(|v: ConstraintViolation| v@),
        }
    }
}

/// The violation of a field that holds a value.
pub open spec fn field_violation(
    code: Seq<char>,
    field: Seq<char>,
    actual: Seq<char>,
    expected: Seq<char>,
) -> ViolationView {
    ViolationView { code, field, actual: Some(actual), expected: Some(expected) }
}

/// The violation of a field whose value is absent.
pub open spec fn missing_field_violation(code: Seq<char>, field: Seq<char>) -> ViolationView {
    ViolationView { code, field, actual: None, expected: None }
}

/// A violation of `field`, which holds `actual` where `expected` was wanted.
pub fn invalid_value(code: &str, field: &str, actual: String, expected: String) -> (v:
    ConstraintViolation)
    ensures
        v@ == field_violation(code@, field@, actual@, expected@),
{
    ConstraintViolation {
        code: code.to_owned(),
        field: field.to_owned(),
        actual: Some(actual),
        expected: Some(expected),
    }
}

/// A violation of an optional `field`, with whatever actual and expected
/// values are known.
pub fn invalid_optional_value(
    code: &str,
    field: &str,
    actual: Option<String>,
    expected: Option<String>,
) -> (v: ConstraintViolation)
    ensures
        v.code@ == code@,
        v.field@ == field@,
        v.actual == actual,
        v.expected == expected,
{
    ConstraintViolation { code: code.to_owned(), field: field.to_owned(), actual, expected }
}

} // verus!
