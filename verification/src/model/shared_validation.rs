//! Error codes and messages shared by the configuration schemas.
use vstd::prelude::*;

verus! {

/// A required value is absent.
pub const INVALID_EMPTY: &'static str = "invalid-empty";

/// A value is a number but not written as digits with single underscores
/// between groups.
pub const INVALID_NOT_MATCH_UNDERSCORE: &'static str = "invalid-not-match-underscore";

/// A value is not a number.
pub const INVALID_NOT_MATCH_NUMBER: &'static str = "invalid-not-match-number";

/// A value is not a URL.
pub const INVALID_URL: &'static str = "invalid-url";

/// A wallet is absent or empty.
pub const INVALID_WALLET: &'static str = "invalid-wallet";

/// A list of process ids is malformed.
pub const INVALID_ARRAY: &'static str = "invalid-array";

/// The code the `valid` crate reports for a string with too few characters.
pub const INVALID_CHAR_COUNT_MIN: &'static str = "invalid-char-count-min";

/// The code the `valid` crate reports for a malformed integer.
pub const INVALID_DIGITS_INTEGER: &'static str = "invalid-digits-integer";

} // verus!
