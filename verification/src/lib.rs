//! Verified core of an ao Compute Unit: configuration schemas, evaluation and
//! message identifiers, SQL statements with their parameters, block paging and
//! process cache decisions.
pub mod text;
pub mod errors;
pub mod third_party;
pub mod model;
pub mod strings;
pub mod config;
pub mod schema_utils;
pub mod client;
pub mod dal;
pub mod method;
