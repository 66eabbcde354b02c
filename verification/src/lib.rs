//! Regular expression extraction over Arrow string columns.
//!
//! [`regexp_match::regexp_match`] lists the groups that a pattern matched in each row of a column.
//! [`regexp_extract::spark_regexp_extract`] picks one of them by its index, as Spark's
//! `regexp_extract` does. Columns are Arrow arrays, and the `regex` crate does the searching; what
//! is taken for granted of either stands in [`column`], [`list`] and [`engine`].

pub mod column;
pub mod decimal;
pub mod engine;
pub mod error;
pub mod groups;
pub mod guarantees;
pub mod laws;
pub mod list;
pub mod matching;
pub mod pattern;
pub mod regexp_extract;
pub mod regexp_match;
