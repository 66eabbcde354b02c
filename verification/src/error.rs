//! The errors of the matching kernels.

use vstd::prelude::*;

verus! {

/// Why a column of strings could not be matched.
#[derive(Debug, PartialEq, Eq)]
pub enum MatchError {
    /// The searched column and the pattern differ in type.
    ArrayPatternTypes,
    /// One of pattern and flags is a single value, the other a column.
    PatternFlagsShapes,
    /// The pattern and the flags differ in type.
    PatternFlagsTypes,
    /// A single pattern is not of a string type.
    PatternType,
    /// The searched column is not of a string type.
    ArrayType,
    /// The group index is not of type `UInt32`.
    IndexType,
    /// The engine refused a pattern. Carries the debug rendering of the engine's error.
    InvalidPattern(String),
}

/// What a [`MatchError`] stands for.
pub enum MatchErrorView {
    ArrayPatternTypes,
    PatternFlagsShapes,
    PatternFlagsTypes,
    PatternType,
    ArrayType,
    IndexType,
    InvalidPattern(Seq<char>),
}

impl View for MatchError {
    type V = MatchErrorView;

    open spec fn view(&self) -> MatchErrorView {
        match self {
            MatchError::ArrayPatternTypes => MatchErrorView::ArrayPatternTypes,
            MatchError::PatternFlagsShapes => MatchErrorView::PatternFlagsShapes,
            MatchError::PatternFlagsTypes => MatchErrorView::PatternFlagsTypes,
            MatchError::PatternType => MatchErrorView::PatternType,
            MatchError::ArrayType => MatchErrorView::ArrayType,
            MatchError::IndexType => MatchErrorView::IndexType,
            MatchError::InvalidPattern(detail) => MatchErrorView::InvalidPattern(detail@),
        }
    }
}

impl MatchErrorView {
    /// The text that a user is shown.
    pub open spec fn message(self) -> Seq<char> {
        match self {
            MatchErrorView::ArrayPatternTypes =>
                "regexp_match() requires both array and pattern to be either Utf8, Utf8View or LargeUtf8"@,
            MatchErrorView::PatternFlagsShapes =>
                "regexp_match() requires both pattern and flags to be either scalar or array"@,
            MatchErrorView::PatternFlagsTypes =>
                "regexp_match() requires both pattern and flags to be either Utf8, Utf8View or LargeUtf8"@,
            MatchErrorView::PatternType =>
                "regexp_match() requires pattern to be either Utf8, Utf8View or LargeUtf8"@,
            MatchErrorView::ArrayType =>
                "regexp_match() requires array to be either Utf8, Utf8View or LargeUtf8"@,
            MatchErrorView::IndexType => "regexp_match() requires index to be UInt32"@,
            MatchErrorView::InvalidPattern(detail) => "Regular expression did not compile: "@
                + detail,
        }
    }
}

impl MatchError {
    /// The text that a user is shown.
    pub fn message(&self) -> (text: String)
        ensures
            text@ == self@.message(),
    {
        match self {
            MatchError::ArrayPatternTypes =>
                "regexp_match() requires both array and pattern to be either Utf8, Utf8View or LargeUtf8".to_string(),
            MatchError::PatternFlagsShapes =>
                "regexp_match() requires both pattern and flags to be either scalar or array".to_string(),
            MatchError::PatternFlagsTypes =>
                "regexp_match() requires both pattern and flags to be either Utf8, Utf8View or LargeUtf8".to_string(),
            MatchError::PatternType =>
                "regexp_match() requires pattern to be either Utf8, Utf8View or LargeUtf8".to_string(),
            MatchError::ArrayType =>
                "regexp_match() requires array to be either Utf8, Utf8View or LargeUtf8".to_string(),
            MatchError::IndexType => "regexp_match() requires index to be UInt32".to_string(),
            MatchError::InvalidPattern(detail) => {
                let mut text = "Regular expression did not compile: ".to_string();
                text.append(detail.as_str());
                text
            },
        }
    }
}

} // verus!
