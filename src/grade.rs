//! Air-quality grades and their display labels.

use vstd::prelude::*;
use crate::error::{Provider, ProviderError};
use crate::text::str_eq;

verus! {

/// The grade a monitoring station gives a pollutant's level.
#[derive(Clone, Copy, Debug, PartialEq, Eq, Structural)]
pub enum Grade {
    NoInfo,
    Good,
    Normal,
    Bad,
    Critical,
}

/// The fixed label shown for each grade.
pub open spec fn grade_label(g: Grade) -> Seq<char> {
    match g {
        Grade::NoInfo => "정보없음"@,
        Grade::Good => "좋음"@,
        Grade::Normal => "보통"@,
        Grade::Bad => "나쁨"@,
        Grade::Critical => "매우나쁨"@,
    }
}

impl Grade {
    /// The label shown for this grade.
    pub fn label(&self) -> (r: &'static str)
        ensures
            r@ == grade_label(*self),
    {
        match self {
            Grade::NoInfo => "정보없음",
            Grade::Good => "좋음",
            Grade::Normal => "보통",
            Grade::Bad => "나쁨",
            Grade::Critical => "매우나쁨",
        }
    }
}

/// Every grade has a label that is not empty.
pub proof fn lemma_grade_label_nonempty(g: Grade)
    ensures
        grade_label(g).len() > 0,
{
    reveal_strlit("정보없음");
    reveal_strlit("좋음");
    reveal_strlit("보통");
    reveal_strlit("나쁨");
    reveal_strlit("매우나쁨");
}

/// The grade a provider reports under its English name, if the name is known.
pub open spec fn grade_named(s: Seq<char>) -> Option<Grade> {
    if s == "None"@ {
        Some(Grade::NoInfo)
    } else if s == "Good"@ {
        Some(Grade::Good)
    } else if s == "Normal"@ {
        Some(Grade::Normal)
    } else if s == "Bad"@ {
        Some(Grade::Bad)
    } else if s == "Critical"@ {
        Some(Grade::Critical)
    } else {
        None
    }
}

/// Reads a grade from the name the air-quality provider gives it; an unknown
/// name is a provider error, never a default grade.
pub fn parse_grade(raw: &str) -> (r: Result<Grade, ProviderError>)
    ensures
        match grade_named(raw@) {
            Some(g) => r == Ok::<Grade, ProviderError>(g),
            None => r matches Err(e) && e.source == Provider::AirQuality && e.cause@ == raw@,
        },
{
    if str_eq(raw, "None") {
        Ok(Grade::NoInfo)
    } else if str_eq(raw, "Good") {
        Ok(Grade::Good)
    } else if str_eq(raw, "Normal") {
        Ok(Grade::Normal)
    } else if str_eq(raw, "Bad") {
        Ok(Grade::Bad)
    } else if str_eq(raw, "Critical") {
        Ok(Grade::Critical)
    } else {
        Err(ProviderError { source: Provider::AirQuality, cause: raw.to_string() })
    }
}

} // verus!
