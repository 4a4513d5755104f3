//! Mapping of agency cause/effect vocabulary strings onto the fixed feed enumerations.
use crate::text::str_eq;
use vstd::prelude::*;

verus! {

/// Cause code for a vocabulary string; unrecognized strings fall back to 1 (UNKNOWN_CAUSE).
pub open spec fn spec_cause_code(s: Seq<char>) -> i32 {
    if s == "UNKNOWN_CAUSE"@ {
        1
    } else if s == "OTHER_CAUSE"@ {
        2
    } else if s == "TECHNICAL_PROBLEM"@ {
        3
    } else if s == "STRIKE"@ {
        4
    } else if s == "DEMONSTRATION"@ {
        5
    } else if s == "ACCIDENT"@ {
        6
    } else if s == "HOLIDAY"@ {
        7
    } else if s == "WEATHER"@ {
        8
    } else if s == "MAINTENANCE"@ {
        9
    } else if s == "CONSTRUCTION"@ {
        10
    } else if s == "POLICE_ACTIVITY"@ {
        11
    } else if s == "MEDICAL_EMERGENCY"@ {
        12
    } else {
        1
    }
}

/// Effect code for a vocabulary string; unrecognized strings fall back to 8 (UNKNOWN_EFFECT).
pub open spec fn spec_effect_code(s: Seq<char>) -> i32 {
    if s == "NO_SERVICE"@ {
        1
    } else if s == "REDUCED_SERVICE"@ {
        2
    } else if s == "SIGNIFICANT_DELAYS"@ {
        3
    } else if s == "DETOUR"@ {
        4
    } else if s == "ADDITIONAL_SERVICE"@ {
        5
    } else if s == "MODIFIED_SERVICE"@ {
        6
    } else if s == "OTHER_EFFECT"@ {
        7
    } else if s == "UNKNOWN_EFFECT"@ {
        8
    } else if s == "STOP_MOVED"@ {
        9
    } else {
        8
    }
}

/// Maps a cause vocabulary string to its feed enumeration code.
pub fn cause_code(s: &str) -> (r: i32)
    ensures
        r == spec_cause_code(s@),
{
    if str_eq(s, "UNKNOWN_CAUSE") {
        1
    } else if str_eq(s, "OTHER_CAUSE") {
        2
    } else if str_eq(s, "TECHNICAL_PROBLEM") {
        3
    } else if str_eq(s, "STRIKE") {
        4
    } else if str_eq(s, "DEMONSTRATION") {
        5
    } else if str_eq(s, "ACCIDENT") {
        6
    } else if str_eq(s, "HOLIDAY") {
        7
    } else if str_eq(s, "WEATHER") {
        8
    } else if str_eq(s, "MAINTENANCE") {
        9
    } else if str_eq(s, "CONSTRUCTION") {
        10
    } else if str_eq(s, "POLICE_ACTIVITY") {
        11
    } else if str_eq(s, "MEDICAL_EMERGENCY") {
        12
    } else {
        1
    }
}

/// Maps an effect vocabulary string to its feed enumeration code.
pub fn effect_code(s: &str) -> (r: i32)
    ensures
        r == spec_effect_code(s@),
{
    if str_eq(s, "NO_SERVICE") {
        1
    } else if str_eq(s, "REDUCED_SERVICE") {
        2
    } else if str_eq(s, "SIGNIFICANT_DELAYS") {
        3
    } else if str_eq(s, "DETOUR") {
        4
    } else if str_eq(s, "ADDITIONAL_SERVICE") {
        5
    } else if str_eq(s, "MODIFIED_SERVICE") {
        6
    } else if str_eq(s, "OTHER_EFFECT") {
        7
    } else if str_eq(s, "UNKNOWN_EFFECT") {
        8
    } else if str_eq(s, "STOP_MOVED") {
        9
    } else {
        8
    }
}

} // verus!
