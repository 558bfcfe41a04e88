//! The log classifier: a pure mapping from an output line and the
//! configured pattern lists to a severity, and from a severity and the
//! restart policy to a restart decision.

use vstd::prelude::*;
use crate::config::{ErrorPatterns, RestartConfig};
use crate::text::{contains_seq, contains_str};
use crate::state::LogLevel;

verus! {

/// Some pattern of the list occurs in the line.
pub open spec fn matches_any(line: Seq<char>, patterns: Seq<String>) -> bool {
    exists|k: int| 0 <= k < patterns.len() && contains_seq(line, patterns[k]@)
}

/// The severity of a line: the first category, in the fixed order
/// critical, errors, warnings, with a pattern occurring in the line;
/// no occurrence anywhere means informational.
pub open spec fn spec_classify(line: Seq<char>, patterns: ErrorPatterns) -> LogLevel {
    if matches_any(line, patterns.critical@) {
        LogLevel::Critical
    } else if matches_any(line, patterns.errors@) {
        LogLevel::Error
    } else if matches_any(line, patterns.warnings@) {
        LogLevel::Warning
    } else {
        LogLevel::Info
    }
}

/// Some pattern of the list occurs in the line.
fn any_pattern_matches(line: &str, patterns: &Vec<String>) -> (r: bool)
    ensures
        r == matches_any(line@, patterns@),
{
    let mut k: usize = 0;
    while k < patterns.len()
        invariant
            k <= patterns@.len(),
            forall|j: int| 0 <= j < k ==> !contains_seq(line@, patterns@[j]@),
        decreases patterns@.len() - k,
    {
        if contains_str(line, patterns[k].as_str()) {
            return true;
        }
        k = k + 1;
    }
    false
}

/// Classify one output line against the configured pattern lists.
pub fn detect_error_level(line: &str, patterns: &ErrorPatterns) -> (level: LogLevel)
    ensures
        level == spec_classify(line@, *patterns),
{
    if any_pattern_matches(line, &patterns.critical) {
        LogLevel::Critical
    } else if any_pattern_matches(line, &patterns.errors) {
        LogLevel::Error
    } else if any_pattern_matches(line, &patterns.warnings) {
        LogLevel::Warning
    } else {
        LogLevel::Info
    }
}

/// Whether a severity triggers a restart under the given policy:
/// informational lines never do, the other severities exactly when their
/// own flag is set.
pub open spec fn spec_should_restart(level: LogLevel, config: RestartConfig) -> bool {
    match level {
        LogLevel::Critical => config.critical,
        LogLevel::Error => config.errors,
        LogLevel::Warning => config.warnings,
        LogLevel::Info => false,
    }
}

pub fn should_restart(level: LogLevel, config: &RestartConfig) -> (r: bool)
    ensures
        r == spec_should_restart(level, *config),
{
    match level {
        LogLevel::Critical => config.critical,
        LogLevel::Error => config.errors,
        LogLevel::Warning => config.warnings,
        LogLevel::Info => false,
    }
}

/// Classification is priority-ordered: a line that matches both a
/// critical pattern and a warning pattern always classifies as critical.
/// (Classification is a pure function of the line and the pattern lists,
/// so it is deterministic by construction.)
pub proof fn lemma_priority_critical(line: Seq<char>, patterns: ErrorPatterns)
    requires
        matches_any(line, patterns.critical@),
        matches_any(line, patterns.warnings@),
    ensures
        spec_classify(line, patterns) == LogLevel::Critical,
{
}

} // verus!
