//! One lint across the three profiles, and the record it yields for each.

use crate::clippy::model::{Applicability, ClippyLevel, ClippyLint, LintGroup, LintSeverity};
use crate::severity::BaseSeverity;
use vstd::prelude::*;

verus! {

/// What is known of a lint whatever the profile, and its level under each
/// profile.
#[derive(Clone, Copy, Debug, PartialEq, Eq)]
pub struct LintPolicy {
    /// The identifier of the lint, without prefix.
    pub id: &'static str,
    /// What the lint looks for.
    pub description: &'static str,
    /// Why what it looks for is bad.
    pub whats_bad: &'static str,
    /// Known problems of the lint, if any.
    pub known_problems: Option<&'static str>,
    /// Whether the lint is on by default.
    pub enabled_by_default: bool,
    /// The level that the tool itself recommends.
    pub default_clippy_severity: BaseSeverity,
    /// Whether to defer to the tool's level.
    pub use_clippy_severity: bool,
    /// The level for a novice.
    pub novice: BaseSeverity,
    /// The level for an expert.
    pub expert: BaseSeverity,
    /// The level for a master.
    pub master: BaseSeverity,
    /// The category of the lint.
    pub group: LintGroup,
    /// Where the lint is discussed, if anywhere.
    pub issue: Option<&'static str>,
    /// How safely the suggested fix can be applied.
    pub applicability: Applicability,
}

/// A policy from its parts, in the order of the fields.
pub open spec fn policy(
    id: &'static str,
    description: &'static str,
    whats_bad: &'static str,
    known_problems: Option<&'static str>,
    enabled_by_default: bool,
    default_clippy_severity: BaseSeverity,
    use_clippy_severity: bool,
    novice: BaseSeverity,
    expert: BaseSeverity,
    master: BaseSeverity,
    group: LintGroup,
    issue: Option<&'static str>,
    applicability: Applicability,
) -> LintPolicy {
    LintPolicy {
        id,
        description,
        whats_bad,
        known_problems,
        enabled_by_default,
        default_clippy_severity,
        use_clippy_severity,
        novice,
        expert,
        master,
        group,
        issue,
        applicability,
    }
}

impl LintPolicy {
    /// The level of the lint under `level`.
    pub open spec fn severity_for(self, level: ClippyLevel) -> BaseSeverity {
        match level {
            ClippyLevel::Novice => self.novice,
            ClippyLevel::Expert => self.expert,
            ClippyLevel::Master => self.master,
        }
    }

    /// The record of the lint under `level`: the shared fields as they are,
    /// the profile's level, and what each of the two levels can be raised and
    /// lowered to.
    pub open spec fn record(self, level: ClippyLevel) -> ClippyLint {
        ClippyLint {
            id: self.id,
            description: self.description,
            whats_bad: self.whats_bad,
            known_problems: self.known_problems,
            enabled_by_default: self.enabled_by_default,
            default_clippy_severity: LintSeverity::of(self.default_clippy_severity),
            use_clippy_severity: self.use_clippy_severity,
            severity: LintSeverity::of(self.severity_for(level)),
            group: self.group,
            issue: self.issue,
            applicability: self.applicability,
            all_increase_config_default_possible_severity: LintSeverity::Increase(
                self.severity_for(level),
            ),
            all_decrease_config_default_possible_severity: LintSeverity::Decrease(
                self.severity_for(level),
            ),
            all_increase_clippy_default_possible_severity: LintSeverity::Increase(
                self.default_clippy_severity,
            ),
            all_decrease_clippy_default_possible_severity: LintSeverity::Decrease(
                self.default_clippy_severity,
            ),
        }
    }

    /// Makes a policy from its parts, in the order of the fields.
    pub fn new(
        id: &'static str,
        description: &'static str,
        whats_bad: &'static str,
        known_problems: Option<&'static str>,
        enabled_by_default: bool,
        default_clippy_severity: BaseSeverity,
        use_clippy_severity: bool,
        novice: BaseSeverity,
        expert: BaseSeverity,
        master: BaseSeverity,
        group: LintGroup,
        issue: Option<&'static str>,
        applicability: Applicability,
    ) -> (p: LintPolicy)
        ensures
            p == policy(
                id,
                description,
                whats_bad,
                known_problems,
                enabled_by_default,
                default_clippy_severity,
                use_clippy_severity,
                novice,
                expert,
                master,
                group,
                issue,
                applicability,
            ),
    {
        LintPolicy {
            id,
            description,
            whats_bad,
            known_problems,
            enabled_by_default,
            default_clippy_severity,
            use_clippy_severity,
            novice,
            expert,
            master,
            group,
            issue,
            applicability,
        }
    }

    /// The record of the lint under `level`.
    pub fn lint(&self, level: &ClippyLevel) -> (r: ClippyLint)
        ensures
            r == self.record(*level),
            r.wf(),
    {
        let config = match level {
            ClippyLevel::Novice => self.novice,
            ClippyLevel::Expert => self.expert,
            ClippyLevel::Master => self.master,
        };
        ClippyLint {
            id: self.id,
            description: self.description,
            whats_bad: self.whats_bad,
            known_problems: self.known_problems,
            enabled_by_default: self.enabled_by_default,
            default_clippy_severity: LintSeverity::from_base(self.default_clippy_severity),
            use_clippy_severity: self.use_clippy_severity,
            severity: LintSeverity::from_base(config),
            group: self.group,
            issue: self.issue,
            applicability: self.applicability,
            all_increase_config_default_possible_severity: LintSeverity::Increase(config),
            all_decrease_config_default_possible_severity: LintSeverity::Decrease(config),
            all_increase_clippy_default_possible_severity: LintSeverity::Increase(
                self.default_clippy_severity,
            ),
            all_decrease_clippy_default_possible_severity: LintSeverity::Decrease(
                self.default_clippy_severity,
            ),
        }
    }
}

} // verus!
