use lint_profiles::clippy::lints::{catalog_for, policies};
use lint_profiles::clippy::model::{
    Applicability, ClippyLevel, ClippyLint, LintGroup, LintSeverity,
};
use lint_profiles::lints::{catalog_for as brief_catalog_for, lints};
use lint_profiles::config::{Lint, Severity};
use lint_profiles::severity::BaseSeverity;

const LEVELS: [ClippyLevel; 3] = [ClippyLevel::Novice, ClippyLevel::Expert, ClippyLevel::Master];

fn ids(lints: &[ClippyLint]) -> Vec<&'static str> {
    lints.iter().map(|l| l.id).collect()
}

fn brief_ids(lints: &[Lint]) -> Vec<&'static str> {
    lints.iter().map(|l| l.id).collect()
}

#[test]
fn every_profile_names_the_same_lints() {
    let novice = ids(&catalog_for(&ClippyLevel::Novice));
    assert_eq!(novice.len(), 25);
    for level in LEVELS {
        assert_eq!(ids(&catalog_for(&level)), novice);
    }
}

#[test]
fn no_identifier_occurs_twice() {
    let mut names = ids(&catalog_for(&ClippyLevel::Novice));
    names.sort();
    names.dedup();
    assert_eq!(names.len(), 25);
}

#[test]
fn catalog_starts_and_ends_as_the_table_does() {
    let names = ids(&catalog_for(&ClippyLevel::Expert));
    assert_eq!(names[0], "absolute_paths");
    assert_eq!(names[1], "alloc_instead_of_core");
    assert_eq!(names[24], "blanket_clippy_restriction_lints");
}

#[test]
fn absolute_paths_under_each_profile() {
    let expected = [LintSeverity::Allow, LintSeverity::Warn, LintSeverity::Deny];
    let bases = [BaseSeverity::Allow, BaseSeverity::Warn, BaseSeverity::Deny];
    for (i, level) in LEVELS.iter().enumerate() {
        let lint = catalog_for(level)[0];
        assert_eq!(lint.id, "absolute_paths");
        assert_eq!(
            lint.description,
            "Checks for usage of items through absolute paths, like std::env::current_dir."
        );
        assert_eq!(lint.group, LintGroup::Restriction);
        assert_eq!(lint.applicability, Applicability::Unspecified);
        assert!(lint.enabled_by_default);
        assert!(!lint.use_clippy_severity);
        assert_eq!(lint.default_clippy_severity, LintSeverity::Allow);
        assert_eq!(lint.severity, expected[i]);
        assert_eq!(
            lint.all_increase_config_default_possible_severity,
            LintSeverity::Increase(bases[i])
        );
        assert_eq!(
            lint.all_decrease_config_default_possible_severity,
            LintSeverity::Decrease(bases[i])
        );
        assert_eq!(
            lint.all_increase_clippy_default_possible_severity,
            LintSeverity::Increase(BaseSeverity::Allow)
        );
        assert_eq!(
            lint.all_decrease_clippy_default_possible_severity,
            LintSeverity::Decrease(BaseSeverity::Allow)
        );
        assert_eq!(
            lint.issue,
            Some("https://github.com/rust-lang/rust-clippy/issues?q=is%3Aissue+absolute_paths")
        );
        assert!(lint.known_problems.unwrap().starts_with("There are currently a few cases"));
    }
}

#[test]
fn records_are_those_of_the_policies() {
    let table = policies();
    for level in LEVELS {
        let lints = catalog_for(&level);
        assert_eq!(lints.len(), table.len());
        for (policy, lint) in table.iter().zip(lints.iter()) {
            let record = policy.lint(&level);
            assert_eq!(record.id, lint.id);
            assert_eq!(record.severity, lint.severity);
            assert_eq!(record.group, lint.group);
        }
    }
}

#[test]
fn brief_every_profile_names_the_same_lints() {
    let novice = brief_ids(&brief_catalog_for(&ClippyLevel::Novice));
    assert_eq!(novice.len(), 20);
    for level in LEVELS {
        assert_eq!(brief_ids(&brief_catalog_for(&level)), novice);
    }
}

#[test]
fn brief_no_identifier_occurs_twice() {
    let mut names = brief_ids(&brief_catalog_for(&ClippyLevel::Master));
    names.sort();
    names.dedup();
    assert_eq!(names.len(), 20);
}

#[test]
fn brief_catalog_picks_the_record_of_the_profile() {
    let table = lints();
    let novice = brief_catalog_for(&ClippyLevel::Novice);
    let expert = brief_catalog_for(&ClippyLevel::Expert);
    let master = brief_catalog_for(&ClippyLevel::Master);
    for (i, (n, e, m)) in table.iter().enumerate() {
        assert_eq!(novice[i].severity, n.severity);
        assert_eq!(expert[i].severity, e.severity);
        assert_eq!(master[i].severity, m.severity);
    }
    assert_eq!(novice[0].id, "absolute_paths");
    assert_eq!(novice[0].severity, Severity::Allow);
    assert_eq!(expert[0].severity, Severity::Warn);
    assert_eq!(master[0].severity, Severity::Deny);
    assert_eq!(novice[1].id, "assigning_clones");
    assert_eq!(novice[19].id, "if_let_mutex");
}
