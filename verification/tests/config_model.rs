use lint_profiles::config::{render_reachable, Applicability, ClippyGroup, Lint, Severity};
use lint_profiles::severity::BaseSeverity;

#[test]
fn brief_plain_levels_render_as_their_names() {
    assert_eq!(Severity::Allow.render(), "allow");
    assert_eq!(Severity::Warn.render(), "warn");
    assert_eq!(Severity::Deny.render(), "deny");
}

#[test]
fn brief_increase_renders_the_stricter_levels() {
    assert_eq!(Severity::Increase(BaseSeverity::Allow).render(), "warn, deny");
    assert_eq!(Severity::Increase(BaseSeverity::Warn).render(), "deny");
    assert_eq!(Severity::Increase(BaseSeverity::Deny).render(), "none");
}

#[test]
fn brief_decrease_renders_the_laxer_levels() {
    assert_eq!(Severity::Decrease(BaseSeverity::Deny).render(), "allow, warn");
    assert_eq!(Severity::Decrease(BaseSeverity::Warn).render(), "allow");
    assert_eq!(Severity::Decrease(BaseSeverity::Allow).render(), "none");
}

#[test]
fn brief_reachable_wording() {
    assert_eq!(render_reachable(&vec![]), "none");
    assert_eq!(
        render_reachable(&vec![BaseSeverity::Allow, BaseSeverity::Deny]),
        "allow, deny"
    );
}

#[test]
fn brief_from_base_wraps_the_same_level() {
    assert_eq!(Severity::from_base(BaseSeverity::Allow), Severity::Allow);
    assert_eq!(Severity::from_base(BaseSeverity::Warn), Severity::Warn);
    assert_eq!(Severity::from_base(BaseSeverity::Deny), Severity::Deny);
}

#[test]
fn brief_group_names() {
    let all = [
        (ClippyGroup::Style, "style"),
        (ClippyGroup::Correctness, "correctness"),
        (ClippyGroup::Performance, "performance"),
        (ClippyGroup::Complexity, "complexity"),
        (ClippyGroup::Pedantic, "pedantic"),
        (ClippyGroup::Restriction, "restriction"),
        (ClippyGroup::Suspicious, "suspicious"),
        (ClippyGroup::Nursery, "nursery"),
        (ClippyGroup::Perf, "perf"),
    ];
    for (group, name) in all {
        assert_eq!(group.render(), name);
    }
}

#[test]
fn brief_applicability_names() {
    let all = [
        (Applicability::Unspecified, "unspecified"),
        (Applicability::Experimental, "experimental"),
        (Applicability::Stable, "stable"),
        (Applicability::Deprecated, "deprecated"),
        (Applicability::MachineApplicable, "machine-applicable"),
        (Applicability::MaybeIncorrect, "maybe-incorrect"),
        (Applicability::HasPlaceholders, "has-placeholders"),
    ];
    for (class, name) in all {
        assert_eq!(class.render(), name);
    }
}

#[test]
fn new_yields_one_record_per_profile() {
    let (novice, expert, master) = Lint::new(
        "absolute_paths",
        "Checks for usage of items through absolute paths, like std::env::current_dir.",
        BaseSeverity::Allow,
        BaseSeverity::Warn,
        BaseSeverity::Deny,
        ClippyGroup::Restriction,
        Applicability::Unspecified,
    );
    for lint in [&novice, &expert, &master] {
        assert_eq!(lint.id, "absolute_paths");
        assert_eq!(
            lint.description,
            "Checks for usage of items through absolute paths, like std::env::current_dir."
        );
        assert_eq!(lint.group, ClippyGroup::Restriction);
        assert_eq!(lint.applicability, Applicability::Unspecified);
    }
    assert_eq!(novice.severity, Severity::Allow);
    assert_eq!(novice.increase, Severity::Increase(BaseSeverity::Allow));
    assert_eq!(novice.decrease, Severity::Decrease(BaseSeverity::Allow));
    assert_eq!(expert.severity, Severity::Warn);
    assert_eq!(expert.increase, Severity::Increase(BaseSeverity::Warn));
    assert_eq!(expert.decrease, Severity::Decrease(BaseSeverity::Warn));
    assert_eq!(master.severity, Severity::Deny);
    assert_eq!(master.increase, Severity::Increase(BaseSeverity::Deny));
    assert_eq!(master.decrease, Severity::Decrease(BaseSeverity::Deny));
}
