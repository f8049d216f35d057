use lint_profiles::clippy::model::{
    explain, render_reachable, Applicability, ClippyLevel, Lint, LintGroup, LintSeverity,
};
use lint_profiles::severity::BaseSeverity;

#[test]
fn profile_names() {
    assert_eq!(ClippyLevel::Novice.render(), "novice");
    assert_eq!(ClippyLevel::Expert.render(), "expert");
    assert_eq!(ClippyLevel::Master.render(), "master");
}

#[test]
fn plain_levels_render_as_their_names() {
    assert_eq!(LintSeverity::Allow.render(), "allow");
    assert_eq!(LintSeverity::Warn.render(), "warn");
    assert_eq!(LintSeverity::Deny.render(), "deny");
}

#[test]
fn increase_renders_the_stricter_levels() {
    assert_eq!(
        LintSeverity::Increase(BaseSeverity::Allow).render(),
        "values : (warn, deny)"
    );
    assert_eq!(
        LintSeverity::Increase(BaseSeverity::Warn).render(),
        "value : deny"
    );
    assert_eq!(
        LintSeverity::Increase(BaseSeverity::Deny).render(),
        "value none"
    );
}

#[test]
fn decrease_renders_the_laxer_levels() {
    assert_eq!(
        LintSeverity::Decrease(BaseSeverity::Allow).render(),
        "value none"
    );
    assert_eq!(
        LintSeverity::Decrease(BaseSeverity::Warn).render(),
        "value : allow"
    );
    assert_eq!(
        LintSeverity::Decrease(BaseSeverity::Deny).render(),
        "values : (allow, warn)"
    );
}

#[test]
fn nothing_above_deny_is_never_empty_text() {
    let text = LintSeverity::Increase(BaseSeverity::Deny).render();
    assert!(!text.is_empty());
    assert_eq!(text, LintSeverity::Decrease(BaseSeverity::Allow).render());
}

#[test]
fn reachable_wording_by_length() {
    assert_eq!(render_reachable(&vec![]), "value none");
    assert_eq!(render_reachable(&vec![BaseSeverity::Warn]), "value : warn");
    assert_eq!(
        render_reachable(&vec![BaseSeverity::Allow, BaseSeverity::Warn, BaseSeverity::Deny]),
        "values : (allow, warn, deny)"
    );
}

#[test]
fn from_base_wraps_the_same_level() {
    assert_eq!(LintSeverity::from_base(BaseSeverity::Allow), LintSeverity::Allow);
    assert_eq!(LintSeverity::from_base(BaseSeverity::Warn), LintSeverity::Warn);
    assert_eq!(LintSeverity::from_base(BaseSeverity::Deny), LintSeverity::Deny);
}

#[test]
fn explanation_on_record_for_a_novice() {
    let text = LintSeverity::Explain(BaseSeverity::Allow, Lint::AbsolutePaths, ClippyLevel::Novice)
        .render();
    assert!(text.starts_with("\n# Why allow for novice ?\n#\n# 1) Learning Curve:\n#\n# For newcomers"));
    assert!(text.ends_with("adopt best practices as they gain experience.\n#"));
    assert!(text.lines().skip(1).all(|l| l.starts_with('#')));
}

#[test]
fn explanation_on_record_for_an_expert() {
    let text = explain(BaseSeverity::Allow, Lint::AbsolutePaths, ClippyLevel::Expert);
    assert!(text.starts_with("\n# Why allow for expert ?\n#\n# 1) Contextual Exceptions:\n#"));
    assert!(text.ends_with("between code quality and developer efficiency.\n#"));
}

#[test]
fn explanation_on_record_for_a_master() {
    let text = explain(BaseSeverity::Warn, Lint::AbsolutePaths, ClippyLevel::Master);
    assert!(text.starts_with("\n# Why warn for master ?\n#\n# Encouraging Best Practices:"));
    assert!(text.ends_with("based on their experience and knowledge.\n#"));
}

#[test]
fn no_explanation_on_record() {
    assert_eq!(
        explain(BaseSeverity::Allow, Lint::AbsolutePaths, ClippyLevel::Master),
        "value none"
    );
    assert_eq!(
        explain(BaseSeverity::Warn, Lint::AbsolutePaths, ClippyLevel::Novice),
        "value none"
    );
    assert_eq!(
        explain(BaseSeverity::Deny, Lint::AbsolutePaths, ClippyLevel::Master),
        "value none"
    );
    assert_eq!(
        explain(BaseSeverity::Allow, Lint::AlmostSwapped, ClippyLevel::Novice),
        "value none"
    );
    assert_eq!(
        LintSeverity::Explain(BaseSeverity::Warn, Lint::ArithmeticsSideEffects, ClippyLevel::Master)
            .render(),
        "value none"
    );
}

#[test]
fn group_names() {
    let all = [
        (LintGroup::Style, "style"),
        (LintGroup::Correctness, "correctness"),
        (LintGroup::Performance, "performance"),
        (LintGroup::Complexity, "complexity"),
        (LintGroup::Pedantic, "pedantic"),
        (LintGroup::Restriction, "restriction"),
        (LintGroup::Suspicious, "suspicious"),
        (LintGroup::Nursery, "nursery"),
        (LintGroup::Perf, "perf"),
    ];
    for (group, name) in all {
        assert_eq!(group.render(), name);
        assert_eq!(group.as_str(), name);
    }
}

#[test]
fn applicability_names() {
    let all = [
        (Applicability::Unspecified, "unspecified"),
        (Applicability::Experimental, "experimental"),
        (Applicability::Stable, "stable"),
        (Applicability::Deprecated, "deprecated"),
        (Applicability::MachineApplicable, "machine-applicable"),
        (Applicability::MaybeIncorrect, "maybe-incorrect"),
    ];
    for (class, name) in all {
        assert_eq!(class.render(), name);
        assert_eq!(class.as_str(), name);
    }
}
