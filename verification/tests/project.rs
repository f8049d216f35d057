use lint_profiles::project::{deny_arguments, init_arguments, vcs_options, DEFAULT_VCS};

#[test]
fn version_control_systems_on_offer() {
    assert_eq!(vcs_options(), vec!["git", "hg", "pijul", "fossil", "none"]);
    assert_eq!(DEFAULT_VCS, "git");
}

#[test]
fn arguments_for_a_program() {
    assert_eq!(
        init_arguments(Some("git"), Some(true)),
        vec!["init", "--bin", "--vcs", "git"]
    );
}

#[test]
fn arguments_for_a_library() {
    assert_eq!(
        init_arguments(Some("pijul"), Some(false)),
        vec!["init", "--lib", "--vcs", "pijul"]
    );
}

#[test]
fn arguments_where_nothing_was_answered() {
    assert_eq!(
        init_arguments(None, None),
        vec!["init", "--lib", "--vcs", "git"]
    );
    assert_eq!(
        init_arguments(None, Some(true)),
        vec!["init", "--bin", "--vcs", "git"]
    );
    assert_eq!(
        init_arguments(Some("none"), None),
        vec!["init", "--lib", "--vcs", "none"]
    );
}

#[test]
fn arguments_for_the_deny_configuration() {
    assert_eq!(deny_arguments(), vec!["deny", "init"]);
}
