use lint_profiles::clippy::generate::{generate_config, generate_config_file, stanza};
use lint_profiles::clippy::lints::catalog_for;
use lint_profiles::clippy::model::{
    Applicability, ClippyLevel, ClippyLint, LintGroup, LintSeverity,
};
use lint_profiles::clippy::policy::LintPolicy;
use lint_profiles::severity::BaseSeverity;

fn absolute_paths() -> LintPolicy {
    LintPolicy::new(
        "absolute_paths",
        "Checks for usage of items through absolute paths.",
        "First line.\nSecond line.\n\nLast line.",
        None,
        true,
        BaseSeverity::Allow,
        false,
        BaseSeverity::Allow,
        BaseSeverity::Warn,
        BaseSeverity::Deny,
        LintGroup::Restriction,
        Some("https://example.org/issues/absolute_paths"),
        Applicability::Unspecified,
    )
}

#[test]
fn single_lint_file_for_a_novice() {
    let lint = absolute_paths().lint(&ClippyLevel::Novice);
    let text = generate_config_file(&[lint]);
    let expected = "#\n# Lint clippy::absolute_paths\n#\n# Checks for usage of items through absolute paths.\n#\n# First line.\n# Second line.\n# \n# Last line.\n#\n# Issue : https://example.org/issues/absolute_paths\n#\n# Clippy decrease possible value none\n#\n# Clippy increase possible values : (warn, deny)\n#\n# Default configuration decrease possible value none\n#\n# Default configuration increase possible values : (warn, deny)\n#\n[absolute_paths]\ngroup = \"restriction\"\napplicability = \"unspecified\"\nenabled = true\nconfig-severity = \"allow\"\nclippy-severity = \"allow\"\nuse-clippy-severity = false\n\n";
    assert_eq!(text, expected);
    let lines: Vec<&str> = text.lines().collect();
    let at = lines.iter().position(|l| *l == "[absolute_paths]").unwrap();
    assert_eq!(lines[at + 1], "group = \"restriction\"");
    assert_eq!(lines[at + 2], "applicability = \"unspecified\"");
    assert_eq!(lines[at + 4], "config-severity = \"allow\"");
}

#[test]
fn entry_without_issue_has_no_issue_comment() {
    let mut lint = absolute_paths().lint(&ClippyLevel::Master);
    lint.issue = None;
    let text = stanza(&lint);
    assert!(!text.contains("Issue"));
    assert!(text.contains("# Default configuration decrease possible values : (allow, warn)\n"));
    assert!(text.contains("# Default configuration increase possible value none\n"));
    assert!(text.contains("config-severity = \"deny\"\n"));
}

#[test]
fn empty_catalog_gives_empty_text() {
    let none: Vec<ClippyLint> = Vec::new();
    assert_eq!(generate_config_file(&none), "");
}

#[test]
fn entries_follow_the_order_given() {
    let a = absolute_paths().lint(&ClippyLevel::Novice);
    let b = absolute_paths().lint(&ClippyLevel::Expert);
    let both = generate_config_file(&[a, b]);
    assert_eq!(both, format!("{}{}", stanza(&a), stanza(&b)));
}

#[test]
fn three_files_in_profile_order() {
    let files = generate_config();
    let names: Vec<&str> = files.iter().map(|f| f.filename).collect();
    assert_eq!(names, vec!["novice.toml", "expert.toml", "master.toml"]);
    assert_eq!(
        files[0].contents,
        generate_config_file(&catalog_for(&ClippyLevel::Novice))
    );
    assert_eq!(
        files[2].contents,
        generate_config_file(&catalog_for(&ClippyLevel::Master))
    );
    assert!(files[0].contents.starts_with("#\n# Lint clippy::absolute_paths\n#\n"));
}

#[test]
fn generating_twice_gives_the_same_files() {
    let first = generate_config();
    let second = generate_config();
    assert_eq!(first.len(), second.len());
    for (a, b) in first.iter().zip(second.iter()) {
        assert_eq!(a.filename, b.filename);
        assert_eq!(a.contents, b.contents);
    }
}

#[test]
fn every_table_names_a_known_group_and_applicability() {
    let groups = [
        "style", "correctness", "performance", "complexity", "pedantic", "restriction",
        "suspicious", "nursery", "perf",
    ];
    let classes = [
        "unspecified", "experimental", "stable", "deprecated", "machine-applicable",
        "maybe-incorrect",
    ];
    for file in generate_config() {
        let mut tables = 0;
        let lines: Vec<&str> = file.contents.lines().collect();
        for (i, line) in lines.iter().enumerate() {
            if line.starts_with('[') {
                tables += 1;
                let group = lines[i + 1].strip_prefix("group = \"").unwrap().strip_suffix('"').unwrap();
                let class = lines[i + 2].strip_prefix("applicability = \"").unwrap().strip_suffix('"').unwrap();
                assert!(groups.contains(&group));
                assert!(classes.contains(&class));
            }
        }
        assert_eq!(tables, 25);
    }
}

#[test]
fn record_keeps_what_the_policy_says() {
    let lint = absolute_paths().lint(&ClippyLevel::Expert);
    assert_eq!(lint.severity, LintSeverity::Warn);
    assert_eq!(lint.default_clippy_severity, LintSeverity::Allow);
    assert_eq!(
        lint.all_increase_config_default_possible_severity,
        LintSeverity::Increase(BaseSeverity::Warn)
    );
    assert_eq!(
        lint.all_decrease_clippy_default_possible_severity,
        LintSeverity::Decrease(BaseSeverity::Allow)
    );
}

const KEYS: [&str; 6] = [
    "group",
    "applicability",
    "enabled",
    "config-severity",
    "clippy-severity",
    "use-clippy-severity",
];

fn line_is_fine(line: &str) -> bool {
    line.is_empty()
        || line.starts_with('#')
        || (line.starts_with('[') && line.ends_with(']'))
        || KEYS.iter().any(|key| line.starts_with(&format!("{key} = ")))
}

#[test]
fn texts_of_several_lines_stay_in_their_comment() {
    let mut lint = absolute_paths().lint(&ClippyLevel::Expert);
    lint.description = "what\nit looks for";
    lint.whats_bad = "why\n\nit is bad";
    lint.issue = Some("first address\nsecond address");
    let text = stanza(&lint);
    assert!(text.starts_with(
        "#\n# Lint clippy::absolute_paths\n#\n# what\n# it looks for\n#\n# why\n# \n# it is bad\n#\n# Issue : first address\n# second address\n#\n# Clippy decrease possible value none\n"
    ));
    assert!(text.lines().all(line_is_fine));
}

#[test]
fn every_line_of_every_file_is_a_comment_a_header_or_a_key() {
    for file in generate_config() {
        assert!(file.contents.ends_with('\n'));
        for line in file.contents.lines() {
            assert!(line_is_fine(line), "{}: {line}", file.filename);
        }
    }
}

#[test]
fn only_headers_begin_with_a_bracket() {
    for file in generate_config() {
        let headers: Vec<&str> = file
            .contents
            .lines()
            .filter(|line| line.starts_with('['))
            .collect();
        let level = match file.filename {
            "novice.toml" => ClippyLevel::Novice,
            "expert.toml" => ClippyLevel::Expert,
            _ => ClippyLevel::Master,
        };
        let expected: Vec<String> = catalog_for(&level)
            .iter()
            .map(|lint| format!("[{}]", lint.id))
            .collect();
        assert_eq!(headers, expected);
    }
}

#[test]
fn no_text_on_record_carries_a_comment_marker_of_its_own() {
    for lint in catalog_for(&ClippyLevel::Novice) {
        assert!(!lint.description.contains("\n#"), "{}", lint.id);
        assert!(!lint.whats_bad.contains("\n#"), "{}", lint.id);
    }
}

#[test]
fn paragraphs_of_a_description_are_kept_apart_by_a_comment_line() {
    let file = &generate_config()[0];
    assert!(file.contents.contains(
        "# Checks for usage of as conversions.\n# \n# Note that this lint is specialized"
    ));
}
