use lint_profiles::clippy::model::ClippyLevel;
use lint_profiles::config::generate::{configure, generate, stanza};
use lint_profiles::config::{Applicability, ClippyGroup, Lint};
use lint_profiles::lints::catalog_for;
use lint_profiles::severity::BaseSeverity;

fn absolute_paths() -> (Lint, Lint, Lint) {
    Lint::new(
        "absolute_paths",
        "Checks for usage of items through absolute paths, like std::env::current_dir.",
        BaseSeverity::Allow,
        BaseSeverity::Warn,
        BaseSeverity::Deny,
        ClippyGroup::Restriction,
        Applicability::Unspecified,
    )
}

#[test]
fn brief_entry_for_a_novice() {
    let expected = "# Checks for usage of items through absolute paths, like std::env::current_dir.\n[absolute_paths]\ngroup = \"restriction\"\napplicability = \"unspecified\"\n# none < allow > warn, deny\nseverity = \"allow\"\nissue = \"https://github.com/rust-lang/rust-clippy/issues?q=is%3Aissue+absolute_paths\"\ninfo = \"https://rust-lang.github.io/rust-clippy/master/index.html#/absolute_paths\"\n";
    assert_eq!(stanza(&absolute_paths().0), expected);
    assert_eq!(generate(&[absolute_paths().0]), expected);
}

#[test]
fn brief_entry_for_a_master() {
    let text = stanza(&absolute_paths().2);
    assert!(text.contains("\n# allow, warn < deny > none\nseverity = \"deny\"\n"));
}

#[test]
fn brief_entry_for_an_expert() {
    let text = stanza(&absolute_paths().1);
    assert!(text.contains("\n# allow < warn > deny\nseverity = \"warn\"\n"));
}

#[test]
fn brief_empty_catalog_gives_empty_text() {
    let none: Vec<Lint> = Vec::new();
    assert_eq!(generate(&none), "");
}

#[test]
fn brief_entries_follow_the_order_given() {
    let (a, b, c) = absolute_paths();
    assert_eq!(
        generate(&[c, a, b]),
        format!("{}{}{}", stanza(&c), stanza(&a), stanza(&b))
    );
}

#[test]
fn brief_three_files_in_profile_order() {
    let files = configure();
    let names: Vec<&str> = files.iter().map(|f| f.filename).collect();
    assert_eq!(names, vec!["novice.toml", "expert.toml", "master.toml"]);
    assert_eq!(files[0].contents, generate(&catalog_for(&ClippyLevel::Novice)));
    assert_eq!(files[1].contents, generate(&catalog_for(&ClippyLevel::Expert)));
    assert_eq!(files[2].contents, generate(&catalog_for(&ClippyLevel::Master)));
}

#[test]
fn brief_generating_twice_gives_the_same_files() {
    let first = configure();
    let second = configure();
    assert_eq!(first.len(), second.len());
    for (a, b) in first.iter().zip(second.iter()) {
        assert_eq!(a.filename, b.filename);
        assert_eq!(a.contents, b.contents);
    }
}

#[test]
fn brief_every_table_names_a_known_group_and_applicability() {
    let groups = [
        "style", "correctness", "performance", "complexity", "pedantic", "restriction",
        "suspicious", "nursery", "perf",
    ];
    let classes = [
        "unspecified", "experimental", "stable", "deprecated", "machine-applicable",
        "maybe-incorrect", "has-placeholders",
    ];
    for file in configure() {
        let lines: Vec<&str> = file.contents.lines().collect();
        let mut tables = 0;
        for (i, line) in lines.iter().enumerate() {
            if line.starts_with('[') {
                tables += 1;
                let group = lines[i + 1]
                    .strip_prefix("group = \"")
                    .unwrap()
                    .strip_suffix('"')
                    .unwrap();
                let class = lines[i + 2]
                    .strip_prefix("applicability = \"")
                    .unwrap()
                    .strip_suffix('"')
                    .unwrap();
                assert!(groups.contains(&group));
                assert!(classes.contains(&class));
            }
        }
        assert_eq!(tables, 20);
    }
}

const BRIEF_KEYS: [&str; 5] = ["group", "applicability", "severity", "issue", "info"];

fn brief_line_is_fine(line: &str) -> bool {
    line.is_empty()
        || line.starts_with('#')
        || (line.starts_with('[') && line.ends_with(']'))
        || BRIEF_KEYS
            .iter()
            .any(|key| line.starts_with(&format!("{key} = ")))
}

#[test]
fn brief_description_of_several_lines_stays_in_its_comment() {
    let (lint, _, _) = Lint::new(
        "two_lines",
        "a\nb",
        BaseSeverity::Warn,
        BaseSeverity::Warn,
        BaseSeverity::Deny,
        ClippyGroup::Style,
        Applicability::HasPlaceholders,
    );
    let text = stanza(&lint);
    assert!(text.starts_with("# a\n# b\n[two_lines]\ngroup = \"style\"\n"));
    assert!(text.lines().all(brief_line_is_fine));
}

#[test]
fn brief_description_that_starts_with_a_line_break() {
    let (_, _, lint) = Lint::new(
        "late_start",
        "\nChecks for something.",
        BaseSeverity::Warn,
        BaseSeverity::Warn,
        BaseSeverity::Deny,
        ClippyGroup::Style,
        Applicability::Unspecified,
    );
    let text = generate(&[lint]);
    let lines: Vec<&str> = text.lines().collect();
    assert_eq!(lines[0], "# ");
    assert_eq!(lines[1], "# Checks for something.");
    assert_eq!(lines[2], "[late_start]");
}

#[test]
fn brief_every_line_of_every_file_is_a_comment_a_header_or_a_key() {
    for file in configure() {
        assert!(file.contents.ends_with('\n'));
        for line in file.contents.lines() {
            assert!(brief_line_is_fine(line), "{}: {line}", file.filename);
        }
    }
}

#[test]
fn brief_only_headers_begin_with_a_bracket() {
    for file in configure() {
        let headers: Vec<&str> = file
            .contents
            .lines()
            .filter(|line| line.starts_with('['))
            .collect();
        let level = match file.filename {
            "novice.toml" => ClippyLevel::Novice,
            "expert.toml" => ClippyLevel::Expert,
            _ => ClippyLevel::Master,
        };
        let expected: Vec<String> = catalog_for(&level)
            .iter()
            .map(|lint| format!("[{}]", lint.id))
            .collect();
        assert_eq!(headers, expected);
    }
}
