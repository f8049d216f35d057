use lint_profiles::zuu::{
    allowed_or_default, clippy_groups, debug_all, decrease, generate_zuu, hooks, is_among, join,
    list, warn_or_default, write_policy, Selection,
};

fn strings(items: &[&str]) -> Vec<String> {
    items.iter().map(|s| s.to_string()).collect()
}

#[test]
fn groups_on_offer() {
    assert_eq!(
        clippy_groups(),
        strings(&[
            "cargo", "complexity", "style", "nursery", "pedantic", "suspicious", "correctness",
            "perf"
        ])
    );
}

#[test]
fn checks_that_run() {
    assert_eq!(
        hooks(),
        strings(&[
            "verify-project",
            "check --all-targets --profile=test",
            "deny check",
            "audit",
            "test -j 4 --no-fail-fast -- --show-output",
            "fmt --check",
            "outdated"
        ])
    );
}

#[test]
fn membership() {
    let data = strings(&["a", "b"]);
    assert!(is_among(&data, &"b".to_string()));
    assert!(!is_among(&data, &"c".to_string()));
    assert!(!is_among(&[], &"a".to_string()));
}

#[test]
fn decrease_takes_out_what_was_chosen() {
    let mut groups = clippy_groups();
    decrease(&mut groups, &strings(&["pedantic", "cargo"]));
    assert_eq!(
        groups,
        strings(&["complexity", "style", "nursery", "suspicious", "correctness", "perf"])
    );
}

#[test]
fn decrease_takes_out_every_occurrence_and_ignores_strangers() {
    let mut items = strings(&["a", "b", "a", "c", "a"]);
    decrease(&mut items, &strings(&["a", "z"]));
    assert_eq!(items, strings(&["b", "c"]));
    decrease(&mut items, &[]);
    assert_eq!(items, strings(&["b", "c"]));
    decrease(&mut items, &strings(&["c", "b"]));
    assert_eq!(items, Vec::<String>::new());
}

#[test]
fn allowed_defaults_to_cargo_and_pedantic() {
    assert_eq!(allowed_or_default(None), strings(&["cargo", "pedantic"]));
    assert_eq!(
        allowed_or_default(Some(strings(&["style"]))),
        strings(&["style"])
    );
    assert_eq!(allowed_or_default(Some(vec![])), Vec::<String>::new());
}

#[test]
fn warn_defaults_to_all_that_is_left() {
    let left = strings(&["style", "perf"]);
    assert_eq!(warn_or_default(None, &left), left);
    assert_eq!(
        warn_or_default(Some(strings(&["perf"])), &left),
        strings(&["perf"])
    );
}

#[test]
fn items_are_joined_and_listed() {
    assert_eq!(join(&[], ", "), "");
    assert_eq!(join(&strings(&["a"]), ", "), "a");
    assert_eq!(join(&strings(&["a", "b", "c"]), " | "), "a | b | c");
    assert_eq!(list(&[]), "[]");
    assert_eq!(list(&strings(&["\"a\"", "\"b\""])), "[\"a\", \"b\"]");
}

#[test]
fn policy_from_lists_as_written() {
    let text = write_policy(
        &strings(&["A"]),
        &strings(&["B", "C"]),
        &[],
        &strings(&["h"]),
    );
    assert_eq!(
        text,
        "allow = [A]\nwarn = [B, C]\nforbid = []\nbefore-cargo = []\ncargo = [h]\nafter-cargo = []"
    );
}

#[test]
fn names_are_quoted_and_escaped() {
    assert_eq!(
        debug_all(&strings(&["cargo", "a\"b", "c\\d", "line\nbreak"])),
        strings(&["\"cargo\"", "\"a\\\"b\"", "\"c\\\\d\"", "\"line\\nbreak\""])
    );
}

#[test]
fn policy_file_of_the_defaults() {
    let mut groups = clippy_groups();
    let allowed = allowed_or_default(None);
    decrease(&mut groups, &allowed);
    let warn = warn_or_default(Some(strings(&["style", "perf"])), &groups);
    decrease(&mut groups, &warn);
    let text = generate_zuu(&allowed, &warn, &groups);
    assert_eq!(
        text,
        "allow = [\"cargo\", \"pedantic\"]\nwarn = [\"style\", \"perf\"]\nforbid = [\"complexity\", \"nursery\", \"suspicious\", \"correctness\"]\nbefore-cargo = []\ncargo = [\"verify-project\", \"check --all-targets --profile=test\", \"deny check\", \"audit\", \"test -j 4 --no-fail-fast -- --show-output\", \"fmt --check\", \"outdated\"]\nafter-cargo = []"
    );
}

#[test]
fn policy_file_agrees_with_debug_formatting() {
    let allowed = strings(&["cargo"]);
    let warn = strings(&["odd \"name\""]);
    let forbid: Vec<String> = Vec::new();
    let checks = hooks();
    assert_eq!(
        generate_zuu(&allowed, &warn, &forbid),
        format!(
            "allow = {allowed:?}\nwarn = {warn:?}\nforbid = {forbid:?}\nbefore-cargo = []\ncargo = {checks:?}\nafter-cargo = []"
        )
    );
}

#[test]
fn the_three_lists_are_apart() {
    let mut groups = clippy_groups();
    let allowed = strings(&["cargo", "style"]);
    decrease(&mut groups, &allowed);
    let warn = warn_or_default(Some(strings(&["perf"])), &groups);
    decrease(&mut groups, &warn);
    for g in &groups {
        assert!(!allowed.contains(g));
        assert!(!warn.contains(g));
    }
    for g in clippy_groups() {
        let places = [allowed.contains(&g), warn.contains(&g), groups.contains(&g)];
        assert_eq!(places.iter().filter(|p| **p).count(), 1);
    }
}

#[test]
fn selection_starts_with_everything_on_offer() {
    let selection = Selection::start();
    assert!(selection.allowed.is_empty());
    assert!(selection.warn.is_empty());
    assert_eq!(selection.forbid, clippy_groups());
}

#[test]
fn selection_without_answers_forbids_nothing() {
    let mut selection = Selection::start();
    selection.allow(None);
    assert_eq!(selection.allowed, strings(&["cargo", "pedantic"]));
    assert_eq!(
        selection.forbid,
        strings(&["complexity", "style", "nursery", "suspicious", "correctness", "perf"])
    );
    selection.warn(None);
    assert_eq!(
        selection.warn,
        strings(&["complexity", "style", "nursery", "suspicious", "correctness", "perf"])
    );
    assert_eq!(selection.forbid, Vec::<String>::new());
    assert_eq!(
        selection.render(),
        "allow = [\"cargo\", \"pedantic\"]\nwarn = [\"complexity\", \"style\", \"nursery\", \"suspicious\", \"correctness\", \"perf\"]\nforbid = []\nbefore-cargo = []\ncargo = [\"verify-project\", \"check --all-targets --profile=test\", \"deny check\", \"audit\", \"test -j 4 --no-fail-fast -- --show-output\", \"fmt --check\", \"outdated\"]\nafter-cargo = []"
    );
}

#[test]
fn selection_with_answers() {
    let mut selection = Selection::start();
    selection.allow(Some(strings(&["style", "cargo"])));
    selection.warn(Some(strings(&["perf", "nursery"])));
    assert_eq!(selection.allowed, strings(&["style", "cargo"]));
    assert_eq!(selection.warn, strings(&["perf", "nursery"]));
    assert_eq!(
        selection.forbid,
        strings(&["complexity", "pedantic", "suspicious", "correctness"])
    );
    assert_eq!(
        selection.render(),
        generate_zuu(&selection.allowed, &selection.warn, &selection.forbid)
    );
}

#[test]
fn selection_with_empty_answers_forbids_everything() {
    let mut selection = Selection::start();
    selection.allow(Some(vec![]));
    selection.warn(Some(vec![]));
    assert_eq!(selection.forbid, clippy_groups());
    assert!(selection.render().starts_with("allow = []\nwarn = []\nforbid = [\"cargo\", "));
}
