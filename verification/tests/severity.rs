use lint_profiles::severity::{join_names, BaseSeverity};

const ALL: [BaseSeverity; 3] = [BaseSeverity::Allow, BaseSeverity::Warn, BaseSeverity::Deny];

#[test]
fn level_names_are_lowercase() {
    assert_eq!(BaseSeverity::Allow.as_str(), "allow");
    assert_eq!(BaseSeverity::Warn.as_str(), "warn");
    assert_eq!(BaseSeverity::Deny.as_str(), "deny");
}

#[test]
fn stricter_levels_of_each_level() {
    assert_eq!(
        BaseSeverity::Allow.stricter(),
        vec![BaseSeverity::Warn, BaseSeverity::Deny]
    );
    assert_eq!(BaseSeverity::Warn.stricter(), vec![BaseSeverity::Deny]);
    assert_eq!(BaseSeverity::Deny.stricter(), vec![]);
}

#[test]
fn laxer_levels_of_each_level() {
    assert_eq!(BaseSeverity::Allow.laxer(), vec![]);
    assert_eq!(BaseSeverity::Warn.laxer(), vec![BaseSeverity::Allow]);
    assert_eq!(
        BaseSeverity::Deny.laxer(),
        vec![BaseSeverity::Allow, BaseSeverity::Warn]
    );
}

#[test]
fn a_level_is_never_reachable_from_itself() {
    for s in ALL {
        assert!(!s.stricter().contains(&s));
        assert!(!s.laxer().contains(&s));
    }
}

#[test]
fn laxer_self_stricter_are_all_levels_in_order() {
    for s in ALL {
        let mut all = s.laxer();
        all.push(s);
        all.extend(s.stricter());
        assert_eq!(all, ALL.to_vec());
    }
}

#[test]
fn raising_and_lowering_mirror_each_other() {
    for s in ALL {
        for l in ALL {
            assert_eq!(s.stricter().contains(&l), l.laxer().contains(&s));
        }
    }
}

#[test]
fn names_are_joined_with_commas() {
    assert_eq!(join_names(&vec![]), "");
    assert_eq!(join_names(&vec![BaseSeverity::Warn]), "warn");
    assert_eq!(
        join_names(&vec![BaseSeverity::Allow, BaseSeverity::Warn, BaseSeverity::Deny]),
        "allow, warn, deny"
    );
}
