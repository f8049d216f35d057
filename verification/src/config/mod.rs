//! Lint policies in brief: an id, a description, a category and a level per
//! profile.

pub mod generate;

use crate::severity::{joined_names, join_names, lemma_reachable_levels, BaseSeverity};
use crate::text::one_line;
use vstd::prelude::*;

verus! {

/// The address under which every lint is documented.
pub const DOC_BASE_LINK: &'static str = "https://rust-lang.github.io/rust-clippy/master/index.html#";

/// The address under which the issues of every lint are found.
pub const ISSUE_BASE_LINK: &'static str =
    "https://github.com/rust-lang/rust-clippy/issues?q=is%3Aissue";

/// What is written where no level can be reached.
pub const NONE: &'static str = "none";

/// An enforcement level, or the levels that can be reached from one.
///
/// `Increase` and `Decrease` describe a level; they are never what a lint is
/// set to, and they wrap a plain level only.
#[derive(Clone, Copy, Debug, PartialEq, Eq, Structural)]
pub enum Severity {
    /// The lint reports nothing.
    Allow,
    /// The lint reports without blocking.
    Warn,
    /// The lint reports and blocks.
    Deny,
    /// The levels that the wrapped level can be raised to.
    Increase(BaseSeverity),
    /// The levels that the wrapped level can be lowered to.
    Decrease(BaseSeverity),
}

/// How a list of reachable levels is worded: their names, or a word for
/// "none".
pub open spec fn reachable_text(levels: Seq<BaseSeverity>) -> Seq<char> {
    if levels.len() == 0 {
        NONE@
    } else {
        joined_names(levels)
    }
}

impl Severity {
    /// The level as a value of this type.
    pub open spec fn of(base: BaseSeverity) -> Severity {
        match base {
            BaseSeverity::Allow => Severity::Allow,
            BaseSeverity::Warn => Severity::Warn,
            BaseSeverity::Deny => Severity::Deny,
        }
    }

    /// The level that `self` is, unless it describes one.
    pub open spec fn base(self) -> Option<BaseSeverity> {
        match self {
            Severity::Allow => Some(BaseSeverity::Allow),
            Severity::Warn => Some(BaseSeverity::Warn),
            Severity::Deny => Some(BaseSeverity::Deny),
            _ => None,
        }
    }

    /// The text that stands for `self` in a configuration file.
    pub open spec fn text(self) -> Seq<char> {
        match self {
            Severity::Allow => BaseSeverity::Allow.name(),
            Severity::Warn => BaseSeverity::Warn.name(),
            Severity::Deny => BaseSeverity::Deny.name(),
            Severity::Increase(base) => reachable_text(base.above()),
            Severity::Decrease(base) => reachable_text(base.below()),
        }
    }

    /// Wraps a level.
    pub fn from_base(base: BaseSeverity) -> (s: Severity)
        ensures
            s == Severity::of(base),
            s.base() == Some(base),
    {
        match base {
            BaseSeverity::Allow => Severity::Allow,
            BaseSeverity::Warn => Severity::Warn,
            BaseSeverity::Deny => Severity::Deny,
        }
    }

    /// Writes `self` as it stands in a configuration file.
    pub fn render(&self) -> (s: String)
        ensures
            s@ == self.text(),
    {
        match self {
            Severity::Allow => BaseSeverity::Allow.as_str().to_owned(),
            Severity::Warn => BaseSeverity::Warn.as_str().to_owned(),
            Severity::Deny => BaseSeverity::Deny.as_str().to_owned(),
            Severity::Increase(base) => render_reachable(&base.stricter()),
            Severity::Decrease(base) => render_reachable(&base.laxer()),
        }
    }
}

/// Words a list of reachable levels.
pub fn render_reachable(levels: &Vec<BaseSeverity>) -> (s: String)
    ensures
        s@ == reachable_text(levels@),
{
    if levels.len() == 0 {
        NONE.to_owned()
    } else {
        join_names(levels)
    }
}

/// The wording of what each level can be raised and lowered to, written out.
pub proof fn lemma_reachable_wording(base: BaseSeverity)
    ensures
        Severity::Increase(base).text() == match base {
            BaseSeverity::Allow => "warn, deny"@,
            BaseSeverity::Warn => "deny"@,
            BaseSeverity::Deny => "none"@,
        },
        Severity::Decrease(base).text() == match base {
            BaseSeverity::Allow => "none"@,
            BaseSeverity::Warn => "allow"@,
            BaseSeverity::Deny => "allow, warn"@,
        },
{
    reveal_strlit("none");
    reveal_strlit(", ");
    reveal_strlit("allow");
    reveal_strlit("warn");
    reveal_strlit("deny");
    reveal_strlit("warn, deny");
    reveal_strlit("allow, warn");
    lemma_reachable_levels(base);
    let up = base.above();
    let down = base.below();
    if up.len() == 2 {
        assert(up.drop_last() =~= seq![BaseSeverity::Warn]);
        assert(joined_names(up) =~= "warn, deny"@) by {
            reveal_with_fuel(joined_names, 3);
        }
    }
    if down.len() == 2 {
        assert(down.drop_last() =~= seq![BaseSeverity::Allow]);
        assert(joined_names(down) =~= "allow, warn"@) by {
            reveal_with_fuel(joined_names, 3);
        }
    }
}

/// The categories that lints are sorted into.
#[derive(Clone, Copy, Debug, PartialEq, Eq, Structural)]
pub enum ClippyGroup {
    /// Code style and formatting.
    Style,
    /// Logic errors and wrong use of the language.
    Correctness,
    /// Code that could run faster.
    Performance,
    /// Code that is harder to read than it needs to be.
    Complexity,
    /// Strict standards and conventions.
    Pedantic,
    /// Language features that a project may want to forbid.
    Restriction,
    /// Code that looks like an error.
    Suspicious,
    /// Lints that are still under development.
    Nursery,
    /// Performance optimizations.
    Perf,
}

/// The names of all categories.
pub open spec fn group_names() -> Seq<Seq<char>> {
    seq![
        "style"@,
        "correctness"@,
        "performance"@,
        "complexity"@,
        "pedantic"@,
        "restriction"@,
        "suspicious"@,
        "nursery"@,
        "perf"@,
    ]
}

impl ClippyGroup {
    /// The name written in a configuration file.
    pub open spec fn name(self) -> Seq<char> {
        match self {
            ClippyGroup::Style => "style"@,
            ClippyGroup::Correctness => "correctness"@,
            ClippyGroup::Performance => "performance"@,
            ClippyGroup::Complexity => "complexity"@,
            ClippyGroup::Pedantic => "pedantic"@,
            ClippyGroup::Restriction => "restriction"@,
            ClippyGroup::Suspicious => "suspicious"@,
            ClippyGroup::Nursery => "nursery"@,
            ClippyGroup::Perf => "perf"@,
        }
    }

    /// The name as a static string slice.
    pub fn as_str(&self) -> (s: &'static str)
        ensures
            s@ == self.name(),
    {
        match self {
            ClippyGroup::Style => "style",
            ClippyGroup::Correctness => "correctness",
            ClippyGroup::Performance => "performance",
            ClippyGroup::Complexity => "complexity",
            ClippyGroup::Pedantic => "pedantic",
            ClippyGroup::Restriction => "restriction",
            ClippyGroup::Suspicious => "suspicious",
            ClippyGroup::Nursery => "nursery",
            ClippyGroup::Perf => "perf",
        }
    }

    /// Writes the name.
    pub fn render(&self) -> (s: String)
        ensures
            s@ == self.name(),
            group_names().contains(s@),
    {
        proof {
            lemma_group_name_known(*self);
        }
        self.as_str().to_owned()
    }
}

/// No two categories are written alike: the name tells which one was meant.
pub proof fn lemma_group_name_unique(a: ClippyGroup, b: ClippyGroup)
    ensures
        a.name() == b.name() ==> a == b,
{
    reveal_strlit("style");
    reveal_strlit("correctness");
    reveal_strlit("performance");
    reveal_strlit("complexity");
    reveal_strlit("pedantic");
    reveal_strlit("restriction");
    reveal_strlit("suspicious");
    reveal_strlit("nursery");
    reveal_strlit("perf");
    if a.name().len() == b.name().len() {
        assert(a != b ==> a.name()[0] != b.name()[0] || a.name()[2] != b.name()[2]);
    }
}

/// Every category is written as one of the known category names.
pub proof fn lemma_group_name_known(x: ClippyGroup)
    ensures
        group_names().contains(x.name()),
{
    match x {
        ClippyGroup::Style => assert(group_names()[0] == x.name()),
        ClippyGroup::Correctness => assert(group_names()[1] == x.name()),
        ClippyGroup::Performance => assert(group_names()[2] == x.name()),
        ClippyGroup::Complexity => assert(group_names()[3] == x.name()),
        ClippyGroup::Pedantic => assert(group_names()[4] == x.name()),
        ClippyGroup::Restriction => assert(group_names()[5] == x.name()),
        ClippyGroup::Suspicious => assert(group_names()[6] == x.name()),
        ClippyGroup::Nursery => assert(group_names()[7] == x.name()),
        ClippyGroup::Perf => assert(group_names()[8] == x.name()),
    }
}

/// How safely the fix that a lint suggests can be applied.
#[derive(Clone, Copy, Debug, PartialEq, Eq, Structural)]
pub enum Applicability {
    /// Nothing is known of the fix.
    Unspecified,
    /// The lint may report where it should not.
    Experimental,
    /// The lint is reliable.
    Stable,
    /// The lint will be removed.
    Deprecated,
    /// The fix can be applied as it is.
    MachineApplicable,
    /// The fix may be wrong.
    MaybeIncorrect,
    /// The fix has blanks that the user must fill in.
    HasPlaceholders,
}

/// The names of all applicability classes.
pub open spec fn applicability_names() -> Seq<Seq<char>> {
    seq![
        "unspecified"@,
        "experimental"@,
        "stable"@,
        "deprecated"@,
        "machine-applicable"@,
        "maybe-incorrect"@,
        "has-placeholders"@,
    ]
}

impl Applicability {
    /// The name written in a configuration file.
    pub open spec fn name(self) -> Seq<char> {
        match self {
            Applicability::Unspecified => "unspecified"@,
            Applicability::Experimental => "experimental"@,
            Applicability::Stable => "stable"@,
            Applicability::Deprecated => "deprecated"@,
            Applicability::MachineApplicable => "machine-applicable"@,
            Applicability::MaybeIncorrect => "maybe-incorrect"@,
            Applicability::HasPlaceholders => "has-placeholders"@,
        }
    }

    /// The name as a static string slice.
    pub fn as_str(&self) -> (s: &'static str)
        ensures
            s@ == self.name(),
    {
        match self {
            Applicability::Unspecified => "unspecified",
            Applicability::Experimental => "experimental",
            Applicability::Stable => "stable",
            Applicability::Deprecated => "deprecated",
            Applicability::MachineApplicable => "machine-applicable",
            Applicability::MaybeIncorrect => "maybe-incorrect",
            Applicability::HasPlaceholders => "has-placeholders",
        }
    }

    /// Writes the name.
    pub fn render(&self) -> (s: String)
        ensures
            s@ == self.name(),
            applicability_names().contains(s@),
    {
        proof {
            lemma_applicability_name_known(*self);
        }
        self.as_str().to_owned()
    }
}

/// No two applicability classes are written alike: the name tells which one was meant.
pub proof fn lemma_applicability_name_unique(a: Applicability, b: Applicability)
    ensures
        a.name() == b.name() ==> a == b,
{
    reveal_strlit("unspecified");
    reveal_strlit("experimental");
    reveal_strlit("stable");
    reveal_strlit("deprecated");
    reveal_strlit("machine-applicable");
    reveal_strlit("maybe-incorrect");
    reveal_strlit("has-placeholders");
    if a.name().len() == b.name().len() {
        assert(a != b ==> a.name()[0] != b.name()[0] || a.name()[2] != b.name()[2]);
    }
}

/// Every applicability class is written as one of the known class names.
pub proof fn lemma_applicability_name_known(x: Applicability)
    ensures
        applicability_names().contains(x.name()),
{
    match x {
        Applicability::Unspecified => assert(applicability_names()[0] == x.name()),
        Applicability::Experimental => assert(applicability_names()[1] == x.name()),
        Applicability::Stable => assert(applicability_names()[2] == x.name()),
        Applicability::Deprecated => assert(applicability_names()[3] == x.name()),
        Applicability::MachineApplicable => assert(applicability_names()[4] == x.name()),
        Applicability::MaybeIncorrect => assert(applicability_names()[5] == x.name()),
        Applicability::HasPlaceholders => assert(applicability_names()[6] == x.name()),
    }
}

/// The policy for one lint under one profile.
#[derive(Clone, Copy, Debug, PartialEq, Eq)]
pub struct Lint {
    /// The identifier of the lint.
    pub id: &'static str,
    /// What the lint looks for.
    pub description: &'static str,
    /// The level under the profile.
    pub severity: Severity,
    /// The category of the lint.
    pub group: ClippyGroup,
    /// How safely the suggested fix can be applied.
    pub applicability: Applicability,
    /// What the level can be raised to.
    pub increase: Severity,
    /// What the level can be lowered to.
    pub decrease: Severity,
}

impl Lint {
    /// The level is a plain level, and the two descriptions are those of
    /// that level.
    pub open spec fn wf(self) -> bool {
        &&& self.severity.base() matches Some(base)
        &&& self.increase == Severity::Increase(base)
        &&& self.decrease == Severity::Decrease(base)
    }

    /// The record of a lint that is set to `base`.
    pub open spec fn at(
        id: &'static str,
        description: &'static str,
        base: BaseSeverity,
        group: ClippyGroup,
        applicability: Applicability,
    ) -> Lint {
        Lint {
            id,
            description,
            severity: Severity::of(base),
            group,
            applicability,
            increase: Severity::Increase(base),
            decrease: Severity::Decrease(base),
        }
    }

    /// The records of one lint for a novice, an expert and a master, in that
    /// order. The three share everything but the level and what it can be
    /// raised and lowered to.
    pub fn new(
        id: &'static str,
        description: &'static str,
        novice: BaseSeverity,
        expert: BaseSeverity,
        master: BaseSeverity,
        group: ClippyGroup,
        applicability: Applicability,
    ) -> (lints: (Self, Self, Self))
        ensures
            lints.0 == Lint::at(id, description, novice, group, applicability),
            lints.1 == Lint::at(id, description, expert, group, applicability),
            lints.2 == Lint::at(id, description, master, group, applicability),
            lints.0.wf() && lints.1.wf() && lints.2.wf(),
    {
        (
            Lint {
                id,
                description,
                severity: Severity::from_base(novice),
                group,
                applicability,
                increase: Severity::Increase(novice),
                decrease: Severity::Decrease(novice),
            },
            Lint {
                id,
                description,
                severity: Severity::from_base(expert),
                group,
                applicability,
                increase: Severity::Increase(expert),
                decrease: Severity::Decrease(expert),
            },
            Lint {
                id,
                description,
                severity: Severity::from_base(master),
                group,
                applicability,
                increase: Severity::Increase(master),
                decrease: Severity::Decrease(master),
            },
        )
    }
}

/// Whatever is written for a level, a category or an applicability class,
/// and either address, is one line.
pub proof fn lemma_values_one_line(severity: Severity, group: ClippyGroup, applicability: Applicability)
    ensures
        one_line(severity.text()),
        one_line(group.name()),
        one_line(applicability.name()),
        one_line(ISSUE_BASE_LINK@),
        one_line(DOC_BASE_LINK@),
{
    reveal_strlit("allow");
    reveal_strlit("warn");
    reveal_strlit("deny");
    reveal_strlit("none");
    reveal_strlit("warn, deny");
    reveal_strlit("allow, warn");
    match severity {
        Severity::Increase(base) => lemma_reachable_wording(base),
        Severity::Decrease(base) => lemma_reachable_wording(base),
        _ => {},
    }
    assert(one_line(severity.text()));
    reveal_strlit("style");
    reveal_strlit("correctness");
    reveal_strlit("performance");
    reveal_strlit("complexity");
    reveal_strlit("pedantic");
    reveal_strlit("restriction");
    reveal_strlit("suspicious");
    reveal_strlit("nursery");
    reveal_strlit("perf");
    assert(one_line(group.name()));
    reveal_strlit("unspecified");
    reveal_strlit("experimental");
    reveal_strlit("stable");
    reveal_strlit("deprecated");
    reveal_strlit("machine-applicable");
    reveal_strlit("maybe-incorrect");
    reveal_strlit("has-placeholders");
    assert(one_line(applicability.name()));
    reveal_strlit("https://rust-lang.github.io/rust-clippy/master/index.html#");
    reveal_strlit("https://github.com/rust-lang/rust-clippy/issues?q=is%3Aissue");
}

} // verus!
