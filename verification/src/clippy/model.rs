//! The value model of a lint policy: profiles, enforcement levels with the
//! levels reachable from them, lint categories, and the record kept per lint.

use crate::severity::{joined_names, join_names, lemma_reachable_levels, BaseSeverity};
use crate::text::one_line;
use vstd::prelude::*;

verus! {

/// The prefix that makes a lint id fully qualified.
pub const ID_PREFIX: &'static str = "clippy::";

/// What is written where nothing is to be said.
pub const NO_VALUE: &'static str = "value none";

/// Introduces the only level that can be reached.
pub const ONE_VALUE: &'static str = "value : ";

/// Opens a list of several levels that can be reached.
pub const VALUES_OPEN: &'static str = "values : (";

/// Closes a list of several levels that can be reached.
pub const VALUES_CLOSE: &'static str = ")";

/// Opens the heading of a justification.
pub const WHY_OPEN: &'static str = "\n# Why ";

/// Stands between the level and the profile in the heading of a justification.
pub const WHY_FOR: &'static str = " for ";

/// Closes the heading of a justification.
pub const WHY_CLOSE: &'static str = " ?";

/// Why absolute paths are allowed to a novice.
pub const ABSOLUTE_PATHS_ALLOW_NOVICE: &'static str = "\n#\n# 1) Learning Curve:\n#\n# For newcomers to Rust and Clippy, understanding the nuances of relative paths and module systems can be challenging.\n# Enforcing strict rules about absolute paths at the Novice level might create unnecessary friction and frustration for beginners.\n# \n# 2) Simplicity:\n#\n# In some simple projects or learning exercises, using absolute paths might be the most straightforward way to reference files or modules.\n# Forcing relative paths in these cases could add complexity without significant benefit.\n#\n# 3) Focus on Fundamentals:\n#\n# At the Novice level, the priority is likely to be on helping users grasp core Rust concepts and avoid common errors.\n#\n# The AbsolutePaths lint, while valuable for code maintainability, might be considered a secondary concern at this stage.\n#\n# 4) Gradual Introduction of Best Practices:\n#\n# Clippy often adopts a progressive approach, introducing more advanced and nuanced lints as the user's proficiency increases.\n#\n# By setting AbsolutePaths to Allow for Novice, Clippy encourages users to focus on the basics first and gradually adopt best practices as they gain experience.\n#";

/// Why absolute paths are allowed to an expert.
pub const ABSOLUTE_PATHS_ALLOW_EXPERT: &'static str = "\n#\n# 1) Contextual Exceptions:\n#\n# There might be specific situations where using absolute paths is justified or even necessary, even for experienced Rust developers. For instance:\n#\n# Test Suites: In some testing frameworks, it might be more convenient or reliable to use absolute paths to reference test data or configuration files.\n# Legacy Code: When working with existing codebases, it might be impractical or time-consuming to refactor all absolute paths to relative ones immediately.\n#\n# Allowing them temporarily at the Expert level can facilitate incremental improvements.\n#\n# Specific Project Requirements: Certain project structures or build systems might benefit from the use of absolute paths in specific cases.\n#\n# 2) Developer Choice:\n#\n# The Expert level might be designed to give experienced developers more control over their code and allow them to make informed decisions about when to deviate from strict linting rules.\n#\n# 3) Lint Maturity:\n#\n# Some lints, including AbsolutePaths, might still be under development or refinement.\n#\n# Setting them to Allow at the Expert level can help gather feedback from experienced users and identify potential false positives or edge cases.\n#\n# 4) Balancing Strictness and Productivity:\n#\n# While encouraging best practices is important, overly strict linting rules can sometimes hinder productivity or lead to unnecessary code churn.\n#\n# Allowing some flexibility at the Expert level can strike a balance between code quality and developer efficiency.\n#";

/// Why absolute paths earn a master a warning.
pub const ABSOLUTE_PATHS_WARN_MASTER: &'static str = "\n#\n# Encouraging Best Practices: By setting the lint to Warn, Clippy nudges expert users towards using relative paths whenever possible, promoting code portability and maintainability. The warning serves as a gentle reminder to consider the potential drawbacks of absolute paths.\n#\n# Flexibility with Justification: The Warn level allows expert developers to consciously choose to use absolute paths if they have a valid reason. It encourages them to think critically about their code and justify their decisions, fostering a deeper understanding of the trade-offs involved.\n#\n# Reducing Noise: Compared to the Deny level, which would prevent compilation if absolute paths are used, the Warn level is less disruptive. It allows experts to focus on other critical lints and address the AbsolutePaths warnings at their own pace, without blocking their workflow.\n#\n# Learning Opportunity: Even experienced developers can benefit from reminders about best practices. The Warn level provides an opportunity for experts to revisit their understanding of relative paths and module systems, potentially leading to improved code quality in the long run.\n#\n# Adapting to Project Needs: Different projects might have varying requirements and constraints. The Warn level offers flexibility to adapt the linting rules to the specific context of the project, allowing experts to make informed decisions based on their experience and knowledge.\n#";

/// The developer profiles a configuration is written for.
#[derive(Clone, Copy, Debug, PartialEq, Eq, Structural)]
pub enum ClippyLevel {
    Novice,
    Expert,
    Master,
}

/// The lints that a justification can be about.
#[derive(Clone, Copy, Debug, PartialEq, Eq, Structural)]
pub enum Lint {
    AbsolutePaths,
    AbsurdExtremeComparison,
    AllocInsteadOfCore,
    AllowAttribute,
    AllowAttributeWithoutReason,
    AlmostCompleteRange,
    AlmostSwapped,
    ApproxConstant,
    ArcWithNoSendSync,
    ArithmeticsSideEffects,
}

impl ClippyLevel {
    /// The lowercase name of the profile.
    pub open spec fn name(self) -> Seq<char> {
        match self {
            ClippyLevel::Novice => "novice"@,
            ClippyLevel::Expert => "expert"@,
            ClippyLevel::Master => "master"@,
        }
    }

    /// The name as a static string slice.
    pub fn as_str(&self) -> (s: &'static str)
        ensures
            s@ == self.name(),
    {
        match self {
            ClippyLevel::Novice => "novice",
            ClippyLevel::Expert => "expert",
            ClippyLevel::Master => "master",
        }
    }

    /// Writes the profile's name.
    pub fn render(&self) -> (s: String)
        ensures
            s@ == self.name(),
    {
        self.as_str().to_owned()
    }
}

/// An enforcement level, or a description of what can be reached from one.
///
/// `Increase`, `Decrease` and `Explain` describe a level; they are never what
/// a lint is set to, and they wrap a plain level only.
#[derive(Clone, Copy, Debug, PartialEq, Eq, Structural)]
pub enum LintSeverity {
    Allow,
    Warn,
    Deny,
    /// The levels that the wrapped level can be raised to.
    Increase(BaseSeverity),
    /// Why the wrapped level was chosen for a lint under a profile.
    Explain(BaseSeverity, Lint, ClippyLevel),
    /// The levels that the wrapped level can be lowered to.
    Decrease(BaseSeverity),
}

/// How a list of reachable levels is worded.
pub open spec fn reachable_text(levels: Seq<BaseSeverity>) -> Seq<char> {
    if levels.len() == 0 {
        NO_VALUE@
    } else if levels.len() == 1 {
        ONE_VALUE@ + levels[0].name()
    } else {
        VALUES_OPEN@ + joined_names(levels) + VALUES_CLOSE@
    }
}

/// The justification on record for a level of a lint under a profile, without
/// its heading, if there is one.
pub open spec fn explanation_body(severity: BaseSeverity, lint: Lint, level: ClippyLevel) -> Option<
    Seq<char>,
> {
    match (severity, lint, level) {
        (BaseSeverity::Allow, Lint::AbsolutePaths, ClippyLevel::Novice) => Some(
            ABSOLUTE_PATHS_ALLOW_NOVICE@,
        ),
        (BaseSeverity::Allow, Lint::AbsolutePaths, ClippyLevel::Expert) => Some(
            ABSOLUTE_PATHS_ALLOW_EXPERT@,
        ),
        (BaseSeverity::Warn, Lint::AbsolutePaths, ClippyLevel::Master) => Some(
            ABSOLUTE_PATHS_WARN_MASTER@,
        ),
        _ => None,
    }
}

/// The justification of a level of a lint under a profile: a heading that
/// names the level and the profile, then the justification on record; where
/// none is on record, the words for "nothing".
pub open spec fn explanation(severity: BaseSeverity, lint: Lint, level: ClippyLevel) -> Seq<char> {
    match explanation_body(severity, lint, level) {
        Some(body) => WHY_OPEN@ + severity.name() + WHY_FOR@ + level.name() + WHY_CLOSE@ + body,
        None => NO_VALUE@,
    }
}

impl LintSeverity {
    /// The level as a value of this type.
    pub open spec fn of(base: BaseSeverity) -> LintSeverity {
        match base {
            BaseSeverity::Allow => LintSeverity::Allow,
            BaseSeverity::Warn => LintSeverity::Warn,
            BaseSeverity::Deny => LintSeverity::Deny,
        }
    }

    /// The level that `self` is, unless it describes one.
    pub open spec fn base(self) -> Option<BaseSeverity> {
        match self {
            LintSeverity::Allow => Some(BaseSeverity::Allow),
            LintSeverity::Warn => Some(BaseSeverity::Warn),
            LintSeverity::Deny => Some(BaseSeverity::Deny),
            _ => None,
        }
    }

    /// The text that stands for `self` in a configuration file.
    pub open spec fn text(self) -> Seq<char> {
        match self {
            LintSeverity::Allow => BaseSeverity::Allow.name(),
            LintSeverity::Warn => BaseSeverity::Warn.name(),
            LintSeverity::Deny => BaseSeverity::Deny.name(),
            LintSeverity::Increase(base) => reachable_text(base.above()),
            LintSeverity::Decrease(base) => reachable_text(base.below()),
            LintSeverity::Explain(base, lint, level) => explanation(base, lint, level),
        }
    }

    /// Wraps a level.
    pub fn from_base(base: BaseSeverity) -> (s: LintSeverity)
        ensures
            s == LintSeverity::of(base),
            s.base() == Some(base),
    {
        match base {
            BaseSeverity::Allow => LintSeverity::Allow,
            BaseSeverity::Warn => LintSeverity::Warn,
            BaseSeverity::Deny => LintSeverity::Deny,
        }
    }

    /// Writes `self` as it stands in a configuration file.
    pub fn render(&self) -> (s: String)
        ensures
            s@ == self.text(),
    {
        match self {
            LintSeverity::Allow => BaseSeverity::Allow.as_str().to_owned(),
            LintSeverity::Warn => BaseSeverity::Warn.as_str().to_owned(),
            LintSeverity::Deny => BaseSeverity::Deny.as_str().to_owned(),
            LintSeverity::Increase(base) => render_reachable(&base.stricter()),
            LintSeverity::Decrease(base) => render_reachable(&base.laxer()),
            LintSeverity::Explain(base, lint, level) => explain(*base, *lint, *level),
        }
    }
}

/// Words a list of reachable levels.
pub fn render_reachable(levels: &Vec<BaseSeverity>) -> (s: String)
    ensures
        s@ == reachable_text(levels@),
{
    if levels.len() == 0 {
        NO_VALUE.to_owned()
    } else if levels.len() == 1 {
        let mut s = ONE_VALUE.to_owned();
        s.append(levels[0].as_str());
        s
    } else {
        let mut s = VALUES_OPEN.to_owned();
        let names = join_names(levels);
        s.append(names.as_str());
        s.append(VALUES_CLOSE);
        s
    }
}

/// Writes the justification of a level of a lint under a profile.
pub fn explain(severity: BaseSeverity, lint: Lint, level: ClippyLevel) -> (s: String)
    ensures
        s@ == explanation(severity, lint, level),
{
    let body: Option<&'static str> = match (severity, lint, level) {
        (BaseSeverity::Allow, Lint::AbsolutePaths, ClippyLevel::Novice) => Some(
            ABSOLUTE_PATHS_ALLOW_NOVICE,
        ),
        (BaseSeverity::Allow, Lint::AbsolutePaths, ClippyLevel::Expert) => Some(
            ABSOLUTE_PATHS_ALLOW_EXPERT,
        ),
        (BaseSeverity::Warn, Lint::AbsolutePaths, ClippyLevel::Master) => Some(
            ABSOLUTE_PATHS_WARN_MASTER,
        ),
        _ => None,
    };
    match body {
        Some(text) => {
            let mut s = WHY_OPEN.to_owned();
            s.append(severity.as_str());
            s.append(WHY_FOR);
            s.append(level.as_str());
            s.append(WHY_CLOSE);
            s.append(text);
            s
        },
        None => NO_VALUE.to_owned(),
    }
}

/// The wording of what each level can be raised and lowered to, written out.
pub proof fn lemma_reachable_wording(base: BaseSeverity)
    ensures
        LintSeverity::Increase(base).text() == match base {
            BaseSeverity::Allow => "values : (warn, deny)"@,
            BaseSeverity::Warn => "value : deny"@,
            BaseSeverity::Deny => "value none"@,
        },
        LintSeverity::Decrease(base).text() == match base {
            BaseSeverity::Allow => "value none"@,
            BaseSeverity::Warn => "value : allow"@,
            BaseSeverity::Deny => "values : (allow, warn)"@,
        },
{
    reveal_strlit("value none");
    reveal_strlit("value : ");
    reveal_strlit("values : (");
    reveal_strlit(")");
    reveal_strlit(", ");
    reveal_strlit("allow");
    reveal_strlit("warn");
    reveal_strlit("deny");
    reveal_strlit("values : (warn, deny)");
    reveal_strlit("value : deny");
    reveal_strlit("value : allow");
    reveal_strlit("values : (allow, warn)");
    reveal_strlit("warn, deny");
    reveal_strlit("allow, warn");
    lemma_reachable_levels(base);
    let up = base.above();
    let down = base.below();
    if up.len() == 2 {
        assert(up.drop_last() =~= seq![BaseSeverity::Warn]);
        assert(joined_names(up) =~= "warn, deny"@) by {
            reveal_with_fuel(joined_names, 3);
        }
    }
    if down.len() == 2 {
        assert(down.drop_last() =~= seq![BaseSeverity::Allow]);
        assert(joined_names(down) =~= "allow, warn"@) by {
            reveal_with_fuel(joined_names, 3);
        }
    }
    assert(LintSeverity::Increase(base).text() =~= match base {
        BaseSeverity::Allow => "values : (warn, deny)"@,
        BaseSeverity::Warn => "value : deny"@,
        BaseSeverity::Deny => "value none"@,
    });
    assert(LintSeverity::Decrease(base).text() =~= match base {
        BaseSeverity::Allow => "value none"@,
        BaseSeverity::Warn => "value : allow"@,
        BaseSeverity::Deny => "values : (allow, warn)"@,
    });
}

/// The categories that lints are sorted into.
#[derive(Clone, Copy, Debug, PartialEq, Eq, Structural)]
pub enum LintGroup {
    /// Code style and formatting.
    Style,
    /// Code that is outright wrong.
    Correctness,
    /// Code that could run faster.
    Performance,
    /// Code that is more complex than it needs to be.
    Complexity,
    /// Strict standards and conventions.
    Pedantic,
    /// Language features that a project may want to forbid.
    Restriction,
    /// Code that is most likely wrong.
    Suspicious,
    /// Lints that are still under development.
    Nursery,
    /// Performance optimizations.
    Perf,
}

/// The names of all categories.
pub open spec fn group_names() -> Seq<Seq<char>> {
    seq![
        "style"@,
        "correctness"@,
        "performance"@,
        "complexity"@,
        "pedantic"@,
        "restriction"@,
        "suspicious"@,
        "nursery"@,
        "perf"@,
    ]
}

impl LintGroup {
    /// The name written in a configuration file.
    pub open spec fn name(self) -> Seq<char> {
        match self {
            LintGroup::Style => "style"@,
            LintGroup::Correctness => "correctness"@,
            LintGroup::Performance => "performance"@,
            LintGroup::Complexity => "complexity"@,
            LintGroup::Pedantic => "pedantic"@,
            LintGroup::Restriction => "restriction"@,
            LintGroup::Suspicious => "suspicious"@,
            LintGroup::Nursery => "nursery"@,
            LintGroup::Perf => "perf"@,
        }
    }

    /// The name as a static string slice.
    pub fn as_str(&self) -> (s: &'static str)
        ensures
            s@ == self.name(),
    {
        match self {
            LintGroup::Style => "style",
            LintGroup::Correctness => "correctness",
            LintGroup::Performance => "performance",
            LintGroup::Complexity => "complexity",
            LintGroup::Pedantic => "pedantic",
            LintGroup::Restriction => "restriction",
            LintGroup::Suspicious => "suspicious",
            LintGroup::Nursery => "nursery",
            LintGroup::Perf => "perf",
        }
    }

    /// Writes the name.
    pub fn render(&self) -> (s: String)
        ensures
            s@ == self.name(),
            group_names().contains(s@),
    {
        proof {
            lemma_group_name_known(*self);
        }
        self.as_str().to_owned()
    }
}

/// No two categories are written alike: the name tells which one was meant.
pub proof fn lemma_group_name_unique(a: LintGroup, b: LintGroup)
    ensures
        a.name() == b.name() ==> a == b,
{
    reveal_strlit("style");
    reveal_strlit("correctness");
    reveal_strlit("performance");
    reveal_strlit("complexity");
    reveal_strlit("pedantic");
    reveal_strlit("restriction");
    reveal_strlit("suspicious");
    reveal_strlit("nursery");
    reveal_strlit("perf");
    if a.name().len() == b.name().len() {
        assert(a != b ==> a.name()[0] != b.name()[0] || a.name()[2] != b.name()[2]);
    }
}

/// Every category is written as one of the known category names.
pub proof fn lemma_group_name_known(x: LintGroup)
    ensures
        group_names().contains(x.name()),
{
    match x {
        LintGroup::Style => assert(group_names()[0] == x.name()),
        LintGroup::Correctness => assert(group_names()[1] == x.name()),
        LintGroup::Performance => assert(group_names()[2] == x.name()),
        LintGroup::Complexity => assert(group_names()[3] == x.name()),
        LintGroup::Pedantic => assert(group_names()[4] == x.name()),
        LintGroup::Restriction => assert(group_names()[5] == x.name()),
        LintGroup::Suspicious => assert(group_names()[6] == x.name()),
        LintGroup::Nursery => assert(group_names()[7] == x.name()),
        LintGroup::Perf => assert(group_names()[8] == x.name()),
    }
}

/// How safely the fix that a lint suggests can be applied.
#[derive(Clone, Copy, Debug, PartialEq, Eq, Structural)]
pub enum Applicability {
    /// Nothing is known of the fix.
    Unspecified,
    /// The lint may report where it should not.
    Experimental,
    /// The lint is reliable.
    Stable,
    /// The lint will be removed.
    Deprecated,
    /// The fix can be applied as it is.
    MachineApplicable,
    /// The fix may be wrong.
    MaybeIncorrect,
}

/// The names of all applicability classes.
pub open spec fn applicability_names() -> Seq<Seq<char>> {
    seq![
        "unspecified"@,
        "experimental"@,
        "stable"@,
        "deprecated"@,
        "machine-applicable"@,
        "maybe-incorrect"@,
    ]
}

impl Applicability {
    /// The name written in a configuration file.
    pub open spec fn name(self) -> Seq<char> {
        match self {
            Applicability::Unspecified => "unspecified"@,
            Applicability::Experimental => "experimental"@,
            Applicability::Stable => "stable"@,
            Applicability::Deprecated => "deprecated"@,
            Applicability::MachineApplicable => "machine-applicable"@,
            Applicability::MaybeIncorrect => "maybe-incorrect"@,
        }
    }

    /// The name as a static string slice.
    pub fn as_str(&self) -> (s: &'static str)
        ensures
            s@ == self.name(),
    {
        match self {
            Applicability::Unspecified => "unspecified",
            Applicability::Experimental => "experimental",
            Applicability::Stable => "stable",
            Applicability::Deprecated => "deprecated",
            Applicability::MachineApplicable => "machine-applicable",
            Applicability::MaybeIncorrect => "maybe-incorrect",
        }
    }

    /// Writes the name.
    pub fn render(&self) -> (s: String)
        ensures
            s@ == self.name(),
            applicability_names().contains(s@),
    {
        proof {
            lemma_applicability_name_known(*self);
        }
        self.as_str().to_owned()
    }
}

/// No two applicability classes are written alike: the name tells which one was meant.
pub proof fn lemma_applicability_name_unique(a: Applicability, b: Applicability)
    ensures
        a.name() == b.name() ==> a == b,
{
    reveal_strlit("unspecified");
    reveal_strlit("experimental");
    reveal_strlit("stable");
    reveal_strlit("deprecated");
    reveal_strlit("machine-applicable");
    reveal_strlit("maybe-incorrect");
    if a.name().len() == b.name().len() {
        assert(a != b ==> a.name()[0] != b.name()[0] || a.name()[2] != b.name()[2]);
    }
}

/// Every applicability class is written as one of the known class names.
pub proof fn lemma_applicability_name_known(x: Applicability)
    ensures
        applicability_names().contains(x.name()),
{
    match x {
        Applicability::Unspecified => assert(applicability_names()[0] == x.name()),
        Applicability::Experimental => assert(applicability_names()[1] == x.name()),
        Applicability::Stable => assert(applicability_names()[2] == x.name()),
        Applicability::Deprecated => assert(applicability_names()[3] == x.name()),
        Applicability::MachineApplicable => assert(applicability_names()[4] == x.name()),
        Applicability::MaybeIncorrect => assert(applicability_names()[5] == x.name()),
    }
}

/// The policy for one lint under one profile.
#[derive(Clone, Copy, Debug, PartialEq, Eq)]
pub struct ClippyLint {
    /// The identifier of the lint, without prefix.
    pub id: &'static str,
    /// What the lint looks for.
    pub description: &'static str,
    /// Why what it looks for is bad.
    pub whats_bad: &'static str,
    /// Known problems of the lint, if any.
    pub known_problems: Option<&'static str>,
    /// Whether the lint is on by default.
    pub enabled_by_default: bool,
    /// The level that the tool itself recommends.
    pub default_clippy_severity: LintSeverity,
    /// Whether to defer to the tool's level.
    pub use_clippy_severity: bool,
    /// The level under the profile.
    pub severity: LintSeverity,
    /// The category of the lint.
    pub group: LintGroup,
    /// Where the lint is discussed, if anywhere.
    pub issue: Option<&'static str>,
    /// How safely the suggested fix can be applied.
    pub applicability: Applicability,
    /// What the profile's level can be raised to.
    pub all_increase_config_default_possible_severity: LintSeverity,
    /// What the profile's level can be lowered to.
    pub all_decrease_config_default_possible_severity: LintSeverity,
    /// What the tool's level can be raised to.
    pub all_increase_clippy_default_possible_severity: LintSeverity,
    /// What the tool's level can be lowered to.
    pub all_decrease_clippy_default_possible_severity: LintSeverity,
}

impl ClippyLint {
    /// Both levels are plain levels, and the four descriptions are those of
    /// the level they belong to.
    pub open spec fn wf(self) -> bool {
        &&& self.severity.base() matches Some(config)
        &&& self.default_clippy_severity.base() matches Some(clippy)
        &&& self.all_increase_config_default_possible_severity == LintSeverity::Increase(config)
        &&& self.all_decrease_config_default_possible_severity == LintSeverity::Decrease(config)
        &&& self.all_increase_clippy_default_possible_severity == LintSeverity::Increase(clippy)
        &&& self.all_decrease_clippy_default_possible_severity == LintSeverity::Decrease(clippy)
    }
}

/// Whatever is written for a plain level, a category or an applicability
/// class is one line.
pub proof fn lemma_values_one_line(level: BaseSeverity, group: LintGroup, applicability: Applicability)
    ensures
        one_line(level.name()),
        one_line(group.name()),
        one_line(applicability.name()),
{
    reveal_strlit("allow");
    reveal_strlit("warn");
    reveal_strlit("deny");
    assert(one_line(level.name()));
    reveal_strlit("style");
    reveal_strlit("correctness");
    reveal_strlit("performance");
    reveal_strlit("complexity");
    reveal_strlit("pedantic");
    reveal_strlit("restriction");
    reveal_strlit("suspicious");
    reveal_strlit("nursery");
    reveal_strlit("perf");
    assert(one_line(group.name()));
    reveal_strlit("unspecified");
    reveal_strlit("experimental");
    reveal_strlit("stable");
    reveal_strlit("deprecated");
    reveal_strlit("machine-applicable");
    reveal_strlit("maybe-incorrect");
}

} // verus!
