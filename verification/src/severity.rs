//! The three enforcement levels and their strictness order.

use vstd::prelude::*;

verus! {

/// An enforcement level that a lint can actually be set to.
///
/// The levels are ordered by strictness: `Allow < Warn < Deny`.
#[derive(Clone, Copy, Debug, PartialEq, Eq, Structural)]
pub enum BaseSeverity {
    /// The lint reports nothing.
    Allow,
    /// The lint reports without blocking.
    Warn,
    /// The lint reports and blocks.
    Deny,
}

/// All levels, from the most lenient to the strictest.
pub open spec fn all_levels() -> Seq<BaseSeverity> {
    seq![BaseSeverity::Allow, BaseSeverity::Warn, BaseSeverity::Deny]
}

/// What stands between two names in a list of levels.
pub const NAME_SEPARATOR: &'static str = ", ";

/// The names of `levels`, in order, separated by commas.
pub open spec fn joined_names(levels: Seq<BaseSeverity>) -> Seq<char>
    decreases levels.len(),
{
    if levels.len() == 0 {
        Seq::empty()
    } else if levels.len() == 1 {
        levels[0].name()
    } else {
        joined_names(levels.drop_last()) + NAME_SEPARATOR@ + levels.last().name()
    }
}

impl BaseSeverity {
    /// Position in the strictness order.
    pub open spec fn rank(self) -> nat {
        match self {
            BaseSeverity::Allow => 0,
            BaseSeverity::Warn => 1,
            BaseSeverity::Deny => 2,
        }
    }

    /// The lowercase name of the level.
    pub open spec fn name(self) -> Seq<char> {
        match self {
            BaseSeverity::Allow => "allow"@,
            BaseSeverity::Warn => "warn"@,
            BaseSeverity::Deny => "deny"@,
        }
    }

    /// The levels strictly above `self`, in strictness order.
    pub open spec fn above(self) -> Seq<BaseSeverity> {
        all_levels().subrange(self.rank() as int + 1, 3)
    }

    /// The levels strictly below `self`, in strictness order.
    pub open spec fn below(self) -> Seq<BaseSeverity> {
        all_levels().subrange(0, self.rank() as int)
    }

    /// The name as a static string slice.
    pub fn as_str(&self) -> (s: &'static str)
        ensures
            s@ == self.name(),
    {
        match self {
            BaseSeverity::Allow => "allow",
            BaseSeverity::Warn => "warn",
            BaseSeverity::Deny => "deny",
        }
    }

    /// The levels that a lint set to `self` can be raised to.
    pub fn stricter(&self) -> (v: Vec<BaseSeverity>)
        ensures
            v@ == self.above(),
    {
        proof {
            lemma_reachable_levels(*self);
        }
        match self {
            BaseSeverity::Allow => vec![BaseSeverity::Warn, BaseSeverity::Deny],
            BaseSeverity::Warn => vec![BaseSeverity::Deny],
            BaseSeverity::Deny => Vec::new(),
        }
    }

    /// The levels that a lint set to `self` can be lowered to.
    pub fn laxer(&self) -> (v: Vec<BaseSeverity>)
        ensures
            v@ == self.below(),
    {
        proof {
            lemma_reachable_levels(*self);
        }
        match self {
            BaseSeverity::Allow => Vec::new(),
            BaseSeverity::Warn => vec![BaseSeverity::Allow],
            BaseSeverity::Deny => vec![BaseSeverity::Allow, BaseSeverity::Warn],
        }
    }
}

/// Writes the names of `levels`, in order, separated by commas.
pub fn join_names(levels: &Vec<BaseSeverity>) -> (out: String)
    ensures
        out@ == joined_names(levels@),
{
    let mut out = String::new();
    let mut i: usize = 0;
    while i < levels.len()
        invariant
            i <= levels.len(),
            out@ == joined_names(levels@.take(i as int)),
        decreases levels.len() - i,
    {
        proof {
            assert(levels@.take(i + 1).drop_last() =~= levels@.take(i as int));
            assert(levels@.take(i + 1).last() == levels@[i as int]);
        }
        if i > 0 {
            out.append(NAME_SEPARATOR);
        } else {
            assert(out@ + levels@[0].name() =~= levels@[0].name());
        }
        out.append(levels[i].as_str());
        i += 1;
    }
    assert(levels@.take(levels.len() as int) =~= levels@);
    out
}

/// The levels above and below each level, written out.
pub proof fn lemma_reachable_levels(s: BaseSeverity)
    ensures
        s.above() == match s {
            BaseSeverity::Allow => seq![BaseSeverity::Warn, BaseSeverity::Deny],
            BaseSeverity::Warn => seq![BaseSeverity::Deny],
            BaseSeverity::Deny => Seq::<BaseSeverity>::empty(),
        },
        s.below() == match s {
            BaseSeverity::Allow => Seq::<BaseSeverity>::empty(),
            BaseSeverity::Warn => seq![BaseSeverity::Allow],
            BaseSeverity::Deny => seq![BaseSeverity::Allow, BaseSeverity::Warn],
        },
{
    match s {
        BaseSeverity::Allow => {
            assert(s.above() =~= seq![BaseSeverity::Warn, BaseSeverity::Deny]);
            assert(s.below() =~= Seq::<BaseSeverity>::empty());
        },
        BaseSeverity::Warn => {
            assert(s.above() =~= seq![BaseSeverity::Deny]);
            assert(s.below() =~= seq![BaseSeverity::Allow]);
        },
        BaseSeverity::Deny => {
            assert(s.above() =~= Seq::<BaseSeverity>::empty());
            assert(s.below() =~= seq![BaseSeverity::Allow, BaseSeverity::Warn]);
        },
    }
}

/// Raising and lowering mirror each other: the levels below a level, the
/// level itself and the levels above it are all levels in order, so a level
/// is never among those it can be raised or lowered to; a level can be raised
/// to exactly the stricter ones and lowered to exactly the laxer ones;
/// nothing lies above `Deny` and nothing lies below `Allow`.
pub proof fn lemma_above_below_partition(s: BaseSeverity)
    ensures
        s.below() + seq![s] + s.above() == all_levels(),
        !s.above().contains(s),
        !s.below().contains(s),
        forall|l: BaseSeverity| s.above().contains(l) <==> l.rank() > s.rank(),
        forall|l: BaseSeverity| s.below().contains(l) <==> l.rank() < s.rank(),
        forall|l: BaseSeverity| s.above().contains(l) <==> l.below().contains(s),
        BaseSeverity::Deny.above() == Seq::<BaseSeverity>::empty(),
        BaseSeverity::Allow.below() == Seq::<BaseSeverity>::empty(),
{
    assert(s.below() + seq![s] + s.above() =~= all_levels());
    assert(BaseSeverity::Deny.above() =~= Seq::<BaseSeverity>::empty());
    assert(BaseSeverity::Allow.below() =~= Seq::<BaseSeverity>::empty());
    assert forall|a: BaseSeverity, b: BaseSeverity| a.above().contains(b) <==> b.rank() > a.rank() by {
        if b.rank() > a.rank() {
            assert(a.above()[b.rank() - a.rank() - 1] == b);
        }
    }
    assert forall|a: BaseSeverity, b: BaseSeverity| a.below().contains(b) <==> b.rank() < a.rank() by {
        if b.rank() < a.rank() {
            assert(a.below()[b.rank() as int] == b);
        }
    }
}

} // verus!
