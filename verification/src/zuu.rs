//! The policy file of a new project: which lint groups are allowed, which
//! warn and which are forbidden, and the checks that run around them.

use vstd::prelude::*;

verus! {

/// The name of the policy file.
pub const ZUU_FILENAME: &'static str = "zuu.toml";

/// The contents of `items`, in order.
pub open spec fn names(items: Seq<String>) -> Seq<Seq<char>> {
    items.map_values(|s: String| s@)
}

/// The lint groups that a project chooses among.
pub open spec fn clippy_group_names() -> Seq<Seq<char>> {
    seq![
        "cargo"@,
        "complexity"@,
        "style"@,
        "nursery"@,
        "pedantic"@,
        "suspicious"@,
        "correctness"@,
        "perf"@,
    ]
}

/// The groups that are allowed where the user does not choose.
pub open spec fn default_allowed_names() -> Seq<Seq<char>> {
    seq!["cargo"@, "pedantic"@]
}

/// The checks that run on a project, in order.
pub open spec fn hook_names() -> Seq<Seq<char>> {
    seq![
        "verify-project"@,
        "check --all-targets --profile=test"@,
        "deny check"@,
        "audit"@,
        "test -j 4 --no-fail-fast -- --show-output"@,
        "fmt --check"@,
        "outdated"@,
    ]
}

/// `items` without those that occur in `taken`, in their old order.
pub open spec fn without(items: Seq<Seq<char>>, taken: Seq<Seq<char>>) -> Seq<Seq<char>> {
    items.filter(|x: Seq<char>| !taken.contains(x))
}

/// `items` with `separator` between each two of them.
pub open spec fn joined(items: Seq<Seq<char>>, separator: Seq<char>) -> Seq<char>
    decreases items.len(),
{
    if items.len() == 0 {
        Seq::empty()
    } else if items.len() == 1 {
        items[0]
    } else {
        joined(items.drop_last(), separator) + separator + items.last()
    }
}

/// A list as it stands in the policy file: the items, separated by commas,
/// between square brackets.
pub open spec fn list_text(items: Seq<Seq<char>>) -> Seq<char> {
    "["@ + joined(items, ", "@) + "]"@
}

/// The text of the policy file, from the four lists as they are to be
/// written: six keys, of which two are always empty.
pub open spec fn policy_text(
    allowed: Seq<Seq<char>>,
    warn: Seq<Seq<char>>,
    forbid: Seq<Seq<char>>,
    hooks: Seq<Seq<char>>,
) -> Seq<char> {
    "allow = "@ + list_text(allowed) + "\nwarn = "@ + list_text(warn) + "\nforbid = "@ + list_text(
        forbid,
    ) + "\nbefore-cargo = []\ncargo = "@ + list_text(hooks) + "\nafter-cargo = []"@
}

/// What the standard library's `Debug` writes for a string slice: the string
/// between double quotes, with escapes where a literal needs them.
pub uninterp spec fn debug_text(s: Seq<char>) -> Seq<char>;

/// Every item of `items` as `Debug` writes it.
pub open spec fn debug_texts(items: Seq<Seq<char>>) -> Seq<Seq<char>> {
    items.map_values(|s: Seq<char>| debug_text(s))
}

/// Formats a string slice with the standard library's `Debug`
/// (`<str as core::fmt::Debug>::fmt`). Not proved: that the text which comes
/// back depends on the characters of the string alone; nothing is claimed of
/// what it holds.
#[verifier::external_body]
fn debug(s: &str) -> (quoted: String)
    ensures
        quoted@ == debug_text(s@),
{
    format!("{:?}", s)
}

/// The lint groups that a project chooses among.
pub fn clippy_groups() -> (groups: Vec<String>)
    ensures
        names(groups@) == clippy_group_names(),
{
    let mut groups: Vec<String> = Vec::new();
    groups.push("cargo".to_owned());
    groups.push("complexity".to_owned());
    groups.push("style".to_owned());
    groups.push("nursery".to_owned());
    groups.push("pedantic".to_owned());
    groups.push("suspicious".to_owned());
    groups.push("correctness".to_owned());
    groups.push("perf".to_owned());
    assert(names(groups@) =~= clippy_group_names());
    groups
}

/// The checks that run on a project, in order.
pub fn hooks() -> (hooks: Vec<String>)
    ensures
        names(hooks@) == hook_names(),
{
    let mut hooks: Vec<String> = Vec::new();
    hooks.push("verify-project".to_owned());
    hooks.push("check --all-targets --profile=test".to_owned());
    hooks.push("deny check".to_owned());
    hooks.push("audit".to_owned());
    hooks.push("test -j 4 --no-fail-fast -- --show-output".to_owned());
    hooks.push("fmt --check".to_owned());
    hooks.push("outdated".to_owned());
    assert(names(hooks@) =~= hook_names());
    hooks
}

/// Whether `x` is among `data`.
pub fn is_among(data: &[String], x: &String) -> (found: bool)
    ensures
        found == names(data@).contains(x@),
{
    let mut i: usize = 0;
    while i < data.len()
        invariant
            i <= data.len(),
            forall|j: int| 0 <= j < i ==> names(data@)[j] != x@,
        decreases data.len() - i,
    {
        if data[i].eq(x) {
            assert(names(data@)[i as int] == x@);
            return true;
        }
        i += 1;
    }
    false
}

/// Takes out of `g` every item that occurs in `data`; the others stay, in
/// their old order.
pub fn decrease(g: &mut Vec<String>, data: &[String])
    ensures
        names(final(g)@) == without(names(old(g)@), names(data@)),
{
    let ghost keep = |x: Seq<char>| !names(data@).contains(x);
    let mut kept: Vec<String> = Vec::new();
    let mut i: usize = 0;
    proof {
        assert(names(g@.take(0)) =~= Seq::<Seq<char>>::empty());
        assert(names(g@.take(0)).filter(keep) =~= Seq::<Seq<char>>::empty()) by {
            reveal(Seq::filter);
        }
    }
    while i < g.len()
        invariant
            i <= g.len(),
            g@ == old(g)@,
            keep == (|x: Seq<char>| !names(data@).contains(x)),
            names(kept@) == names(g@.take(i as int)).filter(keep),
        decreases g.len() - i,
    {
        proof {
            assert(names(g@.take(i + 1)) =~= names(g@.take(i as int)).push(g@[i as int]@));
            names(g@.take(i as int)).lemma_filter_push(g@[i as int]@, keep);
        }
        if !is_among(data, &g[i]) {
            let item = g[i].clone();
            assert(names(kept@.push(item)) =~= names(kept@).push(item@));
            kept.push(item);
        }
        i += 1;
    }
    assert(g@.take(g.len() as int) =~= g@);
    *g = kept;
}

/// The groups that are allowed: those that the user chose, or the default
/// where the user chose nothing.
pub fn allowed_or_default(answer: Option<Vec<String>>) -> (allowed: Vec<String>)
    ensures
        names(allowed@) == match answer {
            Some(chosen) => names(chosen@),
            None => default_allowed_names(),
        },
{
    match answer {
        Some(chosen) => chosen,
        None => {
            let mut allowed: Vec<String> = Vec::new();
            allowed.push("cargo".to_owned());
            allowed.push("pedantic".to_owned());
            assert(names(allowed@) =~= default_allowed_names());
            allowed
        },
    }
}

/// The groups that warn: those that the user chose, or all that are left
/// where the user chose nothing.
pub fn warn_or_default(answer: Option<Vec<String>>, left: &Vec<String>) -> (warn: Vec<String>)
    ensures
        names(warn@) == match answer {
            Some(chosen) => names(chosen@),
            None => names(left@),
        },
{
    match answer {
        Some(chosen) => chosen,
        None => left.clone(),
    }
}

/// Writes `items` with `separator` between each two of them.
pub fn join(items: &[String], separator: &str) -> (out: String)
    ensures
        out@ == joined(names(items@), separator@),
{
    let mut out = String::new();
    let mut i: usize = 0;
    while i < items.len()
        invariant
            i <= items.len(),
            out@ == joined(names(items@).take(i as int), separator@),
        decreases items.len() - i,
    {
        proof {
            let all = names(items@);
            assert(all.take(i + 1).drop_last() =~= all.take(i as int));
            assert(all.take(i + 1).last() == items@[i as int]@);
        }
        if i > 0 {
            out.append(separator);
        } else {
            assert(out@ + items@[0]@ =~= items@[0]@);
        }
        out.append(items[i].as_str());
        i += 1;
    }
    assert(names(items@).take(items.len() as int) =~= names(items@));
    out
}

/// Writes `items` as a list: separated by commas, between square brackets.
pub fn list(items: &[String]) -> (out: String)
    ensures
        out@ == list_text(names(items@)),
{
    let mut out = "[".to_owned();
    out.append(join(items, ", ").as_str());
    out.append("]");
    out
}

/// Writes the policy file from the four lists, each item as it is to stand
/// in the file.
pub fn write_policy(
    allowed: &[String],
    warn: &[String],
    forbid: &[String],
    hooks: &[String],
) -> (text: String)
    ensures
        text@ == policy_text(names(allowed@), names(warn@), names(forbid@), names(hooks@)),
{
    let mut text = "allow = ".to_owned();
    text.append(list(allowed).as_str());
    text.append("\nwarn = ");
    text.append(list(warn).as_str());
    text.append("\nforbid = ");
    text.append(list(forbid).as_str());
    text.append("\nbefore-cargo = []\ncargo = ");
    text.append(list(hooks).as_str());
    text.append("\nafter-cargo = []");
    text
}

/// Every item of `items` as `Debug` writes it.
pub fn debug_all(items: &[String]) -> (quoted: Vec<String>)
    ensures
        names(quoted@) == debug_texts(names(items@)),
{
    let mut quoted: Vec<String> = Vec::new();
    let mut i: usize = 0;
    while i < items.len()
        invariant
            i <= items.len(),
            quoted.len() == i,
            forall|j: int| 0 <= j < i ==> (#[trigger] quoted[j])@ == debug_text(items[j]@),
        decreases items.len() - i,
    {
        quoted.push(debug(items[i].as_str()));
        i += 1;
    }
    assert(names(quoted@) =~= debug_texts(names(items@)));
    quoted
}

/// Writes the policy file of a project that allows `allowed`, warns on
/// `warn` and forbids `forbid`. Every name is written as `Debug` writes it,
/// and so are the checks that run on the project.
pub fn generate_zuu(allowed: &[String], warn: &[String], forbid: &[String]) -> (text: String)
    ensures
        text@ == policy_text(
            debug_texts(names(allowed@)),
            debug_texts(names(warn@)),
            debug_texts(names(forbid@)),
            debug_texts(hook_names()),
        ),
{
    let checks = hooks();
    write_policy(
        debug_all(allowed).as_slice(),
        debug_all(warn).as_slice(),
        debug_all(forbid).as_slice(),
        debug_all(checks.as_slice()).as_slice(),
    )
}

/// The choice of a project: the groups it allows, those it warns on, and
/// those that are left, which it forbids.
#[derive(Debug, PartialEq, Eq)]
pub struct Selection {
    pub allowed: Vec<String>,
    pub warn: Vec<String>,
    pub forbid: Vec<String>,
}

impl Selection {
    /// Before any choice: every group is still on offer.
    pub fn start() -> (selection: Selection)
        ensures
            names(selection.allowed@) == Seq::<Seq<char>>::empty(),
            names(selection.warn@) == Seq::<Seq<char>>::empty(),
            names(selection.forbid@) == clippy_group_names(),
    {
        let selection = Selection { allowed: Vec::new(), warn: Vec::new(), forbid: clippy_groups() };
        assert(names(selection.allowed@) =~= Seq::<Seq<char>>::empty());
        assert(names(selection.warn@) =~= Seq::<Seq<char>>::empty());
        selection
    }

    /// Takes the answer to the question which groups are allowed: those
    /// chosen, or the default where nothing was chosen. They are no longer
    /// on offer.
    pub fn allow(&mut self, answer: Option<Vec<String>>)
        ensures
            names(final(self).allowed@) == match answer {
                Some(chosen) => names(chosen@),
                None => default_allowed_names(),
            },
            names(final(self).warn@) == names(old(self).warn@),
            names(final(self).forbid@) == without(
                names(old(self).forbid@),
                names(final(self).allowed@),
            ),
    {
        let allowed = allowed_or_default(answer);
        decrease(&mut self.forbid, allowed.as_slice());
        self.allowed = allowed;
    }

    /// Takes the answer to the question which groups warn: those chosen, or
    /// all that are still on offer where nothing was chosen. What is then
    /// left is forbidden.
    pub fn warn(&mut self, answer: Option<Vec<String>>)
        ensures
            names(final(self).allowed@) == names(old(self).allowed@),
            names(final(self).warn@) == match answer {
                Some(chosen) => names(chosen@),
                None => names(old(self).forbid@),
            },
            names(final(self).forbid@) == without(
                names(old(self).forbid@),
                names(final(self).warn@),
            ),
    {
        let warn = warn_or_default(answer, &self.forbid);
        decrease(&mut self.forbid, warn.as_slice());
        self.warn = warn;
    }

    /// Writes the policy file of the choice.
    pub fn render(&self) -> (text: String)
        ensures
            text@ == policy_text(
                debug_texts(names(self.allowed@)),
                debug_texts(names(self.warn@)),
                debug_texts(names(self.forbid@)),
                debug_texts(hook_names()),
            ),
    {
        generate_zuu(self.allowed.as_slice(), self.warn.as_slice(), self.forbid.as_slice())
    }
}

/// What is left after two rounds of taking out is in neither of the two
/// lists taken out, and was there before.
pub proof fn lemma_forbidden_apart(
    groups: Seq<Seq<char>>,
    allowed: Seq<Seq<char>>,
    warn: Seq<Seq<char>>,
)
    ensures
        forall|x: Seq<char>| #[trigger]
            without(without(groups, allowed), warn).contains(x) ==> groups.contains(x)
                && !allowed.contains(x) && !warn.contains(x),
        forall|x: Seq<char>|
            groups.contains(x) && !allowed.contains(x) && !warn.contains(x) ==> #[trigger] without(
                without(groups, allowed),
                warn,
            ).contains(x),
{
    let keep_a = |x: Seq<char>| !allowed.contains(x);
    let keep_w = |x: Seq<char>| !warn.contains(x);
    let left = groups.filter(keep_a);
    let last = left.filter(keep_w);
    assert forall|x: Seq<char>| #[trigger] last.contains(x) implies groups.contains(x)
        && !allowed.contains(x) && !warn.contains(x) by {
        let i = choose|i: int| 0 <= i < last.len() && last[i] == x;
        left.lemma_filter_pred(keep_w, i);
        left.lemma_filter_contains_rev(keep_w, x);
        let j = choose|j: int| 0 <= j < left.len() && left[j] == x;
        groups.lemma_filter_pred(keep_a, j);
        groups.lemma_filter_contains_rev(keep_a, x);
    }
    assert forall|x: Seq<char>|
        groups.contains(x) && !allowed.contains(x) && !warn.contains(x) implies #[trigger] last.contains(
        x,
    ) by {
        let k = choose|k: int| 0 <= k < groups.len() && groups[k] == x;
        groups.lemma_filter_contains(keep_a, k);
        let m = choose|m: int| 0 <= m < left.len() && left[m] == x;
        left.lemma_filter_contains(keep_w, m);
    }
}

} // verus!
