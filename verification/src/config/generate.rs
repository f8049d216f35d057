//! The text of a brief configuration file: one table per lint.

use crate::clippy::model::ClippyLevel;
use crate::config::{
    applicability_names, group_names, lemma_applicability_name_known, lemma_group_name_known,
    lemma_values_one_line, Lint, DOC_BASE_LINK, ISSUE_BASE_LINK,
};
use crate::lints::{catalog, catalog_for, lemma_catalog_ids_one_line};
use crate::output::{filename, filename_for, holds_profiles, ConfigFile};
use crate::text::{
    comment_line, header_line, key_line, lemma_comment_whole_lines, lemma_concat_one_line,
    lemma_header_whole_lines, lemma_key_whole_lines, lemma_quoted_one_line,
    lemma_whole_lines_concat, one_line, quote, quoted, whole_lines, write_comment, write_header,
    write_key,
};
use vstd::prelude::*;

verus! {

/// The keys of a lint's table.
pub open spec fn table_keys() -> Seq<Seq<char>> {
    seq!["group"@, "applicability"@, "severity"@, "issue"@, "info"@]
}

/// The comment above a lint's table: what the lint looks for, every line of
/// it inside the comment.
pub open spec fn heading_text(lint: Lint) -> Seq<char> {
    comment_line(lint.description@)
}

/// A level between what it can be lowered and raised to.
pub open spec fn reach_text(decrease: Seq<char>, severity: Seq<char>, increase: Seq<char>) -> Seq<
    char,
> {
    decrease + " < "@ + severity + " > "@ + increase
}

/// Where the issues of the lint `id` are found.
pub open spec fn issue_link(id: Seq<char>) -> Seq<char> {
    ISSUE_BASE_LINK@ + "+"@ + id
}

/// Where the lint `id` is documented.
pub open spec fn info_link(id: Seq<char>) -> Seq<char> {
    DOC_BASE_LINK@ + "/"@ + id
}

/// A lint's table: a header with its id; the category and the applicability
/// class; a comment with the level between what it can be lowered and raised
/// to; the level; and the two addresses of the lint.
pub open spec fn table_text(
    id: Seq<char>,
    group: Seq<char>,
    applicability: Seq<char>,
    decrease: Seq<char>,
    severity: Seq<char>,
    increase: Seq<char>,
) -> Seq<char> {
    header_line(id) + key_line("group"@, quoted(group)) + key_line(
        "applicability"@,
        quoted(applicability),
    ) + comment_line(reach_text(decrease, severity, increase)) + key_line(
        "severity"@,
        quoted(severity),
    ) + key_line("issue"@, quoted(issue_link(id))) + key_line("info"@, quoted(info_link(id)))
}

/// The table of `lint`.
pub open spec fn lint_table(lint: Lint) -> Seq<char> {
    table_text(
        lint.id@,
        lint.group.name(),
        lint.applicability.name(),
        lint.decrease.text(),
        lint.severity.text(),
        lint.increase.text(),
    )
}

/// The whole entry of a lint: heading, then table.
pub open spec fn stanza_text(lint: Lint) -> Seq<char> {
    heading_text(lint) + lint_table(lint)
}

/// The text of a file that holds `lints`: their entries, in order.
pub open spec fn file_text(lints: Seq<Lint>) -> Seq<char>
    decreases lints.len(),
{
    if lints.len() == 0 {
        Seq::empty()
    } else {
        file_text(lints.drop_last()) + stanza_text(lints.last())
    }
}

fn quoted_key(key: &str, value: &str) -> (line: String)
    ensures
        line@ == key_line(key@, quoted(value@)),
{
    write_key(key, quote(value).as_str())
}

fn table(lint: &Lint) -> (s: String)
    ensures
        s@ == lint_table(*lint),
{
    let severity = lint.severity.render();
    let mut reach = lint.decrease.render();
    reach.append(" < ");
    reach.append(severity.as_str());
    reach.append(" > ");
    reach.append(lint.increase.render().as_str());
    let mut issue = ISSUE_BASE_LINK.to_owned();
    issue.append("+");
    issue.append(lint.id);
    let mut info = DOC_BASE_LINK.to_owned();
    info.append("/");
    info.append(lint.id);

    let mut s = write_header(lint.id);
    s.append(quoted_key("group", lint.group.as_str()).as_str());
    s.append(quoted_key("applicability", lint.applicability.as_str()).as_str());
    s.append(write_comment(reach.as_str()).as_str());
    s.append(quoted_key("severity", severity.as_str()).as_str());
    s.append(quoted_key("issue", issue.as_str()).as_str());
    s.append(quoted_key("info", info.as_str()).as_str());
    s
}

/// Writes the whole entry of a lint.
pub fn stanza(lint: &Lint) -> (s: String)
    ensures
        s@ == stanza_text(*lint),
{
    let mut s = write_comment(lint.description);
    s.append(table(lint).as_str());
    s
}

/// Writes the text of the configuration file that holds `lints`: one entry
/// per lint, in the order given. Without lints the text is empty.
pub fn generate(lints: &[Lint]) -> (text: String)
    ensures
        text@ == file_text(lints@),
        lints@.len() == 0 ==> text@ == Seq::<char>::empty(),
{
    let mut text = String::new();
    let mut i: usize = 0;
    while i < lints.len()
        invariant
            i <= lints.len(),
            text@ == file_text(lints@.take(i as int)),
        decreases lints.len() - i,
    {
        proof {
            assert(lints@.take(i + 1).drop_last() =~= lints@.take(i as int));
            assert(lints@.take(i + 1).last() == lints@[i as int]);
        }
        let entry = stanza(&lints[i]);
        text.append(entry.as_str());
        i += 1;
    }
    assert(lints@.take(lints.len() as int) =~= lints@);
    text
}

/// Writes the configuration file for `level`.
pub fn config_file_for(level: ClippyLevel) -> (file: ConfigFile)
    ensures
        file.filename == filename_for(level),
        file.contents@ == file_text(catalog(level)),
{
    let lints = catalog_for(&level);
    let contents = generate(lints.as_slice());
    ConfigFile { filename: filename(&level), contents }
}

/// Writes the configuration files of the three profiles: novice, expert,
/// master, in that order. The result depends on nothing but the table of
/// lints.
pub fn configure() -> (files: Vec<ConfigFile>)
    ensures
        holds_profiles(files@, |level: ClippyLevel| file_text(catalog(level))),
{
    let mut files: Vec<ConfigFile> = Vec::new();
    files.push(config_file_for(ClippyLevel::Novice));
    files.push(config_file_for(ClippyLevel::Expert));
    files.push(config_file_for(ClippyLevel::Master));
    files
}

/// Whatever the lint, its table names a known category and a known
/// applicability class, and the entry of the lint ends with that table.
pub proof fn lemma_table_names_known(lint: Lint)
    ensures
        group_names().contains(lint.group.name()),
        applicability_names().contains(lint.applicability.name()),
        stanza_text(lint) == heading_text(lint) + table_text(
            lint.id@,
            lint.group.name(),
            lint.applicability.name(),
            lint.decrease.text(),
            lint.severity.text(),
            lint.increase.text(),
        ),
{
    lemma_group_name_known(lint.group);
    lemma_applicability_name_known(lint.applicability);
}

/// Commentary never leaves its comment: whatever a lint's description holds,
/// every line of its entry is a comment, the table header, or one of the
/// keys of the table with its value, as long as the id is one line.
pub proof fn lemma_stanza_whole_lines(lint: Lint)
    requires
        one_line(lint.id@),
    ensures
        whole_lines(stanza_text(lint), table_keys()),
{
    let keys = table_keys();
    let id = lint.id@;
    lemma_values_one_line(lint.severity, lint.group, lint.applicability);
    reveal_strlit("group");
    reveal_strlit("applicability");
    reveal_strlit("severity");
    reveal_strlit("issue");
    reveal_strlit("info");
    reveal_strlit("+");
    reveal_strlit("/");
    assert(keys[0] == "group"@ && keys[1] == "applicability"@ && keys[2] == "severity"@ && keys[3]
        == "issue"@ && keys[4] == "info"@);
    lemma_concat_one_line(ISSUE_BASE_LINK@, "+"@);
    lemma_concat_one_line(ISSUE_BASE_LINK@ + "+"@, id);
    lemma_concat_one_line(DOC_BASE_LINK@, "/"@);
    lemma_concat_one_line(DOC_BASE_LINK@ + "/"@, id);
    lemma_quoted_one_line(lint.group.name());
    lemma_quoted_one_line(lint.applicability.name());
    lemma_quoted_one_line(lint.severity.text());
    lemma_quoted_one_line(issue_link(id));
    lemma_quoted_one_line(info_link(id));

    let l0 = heading_text(lint);
    let l1 = header_line(id);
    let l2 = key_line("group"@, quoted(lint.group.name()));
    let l3 = key_line("applicability"@, quoted(lint.applicability.name()));
    let l4 = comment_line(reach_text(lint.decrease.text(), lint.severity.text(), lint.increase.text()));
    let l5 = key_line("severity"@, quoted(lint.severity.text()));
    let l6 = key_line("issue"@, quoted(issue_link(id)));
    let l7 = key_line("info"@, quoted(info_link(id)));
    lemma_comment_whole_lines(lint.description@, keys);
    lemma_header_whole_lines(id, keys);
    lemma_key_whole_lines("group"@, quoted(lint.group.name()), keys);
    lemma_key_whole_lines("applicability"@, quoted(lint.applicability.name()), keys);
    lemma_comment_whole_lines(
        reach_text(lint.decrease.text(), lint.severity.text(), lint.increase.text()),
        keys,
    );
    lemma_key_whole_lines("severity"@, quoted(lint.severity.text()), keys);
    lemma_key_whole_lines("issue"@, quoted(issue_link(id)), keys);
    lemma_key_whole_lines("info"@, quoted(info_link(id)), keys);
    lemma_whole_lines_concat(l1, l2, keys);
    lemma_whole_lines_concat(l1 + l2, l3, keys);
    lemma_whole_lines_concat(l1 + l2 + l3, l4, keys);
    lemma_whole_lines_concat(l1 + l2 + l3 + l4, l5, keys);
    lemma_whole_lines_concat(l1 + l2 + l3 + l4 + l5, l6, keys);
    lemma_whole_lines_concat(l1 + l2 + l3 + l4 + l5 + l6, l7, keys);
    lemma_whole_lines_concat(l0, lint_table(lint), keys);
}

/// Every line of a file is empty, a comment, a table header, or one of the
/// keys of a table with its value, as long as every id is one line.
pub proof fn lemma_file_whole_lines(lints: Seq<Lint>)
    requires
        forall|i: int| 0 <= i < lints.len() ==> one_line((#[trigger] lints[i]).id@),
    ensures
        whole_lines(file_text(lints), table_keys()),
    decreases lints.len(),
{
    if lints.len() > 0 {
        lemma_file_whole_lines(lints.drop_last());
        lemma_stanza_whole_lines(lints.last());
        lemma_whole_lines_concat(
            file_text(lints.drop_last()),
            stanza_text(lints.last()),
            table_keys(),
        );
    }
}

/// The file of every profile is made of such lines.
pub proof fn lemma_catalog_whole_lines(level: ClippyLevel)
    ensures
        whole_lines(file_text(catalog(level)), table_keys()),
{
    lemma_catalog_ids_one_line(level);
    lemma_file_whole_lines(catalog(level));
}

} // verus!
