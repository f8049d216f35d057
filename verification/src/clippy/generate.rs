//! The text of a configuration file: one commented table per lint.

use crate::clippy::lints::{catalog, catalog_for, lemma_catalog_ids_one_line};
use crate::clippy::model::{
    applicability_names, group_names, lemma_applicability_name_known, lemma_group_name_known,
    lemma_values_one_line, ClippyLevel, ClippyLint, ID_PREFIX,
};
use crate::output::{filename, filename_for, holds_profiles, ConfigFile};
use crate::text::{
    comment_line, flag_str, flag_text, header_line, key_line, lemma_comment_whole_lines,
    lemma_header_whole_lines, lemma_key_whole_lines, lemma_quoted_one_line,
    lemma_whole_lines_concat, one_line, quote, quoted, whole_lines, write_comment, write_header,
    write_key,
};
use vstd::prelude::*;

verus! {

/// A comment line that holds nothing.
pub const BLANK_COMMENT: &'static str = "#\n";

/// The keys of a lint's table.
pub open spec fn table_keys() -> Seq<Seq<char>> {
    seq![
        "group"@,
        "applicability"@,
        "enabled"@,
        "config-severity"@,
        "clippy-severity"@,
        "use-clippy-severity"@,
    ]
}

/// The comment that opens a lint's entry: its full name, what it looks for,
/// and why that is bad, every line of each inside the comment.
pub open spec fn heading_text(lint: ClippyLint) -> Seq<char> {
    BLANK_COMMENT@ + comment_line("Lint "@ + ID_PREFIX@ + lint.id@) + BLANK_COMMENT@ + comment_line(
        lint.description@,
    ) + BLANK_COMMENT@ + comment_line(lint.whats_bad@)
}

/// The comment that says where a lint is discussed, if anywhere.
pub open spec fn issue_text(issue: Option<&'static str>) -> Seq<char> {
    match issue {
        Some(uri) => BLANK_COMMENT@ + comment_line("Issue : "@ + uri@) + BLANK_COMMENT@,
        None => Seq::empty(),
    }
}

/// The comment that says what the tool's level and the profile's level can
/// be lowered and raised to.
pub open spec fn reachable_block(lint: ClippyLint) -> Seq<char> {
    comment_line(
        "Clippy decrease possible "@ + lint.all_decrease_clippy_default_possible_severity.text(),
    ) + BLANK_COMMENT@ + comment_line(
        "Clippy increase possible "@ + lint.all_increase_clippy_default_possible_severity.text(),
    ) + BLANK_COMMENT@ + comment_line(
        "Default configuration decrease possible "@
            + lint.all_decrease_config_default_possible_severity.text(),
    ) + BLANK_COMMENT@ + comment_line(
        "Default configuration increase possible "@
            + lint.all_increase_config_default_possible_severity.text(),
    ) + BLANK_COMMENT@
}

/// A lint's table: a header with its id, six keys, and a blank line.
pub open spec fn table_text(
    id: Seq<char>,
    group: Seq<char>,
    applicability: Seq<char>,
    enabled: bool,
    config_severity: Seq<char>,
    clippy_severity: Seq<char>,
    use_clippy_severity: bool,
) -> Seq<char> {
    header_line(id) + key_line("group"@, quoted(group)) + key_line(
        "applicability"@,
        quoted(applicability),
    ) + key_line("enabled"@, flag_text(enabled)) + key_line(
        "config-severity"@,
        quoted(config_severity),
    ) + key_line("clippy-severity"@, quoted(clippy_severity)) + key_line(
        "use-clippy-severity"@,
        flag_text(use_clippy_severity),
    ) + "\n"@
}

/// The table of `lint`.
pub open spec fn lint_table(lint: ClippyLint) -> Seq<char> {
    table_text(
        lint.id@,
        lint.group.name(),
        lint.applicability.name(),
        lint.enabled_by_default,
        lint.severity.text(),
        lint.default_clippy_severity.text(),
        lint.use_clippy_severity,
    )
}

/// The whole entry of a lint: heading, issue, reachable levels, table.
pub open spec fn stanza_text(lint: ClippyLint) -> Seq<char> {
    heading_text(lint) + issue_text(lint.issue) + reachable_block(lint) + lint_table(lint)
}

/// The text of a file that holds `lints`: their entries, in order.
pub open spec fn file_text(lints: Seq<ClippyLint>) -> Seq<char>
    decreases lints.len(),
{
    if lints.len() == 0 {
        Seq::empty()
    } else {
        file_text(lints.drop_last()) + stanza_text(lints.last())
    }
}

fn labelled_comment(label: &str, body: &str) -> (line: String)
    ensures
        line@ == comment_line(label@ + body@),
{
    let mut whole = label.to_owned();
    whole.append(body);
    write_comment(whole.as_str())
}

fn quoted_key(key: &str, value: &str) -> (line: String)
    ensures
        line@ == key_line(key@, quoted(value@)),
{
    write_key(key, quote(value).as_str())
}

fn heading(lint: &ClippyLint) -> (s: String)
    ensures
        s@ == heading_text(*lint),
{
    let mut name = "Lint ".to_owned();
    name.append(ID_PREFIX);
    name.append(lint.id);
    let mut s = BLANK_COMMENT.to_owned();
    s.append(write_comment(name.as_str()).as_str());
    s.append(BLANK_COMMENT);
    s.append(write_comment(lint.description).as_str());
    s.append(BLANK_COMMENT);
    s.append(write_comment(lint.whats_bad).as_str());
    s
}

fn issue(link: Option<&'static str>) -> (s: String)
    ensures
        s@ == issue_text(link),
{
    match link {
        Some(uri) => {
            let mut s = BLANK_COMMENT.to_owned();
            s.append(labelled_comment("Issue : ", uri).as_str());
            s.append(BLANK_COMMENT);
            s
        },
        None => String::new(),
    }
}

fn reachable(lint: &ClippyLint) -> (s: String)
    ensures
        s@ == reachable_block(*lint),
{
    let mut s = labelled_comment(
        "Clippy decrease possible ",
        lint.all_decrease_clippy_default_possible_severity.render().as_str(),
    );
    s.append(BLANK_COMMENT);
    s.append(
        labelled_comment(
            "Clippy increase possible ",
            lint.all_increase_clippy_default_possible_severity.render().as_str(),
        ).as_str(),
    );
    s.append(BLANK_COMMENT);
    s.append(
        labelled_comment(
            "Default configuration decrease possible ",
            lint.all_decrease_config_default_possible_severity.render().as_str(),
        ).as_str(),
    );
    s.append(BLANK_COMMENT);
    s.append(
        labelled_comment(
            "Default configuration increase possible ",
            lint.all_increase_config_default_possible_severity.render().as_str(),
        ).as_str(),
    );
    s.append(BLANK_COMMENT);
    s
}

fn table(lint: &ClippyLint) -> (s: String)
    ensures
        s@ == lint_table(*lint),
{
    let mut s = write_header(lint.id);
    s.append(quoted_key("group", lint.group.as_str()).as_str());
    s.append(quoted_key("applicability", lint.applicability.as_str()).as_str());
    s.append(write_key("enabled", flag_str(lint.enabled_by_default)).as_str());
    s.append(quoted_key("config-severity", lint.severity.render().as_str()).as_str());
    s.append(quoted_key("clippy-severity", lint.default_clippy_severity.render().as_str()).as_str());
    s.append(write_key("use-clippy-severity", flag_str(lint.use_clippy_severity)).as_str());
    s.append("\n");
    s
}

/// Writes the whole entry of a lint.
pub fn stanza(lint: &ClippyLint) -> (s: String)
    ensures
        s@ == stanza_text(*lint),
{
    let mut s = heading(lint);
    s.append(issue(lint.issue).as_str());
    s.append(reachable(lint).as_str());
    s.append(table(lint).as_str());
    s
}

/// Writes the text of the configuration file that holds `lints`: one entry
/// per lint, in the order given. Without lints the text is empty.
pub fn generate_config_file(lints: &[ClippyLint]) -> (text: String)
    ensures
        text@ == file_text(lints@),
        lints@.len() == 0 ==> text@ == Seq::<char>::empty(),
{
    let mut text = String::new();
    let mut i: usize = 0;
    while i < lints.len()
        invariant
            i <= lints.len(),
            text@ == file_text(lints@.take(i as int)),
        decreases lints.len() - i,
    {
        proof {
            assert(lints@.take(i + 1).drop_last() =~= lints@.take(i as int));
            assert(lints@.take(i + 1).last() == lints@[i as int]);
        }
        let entry = stanza(&lints[i]);
        text.append(entry.as_str());
        i += 1;
    }
    assert(lints@.take(lints.len() as int) =~= lints@);
    text
}

/// Writes the configuration file for `level`.
pub fn config_file_for(level: ClippyLevel) -> (file: ConfigFile)
    ensures
        file.filename == filename_for(level),
        file.contents@ == file_text(catalog(level)),
{
    let lints = catalog_for(&level);
    let contents = generate_config_file(lints.as_slice());
    ConfigFile { filename: filename(&level), contents }
}

/// Writes the configuration files of the three profiles: novice, expert,
/// master, in that order. The result depends on nothing but the table of
/// policies.
pub fn generate_config() -> (files: Vec<ConfigFile>)
    ensures
        holds_profiles(files@, |level: ClippyLevel| file_text(catalog(level))),
{
    let mut files: Vec<ConfigFile> = Vec::new();
    files.push(config_file_for(ClippyLevel::Novice));
    files.push(config_file_for(ClippyLevel::Expert));
    files.push(config_file_for(ClippyLevel::Master));
    files
}

/// Whatever the lint, its table names a known category and a known
/// applicability class, and the entry of the lint ends with that table.
pub proof fn lemma_table_names_known(lint: ClippyLint)
    ensures
        group_names().contains(lint.group.name()),
        applicability_names().contains(lint.applicability.name()),
        stanza_text(lint) == heading_text(lint) + issue_text(lint.issue) + reachable_block(lint)
            + table_text(
            lint.id@,
            lint.group.name(),
            lint.applicability.name(),
            lint.enabled_by_default,
            lint.severity.text(),
            lint.default_clippy_severity.text(),
            lint.use_clippy_severity,
        ),
{
    lemma_group_name_known(lint.group);
    lemma_applicability_name_known(lint.applicability);
}

/// In the table of a well-formed record both levels are written as the
/// names of plain levels.
pub proof fn lemma_table_levels_plain(lint: ClippyLint)
    requires
        lint.wf(),
    ensures
        lint.severity.text() == lint.severity.base()->0.name(),
        lint.default_clippy_severity.text() == lint.default_clippy_severity.base()->0.name(),
{
}

proof fn lemma_blank_comment_whole_lines(keys: Seq<Seq<char>>)
    ensures
        whole_lines(BLANK_COMMENT@, keys),
        whole_lines("\n"@, keys),
{
    reveal_strlit("#\n");
    reveal_strlit("\n");
}

proof fn lemma_heading_whole_lines(lint: ClippyLint)
    ensures
        whole_lines(heading_text(lint), table_keys()),
        whole_lines(issue_text(lint.issue), table_keys()),
        whole_lines(reachable_block(lint), table_keys()),
{
    let keys = table_keys();
    let blank = BLANK_COMMENT@;
    lemma_blank_comment_whole_lines(keys);
    let name = comment_line("Lint "@ + ID_PREFIX@ + lint.id@);
    let what = comment_line(lint.description@);
    let why = comment_line(lint.whats_bad@);
    lemma_comment_whole_lines("Lint "@ + ID_PREFIX@ + lint.id@, keys);
    lemma_comment_whole_lines(lint.description@, keys);
    lemma_comment_whole_lines(lint.whats_bad@, keys);
    lemma_whole_lines_concat(blank, name, keys);
    lemma_whole_lines_concat(blank + name, blank, keys);
    lemma_whole_lines_concat(blank + name + blank, what, keys);
    lemma_whole_lines_concat(blank + name + blank + what, blank, keys);
    lemma_whole_lines_concat(blank + name + blank + what + blank, why, keys);
    match lint.issue {
        Some(uri) => {
            let at = comment_line("Issue : "@ + uri@);
            lemma_comment_whole_lines("Issue : "@ + uri@, keys);
            lemma_whole_lines_concat(blank, at, keys);
            lemma_whole_lines_concat(blank + at, blank, keys);
        },
        None => {},
    }
    let a = comment_line(
        "Clippy decrease possible "@ + lint.all_decrease_clippy_default_possible_severity.text(),
    );
    let b = comment_line(
        "Clippy increase possible "@ + lint.all_increase_clippy_default_possible_severity.text(),
    );
    let c = comment_line(
        "Default configuration decrease possible "@
            + lint.all_decrease_config_default_possible_severity.text(),
    );
    let d = comment_line(
        "Default configuration increase possible "@
            + lint.all_increase_config_default_possible_severity.text(),
    );
    lemma_comment_whole_lines(
        "Clippy decrease possible "@ + lint.all_decrease_clippy_default_possible_severity.text(),
        keys,
    );
    lemma_comment_whole_lines(
        "Clippy increase possible "@ + lint.all_increase_clippy_default_possible_severity.text(),
        keys,
    );
    lemma_comment_whole_lines(
        "Default configuration decrease possible "@
            + lint.all_decrease_config_default_possible_severity.text(),
        keys,
    );
    lemma_comment_whole_lines(
        "Default configuration increase possible "@
            + lint.all_increase_config_default_possible_severity.text(),
        keys,
    );
    lemma_whole_lines_concat(a, blank, keys);
    lemma_whole_lines_concat(a + blank, b, keys);
    lemma_whole_lines_concat(a + blank + b, blank, keys);
    lemma_whole_lines_concat(a + blank + b + blank, c, keys);
    lemma_whole_lines_concat(a + blank + b + blank + c, blank, keys);
    lemma_whole_lines_concat(a + blank + b + blank + c + blank, d, keys);
    lemma_whole_lines_concat(a + blank + b + blank + c + blank + d, blank, keys);
}

proof fn lemma_table_whole_lines(lint: ClippyLint)
    requires
        one_line(lint.id@),
        lint.severity.base() is Some,
        lint.default_clippy_severity.base() is Some,
    ensures
        whole_lines(lint_table(lint), table_keys()),
{
    let keys = table_keys();
    let config = lint.severity.base()->0;
    let clippy = lint.default_clippy_severity.base()->0;
    lemma_values_one_line(config, lint.group, lint.applicability);
    lemma_values_one_line(clippy, lint.group, lint.applicability);
    lemma_blank_comment_whole_lines(keys);
    reveal_strlit("group");
    reveal_strlit("applicability");
    reveal_strlit("enabled");
    reveal_strlit("config-severity");
    reveal_strlit("clippy-severity");
    reveal_strlit("use-clippy-severity");
    reveal_strlit("true");
    reveal_strlit("false");
    assert(keys[0] == "group"@ && keys[1] == "applicability"@ && keys[2] == "enabled"@ && keys[3]
        == "config-severity"@ && keys[4] == "clippy-severity"@ && keys[5]
        == "use-clippy-severity"@);
    lemma_quoted_one_line(lint.group.name());
    lemma_quoted_one_line(lint.applicability.name());
    lemma_quoted_one_line(lint.severity.text());
    lemma_quoted_one_line(lint.default_clippy_severity.text());
    let l0 = header_line(lint.id@);
    let l1 = key_line("group"@, quoted(lint.group.name()));
    let l2 = key_line("applicability"@, quoted(lint.applicability.name()));
    let l3 = key_line("enabled"@, flag_text(lint.enabled_by_default));
    let l4 = key_line("config-severity"@, quoted(lint.severity.text()));
    let l5 = key_line("clippy-severity"@, quoted(lint.default_clippy_severity.text()));
    let l6 = key_line("use-clippy-severity"@, flag_text(lint.use_clippy_severity));
    lemma_header_whole_lines(lint.id@, keys);
    lemma_key_whole_lines("group"@, quoted(lint.group.name()), keys);
    lemma_key_whole_lines("applicability"@, quoted(lint.applicability.name()), keys);
    lemma_key_whole_lines("enabled"@, flag_text(lint.enabled_by_default), keys);
    lemma_key_whole_lines("config-severity"@, quoted(lint.severity.text()), keys);
    lemma_key_whole_lines("clippy-severity"@, quoted(lint.default_clippy_severity.text()), keys);
    lemma_key_whole_lines("use-clippy-severity"@, flag_text(lint.use_clippy_severity), keys);
    lemma_whole_lines_concat(l0, l1, keys);
    lemma_whole_lines_concat(l0 + l1, l2, keys);
    lemma_whole_lines_concat(l0 + l1 + l2, l3, keys);
    lemma_whole_lines_concat(l0 + l1 + l2 + l3, l4, keys);
    lemma_whole_lines_concat(l0 + l1 + l2 + l3 + l4, l5, keys);
    lemma_whole_lines_concat(l0 + l1 + l2 + l3 + l4 + l5, l6, keys);
    lemma_whole_lines_concat(l0 + l1 + l2 + l3 + l4 + l5 + l6, "\n"@, keys);
}

/// Commentary never leaves its comment: whatever the texts of a lint hold,
/// every line of its entry is empty, a comment, the table header, or one of
/// the keys of the table with its value, as long as the id is one line and
/// both levels are plain levels.
pub proof fn lemma_stanza_whole_lines(lint: ClippyLint)
    requires
        one_line(lint.id@),
        lint.severity.base() is Some,
        lint.default_clippy_severity.base() is Some,
    ensures
        whole_lines(stanza_text(lint), table_keys()),
{
    let keys = table_keys();
    lemma_heading_whole_lines(lint);
    lemma_table_whole_lines(lint);
    lemma_whole_lines_concat(heading_text(lint), issue_text(lint.issue), keys);
    lemma_whole_lines_concat(
        heading_text(lint) + issue_text(lint.issue),
        reachable_block(lint),
        keys,
    );
    lemma_whole_lines_concat(
        heading_text(lint) + issue_text(lint.issue) + reachable_block(lint),
        lint_table(lint),
        keys,
    );
}

/// Every line of a file is empty, a comment, a table header, or one of the
/// keys of a table with its value, as long as every id is one line and the
/// levels of every record are plain levels.
pub proof fn lemma_file_whole_lines(lints: Seq<ClippyLint>)
    requires
        forall|i: int|
            0 <= i < lints.len() ==> {
                &&& one_line((#[trigger] lints[i]).id@)
                &&& lints[i].severity.base() is Some
                &&& lints[i].default_clippy_severity.base() is Some
            },
    ensures
        whole_lines(file_text(lints), table_keys()),
    decreases lints.len(),
{
    if lints.len() > 0 {
        lemma_file_whole_lines(lints.drop_last());
        lemma_stanza_whole_lines(lints.last());
        lemma_whole_lines_concat(
            file_text(lints.drop_last()),
            stanza_text(lints.last()),
            table_keys(),
        );
    }
}

/// The file of every profile is made of such lines.
pub proof fn lemma_catalog_whole_lines(level: ClippyLevel)
    ensures
        whole_lines(file_text(catalog(level)), table_keys()),
{
    lemma_catalog_ids_one_line(level);
    lemma_file_whole_lines(catalog(level));
}

} // verus!
