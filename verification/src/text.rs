//! Small text building blocks shared by the file writers.

use vstd::prelude::*;

verus! {

/// The marker that continues a comment on the next line.
pub const COMMENT_CONTINUATION: &'static str = "\n# ";

/// How a flag is written in a table: `true` or `false`.
pub open spec fn flag_text(b: bool) -> Seq<char> {
    if b {
        "true"@
    } else {
        "false"@
    }
}

/// `s` with every line break followed by a comment marker, so that a text of
/// several lines stays inside a comment block.
pub open spec fn continued_comment(s: Seq<char>) -> Seq<char>
    decreases s.len(),
{
    if s.len() == 0 {
        Seq::empty()
    } else if s.last() == '\n' {
        continued_comment(s.drop_last()) + COMMENT_CONTINUATION@
    } else {
        continued_comment(s.drop_last()).push(s.last())
    }
}

/// Writes a flag as `true` or `false`.
pub fn flag_str(b: bool) -> (s: &'static str)
    ensures
        s@ == flag_text(b),
{
    if b {
        "true"
    } else {
        "false"
    }
}

/// Copies `s`, putting a comment marker after every line break.
pub fn continue_comment(s: &str) -> (out: String)
    ensures
        out@ == continued_comment(s@),
{
    let n = s.unicode_len();
    let mut out = String::new();
    let mut i: usize = 0;
    while i < n
        invariant
            n == s@.len(),
            i <= n,
            out@ == continued_comment(s@.take(i as int)),
        decreases n - i,
    {
        let c = s.get_char(i);
        proof {
            assert(s@.take(i + 1).drop_last() =~= s@.take(i as int));
            assert(s@.take(i + 1).last() == s@[i as int]);
        }
        if c == '\n' {
            out.append(COMMENT_CONTINUATION);
        } else {
            let one = s.substring_char(i, i + 1);
            assert(one@ =~= seq![c]);
            out.append(one);
            assert(out@ =~= continued_comment(s@.take(i as int)).push(c));
        }
        i += 1;
    }
    assert(s@.take(n as int) =~= s@);
    out
}

/// A comment of one or more lines: `body` behind a comment marker, every
/// further line of it behind a marker of its own, and a line break.
pub open spec fn comment_line(body: Seq<char>) -> Seq<char> {
    "# "@ + continued_comment(body) + "\n"@
}

/// A table header: `id` between square brackets, and a line break.
pub open spec fn header_line(id: Seq<char>) -> Seq<char> {
    "["@ + id + "]\n"@
}

/// A key with its value, and a line break.
pub open spec fn key_line(key: Seq<char>, value: Seq<char>) -> Seq<char> {
    key + " = "@ + value + "\n"@
}

/// `value` between double quotes.
pub open spec fn quoted(value: Seq<char>) -> Seq<char> {
    "\""@ + value + "\""@
}

/// Whether `text` holds no line break.
pub open spec fn one_line(text: Seq<char>) -> bool {
    !text.contains('\n')
}

/// Whether a line of `text` starts at `i`.
pub open spec fn line_start(text: Seq<char>, i: int) -> bool {
    0 <= i < text.len() && (i == 0 || text[i - 1] == '\n')
}

/// Whether `text` holds `part` from `i` on.
pub open spec fn holds_at(text: Seq<char>, i: int, part: Seq<char>) -> bool {
    0 <= i && i + part.len() <= text.len() && text.subrange(i, i + part.len()) == part
}

/// Whether the line of `text` that starts at `i` is empty, a comment, a
/// table header, or one of `keys` with a value.
pub open spec fn fine_line_at(text: Seq<char>, i: int, keys: Seq<Seq<char>>) -> bool {
    ||| text[i] == '\n'
    ||| text[i] == '#'
    ||| text[i] == '['
    ||| exists|k: int| 0 <= k < keys.len() && holds_at(text, i, #[trigger] keys[k] + " = "@)
}

/// Whether `text` is made of whole lines, each of them empty, a comment, a
/// table header, or one of `keys` with a value.
pub open spec fn whole_lines(text: Seq<char>, keys: Seq<Seq<char>>) -> bool {
    &&& text.len() > 0 ==> text.last() == '\n'
    &&& forall|i: int| #[trigger] line_start(text, i) ==> fine_line_at(text, i, keys)
}

/// Writes a comment of one or more lines.
pub fn write_comment(body: &str) -> (line: String)
    ensures
        line@ == comment_line(body@),
{
    let mut line = "# ".to_owned();
    line.append(continue_comment(body).as_str());
    line.append("\n");
    line
}

/// Writes a table header.
pub fn write_header(id: &str) -> (line: String)
    ensures
        line@ == header_line(id@),
{
    let mut line = "[".to_owned();
    line.append(id);
    line.append("]\n");
    line
}

/// Writes a key with its value.
pub fn write_key(key: &str, value: &str) -> (line: String)
    ensures
        line@ == key_line(key@, value@),
{
    let mut line = key.to_owned();
    line.append(" = ");
    line.append(value);
    line.append("\n");
    line
}

/// Puts `value` between double quotes.
pub fn quote(value: &str) -> (out: String)
    ensures
        out@ == quoted(value@),
{
    let mut out = "\"".to_owned();
    out.append(value);
    out.append("\"");
    out
}

/// In a continued comment every line break is followed by a comment marker.
pub proof fn lemma_continued_stays_comment(s: Seq<char>)
    ensures
        forall|j: int|
            0 <= j < continued_comment(s).len() && #[trigger] continued_comment(s)[j] == '\n' ==> j
                + 1 < continued_comment(s).len() && continued_comment(s)[j + 1] == '#',
    decreases s.len(),
{
    reveal_strlit("\n# ");
    if s.len() > 0 {
        lemma_continued_stays_comment(s.drop_last());
        let before = continued_comment(s.drop_last());
        let out = continued_comment(s);
        assert forall|j: int| 0 <= j < out.len() && #[trigger] out[j] == '\n' implies j + 1
            < out.len() && out[j + 1] == '#' by {
            if j < before.len() {
                assert(before[j] == '\n');
            }
        }
    }
}

/// Two texts of whole lines make a text of whole lines.
pub proof fn lemma_whole_lines_concat(a: Seq<char>, b: Seq<char>, keys: Seq<Seq<char>>)
    requires
        whole_lines(a, keys),
        whole_lines(b, keys),
    ensures
        whole_lines(a + b, keys),
{
    let text = a + b;
    assert forall|i: int| #[trigger] line_start(text, i) implies fine_line_at(text, i, keys) by {
        if i < a.len() {
            assert(line_start(a, i));
            assert(text[i] == a[i]);
            if !(a[i] == '\n' || a[i] == '#' || a[i] == '[') {
                let k = choose|k: int|
                    0 <= k < keys.len() && holds_at(a, i, #[trigger] keys[k] + " = "@);
                let part = keys[k] + " = "@;
                assert(text.subrange(i, i + part.len()) =~= a.subrange(i, i + part.len()));
                assert(holds_at(text, i, keys[k] + " = "@));
            }
        } else {
            let j = i - a.len();
            if j > 0 {
                assert(text[i - 1] == b[j - 1]);
            }
            assert(line_start(b, j));
            assert(text[i] == b[j]);
            if !(b[j] == '\n' || b[j] == '#' || b[j] == '[') {
                let k = choose|k: int|
                    0 <= k < keys.len() && holds_at(b, j, #[trigger] keys[k] + " = "@);
                let part = keys[k] + " = "@;
                assert(text.subrange(i, i + part.len()) =~= b.subrange(j, j + part.len()));
                assert(holds_at(text, i, keys[k] + " = "@));
            }
        }
    }
}

/// A comment is made of whole lines, whatever its body.
pub proof fn lemma_comment_whole_lines(body: Seq<char>, keys: Seq<Seq<char>>)
    ensures
        whole_lines(comment_line(body), keys),
{
    reveal_strlit("# ");
    reveal_strlit("\n");
    lemma_continued_stays_comment(body);
    let inner = continued_comment(body);
    let text = comment_line(body);
    assert(text.len() == inner.len() + 3);
    assert forall|i: int| #[trigger] line_start(text, i) implies fine_line_at(text, i, keys) by {
        if i > 0 {
            assert(text[i - 1] == '\n');
            assert(2 <= i - 1 < inner.len() + 2);
            assert(inner[i - 3] == '\n');
            assert(text[i] == inner[i - 2]);
        }
    }
}

/// A header with an id of one line is a whole line.
pub proof fn lemma_header_whole_lines(id: Seq<char>, keys: Seq<Seq<char>>)
    requires
        one_line(id),
    ensures
        whole_lines(header_line(id), keys),
{
    reveal_strlit("[");
    reveal_strlit("]\n");
    let text = header_line(id);
    assert forall|i: int| #[trigger] line_start(text, i) implies fine_line_at(text, i, keys) by {
        if i > 0 {
            if 1 <= i - 1 < id.len() + 1 {
                assert(id.contains(id[i - 2]));
            }
        }
    }
}

/// One of the keys with a value of one line is a whole line.
pub proof fn lemma_key_whole_lines(key: Seq<char>, value: Seq<char>, keys: Seq<Seq<char>>)
    requires
        keys.contains(key),
        one_line(key),
        one_line(value),
    ensures
        whole_lines(key_line(key, value), keys),
{
    reveal_strlit(" = ");
    reveal_strlit("\n");
    let text = key_line(key, value);
    let k = choose|k: int| 0 <= k < keys.len() && keys[k] == key;
    assert(text.subrange(0, (key + " = "@).len() as int) =~= key + " = "@);
    assert(holds_at(text, 0, keys[k] + " = "@));
    assert forall|i: int| #[trigger] line_start(text, i) implies fine_line_at(text, i, keys) by {
        if i > 0 {
            let j = i - 1;
            if j < key.len() {
                assert(key.contains(key[j]));
            } else if j >= key.len() + 3 && j < key.len() + 3 + value.len() {
                assert(value.contains(value[j - key.len() - 3]));
            }
        }
    }
}

/// A value of one line is still one line between quotes.
pub proof fn lemma_quoted_one_line(value: Seq<char>)
    requires
        one_line(value),
    ensures
        one_line(quoted(value)),
{
    reveal_strlit("\"");
    let text = quoted(value);
    if text.contains('\n') {
        let j = choose|j: int| 0 <= j < text.len() && text[j] == '\n';
        assert(value.contains(value[j - 1]));
    }
}

/// Two texts of one line make one line.
pub proof fn lemma_concat_one_line(a: Seq<char>, b: Seq<char>)
    requires
        one_line(a),
        one_line(b),
    ensures
        one_line(a + b),
{
    let text = a + b;
    if text.contains('\n') {
        let j = choose|j: int| 0 <= j < text.len() && text[j] == '\n';
        if j < a.len() {
            assert(a.contains(a[j]));
        } else {
            assert(b.contains(b[j - a.len()]));
        }
    }
}

} // verus!
