//! The server's settings and how they are shown in the startup banner.

use vstd::prelude::*;
use vstd::string::{StrSliceExecFns, StringExecFns};

use crate::codec::push_char;
use crate::migration::{join, join_strings, texts};

verus! {

/// The server's settings, read from the `settings` file and `APP_`
/// environment variables.
#[derive(Debug)]
pub struct Settings {
    /// Where the database is.
    pub database_url: String,
    /// The port the server listens on.
    pub server_port: u16,
    /// The file of the RSA private key (PKCS#1 PEM).
    pub private_key: String,
    /// The file of the RSA public key (SPKI PEM).
    pub public_key: String,
    /// The directory of uploaded files.
    pub upload_dir: String,
    /// Whether to log and show debugging output.
    pub debug: Option<bool>,
}

/// The pieces of a text between its newlines (one more than there are
/// newlines).
pub open spec fn split_newlines(s: Seq<char>) -> Seq<Seq<char>>
    decreases s.len(),
{
    if s.len() == 0 {
        seq![Seq::<char>::empty()]
    } else {
        let p = split_newlines(s.drop_last());
        if s.last() == '\n' {
            p.push(Seq::<char>::empty())
        } else {
            p.update(p.len() - 1, p.last().push(s.last()))
        }
    }
}

/// A line without the carriage return that ended it, if one did.
pub open spec fn strip_cr(line: Seq<char>) -> Seq<char> {
    if line.len() > 0 && line.last() == '\r' {
        line.drop_last()
    } else {
        line
    }
}

/// The lines of a text as `str::lines` gives them: split at `\n` or
/// `\r\n`, with the final line ending optional, so that a text that ends
/// with a newline (or is empty) has no empty last line.
pub open spec fn text_lines(s: Seq<char>) -> Seq<Seq<char>> {
    let p = split_newlines(s);
    let ended = p.drop_last().map_values(|l: Seq<char>| strip_cr(l));
    if p.last().len() == 0 {
        ended
    } else {
        ended.push(p.last())
    }
}

/// A run of spaces.
pub open spec fn spaces(n: nat) -> Seq<char> {
    Seq::new(n, |i: int| ' ')
}

/// The lines with every line but the first indented.
pub open spec fn indent_after_first(lines: Seq<Seq<char>>, n: nat) -> Seq<Seq<char>> {
    lines.map(|i: int, l: Seq<char>| if i == 0 { l } else { spaces(n) + l })
}

/// Pretty JSON shown inside an indented block: every line after the first
/// is indented further.
pub open spec fn spec_indented_json(json: Seq<char>, extra_indent: nat) -> Seq<char> {
    join(indent_after_first(text_lines(json), extra_indent), "\n"@)
}

proof fn lemma_split_newlines_nonempty(s: Seq<char>)
    ensures
        split_newlines(s).len() >= 1,
    decreases s.len(),
{
    if s.len() > 0 {
        lemma_split_newlines_nonempty(s.drop_last());
    }
}

/// The pieces of a text between its newlines.
fn split_at_newlines(text: &str) -> (res: (Vec<String>, String))
    ensures
        texts(res.0@).push(res.1@) == split_newlines(text@),
{
    let mut pieces: Vec<String> = Vec::new();
    let mut current = String::new();
    let ghost chars = text@;
    for c in it: text.chars()
        invariant
            chars == text@,
            it.seq() == chars,
            texts(pieces@).push(current@) == split_newlines(chars.take(it.index() as int)),
    {
        let ghost k: int = it.index() as int;
        assert(chars.take(k + 1).drop_last() =~= chars.take(k));
        assert(chars.take(k + 1).last() == c);
        proof {
            lemma_split_newlines_nonempty(chars.take(k));
        }
        let ghost before = texts(pieces@).push(current@);
        if c == '\n' {
            pieces.push(current);
            current = String::new();
            assert(texts(pieces@).push(current@) =~= before.push(Seq::<char>::empty()));
        } else {
            push_char(&mut current, c);
            assert(texts(pieces@).push(current@) =~= before.update(
                before.len() - 1,
                before.last().push(c),
            ));
        }
    }
    assert(chars.take(chars.len() as int) =~= chars);
    (pieces, current)
}

/// A line without the carriage return that ended it, if one did.
fn strip_carriage_return(line: &String) -> (res: String)
    ensures
        res@ == strip_cr(line@),
{
    let text = line.as_str();
    let n = text.unicode_len();
    if n > 0 && text.get_char(n - 1) == '\r' {
        text.substring_char(0, n - 1).to_owned()
    } else {
        line.clone()
    }
}

/// A run of spaces.
fn make_spaces(n: usize) -> (res: String)
    ensures
        res@ == spaces(n as nat),
{
    let mut res = String::new();
    let mut i: usize = 0;
    while i < n
        invariant
            i <= n,
            res@ == spaces(i as nat),
        decreases n - i,
    {
        push_char(&mut res, ' ');
        i = i + 1;
        assert(res@ =~= spaces(i as nat));
    }
    res
}

impl Settings {
    /// Indents pretty-printed JSON of the settings for the startup banner:
    /// every line after the first gets `extra_indent` more spaces; the lines
    /// are those of `str::lines` and are joined with `\n`.
    pub fn json_pretty(pretty_json: &str, extra_indent: usize) -> (res: String)
        ensures
            res@ == spec_indented_json(pretty_json@, extra_indent as nat),
    {
        let (pieces, last) = split_at_newlines(pretty_json);
        let ghost p = split_newlines(pretty_json@);
        let ghost lines = text_lines(pretty_json@);
        let ghost wanted = indent_after_first(lines, extra_indent as nat);
        proof {
            lemma_split_newlines_nonempty(pretty_json@);
        }
        assert(texts(pieces@) =~= p.drop_last());
        let indent = make_spaces(extra_indent);
        let mut out: Vec<String> = Vec::new();
        let mut i: usize = 0;
        while i < pieces.len()
            invariant
                i <= pieces@.len(),
                texts(pieces@) == p.drop_last(),
                p.len() == pieces@.len() + 1,
                lines.len() >= pieces@.len(),
                forall|j: int| 0 <= j < pieces@.len() ==> #[trigger] lines[j] == strip_cr(p[j]),
                wanted == indent_after_first(lines, extra_indent as nat),
                indent@ == spaces(extra_indent as nat),
                texts(out@) == wanted.take(i as int),
            decreases pieces@.len() - i,
        {
            assert(texts(pieces@)[i as int] == pieces@[i as int]@);
            let line = strip_carriage_return(&pieces[i]);
            let shown = if i == 0 {
                line
            } else {
                let mut s = String::new();
                s.append(indent.as_str());
                s.append(line.as_str());
                s
            };
            assert(pieces@[i as int]@ == p[i as int]);
            assert(lines[i as int] == strip_cr(p[i as int]));
            assert(shown@ == wanted[i as int]);
            let ghost before = texts(out@);
            out.push(shown);
            assert(texts(out@) =~= before.push(wanted[i as int]));
            assert(wanted.take(i + 1) =~= wanted.take(i as int).push(wanted[i as int]));
            i = i + 1;
        }
        proof {
            lemma_split_newlines_nonempty(pretty_json@);
        }
        assert(p.len() == pieces@.len() + 1);
        assert(p.last() == last@);
        assert(lines.len() == pieces@.len() + (if last@.len() == 0 { 0int } else { 1int }));
        assert(wanted.len() == lines.len());
        if last.unicode_len() > 0 {
            let shown = if pieces.len() == 0 {
                last
            } else {
                let mut s = String::new();
                s.append(indent.as_str());
                s.append(last.as_str());
                s
            };
            assert(lines[pieces@.len() as int] == last@);
            assert(shown@ == wanted[pieces@.len() as int]);
            let ghost before = texts(out@);
            out.push(shown);
            assert(texts(out@) =~= before.push(wanted[pieces@.len() as int]));
        }
        assert(texts(out@) =~= wanted);
        join_strings(&out, "\n")
    }
}

} // verus!

verus! {

proof fn lemma_split_newlines_parts(s: Seq<char>)
    ensures
        split_newlines(s).len() >= 1,
        join(split_newlines(s), "\n"@) == s,
        s.len() > 0 && s.last() != '\n' ==> split_newlines(s).last().len() > 0,
        (forall|k: int| 0 <= k < s.len() ==> s[k] != '\r') ==> forall|i: int, j: int|
            0 <= i < split_newlines(s).len() && 0 <= j < split_newlines(s)[i].len()
                ==> #[trigger] split_newlines(s)[i][j] != '\r',
    decreases s.len(),
{
    reveal_strlit("\n");
    if s.len() > 0 {
        let t = s.drop_last();
        lemma_split_newlines_parts(t);
        let p = split_newlines(t);
        let q = split_newlines(s);
        assert(forall|k: int| 0 <= k < t.len() ==> t[k] == s[k]);
        if s.last() == '\n' {
            assert(q == p.push(Seq::<char>::empty()));
            assert(q.drop_last() =~= p);
            assert(join(q, "\n"@) =~= join(p, "\n"@) + "\n"@ + Seq::<char>::empty());
            assert(s =~= t + "\n"@);
        } else {
            assert(q == p.update(p.len() - 1, p.last().push(s.last())));
            if p.len() == 1 {
                assert(join(q, "\n"@) == q[0]);
                assert(s =~= t.push(s.last()));
            } else {
                assert(q.drop_last() =~= p.drop_last());
                assert(join(p, "\n"@) == join(p.drop_last(), "\n"@) + "\n"@ + p.last());
                assert(join(q, "\n"@) =~= join(p, "\n"@).push(s.last()));
                assert(s =~= t.push(s.last()));
            }
            assert(q.last() == p.last().push(s.last()));
        }
        if forall|k: int| 0 <= k < s.len() ==> s[k] != '\r' {
            assert forall|i: int, j: int|
                0 <= i < q.len() && 0 <= j < q[i].len() implies #[trigger] q[i][j] != '\r' by {
                if i < p.len() && j < p[i].len() {
                    assert(p[i][j] != '\r');
                }
                if s.last() != '\n' && i == p.len() - 1 && j == p[i].len() {
                    assert(q[i][j] == s.last());
                }
            }
        }
    }
}

/// Shown with no extra indent, pretty JSON is left as it is, provided it
/// has no carriage return and does not end with a newline (as the output of
/// `serde_json::to_string_pretty` does not).
pub proof fn law_json_without_indent_unchanged(json: Seq<char>)
    requires
        forall|k: int| 0 <= k < json.len() ==> json[k] != '\r',
        json.len() == 0 || json.last() != '\n',
    ensures
        spec_indented_json(json, 0) == json,
{
    lemma_split_newlines_parts(json);
    let p = split_newlines(json);
    if json.len() == 0 {
        assert(text_lines(json) =~= Seq::<Seq<char>>::empty());
        assert(indent_after_first(text_lines(json), 0) =~= Seq::<Seq<char>>::empty());
    } else {
        assert forall|i: int| 0 <= i < p.len() - 1 implies strip_cr(#[trigger] p[i]) == p[i] by {
            if p[i].len() > 0 {
                assert(p[i][p[i].len() - 1] != '\r');
            }
        }
        assert(text_lines(json) =~= p);
        assert(indent_after_first(p, 0) =~= p) by {
            assert(spaces(0) =~= Seq::<char>::empty());
            assert forall|i: int| 0 <= i < p.len() implies #[trigger] indent_after_first(p, 0)[i] == p[i] by {
                assert(spaces(0) + p[i] =~= p[i]);
            }
        }
    }
}

} // verus!
