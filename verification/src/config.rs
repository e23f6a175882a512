//! Settings of an environment's `config/.env` file.

use vstd::prelude::*;
use crate::chars::{chars_of, slice_vec, string_of};
use crate::fields::{find_char, first_index};
use crate::lines::{line_text, lines, segments, segments_of, views};
use crate::metadata::metadata_line_text_of;

verus! {

/// Whether `c` is white space as `char::is_whitespace` defines it (the Unicode `White_Space`
/// property).
pub open spec fn is_whitespace(c: char) -> bool {
    let v = c as u32;
    (0x09 <= v <= 0x0d) || v == 0x20 || v == 0x85 || v == 0xa0 || v == 0x1680 || (0x2000 <= v
        <= 0x200a) || v == 0x2028 || v == 0x2029 || v == 0x202f || v == 0x205f || v == 0x3000
}

/// The number of white-space characters that `s` starts with.
pub open spec fn leading_whitespace(s: Seq<char>) -> nat
    decreases s.len(),
{
    if s.len() == 0 || !is_whitespace(s[0]) {
        0
    } else {
        1 + leading_whitespace(s.skip(1))
    }
}

/// `v` without one leading and one trailing quote (`'` or `"`), where present.
pub open spec fn unquoted(v: Seq<char>) -> Seq<char> {
    let a = if v.len() > 0 && (v[0] == '\'' || v[0] == '"') {
        v.skip(1)
    } else {
        v
    };
    if a.len() > 0 && (a.last() == '\'' || a.last() == '"') {
        a.drop_last()
    } else {
        a
    }
}

/// The value that one line assigns to `key`: a line that is blank or a comment once leading
/// white space is ignored assigns nothing; otherwise the text before its first `'='` must be
/// exactly `key` (leading white space included), and the value is the rest, unquoted.
pub open spec fn config_line_value(line: Seq<char>, key: Seq<char>) -> Option<Seq<char>> {
    let trimmed = line.skip(leading_whitespace(line) as int);
    let i = first_index(line, '=');
    if trimmed.len() == 0 || trimmed[0] == '#' || i < 0 || line.take(i) != key {
        None
    } else {
        Some(unquoted(line.skip(i + 1)))
    }
}

/// The value the first assigning line among `ls` gives `key`.
pub open spec fn first_config_value(ls: Seq<Seq<char>>, key: Seq<char>) -> Option<Seq<char>>
    decreases ls.len(),
{
    if ls.len() == 0 {
        None
    } else {
        match first_config_value(ls.drop_last(), key) {
            Some(v) => Some(v),
            None => config_line_value(ls.last(), key),
        }
    }
}

/// The value of `key` in the text of a `config/.env` file.
pub open spec fn config_value(contents: Seq<char>, key: Seq<char>) -> Option<Seq<char>> {
    first_config_value(lines(contents), key)
}

pub(crate) fn whitespace(c: char) -> (r: bool)
    ensures
        r == is_whitespace(c),
{
    let v = c as u32;
    (0x09 <= v && v <= 0x0d) || v == 0x20 || v == 0x85 || v == 0xa0 || v == 0x1680 || (0x2000
        <= v && v <= 0x200a) || v == 0x2028 || v == 0x2029 || v == 0x202f || v == 0x205f || v
        == 0x3000
}

/// The number of white-space characters that `s` starts with.
pub(crate) fn leading(s: &Vec<char>) -> (r: usize)
    ensures
        r == leading_whitespace(s@),
        r <= s@.len(),
{
    let mut i: usize = 0;
    assert(s@.skip(0) =~= s@);
    while i < s.len() && whitespace(s[i])
        invariant
            i <= s@.len(),
            leading_whitespace(s@) == i + leading_whitespace(s@.skip(i as int)),
        decreases s@.len() - i,
    {
        assert(s@.skip(i as int).skip(1) =~= s@.skip(i + 1));
        i = i + 1;
    }
    proof {
        if i < s@.len() {
            assert(s@.skip(i as int)[0] == s@[i as int]);
        }
    }
    i
}

/// The value one line assigns to `key`.
fn line_value(line: &Vec<char>, key: &Vec<char>) -> (r: Option<Vec<char>>)
    ensures
        match r {
            Some(v) => config_line_value(line@, key@) == Some(v@),
            None => config_line_value(line@, key@) is None,
        },
{
    let lead = leading(line);
    if lead == line.len() || line[lead] == '#' {
        assert(line@.skip(lead as int).len() == line@.len() - lead);
        proof {
            if lead < line.len() {
                assert(line@.skip(lead as int)[0] == line@[lead as int]);
            }
        }
        return None;
    }
    assert(line@.skip(lead as int)[0] == line@[lead as int]);
    let i = match find_char(line, '=') {
        None => return None,
        Some(i) => i,
    };
    if i != key.len() {
        return None;
    }
    let mut j: usize = 0;
    while j < i
        invariant
            j <= i,
            i == key@.len(),
            i < line@.len(),
            first_index(line@, '=') == i as int,
            forall|k: int| 0 <= k < j ==> line@[k] == key@[k],
        decreases i - j,
    {
        if line[j] != key[j] {
            assert(line@.take(i as int)[j as int] != key@[j as int]);
            return None;
        }
        j = j + 1;
    }
    assert(line@.take(i as int) =~= key@);
    let mut start = i + 1;
    let mut end = line.len();
    if start < end && (line[start] == '\'' || line[start] == '"') {
        start = start + 1;
    }
    if start < end && (line[end - 1] == '\'' || line[end - 1] == '"') {
        end = end - 1;
    }
    let v = slice_vec(line, start, end);
    assert(v@ =~= unquoted(line@.skip(i + 1)));
    Some(v)
}

/// Reads one `KEY=value` setting from the text of a `config/.env` file.
///
/// Leading white space only marks a line as blank; it is never stripped from the key, so an
/// indented assignment does not match. The value keeps everything after the first `'='`, with
/// one layer of surrounding quotes removed.
pub fn load_config_value(contents: &str, key: &str) -> (r: Option<String>)
    ensures
        match r {
            Some(v) => config_value(contents@, key@) == Some(v@),
            None => config_value(contents@, key@) is None,
        },
{
    let text = chars_of(contents);
    let k = chars_of(key);
    let segs = segments_of(&text);
    let ghost ls = lines(contents@);
    assert(ls.len() == views(segs@).len());
    let mut i: usize = 0;
    while i < segs.len()
        invariant
            i <= segs.len(),
            k@ == key@,
            ls == lines(contents@),
            views(segs@) == segments(contents@),
            ls.len() == segs.len(),
            first_config_value(ls.take(i as int), key@) is None,
        decreases segs.len() - i,
    {
        let line = metadata_line_text_of(&segs[i]);
        assert(views(segs@)[i as int] == segs@[i as int]@);
        assert(ls[i as int] == line@);
        assert(ls.take(i + 1).drop_last() =~= ls.take(i as int));
        if let Some(v) = line_value(&line, &k) {
            proof {
                lemma_first_config_value_prefix(ls, key@, i + 1);
            }
            return Some(string_of(&v));
        }
        i = i + 1;
    }
    assert(ls.take(segs.len() as int) =~= ls);
    None
}

/// A value found among the first lines is the value of all of them.
proof fn lemma_first_config_value_prefix(ls: Seq<Seq<char>>, key: Seq<char>, n: int)
    requires
        0 <= n <= ls.len(),
        first_config_value(ls.take(n), key) is Some,
    ensures
        first_config_value(ls, key) == first_config_value(ls.take(n), key),
    decreases ls.len(),
{
    if n < ls.len() {
        assert(ls.drop_last().take(n) =~= ls.take(n));
        lemma_first_config_value_prefix(ls.drop_last(), key, n);
    } else {
        assert(ls.take(n) =~= ls);
    }
}


/// The assignment one line makes: its key (the text before its first `'='`) and its value, for a
/// line that is neither blank nor a comment.
pub open spec fn config_line_pair(line: Seq<char>) -> Option<(Seq<char>, Seq<char>)> {
    let i = first_index(line, '=');
    if i < 0 {
        None
    } else {
        match config_line_value(line, line.take(i)) {
            Some(v) => Some((line.take(i), v)),
            None => None,
        }
    }
}

/// The assignments of the lines `ls`, in order.
pub open spec fn config_pairs(ls: Seq<Seq<char>>) -> Seq<(Seq<char>, Seq<char>)>
    decreases ls.len(),
{
    if ls.len() == 0 {
        seq![]
    } else {
        match config_line_pair(ls.last()) {
            Some(p) => config_pairs(ls.drop_last()).push(p),
            None => config_pairs(ls.drop_last()),
        }
    }
}

/// Every `KEY=value` assignment of a `config/.env` text, in order, read as
/// [`load_config_value`] reads one.
pub fn config_assignments(contents: &str) -> (r: Vec<(String, String)>)
    ensures
        r@.map_values(|p: (String, String)| (p.0@, p.1@)) == config_pairs(lines(contents@)),
{
    let text = chars_of(contents);
    let segs = segments_of(&text);
    let ghost ls = lines(contents@);
    assert(ls.len() == views(segs@).len());
    let mut r: Vec<(String, String)> = Vec::new();
    let mut i: usize = 0;
    while i < segs.len()
        invariant
            i <= segs.len(),
            ls == lines(contents@),
            views(segs@) == segments(contents@),
            ls.len() == segs.len(),
            r@.map_values(|p: (String, String)| (p.0@, p.1@)) == config_pairs(ls.take(i as int)),
        decreases segs.len() - i,
    {
        let line = metadata_line_text_of(&segs[i]);
        assert(views(segs@)[i as int] == segs@[i as int]@);
        assert(ls[i as int] == line@);
        assert(ls.take(i + 1).drop_last() =~= ls.take(i as int));
        assert(ls.take(i + 1).last() == line@);
        let ghost before = r@.map_values(|p: (String, String)| (p.0@, p.1@));
        if let Some(eq) = find_char(&line, '=') {
            let key = slice_vec(&line, 0, eq);
            assert(key@ =~= line@.take(eq as int));
            if let Some(v) = line_value(&line, &key) {
                r.push((string_of(&key), string_of(&v)));
                assert(r@.map_values(|p: (String, String)| (p.0@, p.1@)) =~= before.push((key@, v@)));
            }
        }
        i = i + 1;
    }
    assert(ls.take(segs.len() as int) =~= ls);
    r
}

/// The number of white-space characters that `s` ends with.
pub open spec fn trailing_whitespace(s: Seq<char>) -> nat
    decreases s.len(),
{
    if s.len() == 0 || !is_whitespace(s.last()) {
        0
    } else {
        1 + trailing_whitespace(s.drop_last())
    }
}

/// `text` without leading and trailing white space, as `str::trim` gives it.
pub open spec fn whitespace_trimmed(text: Seq<char>) -> Seq<char> {
    let a = text.skip(leading_whitespace(text) as int);
    a.take(a.len() - trailing_whitespace(a))
}

/// Removes leading and trailing white space.
pub fn trim(text: &str) -> (r: String)
    ensures
        r@ == whitespace_trimmed(text@),
{
    let chars = chars_of(text);
    let start = leading(&chars);
    let rest = slice_vec(&chars, start, chars.len());
    assert(rest@ =~= text@.skip(start as int));
    let mut end = rest.len();
    assert(rest@.take(end as int) =~= rest@);
    while end > 0 && whitespace(rest[end - 1])
        invariant
            end <= rest@.len(),
            trailing_whitespace(rest@) == (rest@.len() - end) + trailing_whitespace(rest@.take(end as int)),
        decreases end,
    {
        assert(rest@.take(end as int).drop_last() =~= rest@.take(end - 1));
        assert(rest@.take(end as int).last() == rest@[end - 1]);
        end = end - 1;
    }
    proof {
        if end > 0 {
            assert(rest@.take(end as int).last() == rest@[end - 1]);
        }
    }
    let kept = slice_vec(&rest, 0, end);
    assert(kept@ =~= rest@.take(end as int));
    string_of(&kept)
}

} // verus!
