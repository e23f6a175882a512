//! Line-oriented environment metadata: `key=value` lines edited in place.

use vstd::prelude::*;
use crate::chars::{append_str, append_vec, chars_of, slice_vec, string_of, vec_contains};
use crate::lines::{join_all, lemma_join_push, lemma_segments_well_formed, line_text, lines, segments, segments_of, views};

verus! {

/// Diagnostic for metadata whose bytes are not valid UTF-8.
///
/// Metadata is a UTF-8 text format. Every command that reads it rejects an undecodable file with
/// this one message instead of interpreting it lossily or silently treating it as absent.
pub const INVALID_UTF8: &'static str = "invalid .metadata: file is not valid UTF-8.";

/// A line text binds `key` when the text before its first `'='` is exactly `key`.
pub open spec fn binds(text: Seq<char>, key: Seq<char>) -> bool {
    &&& !key.contains('=')
    &&& key.len() < text.len()
    &&& text.take(key.len() as int) == key
    &&& text[key.len() as int] == '='
}

/// The value bound by a line text that binds a key of length `n`: everything after the first `'='`.
pub open spec fn bound_value(text: Seq<char>, key: Seq<char>) -> Seq<char> {
    text.skip(key.len() + 1int)
}

/// The value of the first line of `ls` that binds `key`.
pub open spec fn first_value(ls: Seq<Seq<char>>, key: Seq<char>) -> Option<Seq<char>>
    decreases ls.len(),
{
    if ls.len() == 0 {
        None
    } else {
        match first_value(ls.drop_last(), key) {
            Some(v) => Some(v),
            None => if binds(ls.last(), key) {
                Some(bound_value(ls.last(), key))
            } else {
                None
            },
        }
    }
}

/// The value that `contents` binds to `key`: that of the first binding line.
pub open spec fn metadata_value(contents: Seq<char>, key: Seq<char>) -> Option<Seq<char>> {
    first_value(lines(contents), key)
}

/// A value found in a prefix of the lines is the value of all the lines.
pub proof fn lemma_first_value_prefix(ls: Seq<Seq<char>>, key: Seq<char>, n: int)
    requires
        0 <= n <= ls.len(),
        first_value(ls.take(n), key) is Some,
    ensures
        first_value(ls, key) == first_value(ls.take(n), key),
    decreases ls.len(),
{
    if n < ls.len() {
        assert(ls.drop_last().take(n) =~= ls.take(n));
        lemma_first_value_prefix(ls.drop_last(), key, n);
    } else {
        assert(ls.take(n) =~= ls);
    }
}

/// The line ending of a segment that is rewritten: CRLF is kept, anything else becomes LF.
pub open spec fn rewritten_ending(seg: Seq<char>) -> Seq<char> {
    if seg.len() >= 2 && seg[seg.len() - 2] == '\r' && seg[seg.len() - 1] == '\n' {
        seq!['\r', '\n']
    } else {
        seq!['\n']
    }
}

/// `key=value` followed by `ending`.
pub open spec fn binding_line(key: Seq<char>, value: Seq<char>, ending: Seq<char>) -> Seq<char> {
    key + seq!['='] + value + ending
}

/// A segment after setting `key` to `value`: a binding segment is replaced, others kept.
pub open spec fn rewrite_segment(seg: Seq<char>, key: Seq<char>, value: Seq<char>) -> Seq<char> {
    if binds(line_text(seg), key) {
        binding_line(key, value, rewritten_ending(seg))
    } else {
        seg
    }
}

/// Whether the line of some segment of `gs` binds `key`.
pub open spec fn any_binds(gs: Seq<Seq<char>>, key: Seq<char>) -> bool
    decreases gs.len(),
{
    gs.len() > 0 && (any_binds(gs.drop_last(), key) || binds(line_text(gs.last()), key))
}

/// Whether some line of `contents` binds `key`.
pub open spec fn has_binding(contents: Seq<char>, key: Seq<char>) -> bool {
    any_binds(segments(contents), key)
}

/// `j` is the position of the last `'\n'` of `s`.
pub open spec fn last_newline_at(s: Seq<char>, j: int) -> bool {
    &&& 0 <= j < s.len()
    &&& s[j] == '\n'
    &&& forall|k: int| j < k < s.len() ==> s[k] != '\n'
}

/// The ending of a binding appended to `contents`: CRLF when its last terminated line is CRLF.
pub open spec fn appended_ending(contents: Seq<char>) -> Seq<char> {
    if exists|j: int| #[trigger] last_newline_at(contents, j) && j > 0 && contents[j - 1] == '\r' {
        seq!['\r', '\n']
    } else {
        seq!['\n']
    }
}

/// Metadata after setting `key` to `value`.
///
/// Every line binding `key` is rewritten in place, keeping its CRLF ending; when none does, the
/// binding is appended after the existing text, which is first terminated if it was not.
pub open spec fn metadata_with(contents: Seq<char>, key: Seq<char>, value: Seq<char>) -> Seq<char> {
    if has_binding(contents, key) {
        join_all(segments(contents).map_values(|g: Seq<char>| rewrite_segment(g, key, value)))
    } else {
        let ending = appended_ending(contents);
        let separator = if contents.len() > 0 && contents.last() != '\n' {
            ending
        } else {
            seq![]
        };
        contents + separator + binding_line(key, value, ending)
    }
}

/// The segments, in order, whose line does not bind `key`.
pub open spec fn kept_segments(gs: Seq<Seq<char>>, key: Seq<char>) -> Seq<Seq<char>>
    decreases gs.len(),
{
    if gs.len() == 0 {
        seq![]
    } else {
        let p = kept_segments(gs.drop_last(), key);
        if binds(line_text(gs.last()), key) {
            p
        } else {
            p.push(gs.last())
        }
    }
}

/// Metadata after removing every line that binds `key`.
pub open spec fn metadata_without(contents: Seq<char>, key: Seq<char>) -> Seq<char> {
    join_all(kept_segments(segments(contents), key))
}

/// Metadata after moving the first value of `old_key` to `new_key`; unchanged when `old_key` is
/// not bound.
pub open spec fn metadata_migrated(contents: Seq<char>, old_key: Seq<char>, new_key: Seq<char>) -> Seq<char> {
    match metadata_value(contents, old_key) {
        Some(value) => metadata_without(metadata_with(contents, new_key, value), old_key),
        None => contents,
    }
}

/// Length of the text of a segment: the segment without its line ending.
fn text_len(seg: &Vec<char>) -> (n: usize)
    ensures
        n <= seg.len(),
        line_text(seg@) == seg@.take(n as int),
{
    let len = seg.len();
    if len >= 2 && seg[len - 2] == '\r' && seg[len - 1] == '\n' {
        len - 2
    } else if len >= 1 && seg[len - 1] == '\n' {
        len - 1
    } else {
        assert(seg@.take(len as int) =~= seg@);
        len
    }
}

/// The text of a line segment.
pub fn metadata_line_text_of(seg: &Vec<char>) -> (r: Vec<char>)
    ensures
        r@ == line_text(seg@),
{
    let n = text_len(seg);
    let t = slice_vec(seg, 0, n);
    assert(t@ =~= seg@.take(n as int));
    t
}

/// Whether the first `n` characters of `seg` bind `key`, for a key free of `'='`.
fn text_binds(seg: &Vec<char>, n: usize, key: &Vec<char>, key_has_eq: bool) -> (r: bool)
    requires
        n <= seg.len(),
        key_has_eq == key@.contains('='),
    ensures
        r == binds(seg@.take(n as int), key@),
{
    if key_has_eq || key.len() >= n {
        return false;
    }
    let mut i: usize = 0;
    while i < key.len()
        invariant
            i <= key.len(),
            key.len() < n <= seg.len(),
            forall|j: int| 0 <= j < i ==> seg@[j] == key@[j],
        decreases key.len() - i,
    {
        if seg[i] != key[i] {
            assert(seg@.take(n as int).take(key.len() as int)[i as int] != key@[i as int]);
            return false;
        }
        i = i + 1;
    }
    assert(seg@.take(n as int).take(key.len() as int) =~= key@);
    seg[key.len()] == '='
}

/// Returns the first value for `key` from the environment's line-oriented metadata format.
///
/// Only the first `'='` separates a key from its value, so values may contain `'='`.
pub fn metadata_get(contents: &str, key: &str) -> (r: Option<String>)
    ensures
        r matches Some(v) ==> metadata_value(contents@, key@) == Some(v@),
        r is None ==> metadata_value(contents@, key@) is None,
{
    let text = chars_of(contents);
    let k = chars_of(key);
    let key_has_eq = vec_contains(&k, '=');
    let segs = segments_of(&text);
    let ghost ls = lines(contents@);
    assert(ls.len() == views(segs@).len());
    let mut i: usize = 0;
    while i < segs.len()
        invariant
            i <= segs.len(),
            key_has_eq == k@.contains('='),
            k@ == key@,
            ls == lines(contents@),
            views(segs@) == segments(contents@),
            ls.len() == segs.len(),
            first_value(ls.take(i as int), key@) is None,
        decreases segs.len() - i,
    {
        let seg = &segs[i];
        let n = text_len(seg);
        assert(views(segs@)[i as int] == seg@);
        assert(ls[i as int] == line_text(seg@));
        assert(ls.take(i + 1).drop_last() =~= ls.take(i as int));
        assert(ls.take(i + 1).last() == ls[i as int]);
        if text_binds(seg, n, &k, key_has_eq) {
            let value = slice_vec(seg, k.len() + 1, n);
            assert(value@ =~= bound_value(ls[i as int], key@));
            proof {
                lemma_first_value_prefix(ls, key@, i + 1);
            }
            return Some(string_of(&value));
        }
        i = i + 1;
    }
    assert(ls.take(segs.len() as int) =~= ls);
    None
}

/// Without a binding line, rewriting leaves every segment as it was.
proof fn lemma_no_binding_unchanged(gs: Seq<Seq<char>>, key: Seq<char>, value: Seq<char>)
    requires
        !any_binds(gs, key),
    ensures
        forall|i: int| 0 <= i < gs.len() ==> rewrite_segment(#[trigger] gs[i], key, value) == gs[i],
    decreases gs.len(),
{
    if gs.len() > 0 {
        lemma_no_binding_unchanged(gs.drop_last(), key, value);
        assert forall|i: int| 0 <= i < gs.len() implies rewrite_segment(#[trigger] gs[i], key, value)
            == gs[i] by {
            if i < gs.len() - 1 {
                assert(gs.drop_last()[i] == gs[i]);
            }
        }
    }
}

/// Sets `key` to `value`, preserving ordering, unknown lines and line endings.
///
/// Migrating one key must not rewrite metadata owned by other components, so every other line is
/// kept byte for byte.
pub fn metadata_set(contents: &str, key: &str, value: &str) -> (r: String)
    ensures
        r@ == metadata_with(contents@, key@, value@),
{
    let text = chars_of(contents);
    let k = chars_of(key);
    let v = chars_of(value);
    let key_has_eq = vec_contains(&k, '=');
    let segs = segments_of(&text);
    let ghost gs = segments(contents@);
    let ghost f = |g: Seq<char>| rewrite_segment(g, key@, value@);
    let mut found = false;
    let mut updated: Vec<char> = Vec::new();
    let mut i: usize = 0;
    assert(gs.take(0).map_values(f) =~= Seq::<Seq<char>>::empty());
    while i < segs.len()
        invariant
            i <= segs.len(),
            key_has_eq == k@.contains('='),
            k@ == key@,
            v@ == value@,
            views(segs@) == gs,
            gs == segments(contents@),
            f == (|g: Seq<char>| rewrite_segment(g, key@, value@)),
            updated@ == join_all(gs.take(i as int).map_values(f)),
            found == any_binds(gs.take(i as int), key@),
        decreases segs.len() - i,
    {
        let seg = &segs[i];
        let n = text_len(seg);
        assert(views(segs@)[i as int] == seg@);
        let ghost before = updated@;
        let len = seg.len();
        assert(gs.take(i + 1).drop_last() =~= gs.take(i as int));
        assert(gs.take(i + 1).last() == gs[i as int]);
        if text_binds(seg, n, &k, key_has_eq) {
            append_vec(&mut updated, &k);
            updated.push('=');
            append_vec(&mut updated, &v);
            if len >= 2 && seg[len - 2] == '\r' && seg[len - 1] == '\n' {
                updated.push('\r');
                updated.push('\n');
            } else {
                updated.push('\n');
            }
            found = true;
            assert(updated@ =~= before + f(gs[i as int]));
        } else {
            append_vec(&mut updated, seg);
            assert(updated@ =~= before + f(gs[i as int]));
        }
        proof {
            assert(gs.take(i + 1).map_values(f) =~= gs.take(i as int).map_values(f).push(
                f(gs[i as int]),
            ));
            lemma_join_push(gs.take(i as int).map_values(f), f(gs[i as int]));
        }
        i = i + 1;
    }
    assert(gs.take(segs.len() as int) =~= gs);
    if !found {
        proof {
            lemma_no_binding_unchanged(gs, key@, value@);
            assert(gs.map_values(f) =~= gs);
            lemma_segments_well_formed(contents@);
        }
        let ending = appended_line_ending(contents);
        let tl = text.len();
        if tl > 0 && text[tl - 1] != '\n' {
            append_str(&mut updated, ending);
        }
        append_vec(&mut updated, &k);
        updated.push('=');
        append_vec(&mut updated, &v);
        append_str(&mut updated, ending);
        assert(updated@ =~= metadata_with(contents@, key@, value@));
    }
    string_of(&updated)
}

/// Removes every line that binds `key`, preserving every other line byte for byte.
pub fn metadata_unset(contents: &str, key: &str) -> (r: String)
    ensures
        r@ == metadata_without(contents@, key@),
{
    let text = chars_of(contents);
    let k = chars_of(key);
    let key_has_eq = vec_contains(&k, '=');
    let segs = segments_of(&text);
    let ghost gs = segments(contents@);
    let mut updated: Vec<char> = Vec::new();
    let mut i: usize = 0;
    while i < segs.len()
        invariant
            i <= segs.len(),
            key_has_eq == k@.contains('='),
            k@ == key@,
            views(segs@) == gs,
            gs == segments(contents@),
            updated@ == join_all(kept_segments(gs.take(i as int), key@)),
        decreases segs.len() - i,
    {
        let seg = &segs[i];
        let n = text_len(seg);
        assert(views(segs@)[i as int] == seg@);
        assert(gs.take(i + 1).drop_last() =~= gs.take(i as int));
        assert(gs.take(i + 1).last() == gs[i as int]);
        if !text_binds(seg, n, &k, key_has_eq) {
            append_vec(&mut updated, seg);
            proof {
                lemma_join_push(kept_segments(gs.take(i as int), key@), seg@);
            }
        }
        i = i + 1;
    }
    assert(gs.take(segs.len() as int) =~= gs);
    string_of(&updated)
}

/// The text of one line segment: the segment without its `"\r\n"` or `'\n'` ending.
pub fn metadata_line_text(line: &str) -> (r: String)
    ensures
        r@ == line_text(line@),
{
    let v = chars_of(line);
    let n = text_len(&v);
    let t = slice_vec(&v, 0, n);
    assert(t@ =~= v@.take(n as int));
    string_of(&t)
}

/// Moves the value of `old_key` to `new_key`, leaving metadata without `old_key` unchanged.
pub fn migrate_key(contents: String, old_key: &str, new_key: &str) -> (r: String)
    ensures
        r@ == metadata_migrated(contents@, old_key@, new_key@),
{
    match metadata_get(contents.as_str(), old_key) {
        Some(value) => {
            let contents = metadata_set(contents.as_str(), new_key, value.as_str());
            metadata_unset(contents.as_str(), old_key)
        },
        None => contents,
    }
}

/// The metadata with the legacy keys `env_root` and `env_name` moved to `environment_root`
/// and `environment_name`.
pub open spec fn metadata_with_current_keys(contents: Seq<char>) -> Seq<char> {
    metadata_migrated(
        metadata_migrated(contents, "env_root"@, "environment_root"@),
        "env_name"@,
        "environment_name"@,
    )
}

/// The new metadata text when migrating the legacy keys changes `contents`, `None` when there
/// is nothing to rewrite.
///
/// Migration is opportunistic: a caller rewrites the file only when this gives new text, and
/// only when the file is writable.
pub fn migrate_legacy_keys(contents: &str) -> (r: Option<String>)
    ensures
        match r {
            Some(m) => m@ == metadata_with_current_keys(contents@) && m@ != contents@,
            None => metadata_with_current_keys(contents@) == contents@,
        },
{
    let migrated = migrate_key(contents.to_owned(), "env_root", "environment_root");
    let migrated = migrate_key(migrated, "env_name", "environment_name");
    if crate::chars::str_eq(migrated.as_str(), contents) {
        None
    } else {
        Some(migrated)
    }
}

/// Line ending for a binding appended to `contents`, following its last terminated line.
///
/// An appended binding must not leave a CRLF file with mixed line endings, and a file with no
/// terminated line at all has nothing to follow, so it gets the format's default.
pub fn appended_line_ending(contents: &str) -> (r: &'static str)
    ensures
        r@ == appended_ending(contents@),
{
    let text = chars_of(contents);
    let mut i: usize = text.len();
    while i > 0
        invariant
            i <= text.len(),
            text@ == contents@,
            forall|k: int| i <= k < text.len() ==> text@[k] != '\n',
        decreases i,
    {
        if text[i - 1] == '\n' {
            let j = i - 1;
            if j > 0 && text[j - 1] == '\r' {
                proof { reveal_strlit("\r\n"); }
                assert(last_newline_at(contents@, j as int));
                assert("\r\n"@ =~= seq!['\r', '\n']);
                return "\r\n";
            }
            proof {
                reveal_strlit("\n");
                assert(last_newline_at(contents@, j as int));
                assert forall|j2: int| #[trigger] last_newline_at(contents@, j2) implies j2 == j by {
                    if j2 < j {
                        assert(contents@[j as int] == '\n');
                    }
                }
            }
            assert("\n"@ =~= seq!['\n']);
            return "\n";
        }
        i = i - 1;
    }
    proof { reveal_strlit("\n"); }
    assert("\n"@ =~= seq!['\n']);
    "\n"
}

} // verus!
