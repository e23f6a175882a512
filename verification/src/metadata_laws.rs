//! What reading metadata gives back after it has been edited.

use vstd::prelude::*;
use crate::lines::{
    join_all, lemma_join_push, lemma_segments_append, lemma_segments_join, lemma_segments_single,
    lemma_segments_well_formed, lemma_texts_push, line_text, lines, segments, terminated, texts,
    well_segmented,
};
use crate::metadata::{
    any_binds, appended_ending, binding_line, binds, bound_value, first_value, has_binding,
    kept_segments, metadata_migrated, metadata_value, metadata_with, metadata_without,
    rewrite_segment, rewritten_ending,
};

verus! {

/// A line text binds at most one key.
proof fn lemma_binds_unique(t: Seq<char>, k1: Seq<char>, k2: Seq<char>)
    requires
        binds(t, k1),
        binds(t, k2),
    ensures
        k1 == k2,
{
    if k1.len() < k2.len() {
        assert(k2[k1.len() as int] == t.take(k2.len() as int)[k1.len() as int]);
        assert(k2.contains('='));
    } else if k2.len() < k1.len() {
        assert(k1[k2.len() as int] == t.take(k1.len() as int)[k2.len() as int]);
        assert(k1.contains('='));
    } else {
        assert(k1 =~= k2);
    }
}

/// The text `key=value` binds `key` to `value`, and no other key.
proof fn lemma_text_binds_value(key: Seq<char>, value: Seq<char>, other: Seq<char>)
    requires
        !key.contains('='),
    ensures
        binds(key + seq!['='] + value, key),
        bound_value(key + seq!['='] + value, key) == value,
        other != key ==> !binds(key + seq!['='] + value, other),
{
    let t = key + seq!['='] + value;
    assert(t.take(key.len() as int) =~= key);
    assert(t[key.len() as int] == '=');
    assert(bound_value(t, key) =~= value);
    if other != key && binds(t, other) {
        lemma_binds_unique(t, key, other);
    }
}

/// A written binding line is a single segment whose text is `key=value`.
proof fn lemma_binding_line(key: Seq<char>, value: Seq<char>, ending: Seq<char>)
    requires
        !key.contains('\n'),
        !value.contains('\n'),
        !value.contains('\r'),
        ending == seq!['\r', '\n'] || ending == seq!['\n'],
    ensures
        line_text(binding_line(key, value, ending)) == key + seq!['='] + value,
        binding_line(key, value, ending).len() > 0,
        binding_line(key, value, ending).last() == '\n',
        forall|j: int|
            0 <= j < binding_line(key, value, ending).len() - 1 ==> #[trigger] binding_line(
                key,
                value,
                ending,
            )[j] != '\n',
{
    let body = key + seq!['='] + value;
    let line = binding_line(key, value, ending);
    assert(line =~= body + ending);
    let n = line.len();
    assert(body.len() > 0);
    assert(body.last() != '\r') by {
        if value.len() > 0 {
            assert(body.last() == value.last());
            assert(value.contains(value.last()) ) by {
                assert(value[value.len() - 1] == value.last());
            }
        } else {
            assert(body.last() == '=');
        }
    }
    if ending == seq!['\r', '\n'] {
        assert(line[n - 2] == '\r');
        assert(line.take(n - 2) =~= body);
    } else {
        assert(line[n - 2] == body.last());
        assert(line.take(n - 1) =~= body);
    }
    assert forall|j: int| 0 <= j < n - 1 implies #[trigger] line[j] != '\n' by {
        if j < key.len() {
            assert(line[j] == key[j]);
            if key[j] == '\n' {
                assert(key.contains('\n'));
            }
        } else if j == key.len() {
            assert(line[j] == '=');
        } else if j < body.len() {
            assert(line[j] == value[j - key.len() - 1]);
            if value[j - key.len() - 1] == '\n' {
                assert(value.contains('\n'));
            }
        } else {
            assert(line[j] == '\r');
        }
    }
}

/// Extending a line text keeps every binding it had.
proof fn lemma_binds_extend(t: Seq<char>, key: Seq<char>)
    requires
        t.len() > 0,
        binds(t.drop_last(), key),
    ensures
        binds(t, key),
{
    assert(t.take(key.len() as int) =~= t.drop_last().take(key.len() as int));
}

/// Without a binding line there is no value.
proof fn lemma_no_binding_none(gs: Seq<Seq<char>>, key: Seq<char>)
    requires
        !any_binds(gs, key),
    ensures
        first_value(texts(gs), key) is None,
    decreases gs.len(),
{
    if gs.len() > 0 {
        lemma_no_binding_none(gs.drop_last(), key);
        assert(gs =~= gs.drop_last().push(gs.last()));
        lemma_texts_push(gs.drop_last(), gs.last());
    }
}

/// The line texts after rewriting every line that binds `key`.
spec fn rewritten_texts(gs: Seq<Seq<char>>, key: Seq<char>, value: Seq<char>) -> Seq<Seq<char>> {
    texts(gs.map_values(|g: Seq<char>| rewrite_segment(g, key, value)))
}

/// Rewriting binds `key` to `value` wherever it was bound, and leaves other keys alone.
proof fn lemma_rewritten_values(
    gs: Seq<Seq<char>>,
    key: Seq<char>,
    value: Seq<char>,
    other: Seq<char>,
)
    requires
        !key.contains('='),
        !key.contains('\n'),
        !value.contains('\n'),
        !value.contains('\r'),
    ensures
        first_value(rewritten_texts(gs, key, value), key) == (if any_binds(gs, key) {
            Some(value)
        } else {
            None
        }),
        other != key ==> first_value(rewritten_texts(gs, key, value), other) == first_value(
            texts(gs),
            other,
        ),
    decreases gs.len(),
{
    if gs.len() > 0 {
        let init = gs.drop_last();
        let g = gs.last();
        let f = |g: Seq<char>| rewrite_segment(g, key, value);
        lemma_rewritten_values(init, key, value, other);
        assert(gs =~= init.push(g));
        assert(gs.map_values(f) =~= init.map_values(f).push(f(g)));
        lemma_texts_push(init.map_values(f), f(g));
        lemma_texts_push(init, g);
        lemma_text_binds_value(key, value, other);
        if binds(line_text(g), key) {
            lemma_binding_line(key, value, rewritten_ending(g));
            if other != key && binds(line_text(g), other) {
                lemma_binds_unique(line_text(g), key, other);
            }
        }
    }
}

/// A list of segments stays well formed when binding lines are rewritten.
proof fn lemma_rewritten_well_segmented(gs: Seq<Seq<char>>, key: Seq<char>, value: Seq<char>)
    requires
        well_segmented(gs),
        !key.contains('\n'),
        !value.contains('\n'),
        !value.contains('\r'),
    ensures
        well_segmented(gs.map_values(|g: Seq<char>| rewrite_segment(g, key, value))),
{
    let hs = gs.map_values(|g: Seq<char>| rewrite_segment(g, key, value));
    assert forall|i: int| 0 <= i < hs.len() implies (#[trigger] hs[i]).len() > 0 && (forall|j: int|
        0 <= j < hs[i].len() - 1 ==> hs[i][j] != '\n') && (i < hs.len() - 1 ==> hs[i].last()
        == '\n') by {
        let g = gs[i];
        assert(hs[i] == rewrite_segment(g, key, value));
        if binds(line_text(g), key) {
            lemma_binding_line(key, value, rewritten_ending(g));
        } else {
            assert forall|j: int| 0 <= j < hs[i].len() - 1 implies hs[i][j] != '\n' by {
                assert(gs[i][j] != '\n');
            }
        }
    }
}

/// Terminating an unterminated last line extends its segment.
proof fn lemma_terminate(contents: Seq<char>, sep: Seq<char>)
    requires
        contents.len() > 0,
        contents.last() != '\n',
        sep == seq!['\r', '\n'] || sep == seq!['\n'],
    ensures
        segments(contents + sep) == segments(contents).drop_last().push(
            segments(contents).last() + sep,
        ),
        terminated(contents + sep),
        segments(contents).len() > 0,
        forall|j: int|
            0 <= j < segments(contents).last().len() ==> #[trigger] segments(contents).last()[j]
                != '\n',
{
    let gs = segments(contents);
    lemma_segments_well_formed(contents);
    let init = gs.drop_last();
    let g = gs.last();
    assert(gs[gs.len() - 1] == g);
    assert forall|j: int| 0 <= j < g.len() implies #[trigger] g[j] != '\n' by {
        if j < g.len() - 1 {
            assert(gs[gs.len() - 1][j] != '\n');
        }
    }
    let list = init.push(g + sep);
    assert(well_segmented(list)) by {
        assert forall|i: int| 0 <= i < list.len() implies (#[trigger] list[i]).len() > 0 && (forall|
            j: int,
        | 0 <= j < list[i].len() - 1 ==> list[i][j] != '\n') && (i < list.len() - 1
            ==> list[i].last() == '\n') by {
            if i < init.len() {
                assert(list[i] == gs[i]);
                assert forall|j: int| 0 <= j < list[i].len() - 1 implies list[i][j] != '\n' by {
                    assert(gs[i][j] != '\n');
                }
            } else {
                assert(list[i] == g + sep);
                assert forall|j: int| 0 <= j < list[i].len() - 1 implies list[i][j] != '\n' by {
                    if j < g.len() {
                        assert(list[i][j] == g[j]);
                    } else {
                        assert(list[i][j] == '\r');
                    }
                }
            }
        }
    }
    lemma_segments_join(list);
    lemma_join_push(init, g + sep);
    lemma_join_push(init, g);
    assert(gs =~= init.push(g));
    assert(join_all(init) + (g + sep) =~= (join_all(init) + g) + sep);
}

/// The text of an unterminated last line once terminated: the same line, minus a trailing
/// carriage return that the new `'\n'` turns into a CRLF ending.
proof fn lemma_terminated_text(g: Seq<char>, sep: Seq<char>)
    requires
        g.len() > 0,
        forall|j: int| 0 <= j < g.len() ==> #[trigger] g[j] != '\n',
        sep == seq!['\r', '\n'] || sep == seq!['\n'],
    ensures
        line_text(g) == g,
        line_text(g + sep) == g || (line_text(g + sep) == g.drop_last() && g.last() == '\r'),
        g.last() != '\r' ==> line_text(g + sep) == g,
{
    let t = g + sep;
    let n = t.len();
    assert(g[g.len() - 1] != '\n');
    if sep == seq!['\r', '\n'] {
        assert(t[n - 2] == '\r');
        assert(t.take(n - 2) =~= g);
    } else {
        assert(t[n - 2] == g.last());
        if g.last() == '\r' {
            assert(t.take(n - 2) =~= g.drop_last());
        } else {
            assert(t.take(n - 1) =~= g);
        }
    }
}

/// Reading a key right after setting it gives back the value that was set.
pub proof fn law_get_after_set(contents: Seq<char>, key: Seq<char>, value: Seq<char>)
    requires
        !key.contains('='),
        !key.contains('\n'),
        !value.contains('\n'),
        !value.contains('\r'),
    ensures
        metadata_value(metadata_with(contents, key, value), key) == Some(value),
{
    lemma_set_values(contents, key, value, key);
}

/// Setting one key leaves the value of every other key as it was, unless the last line is an
/// unterminated one ending in a carriage return.
pub proof fn law_set_keeps_other_keys(
    contents: Seq<char>,
    key: Seq<char>,
    value: Seq<char>,
    other: Seq<char>,
)
    requires
        !key.contains('='),
        !key.contains('\n'),
        !value.contains('\n'),
        !value.contains('\r'),
        other != key,
        contents.len() == 0 || contents.last() != '\r',
    ensures
        metadata_value(metadata_with(contents, key, value), other) == metadata_value(
            contents,
            other,
        ),
{
    lemma_set_values(contents, key, value, other);
}

proof fn lemma_set_values(contents: Seq<char>, key: Seq<char>, value: Seq<char>, other: Seq<char>)
    requires
        !key.contains('='),
        !key.contains('\n'),
        !value.contains('\n'),
        !value.contains('\r'),
    ensures
        metadata_value(metadata_with(contents, key, value), key) == Some(value),
        other != key && (contents.len() == 0 || contents.last() != '\r') ==> metadata_value(
            metadata_with(contents, key, value),
            other,
        ) == metadata_value(contents, other),
{
    let gs = segments(contents);
    lemma_segments_well_formed(contents);
    lemma_rewritten_values(gs, key, value, other);
    if has_binding(contents, key) {
        let hs = gs.map_values(|g: Seq<char>| rewrite_segment(g, key, value));
        lemma_rewritten_well_segmented(gs, key, value);
        lemma_segments_join(hs);
    } else {
        let ending = appended_ending(contents);
        let sep = if contents.len() > 0 && contents.last() != '\n' {
            ending
        } else {
            seq![]
        };
        let line = binding_line(key, value, ending);
        let front = contents + sep;
        let out = front + line;
        assert(out =~= metadata_with(contents, key, value));
        lemma_binding_line(key, value, ending);
        lemma_segments_single(line);
        lemma_text_binds_value(key, value, other);
        let fs = segments(front);
        if sep.len() == 0 {
            assert(front =~= contents);
            lemma_no_binding_none(gs, key);
        } else {
            lemma_terminate(contents, sep);
            let init = gs.drop_last();
            let g = gs.last();
            lemma_terminated_text(g, sep);
            assert(gs =~= init.push(g));
            lemma_texts_push(init, g);
            lemma_texts_push(init, g + sep);
            assert(!binds(line_text(g + sep), key)) by {
                if binds(line_text(g + sep), key) && line_text(g + sep) != g {
                    lemma_binds_extend(g, key);
                }
            }
            assert(!any_binds(init.push(g + sep), key)) by {
                assert(init.push(g + sep).drop_last() =~= init);
            }
            lemma_no_binding_none(init.push(g + sep), key);
            if contents.last() != '\r' {
                assert(g.last() == contents.last());
                assert(texts(fs) =~= texts(gs));
            }
        }
        assert(terminated(front));
        lemma_segments_append(front, line);
        assert(segments(out) =~= fs.push(line));
        lemma_texts_push(fs, line);
    }
}

/// Every segment kept by unsetting is a segment of the given list, in order.
proof fn lemma_kept_values(gs: Seq<Seq<char>>, key: Seq<char>, other: Seq<char>)
    requires
        well_segmented(gs),
    ensures
        well_segmented(kept_segments(gs, key)),
        (forall|i: int| 0 <= i < gs.len() ==> (#[trigger] gs[i]).last() == '\n') ==> (forall|
            i: int,
        | 0 <= i < kept_segments(gs, key).len() ==> (#[trigger] kept_segments(gs, key)[i]).last()
            == '\n'),
        first_value(texts(kept_segments(gs, key)), key) is None,
        other != key ==> first_value(texts(kept_segments(gs, key)), other) == first_value(
            texts(gs),
            other,
        ),
    decreases gs.len(),
{
    if gs.len() > 0 {
        let init = gs.drop_last();
        let g = gs.last();
        assert(gs =~= init.push(g));
        assert(well_segmented(init)) by {
            assert forall|i: int| 0 <= i < init.len() implies (#[trigger] init[i]).len() > 0 && (
            forall|j: int| 0 <= j < init[i].len() - 1 ==> init[i][j] != '\n') && (i < init.len() - 1
                ==> init[i].last() == '\n') by {
                assert(init[i] == gs[i]);
                assert forall|j: int| 0 <= j < init[i].len() - 1 implies init[i][j] != '\n' by {
                    assert(gs[i][j] != '\n');
                }
            }
        }
        assert forall|i: int| 0 <= i < init.len() implies (#[trigger] init[i]).last() == '\n' by {
            assert(init[i] == gs[i]);
        }
        lemma_kept_values(init, key, other);
        let ki = kept_segments(init, key);
        lemma_texts_push(init, g);
        if !binds(line_text(g), key) {
            let ks = ki.push(g);
            assert(kept_segments(gs, key) == ks);
            lemma_texts_push(ki, g);
            assert(gs[gs.len() - 1] == g);
            assert(well_segmented(ks)) by {
                assert forall|i: int| 0 <= i < ks.len() implies (#[trigger] ks[i]).len() > 0 && (
                forall|j: int| 0 <= j < ks[i].len() - 1 ==> ks[i][j] != '\n') && (i < ks.len() - 1
                    ==> ks[i].last() == '\n') by {
                    if i < ki.len() {
                        assert(ks[i] == ki[i]);
                    } else {
                        assert forall|j: int| 0 <= j < ks[i].len() - 1 implies ks[i][j] != '\n' by {
                            assert(gs[gs.len() - 1][j] != '\n');
                        }
                    }
                }
            }
        } else {
            if other != key && binds(line_text(g), other) {
                lemma_binds_unique(line_text(g), key, other);
            }
        }
    }
}

/// After a key is unset, reading it finds nothing.
pub proof fn law_unset_removes_key(contents: Seq<char>, key: Seq<char>)
    ensures
        metadata_value(metadata_without(contents, key), key) is None,
{
    lemma_unset_values(contents, key, key);
}

/// Unsetting one key leaves the value of every other key as it was.
pub proof fn law_unset_keeps_other_keys(contents: Seq<char>, key: Seq<char>, other: Seq<char>)
    requires
        other != key,
    ensures
        metadata_value(metadata_without(contents, key), other) == metadata_value(contents, other),
{
    lemma_unset_values(contents, key, other);
}

proof fn lemma_unset_values(contents: Seq<char>, key: Seq<char>, other: Seq<char>)
    ensures
        metadata_value(metadata_without(contents, key), key) is None,
        other != key ==> metadata_value(metadata_without(contents, key), other) == metadata_value(
            contents,
            other,
        ),
{
    let gs = segments(contents);
    lemma_segments_well_formed(contents);
    lemma_kept_values(gs, key, other);
    lemma_segments_join(kept_segments(gs, key));
}

/// Values read from metadata never hold a line feed.
proof fn lemma_value_single_line(contents: Seq<char>, key: Seq<char>)
    ensures
        metadata_value(contents, key) matches Some(v) ==> !v.contains('\n'),
{
    let gs = segments(contents);
    lemma_segments_well_formed(contents);
    let ls = texts(gs);
    assert forall|i: int| 0 <= i < ls.len() implies !(#[trigger] ls[i]).contains('\n') by {
        let g = gs[i];
        assert(ls[i] == line_text(g));
        if ls[i].contains('\n') {
            let j = choose|j: int| 0 <= j < ls[i].len() && ls[i][j] == '\n';
            assert(ls[i][j] == g[j]);
        }
    }
    lemma_first_value_single_line(ls, key);
}

proof fn lemma_first_value_single_line(ls: Seq<Seq<char>>, key: Seq<char>)
    requires
        forall|i: int| 0 <= i < ls.len() ==> !(#[trigger] ls[i]).contains('\n'),
    ensures
        first_value(ls, key) matches Some(v) ==> !v.contains('\n'),
    decreases ls.len(),
{
    if ls.len() > 0 {
        assert forall|i: int| 0 <= i < ls.drop_last().len() implies !(
        #[trigger] ls.drop_last()[i]).contains('\n') by {
            assert(ls.drop_last()[i] == ls[i]);
        }
        lemma_first_value_single_line(ls.drop_last(), key);
        let t = ls.last();
        assert(!ls[ls.len() - 1].contains('\n'));
        let v = bound_value(t, key);
        if binds(t, key) && v.contains('\n') {
            let j = choose|j: int| 0 <= j < v.len() && v[j] == '\n';
            assert(t.contains('\n')) by {
                assert(t[j + key.len() + 1] == '\n');
            }
        }
    }
}

/// Migrating a key moves its value to the new key and leaves the old key unbound, provided the
/// value does not hold a carriage return.
pub proof fn law_migrate_moves_value(contents: Seq<char>, old_key: Seq<char>, new_key: Seq<char>)
    requires
        old_key != new_key,
        !new_key.contains('='),
        !new_key.contains('\n'),
        metadata_value(contents, old_key) matches Some(v) && !v.contains('\r'),
    ensures
        metadata_value(metadata_migrated(contents, old_key, new_key), new_key) == metadata_value(
            contents,
            old_key,
        ),
        metadata_value(metadata_migrated(contents, old_key, new_key), old_key) is None,
{
    let v = metadata_value(contents, old_key)->Some_0;
    lemma_value_single_line(contents, old_key);
    let set = metadata_with(contents, new_key, v);
    law_get_after_set(contents, new_key, v);
    law_unset_keeps_other_keys(set, old_key, new_key);
    law_unset_removes_key(set, old_key);
}

/// A written binding line is one segment whose line binds its key, whatever the value holds
/// besides line feeds.
proof fn lemma_binding_line_binds(key: Seq<char>, value: Seq<char>, ending: Seq<char>)
    requires
        !key.contains('='),
        !key.contains('\n'),
        !value.contains('\n'),
        ending == seq!['\r', '\n'] || ending == seq!['\n'],
    ensures
        binds(line_text(binding_line(key, value, ending)), key),
        binding_line(key, value, ending).len() > 0,
        binding_line(key, value, ending).last() == '\n',
        forall|j: int|
            0 <= j < binding_line(key, value, ending).len() - 1 ==> #[trigger] binding_line(
                key,
                value,
                ending,
            )[j] != '\n',
{
    let body = key + seq!['='] + value;
    let line = binding_line(key, value, ending);
    assert(line =~= body + ending);
    let n = line.len();
    let t = line_text(line);
    assert(line[n - 1] == '\n');
    if ending == seq!['\r', '\n'] {
        assert(line[n - 2] == '\r');
        assert(t =~= body);
    } else if line[n - 2] == '\r' {
        assert(t =~= body.drop_last());
        assert(value.len() > 0) by {
            if value.len() == 0 {
                assert(line[n - 2] == '=');
            }
        }
    } else {
        assert(t =~= body);
    }
    assert(t.len() > key.len());
    assert(t.take(key.len() as int) =~= key);
    assert(t[key.len() as int] == '=');
    assert forall|j: int| 0 <= j < n - 1 implies #[trigger] line[j] != '\n' by {
        if j < key.len() {
            assert(line[j] == key[j]);
            if key[j] == '\n' {
                assert(key.contains('\n'));
            }
        } else if j == key.len() {
            assert(line[j] == '=');
        } else if j < body.len() {
            assert(line[j] == value[j - key.len() - 1]);
            if value[j - key.len() - 1] == '\n' {
                assert(value.contains('\n'));
            }
        } else {
            assert(line[j] == '\r');
        }
    }
}

/// Rewriting the binding lines of `key` does not change which segments unsetting `key` keeps.
proof fn lemma_kept_after_rewrite(gs: Seq<Seq<char>>, key: Seq<char>, value: Seq<char>)
    requires
        !key.contains('='),
        !key.contains('\n'),
        !value.contains('\n'),
    ensures
        kept_segments(gs.map_values(|g: Seq<char>| rewrite_segment(g, key, value)), key)
            == kept_segments(gs, key),
    decreases gs.len(),
{
    if gs.len() > 0 {
        let init = gs.drop_last();
        let g = gs.last();
        let f = |g: Seq<char>| rewrite_segment(g, key, value);
        lemma_kept_after_rewrite(init, key, value);
        assert(gs.map_values(f) =~= init.map_values(f).push(f(g)));
        assert(init.map_values(f).push(f(g)).drop_last() =~= init.map_values(f));
        if binds(line_text(g), key) {
            lemma_binding_line_binds(key, value, rewritten_ending(g));
        }
    }
}

/// Setting a key and then unsetting it gives the same text as unsetting it alone, when the
/// text is empty or ends with a line feed: every other line, its order and its ending are kept.
pub proof fn law_unset_after_set(contents: Seq<char>, key: Seq<char>, value: Seq<char>)
    requires
        !key.contains('='),
        !key.contains('\n'),
        !value.contains('\n'),
        terminated(contents),
    ensures
        metadata_without(metadata_with(contents, key, value), key) == metadata_without(
            contents,
            key,
        ),
{
    let gs = segments(contents);
    lemma_segments_well_formed(contents);
    if has_binding(contents, key) {
        let hs = gs.map_values(|g: Seq<char>| rewrite_segment(g, key, value));
        assert(well_segmented(hs)) by {
            assert forall|i: int| 0 <= i < hs.len() implies (#[trigger] hs[i]).len() > 0 && (
            forall|j: int| 0 <= j < hs[i].len() - 1 ==> hs[i][j] != '\n') && (i < hs.len() - 1
                ==> hs[i].last() == '\n') by {
                let g = gs[i];
                assert(hs[i] == rewrite_segment(g, key, value));
                if binds(line_text(g), key) {
                    lemma_binding_line_binds(key, value, rewritten_ending(g));
                } else {
                    assert forall|j: int| 0 <= j < hs[i].len() - 1 implies hs[i][j] != '\n' by {
                        assert(gs[i][j] != '\n');
                    }
                }
            }
        }
        lemma_segments_join(hs);
        lemma_kept_after_rewrite(gs, key, value);
    } else {
        let ending = appended_ending(contents);
        let line = binding_line(key, value, ending);
        assert(metadata_with(contents, key, value) =~= contents + line);
        lemma_binding_line_binds(key, value, ending);
        lemma_segments_single(line);
        lemma_segments_append(contents, line);
        assert(segments(contents + line) =~= gs.push(line));
        assert(gs.push(line).drop_last() =~= gs);
    }
}

} // verus!
