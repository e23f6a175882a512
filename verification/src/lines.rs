//! Line structure of text: terminated segments and their line texts.
//!
//! A segment is a line together with its terminating `'\n'` (the last one may be unterminated),
//! exactly as `str::split_inclusive('\n')` yields them; the text of a line drops a trailing
//! `"\r\n"` or `'\n'`, exactly as `str::lines` does.

use vstd::prelude::*;

verus! {

/// The terminated segments of `s`, in order.
pub open spec fn segments(s: Seq<char>) -> Seq<Seq<char>>
    decreases s.len(),
{
    if s.len() == 0 {
        seq![]
    } else {
        let p = segments(s.drop_last());
        let c = s.last();
        if p.len() == 0 || p.last().last() == '\n' {
            p.push(seq![c])
        } else {
            p.update(p.len() - 1, p.last().push(c))
        }
    }
}

/// The text of a line: its segment without the line ending.
pub open spec fn line_text(seg: Seq<char>) -> Seq<char> {
    if seg.len() >= 2 && seg[seg.len() - 2] == '\r' && seg[seg.len() - 1] == '\n' {
        seg.take(seg.len() - 2)
    } else if seg.len() >= 1 && seg[seg.len() - 1] == '\n' {
        seg.take(seg.len() - 1)
    } else {
        seg
    }
}

/// The line texts of `s`, as `str::lines` yields them.
pub open spec fn lines(s: Seq<char>) -> Seq<Seq<char>> {
    texts(segments(s))
}

/// The line texts of a list of segments.
pub open spec fn texts(gs: Seq<Seq<char>>) -> Seq<Seq<char>> {
    gs.map_values(|g: Seq<char>| line_text(g))
}

pub proof fn lemma_texts_push(gs: Seq<Seq<char>>, g: Seq<char>)
    ensures
        texts(gs.push(g)) == texts(gs).push(line_text(g)),
        texts(gs.push(g)).drop_last() == texts(gs),
{
    assert(texts(gs.push(g)) =~= texts(gs).push(line_text(g)));
    assert(texts(gs.push(g)).drop_last() =~= texts(gs));
}

/// Concatenation of all parts, in order.
pub open spec fn join_all(parts: Seq<Seq<char>>) -> Seq<char>
    decreases parts.len(),
{
    if parts.len() == 0 {
        seq![]
    } else {
        join_all(parts.drop_last()) + parts.last()
    }
}

/// A well-formed segment list: every segment is non-empty, holds `'\n'` only as its last
/// character, and every segment but the last ends with `'\n'`.
pub open spec fn well_segmented(gs: Seq<Seq<char>>) -> bool {
    &&& forall|i: int| 0 <= i < gs.len() ==> #[trigger] gs[i].len() > 0
    &&& forall|i: int, j: int|
        0 <= i < gs.len() && 0 <= j < gs[i].len() - 1 ==> #[trigger] gs[i][j] != '\n'
    &&& forall|i: int| 0 <= i < gs.len() - 1 ==> #[trigger] gs[i].last() == '\n'
}

/// Text made only of terminated lines: empty or ending with `'\n'`.
pub open spec fn terminated(s: Seq<char>) -> bool {
    s.len() == 0 || s.last() == '\n'
}

pub proof fn lemma_join_push(parts: Seq<Seq<char>>, g: Seq<char>)
    ensures
        join_all(parts.push(g)) == join_all(parts) + g,
{
    assert(parts.push(g).drop_last() =~= parts);
}

pub proof fn lemma_segments_well_formed(s: Seq<char>)
    ensures
        well_segmented(segments(s)),
        join_all(segments(s)) == s,
        s.len() > 0 ==> segments(s).len() > 0 && segments(s).last().last() == s.last(),
        segments(s).len() == 0 <==> s.len() == 0,
    decreases s.len(),
{
    if s.len() > 0 {
        let t = s.drop_last();
        lemma_segments_well_formed(t);
        let p = segments(t);
        let c = s.last();
        if p.len() == 0 || p.last().last() == '\n' {
            lemma_join_push(p, seq![c]);
            assert(t + seq![c] =~= s);
            let q = p.push(seq![c]);
            assert forall|i: int, j: int|
                0 <= i < q.len() && 0 <= j < q[i].len() - 1 implies #[trigger] q[i][j] != '\n' by {
                if i < p.len() {
                    assert(q[i] == p[i]);
                }
            }
        } else {
            let last = p.last().push(c);
            let q = p.update(p.len() - 1, last);
            assert(q =~= p.drop_last().push(last));
            assert(p =~= p.drop_last().push(p.last()));
            lemma_join_push(p.drop_last(), p.last());
            lemma_join_push(p.drop_last(), last);
            assert(join_all(p) == join_all(p.drop_last()) + p.last());
            assert(join_all(q) == join_all(p.drop_last()) + last);
            assert(join_all(p.drop_last()) + last =~= (join_all(p.drop_last()) + p.last()).push(c));
            assert(t.push(c) =~= s);
            assert forall|i: int, j: int|
                0 <= i < q.len() && 0 <= j < q[i].len() - 1 implies #[trigger] q[i][j] != '\n' by {
                if i < p.len() - 1 {
                    assert(q[i] == p[i]);
                } else {
                    assert(q[i] == last);
                    if j < p.last().len() - 1 {
                        assert(last[j] == p[p.len() - 1][j]);
                    } else {
                        assert(last[j] == p.last().last());
                    }
                }
            }
            assert forall|i: int| 0 <= i < q.len() - 1 implies #[trigger] q[i].last() == '\n' by {
                assert(q[i] == p[i]);
            }
        }
    }
}

/// Segmenting text made of terminated lines followed by more text splits at the boundary.
pub proof fn lemma_segments_append(a: Seq<char>, b: Seq<char>)
    requires
        terminated(a),
    ensures
        segments(a + b) == segments(a) + segments(b),
    decreases b.len(),
{
    if b.len() == 0 {
        assert(a + b =~= a);
        assert(segments(a) + segments(b) =~= segments(a));
    } else {
        let bd = b.drop_last();
        lemma_segments_append(a, bd);
        assert((a + b).drop_last() =~= a + bd);
        assert((a + b).last() == b.last());
        lemma_segments_well_formed(a);
        lemma_segments_well_formed(bd);
        let pa = segments(a);
        let pb = segments(bd);
        let p = pa + pb;
        if pb.len() == 0 {
            assert(p =~= pa);
            assert(segments(b) == seq![seq![b.last()]]) by {
                assert(bd.len() == 0);
            }
            assert(pa.push(seq![b.last()]) =~= pa + segments(b));
        } else {
            assert(p.last() == pb.last());
            if pb.last().last() == '\n' {
                assert(p.push(seq![b.last()]) =~= pa + pb.push(seq![b.last()]));
            } else {
                assert(p.update(p.len() - 1, p.last().push(b.last())) =~= pa + pb.update(
                    pb.len() - 1,
                    pb.last().push(b.last()),
                ));
            }
        }
    }
}

/// A single segment, newline only at its end, segments as itself.
pub proof fn lemma_segments_single(g: Seq<char>)
    requires
        g.len() > 0,
        forall|j: int| 0 <= j < g.len() - 1 ==> g[j] != '\n',
    ensures
        segments(g) == seq![g],
    decreases g.len(),
{
    let t = g.drop_last();
    if t.len() == 0 {
        assert(segments(t) =~= Seq::<Seq<char>>::empty());
        assert(seq![g.last()] =~= g);
    } else {
        lemma_segments_single(t);
        assert(t.last() != '\n');
        assert(t.push(g.last()) =~= g);
    }
}

/// Joining a well-formed segment list and segmenting again gives back the list.
pub proof fn lemma_segments_join(gs: Seq<Seq<char>>)
    requires
        well_segmented(gs),
    ensures
        segments(join_all(gs)) == gs,
    decreases gs.len(),
{
    if gs.len() > 0 {
        let init = gs.drop_last();
        assert(well_segmented(init)) by {
            assert forall|i: int| 0 <= i < init.len() implies #[trigger] init[i].len() > 0 by {
                assert(init[i] == gs[i]);
            }
            assert forall|i: int, j: int|
                0 <= i < init.len() && 0 <= j < init[i].len() - 1 implies #[trigger] init[i][j]
                != '\n' by {
                assert(init[i] == gs[i]);
            }
            assert forall|i: int| 0 <= i < init.len() - 1 implies #[trigger] init[i].last()
                == '\n' by {
                assert(init[i] == gs[i]);
            }
        }
        lemma_segments_join(init);
        lemma_segments_well_formed(join_all(init));
        assert(terminated(join_all(init))) by {
            if init.len() > 0 {
                lemma_join_push(init.drop_last(), init.last());
                assert(init =~= init.drop_last().push(init.last()));
                assert(gs[init.len() - 1] == init.last());
                assert(gs[init.len() - 1].len() > 0);
            }
        }
        lemma_segments_append(join_all(init), gs.last());
        assert(gs[gs.len() - 1] == gs.last());
        assert forall|j: int| 0 <= j < gs.last().len() - 1 implies gs.last()[j] != '\n' by {
            assert(gs[gs.len() - 1][j] != '\n');
        }
        lemma_segments_single(gs.last());
        lemma_join_push(init, gs.last());
        assert(init.push(gs.last()) =~= gs);
        assert(init + seq![gs.last()] =~= gs);
    }
}

/// The character sequences held by a vector of character vectors.
pub open spec fn views(r: Seq<Vec<char>>) -> Seq<Seq<char>> {
    r.map_values(|v: Vec<char>| v@)
}

/// The terminated segments of `s`.
pub fn segments_of(s: &Vec<char>) -> (r: Vec<Vec<char>>)
    ensures
        views(r@) == segments(s@),
{
    let mut r: Vec<Vec<char>> = Vec::new();
    let mut current: Vec<char> = Vec::new();
    let mut i: usize = 0;
    while i < s.len()
        invariant
            i <= s.len(),
            segments(s@.take(i as int)) == (if current@.len() == 0 {
                views(r@)
            } else {
                views(r@).push(current@)
            }),
            forall|k: int| 0 <= k < views(r@).len() ==> (#[trigger] views(r@)[k]).len() > 0
                && views(r@)[k].last() == '\n',
            current@.len() > 0 ==> current@.last() != '\n',
        decreases s.len() - i,
    {
        let c = s[i];
        let ghost before = s@.take(i as int);
        assert(s@.take((i + 1) as int).drop_last() =~= before);
        assert(s@.take((i + 1) as int).last() == c);
        let ghost rv = views(r@);
        let ghost cv = current@;
        current.push(c);
        if c == '\n' {
            let done = current;
            current = Vec::new();
            r.push(done);
            assert(views(r@) =~= rv.push(cv.push(c)));
        }
        i = i + 1;
        proof {
            if cv.len() == 0 {
                assert(cv.push(c) =~= seq![c]);
            } else {
                assert(rv.push(cv).update(rv.len() as int, cv.push(c)) =~= rv.push(cv.push(c)));
            }
        }
    }
    assert(s@.take(s.len() as int) =~= s@);
    if current.len() > 0 {
        let ghost rv = views(r@);
        let ghost cv = current@;
        r.push(current);
        assert(views(r@) =~= rv.push(cv));
    }
    r
}

} // verus!
