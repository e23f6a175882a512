//! Component version discovery: stable release tags and their listing.

use vstd::prelude::*;
use crate::chars::{chars_of, slice_vec, string_of, vec_starts_with};
use crate::fields::{field_views, find_char, first_index, lemma_first_index_bounds, split_chars, split_on};

verus! {

/// The component family whose `versions` usage text an outcome shows.
#[derive(Clone, Copy, PartialEq, Eq, Structural)]
pub enum VersionsKind {
    Backend,
    CloudLocal,
    Manager,
}

/// One listed version and what is known about it locally and remotely.
pub struct VersionEntry {
    pub tag: String,
    /// Bound in the current environment's metadata.
    pub current: bool,
    /// Present as a local installation.
    pub installed: bool,
    /// Advertised as a remote tag.
    pub remote: bool,
}

/// The versions of one component.
pub struct VersionsList {
    pub component: String,
    pub entries: Vec<VersionEntry>,
}

/// What a `versions` command renders.
pub enum VersionsOutput {
    Usage(VersionsKind),
    List(VersionsList),
}

/// Final result of a `versions` command.
pub struct VersionsOutcome {
    pub output: VersionsOutput,
    pub exit_code: i32,
}

impl VersionsOutcome {
    /// Exit status for this outcome.
    pub fn exit_code(&self) -> (r: i32)
        ensures
            r == self.exit_code,
    {
        self.exit_code
    }
}

/// What a `versions` command does once its arguments are understood.
pub enum VersionsPlan {
    /// Nothing to look up: the outcome is known.
    Done(VersionsOutcome),
    /// List the local and remote versions of this component.
    List(crate::operations::Component),
}

/// The plan is the usage outcome of `kind` with `code`.
pub open spec fn is_usage_versions(plan: VersionsPlan, kind: VersionsKind, code: i32) -> bool {
    plan matches VersionsPlan::Done(o) && o.output matches VersionsOutput::Usage(k) && k == kind
        && o.exit_code == code
}

/// A `versions` command that shows its usage text and exits with the given status.
pub fn usage(kind: VersionsKind, exit_code: i32) -> (r: VersionsOutcome)
    ensures
        r.output matches VersionsOutput::Usage(k) && k == kind,
        r.exit_code == exit_code,
{
    VersionsOutcome { output: VersionsOutput::Usage(kind), exit_code }
}

/// `c` is an ASCII decimal digit.
pub open spec fn is_digit(c: char) -> bool {
    '0' <= c <= '9'
}

/// Every character of `s` is a decimal digit.
pub open spec fn all_digits(s: Seq<char>) -> bool {
    forall|i: int| 0 <= i < s.len() ==> is_digit(#[trigger] s[i])
}

/// The number written by the decimal digits `s`.
pub open spec fn digits_value(s: Seq<char>) -> nat
    decreases s.len(),
{
    if s.len() == 0 {
        0
    } else {
        digits_value(s.drop_last()) * 10 + ((s.last() as nat) - ('0' as nat)) as nat
    }
}

/// The number a version field denotes: non-empty decimal digits whose value fits in `u64`.
pub open spec fn field_number(s: Seq<char>) -> Option<u64> {
    if s.len() > 0 && all_digits(s) && digits_value(s) <= u64::MAX {
        Some(digits_value(s) as u64)
    } else {
        None
    }
}

/// The version a stable release tag denotes: `v` followed by exactly three dot-separated numbers
/// (`vMAJOR.MINOR.PATCH`). Pre-release and other tags denote none.
pub open spec fn stable_version(tag: Seq<char>) -> Option<(u64, u64, u64)> {
    if tag.len() > 0 && tag[0] == 'v' {
        let parts = split_on(tag.skip(1), '.');
        if parts.len() == 3 {
            match (field_number(parts[0]), field_number(parts[1]), field_number(parts[2])) {
                (Some(a), Some(b), Some(c)) => Some((a, b, c)),
                _ => None,
            }
        } else {
            None
        }
    } else {
        None
    }
}

/// Numeric (major, minor, patch) ordering of versions.
pub open spec fn version_lt(a: (u64, u64, u64), b: (u64, u64, u64)) -> bool {
    a.0 < b.0 || (a.0 == b.0 && (a.1 < b.1 || (a.1 == b.1 && a.2 < b.2)))
}

proof fn lemma_digits_value_monotone(s: Seq<char>, n: int)
    requires
        0 <= n <= s.len(),
        all_digits(s),
    ensures
        digits_value(s.take(n)) <= digits_value(s),
    decreases s.len(),
{
    if n < s.len() {
        let t = s.drop_last();
        assert(t.take(n) =~= s.take(n));
        assert(all_digits(t)) by {
            assert forall|i: int| 0 <= i < t.len() implies is_digit(#[trigger] t[i]) by {
                assert(t[i] == s[i]);
            }
        }
        lemma_digits_value_monotone(t, n);
    } else {
        assert(s.take(n) =~= s);
    }
}

/// Parses a version field: non-empty decimal digits fitting in `u64`.
pub fn parse_number(field: &Vec<char>) -> (r: Option<u64>)
    ensures
        r == field_number(field@),
{
    if field.len() == 0 {
        return None;
    }
    let mut value: u64 = 0;
    let mut i: usize = 0;
    while i < field.len()
        invariant
            i <= field.len(),
            field.len() > 0,
            all_digits(field@.take(i as int)),
            value as nat == digits_value(field@.take(i as int)),
        decreases field.len() - i,
    {
        let c = field[i];
        assert(field@.take(i + 1).drop_last() =~= field@.take(i as int));
        assert(field@.take(i + 1).last() == c);
        if !('0' <= c && c <= '9') {
            assert(!all_digits(field@)) by {
                assert(!is_digit(field@[i as int]));
            }
            return None;
        }
        let d = (c as u32 - '0' as u32) as u64;
        assert(d as nat == (c as nat) - ('0' as nat));
        assert(all_digits(field@.take(i + 1))) by {
            assert forall|j: int| 0 <= j < i + 1 implies is_digit(#[trigger] field@.take(i + 1)[j]) by {
                if j < i {
                    assert(field@.take(i + 1)[j] == field@.take(i as int)[j]);
                }
            }
        }
        if value > (u64::MAX - d) / 10 {
            proof {
                assert(digits_value(field@.take(i + 1)) == value as nat * 10 + d as nat);
                assert(value as nat * 10 + d as nat > u64::MAX) by (nonlinear_arith)
                    requires
                        value > (u64::MAX - d) / 10,
                        d <= 9,
                ;
                if all_digits(field@) {
                    lemma_digits_value_monotone(field@, i + 1);
                }
            }
            return None;
        }
        assert(value * 10 + d <= u64::MAX) by (nonlinear_arith)
            requires
                value <= (u64::MAX - d) / 10,
                d <= 9,
        ;
        value = value * 10 + d;
        i = i + 1;
    }
    assert(field@.take(field.len() as int) =~= field@);
    Some(value)
}

/// Parses a stable release tag `vMAJOR.MINOR.PATCH` into its numbers.
pub fn parse_stable_version(tag: &str) -> (r: Option<(u64, u64, u64)>)
    ensures
        r == stable_version(tag@),
{
    let chars = chars_of(tag);
    if chars.len() == 0 || chars[0] != 'v' {
        return None;
    }
    let rest = slice_vec(&chars, 1, chars.len());
    assert(rest@ =~= tag@.skip(1));
    let parts = split_chars(&rest, '.');
    if parts.len() != 3 {
        return None;
    }
    assert(field_views(parts@)[0] == parts@[0]@);
    assert(field_views(parts@)[1] == parts@[1]@);
    assert(field_views(parts@)[2] == parts@[2]@);
    let a = parse_number(&parts[0]);
    let b = parse_number(&parts[1]);
    let c = parse_number(&parts[2]);
    match (a, b, c) {
        (Some(a), Some(b), Some(c)) => Some((a, b, c)),
        _ => None,
    }
}

/// Whether `tags[i]` is the latest stable tag: its version is the greatest among stable tags,
/// and no earlier stable tag has the same version.
pub open spec fn is_latest_at(tags: Seq<String>, i: int) -> bool {
    &&& 0 <= i < tags.len()
    &&& stable_version(tags[i]@) is Some
    &&& forall|j: int|
        0 <= j < tags.len() && stable_version(#[trigger] tags[j]@) is Some ==> !version_lt(
            stable_version(tags[i]@)->Some_0,
            stable_version(tags[j]@)->Some_0,
        )
    &&& forall|j: int|
        0 <= j < i && stable_version(#[trigger] tags[j]@) is Some ==> version_lt(
            stable_version(tags[j]@)->Some_0,
            stable_version(tags[i]@)->Some_0,
        )
}

fn lt(a: (u64, u64, u64), b: (u64, u64, u64)) -> (r: bool)
    ensures
        r == version_lt(a, b),
{
    a.0 < b.0 || (a.0 == b.0 && (a.1 < b.1 || (a.1 == b.1 && a.2 < b.2)))
}

/// The latest stable release tag: the numerically greatest `vMAJOR.MINOR.PATCH` tag, the first
/// one listed when several denote that version. `None` when no tag is a stable release.
pub fn latest_stable(tags: &Vec<String>) -> (r: Option<String>)
    ensures
        r is None <==> forall|j: int| 0 <= j < tags@.len() ==> stable_version(#[trigger] tags@[j]@) is None,
        r matches Some(t) ==> exists|i: int| is_latest_at(tags@, i) && t@ == tags@[i]@,
{
    let mut best: Option<(usize, (u64, u64, u64))> = None;
    let mut i: usize = 0;
    while i < tags.len()
        invariant
            i <= tags.len(),
            best is None ==> forall|j: int| 0 <= j < i ==> stable_version(#[trigger] tags@[j]@) is None,
            best matches Some((b, v)) ==> {
                &&& b < i
                &&& stable_version(tags@[b as int]@) == Some(v)
                &&& forall|j: int|
                    0 <= j < i && stable_version(#[trigger] tags@[j]@) is Some ==> !version_lt(
                        v,
                        stable_version(tags@[j]@)->Some_0,
                    )
                &&& forall|j: int|
                    0 <= j < b && stable_version(#[trigger] tags@[j]@) is Some ==> version_lt(
                        stable_version(tags@[j]@)->Some_0,
                        v,
                    )
            },
        decreases tags.len() - i,
    {
        match parse_stable_version(tags[i].as_str()) {
            Some(v) => {
                match best {
                    Some((b, bv)) => {
                        if lt(bv, v) {
                            best = Some((i, v));
                        }
                    },
                    None => {
                        best = Some((i, v));
                    },
                }
            },
            None => {},
        }
        i = i + 1;
    }
    match best {
        Some((b, v)) => {
            let t = tags[b].clone();
            assert(is_latest_at(tags@, b as int));
            Some(t)
        },
        None => None,
    }
}

/// The ref name a line of a ref advertisement announces: the text after its first space, up to
/// a NUL that starts a capability list. Empty when the line has no space.
pub open spec fn advertised_ref(line: Seq<char>) -> Seq<char> {
    let nul = first_index(line, '\0');
    let head = if nul >= 0 {
        line.take(nul)
    } else {
        line
    };
    let space = first_index(head, ' ');
    if space >= 0 {
        head.skip(space + 1)
    } else {
        seq![]
    }
}

/// The tag a ref names: `refs/tags/<tag>`, except the peeled `^{}` companions of annotated tags.
pub open spec fn ref_tag(name: Seq<char>) -> Option<Seq<char>> {
    let prefix = "refs/tags/"@;
    let peeled = "^{}"@;
    if name.len() > prefix.len() && name.take(prefix.len() as int) == prefix && !(name.len()
        >= peeled.len() && name.skip(name.len() - peeled.len()) == peeled) {
        Some(name.skip(prefix.len() as int))
    } else {
        None
    }
}

/// The tags announced by the lines of a ref advertisement, in order.
pub open spec fn announced_tags(ls: Seq<Seq<char>>) -> Seq<Seq<char>>
    decreases ls.len(),
{
    if ls.len() == 0 {
        seq![]
    } else {
        let p = announced_tags(ls.drop_last());
        match ref_tag(advertised_ref(ls.last())) {
            Some(t) => p.push(t),
            None => p,
        }
    }
}

/// The tags a git ref advertisement announces, in order.
///
/// Pkt-line framing is tolerated: a length prefix only precedes the object id, and a capability
/// list only follows a NUL, so neither reaches the ref name.
pub fn advertised_tags(advertisement: &str) -> (r: Vec<String>)
    ensures
        r@.map_values(|s: String| s@) == announced_tags(split_on(advertisement@, '\n')),
{
    let text = chars_of(advertisement);
    let ls = split_chars(&text, '\n');
    let prefix = chars_of("refs/tags/");
    let peeled = chars_of("^{}");
    let ghost lv = split_on(advertisement@, '\n');
    let mut tags: Vec<String> = Vec::new();
    let mut i: usize = 0;
    while i < ls.len()
        invariant
            i <= ls.len(),
            field_views(ls@) == lv,
            prefix@ == "refs/tags/"@,
            peeled@ == "^{}"@,
            tags@.map_values(|s: String| s@) == announced_tags(lv.take(i as int)),
        decreases ls.len() - i,
    {
        let line = &ls[i];
        assert(lv[i as int] == line@);
        assert(lv.take(i + 1).drop_last() =~= lv.take(i as int));
        assert(lv.take(i + 1).last() == line@);
        let head = match find_char(line, '\0') {
            Some(n) => slice_vec(line, 0, n),
            None => slice_vec(line, 0, line.len()),
        };
        proof {
            lemma_first_index_bounds(line@, '\0');
        }
        assert(head@ =~= (if first_index(line@, '\0') >= 0 {
            line@.take(first_index(line@, '\0'))
        } else {
            line@
        }));
        let name = match find_char(&head, ' ') {
            Some(s) => {
                proof {
                    lemma_first_index_bounds(head@, ' ');
                }
                slice_vec(&head, s + 1, head.len())
            },
            None => Vec::new(),
        };
        assert(name@ =~= advertised_ref(line@));
        let ghost before = tags@.map_values(|s: String| s@);
        if name.len() > prefix.len() && vec_starts_with(&name, &prefix) {
            let nl = name.len();
            let is_peeled = nl >= peeled.len() && {
                let tail = slice_vec(&name, nl - peeled.len(), nl);
                crate::chars::vec_eq(&tail, &peeled)
            };
            assert(is_peeled == (name@.len() >= peeled@.len() && name@.skip(
                name@.len() - peeled@.len(),
            ) == peeled@)) by {
                if nl >= peeled.len() {
                    assert(name@.subrange(nl - peeled.len(), nl as int) =~= name@.skip(
                        name@.len() - peeled@.len(),
                    ));
                }
            }
            if !is_peeled {
                let tag = slice_vec(&name, prefix.len(), nl);
                assert(tag@ =~= name@.skip(prefix@.len() as int));
                tags.push(string_of(&tag));
                assert(tags@.map_values(|s: String| s@) =~= before.push(tag@));
            }
        }
        i = i + 1;
    }
    assert(lv.take(ls.len() as int) =~= lv);
    tags
}


/// The object id a line of a ref advertisement announces: the last 40 characters before the ref
/// name (a pkt-line length prefix may precede it). `None` when there are fewer.
pub open spec fn advertised_object(line: Seq<char>) -> Option<Seq<char>> {
    let nul = first_index(line, '\0');
    let head = if nul >= 0 {
        line.take(nul)
    } else {
        line
    };
    let space = first_index(head, ' ');
    if space >= 40 {
        Some(head.subrange(space - 40, space))
    } else {
        None
    }
}

/// The index of the first line among `ls` that names the ref `name`, or -1.
pub open spec fn first_naming(ls: Seq<Seq<char>>, name: Seq<char>) -> int
    decreases ls.len(),
{
    if ls.len() == 0 {
        -1
    } else {
        let p = first_naming(ls.drop_last(), name);
        if p >= 0 {
            p
        } else if advertised_ref(ls.last()) == name {
            ls.len() - 1
        } else {
            -1
        }
    }
}

/// The object id the first line naming `name` among `ls` announces.
pub open spec fn announced_object(ls: Seq<Seq<char>>, name: Seq<char>) -> Option<Seq<char>> {
    let i = first_naming(ls, name);
    if i >= 0 {
        advertised_object(ls[i])
    } else {
        None
    }
}

/// The full name of the ref of branch `branch`, as a ref advertisement announces it.
pub fn branch_ref(branch: &str) -> (r: String)
    ensures
        r@ == "refs/heads/"@ + branch@,
{
    let mut r = "refs/heads/".to_owned();
    r.append(branch);
    r
}

/// The commit a git ref advertisement announces for the ref `name` (such as `refs/heads/main`).
pub fn advertised_commit(advertisement: &str, name: &str) -> (r: Option<String>)
    ensures
        match r {
            Some(c) => announced_object(split_on(advertisement@, '\n'), name@) == Some(c@),
            None => announced_object(split_on(advertisement@, '\n'), name@) is None,
        },
{
    let text = chars_of(advertisement);
    let wanted = chars_of(name);
    let ls = split_chars(&text, '\n');
    let ghost lv = split_on(advertisement@, '\n');
    let mut i: usize = 0;
    while i < ls.len()
        invariant
            i <= ls.len(),
            field_views(ls@) == lv,
            wanted@ == name@,
            first_naming(lv.take(i as int), name@) == -1,
            lv == split_on(advertisement@, '\n'),
        decreases ls.len() - i,
    {
        let line = &ls[i];
        assert(lv[i as int] == line@);
        assert(lv.take(i + 1).drop_last() =~= lv.take(i as int));
        assert(lv.take(i + 1).last() == line@);
        let head = match find_char(line, '\0') {
            Some(n) => slice_vec(line, 0, n),
            None => slice_vec(line, 0, line.len()),
        };
        proof {
            lemma_first_index_bounds(line@, '\0');
        }
        assert(head@ =~= (if first_index(line@, '\0') >= 0 {
            line@.take(first_index(line@, '\0'))
        } else {
            line@
        }));
        if let Some(s) = find_char(&head, ' ') {
            proof {
                lemma_first_index_bounds(head@, ' ');
            }
            let ref_name = slice_vec(&head, s + 1, head.len());
            assert(ref_name@ =~= advertised_ref(line@));
            if crate::chars::vec_eq(&ref_name, &wanted) {
                let r = if s >= 40 {
                    let object = slice_vec(&head, s - 40, s);
                    assert(object@ =~= head@.subrange(s - 40, s as int));
                    assert(advertised_object(line@) == Some(object@));
                    Some(string_of(&object))
                } else {
                    assert(advertised_object(line@) is None);
                    None
                };
                proof {
                    lemma_announced_object_prefix(lv, name@, i + 1);
                }
                return r;
            }
        } else {
            assert(advertised_ref(line@) =~= Seq::<char>::empty());
            assert(advertised_ref(line@) != name@ || name@.len() == 0);
            if wanted.len() == 0 {
                assert(name@ =~= Seq::<char>::empty());
                proof {
                    lemma_announced_object_prefix(lv, name@, i + 1);
                }
                assert(advertised_object(line@) is None);
                return None;
            }
        }
        i = i + 1;
    }
    assert(lv.take(ls.len() as int) =~= lv);
    None
}

/// Once the first lines name the ref, later lines do not change which line names it first.
proof fn lemma_announced_object_prefix(ls: Seq<Seq<char>>, name: Seq<char>, n: int)
    requires
        0 < n <= ls.len(),
        first_naming(ls.take(n - 1), name) == -1,
        advertised_ref(ls[n - 1]) == name,
    ensures
        first_naming(ls, name) == n - 1,
    decreases ls.len(),
{
    if n < ls.len() {
        assert(ls.drop_last().take(n - 1) =~= ls.take(n - 1));
        assert(ls.drop_last()[n - 1] == ls[n - 1]);
        lemma_announced_object_prefix(ls.drop_last(), name, n);
    } else {
        assert(ls.drop_last() =~= ls.take(n - 1));
    }
}


/// The version of a stable tag.
pub open spec fn tag_version(tag: Seq<char>) -> (u64, u64, u64) {
    stable_version(tag)->Some_0
}

/// The versions of `tags` strictly decrease.
pub open spec fn strictly_descending(tags: Seq<Seq<char>>) -> bool {
    forall|a: int, b: int|
        0 <= a < b < tags.len() ==> version_lt(
            tag_version(#[trigger] tags[b]),
            tag_version(#[trigger] tags[a]),
        )
}

/// `tags` lists each version of the stable tags among `candidates` once, newest first, by one of
/// the candidate tags denoting it.
pub open spec fn lists_versions_of(tags: Seq<Seq<char>>, candidates: Seq<Seq<char>>) -> bool {
    &&& forall|k: int| 0 <= k < tags.len() ==> stable_version(#[trigger] tags[k]) is Some
        && candidates.contains(tags[k])
    &&& strictly_descending(tags)
    &&& forall|j: int|
        0 <= j < candidates.len() && stable_version(#[trigger] candidates[j]) is Some ==> exists|k: int|
            0 <= k < tags.len() && tag_version(#[trigger] tags[k]) == tag_version(candidates[j])
}

/// The views of a list of strings.
pub open spec fn tag_views(v: Seq<String>) -> Seq<Seq<char>> {
    v.map_values(|s: String| s@)
}

/// Sorts the stable tags among `candidates` newest first, keeping one tag per version.
pub fn sorted_versions(candidates: &Vec<String>) -> (r: Vec<String>)
    ensures
        lists_versions_of(tag_views(r@), tag_views(candidates@)),
{
    let ghost cv = tag_views(candidates@);
    let mut out: Vec<String> = Vec::new();
    let mut vs: Vec<(u64, u64, u64)> = Vec::new();
    let mut i: usize = 0;
    while i < candidates.len()
        invariant
            i <= candidates@.len(),
            cv == tag_views(candidates@),
            vs@.len() == out@.len(),
            forall|k: int| 0 <= k < out@.len() ==> stable_version(#[trigger] tag_views(out@)[k])
                == Some(vs@[k]),
            forall|k: int| 0 <= k < out@.len() ==> cv.contains(#[trigger] tag_views(out@)[k]),
            strictly_descending(tag_views(out@)),
            forall|j: int|
                0 <= j < i && stable_version(#[trigger] cv[j]) is Some ==> exists|k: int|
                    0 <= k < out@.len() && vs@[k] == tag_version(cv[j]),
        decreases candidates@.len() - i,
    {
        let ghost old_out = tag_views(out@);
        let ghost old_vs = vs@;
        assert(cv[i as int] == candidates@[i as int]@);
        match parse_stable_version(candidates[i].as_str()) {
            None => {},
            Some(v) => {
                let mut p: usize = 0;
                while p < vs.len() && lt(v, vs[p])
                    invariant
                        p <= vs@.len(),
                        vs@ == old_vs,
                        forall|k: int| 0 <= k < p ==> version_lt(v, #[trigger] vs@[k]),
                    decreases vs@.len() - p,
                {
                    p = p + 1;
                }
                if p < vs.len() && vs[p].0 == v.0 && vs[p].1 == v.1 && vs[p].2 == v.2 {
                    assert(tag_version(cv[i as int]) == v);
                } else {
                    out.insert(p, candidates[i].clone());
                    vs.insert(p, v);
                    proof {
                        let nv = tag_views(out@);
                        assert(nv =~= old_out.insert(p as int, cv[i as int]));
                        assert(vs@ =~= old_vs.insert(p as int, v));
                        assert forall|k: int| 0 <= k < out@.len() implies stable_version(
                            #[trigger] tag_views(out@)[k],
                        ) == Some(vs@[k]) by {
                            if k < p {
                                assert(nv[k] == old_out[k]);
                            } else if k > p {
                                assert(nv[k] == old_out[k - 1]);
                            }
                        }
                        assert forall|k: int| 0 <= k < out@.len() implies cv.contains(
                            #[trigger] tag_views(out@)[k],
                        ) by {
                            if k < p {
                                assert(nv[k] == old_out[k]);
                            } else if k > p {
                                assert(nv[k] == old_out[k - 1]);
                            } else {
                                assert(cv[i as int] == nv[k]);
                            }
                        }
                        assert forall|a: int, b: int| 0 <= a < b < nv.len() implies version_lt(
                            tag_version(#[trigger] nv[b]),
                            tag_version(#[trigger] nv[a]),
                        ) by {
                            if p < old_vs.len() {
                                assert(!version_lt(v, old_vs[p as int]));
                                assert(old_vs[p as int] != v);
                            }
                            if b < p {
                                assert(nv[a] == old_out[a] && nv[b] == old_out[b]);
                                assert(version_lt(tag_version(old_out[b]), tag_version(old_out[a])));
                            } else if b == p {
                                assert(nv[a] == old_out[a]);
                                assert(version_lt(v, old_vs[a]));
                            } else if a < p {
                                assert(nv[a] == old_out[a] && nv[b] == old_out[b - 1]);
                                if a < b - 1 {
                                    assert(version_lt(tag_version(old_out[b - 1]), tag_version(old_out[a])));
                                } else {
                                    assert(version_lt(tag_version(old_out[b - 1]), tag_version(old_out[a])));
                                }
                            } else if a == p {
                                assert(nv[b] == old_out[b - 1]);
                                if b - 1 > p {
                                    assert(version_lt(tag_version(old_out[b - 1]), tag_version(old_out[p as int])));
                                }
                            } else {
                                assert(nv[a] == old_out[a - 1] && nv[b] == old_out[b - 1]);
                                assert(version_lt(tag_version(old_out[b - 1]), tag_version(old_out[a - 1])));
                            }
                        }
                        assert forall|j: int|
                            0 <= j < i + 1 && stable_version(#[trigger] cv[j]) is Some implies exists|k: int|
                                0 <= k < out@.len() && vs@[k] == tag_version(cv[j]) by {
                            if j < i {
                                let k0 = choose|k: int| 0 <= k < old_vs.len() && old_vs[k] == tag_version(cv[j]);
                                if k0 < p {
                                    assert(vs@[k0] == old_vs[k0]);
                                } else {
                                    assert(vs@[k0 + 1] == old_vs[k0]);
                                }
                            } else {
                                assert(vs@[p as int] == v);
                            }
                        }
                    }
                }
            },
        }
        i = i + 1;
    }
    proof {
        let tv = tag_views(out@);
        assert forall|j: int|
            0 <= j < cv.len() && stable_version(#[trigger] cv[j]) is Some implies exists|k: int|
                0 <= k < tv.len() && tag_version(#[trigger] tv[k]) == tag_version(cv[j]) by {
            let k0 = choose|k: int| 0 <= k < out@.len() && vs@[k] == tag_version(cv[j]);
            assert(stable_version(tv[k0]) == Some(vs@[k0]));
        }
    }
    out
}


/// Whether `v` holds the text `s`.
pub fn contains_text(v: &Vec<String>, s: &str) -> (r: bool)
    ensures
        r == tag_views(v@).contains(s@),
{
    let mut i: usize = 0;
    while i < v.len()
        invariant
            i <= v@.len(),
            forall|j: int| 0 <= j < i ==> (#[trigger] tag_views(v@)[j]) != s@,
        decreases v@.len() - i,
    {
        if crate::chars::str_eq(v[i].as_str(), s) {
            assert(tag_views(v@)[i as int] == s@);
            return true;
        }
        i = i + 1;
    }
    false
}

/// The installed release versions of `component` among the names in its install root: those
/// written `<component>-<version>`, in order.
pub open spec fn installed_of(component: Seq<char>, names: Seq<Seq<char>>) -> Seq<Seq<char>>
    decreases names.len(),
{
    if names.len() == 0 {
        seq![]
    } else {
        let prefix = component + seq!['-'];
        let rest = installed_of(component, names.drop_last());
        if prefix.is_prefix_of(names.last()) && names.last().len() > prefix.len() {
            rest.push(names.last().skip(prefix.len() as int))
        } else {
            rest
        }
    }
}

/// The installed release versions of `component`, from the names in its install root.
pub fn installed_versions(component: &str, names: &Vec<String>) -> (r: Vec<String>)
    ensures
        tag_views(r@) == installed_of(component@, tag_views(names@)),
{
    let mut prefix = component.to_owned();
    crate::chars::push_char(&mut prefix, '-');
    let ghost nv = tag_views(names@);
    let mut r: Vec<String> = Vec::new();
    let mut i: usize = 0;
    while i < names.len()
        invariant
            i <= names@.len(),
            nv == tag_views(names@),
            prefix@ == component@ + seq!['-'],
            tag_views(r@) == installed_of(component@, nv.take(i as int)),
        decreases names@.len() - i,
    {
        let name = names[i].as_str();
        assert(nv.take(i + 1).drop_last() =~= nv.take(i as int));
        assert(nv.take(i + 1).last() == name@);
        let ghost before = tag_views(r@);
        let n = name.unicode_len();
        let pl = prefix.as_str().unicode_len();
        if crate::chars::str_starts_with(name, prefix.as_str()) && n > pl {
            let version = name.substring_char(pl, n);
            r.push(version.to_owned());
            assert(tag_views(r@) =~= before.push(name@.skip(pl as int)));
        }
        i = i + 1;
    }
    assert(nv.take(names@.len() as int) =~= nv);
    r
}

/// The candidates of a version listing: the remote tags, the installed versions, and the bound
/// version.
pub open spec fn listing_candidates(remote: Seq<Seq<char>>, installed: Seq<Seq<char>>, current: Option<Seq<char>>) -> Seq<Seq<char>> {
    remote + installed + match current {
        Some(c) => seq![c],
        None => seq![],
    }
}

/// The entry of one listed version.
pub open spec fn listed_entry(entry: VersionEntry, remote: Seq<Seq<char>>, installed: Seq<Seq<char>>, current: Option<Seq<char>>) -> bool {
    &&& entry.current == (current == Some(entry.tag@))
    &&& entry.installed == installed.contains(entry.tag@)
    &&& entry.remote == remote.contains(entry.tag@)
}

/// Lists the versions of `component`: a bound branch first (installed when its checkout exists),
/// then every stable version that is advertised remotely, installed, or bound, newest first,
/// each marked as bound, installed, and advertised as it is.
pub fn version_listing(
    component: &str,
    remote: &Vec<String>,
    installed: &Vec<String>,
    current: Option<&str>,
    branch_installed: bool,
) -> (r: VersionsList)
    ensures
        r.component@ == component@,
        ({
            let branch = current matches Some(c) && c@.len() >= 7 && c@.take(7) == "branch:"@;
            let offset: int = if branch { 1 } else { 0 };
            let cv = crate::chars::opt_view(current);
            &&& r.entries@.len() >= offset
            &&& branch ==> (r.entries@[0].tag@ == cv->Some_0 && r.entries@[0].current
                && r.entries@[0].installed == branch_installed && !r.entries@[0].remote)
            &&& lists_versions_of(
                r.entries@.skip(offset).map_values(|e: VersionEntry| e.tag@),
                listing_candidates(tag_views(remote@), tag_views(installed@), cv),
            )
            &&& forall|k: int| offset <= k < r.entries@.len() ==> listed_entry(
                #[trigger] r.entries@[k],
                tag_views(remote@),
                tag_views(installed@),
                cv,
            )
        }),
{
    proof {
        reveal_strlit("branch:");
    }
    let mut candidates: Vec<String> = Vec::new();
    let mut i: usize = 0;
    while i < remote.len()
        invariant
            i <= remote@.len(),
            tag_views(candidates@) == tag_views(remote@).take(i as int),
        decreases remote@.len() - i,
    {
        let ghost before = tag_views(candidates@);
        candidates.push(remote[i].clone());
        assert(tag_views(candidates@) =~= before.push(remote@[i as int]@));
        assert(tag_views(remote@).take(i + 1) =~= tag_views(remote@).take(i as int).push(remote@[i as int]@));
        i = i + 1;
    }
    let mut j: usize = 0;
    while j < installed.len()
        invariant
            j <= installed@.len(),
            i == remote@.len(),
            tag_views(candidates@) == tag_views(remote@).take(i as int) + tag_views(installed@).take(j as int),
        decreases installed@.len() - j,
    {
        let ghost before = tag_views(candidates@);
        candidates.push(installed[j].clone());
        assert(tag_views(candidates@) =~= before.push(installed@[j as int]@));
        assert(tag_views(installed@).take(j + 1) =~= tag_views(installed@).take(j as int).push(installed@[j as int]@));
        j = j + 1;
    }
    let ghost base = tag_views(candidates@);
    if let Some(c) = current {
        candidates.push(c.to_owned());
        assert(tag_views(candidates@) =~= base.push(c@));
    }
    assert(tag_views(remote@).take(remote@.len() as int) =~= tag_views(remote@));
    assert(tag_views(installed@).take(installed@.len() as int) =~= tag_views(installed@));
    let ghost cv = crate::chars::opt_view(current);
    assert(tag_views(candidates@) =~= listing_candidates(tag_views(remote@), tag_views(installed@), cv));
    let sorted = sorted_versions(&candidates);
    let mut entries: Vec<VersionEntry> = Vec::new();
    let branch = match current {
        Some(c) => crate::chars::str_starts_with(c, "branch:"),
        None => false,
    };
    if branch {
        let c = match current {
            Some(c) => c,
            None => "",
        };
        entries.push(VersionEntry { tag: c.to_owned(), current: true, installed: branch_installed, remote: false });
    }
    let ghost offset: int = if branch { 1 } else { 0 };
    let mut k: usize = 0;
    while k < sorted.len()
        invariant
            k <= sorted@.len(),
            entries@.len() == offset + k,
            offset == (if branch { 1int } else { 0int }),
            cv == crate::chars::opt_view(current),
            branch ==> (entries@[0].tag@ == cv->Some_0 && entries@[0].current
                && entries@[0].installed == branch_installed && !entries@[0].remote),
            entries@.skip(offset).map_values(|e: VersionEntry| e.tag@) == tag_views(sorted@).take(k as int),
            forall|q: int| offset <= q < entries@.len() ==> listed_entry(
                #[trigger] entries@[q],
                tag_views(remote@),
                tag_views(installed@),
                cv,
            ),
        decreases sorted@.len() - k,
    {
        let tag = sorted[k].as_str();
        let is_current = match current {
            Some(c) => crate::chars::str_eq(c, tag),
            None => false,
        };
        let entry = VersionEntry {
            tag: tag.to_owned(),
            current: is_current,
            installed: contains_text(installed, tag),
            remote: contains_text(remote, tag),
        };
        let ghost before = entries@;
        let ghost added = entry;
        assert(listed_entry(added, tag_views(remote@), tag_views(installed@), cv));
        entries.push(entry);
        assert(entries@[entries@.len() - 1] == added);
        assert(entries@.skip(offset).map_values(|e: VersionEntry| e.tag@) =~= before.skip(offset).map_values(
            |e: VersionEntry| e.tag@,
        ).push(tag@));
        assert(tag_views(sorted@).take(k + 1) =~= tag_views(sorted@).take(k as int).push(tag@));
        assert forall|q: int| offset <= q < entries@.len() implies listed_entry(
            #[trigger] entries@[q],
            tag_views(remote@),
            tag_views(installed@),
            cv,
        ) by {
            if q < entries@.len() - 1 {
                assert(entries@[q] == before[q]);
            }
        }
        k = k + 1;
    }
    assert(tag_views(sorted@).take(sorted@.len() as int) =~= tag_views(sorted@));
    VersionsList { component: component.to_owned(), entries }
}

} // verus!
