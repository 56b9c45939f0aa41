//! Paths as text with `/` between segments. Everything here is lexical: no
//! path is looked up, and a link or a relative prefix is taken as written.

use vstd::prelude::*;
use vstd::string::*;

verus! {

/// The path `base/name`.
pub open spec fn joined(base: Seq<char>, name: Seq<char>) -> Seq<char> {
    base + seq!['/'] + name
}

/// Index of the last `c` in `p`, or -1 where it has none.
pub open spec fn last_index_of(p: Seq<char>, c: char) -> int
    decreases p.len(),
{
    if p.len() == 0 {
        -1
    } else if p.last() == c {
        p.len() - 1
    } else {
        last_index_of(p.drop_last(), c)
    }
}

/// Index of the last `/` of `p`, or -1 where it has none.
pub open spec fn last_separator(p: Seq<char>) -> int {
    last_index_of(p, '/')
}

/// A segment that names nothing: the empty one and `.`.
pub open spec fn is_skipped(segment: Seq<char>) -> bool {
    segment.len() == 0 || (segment.len() == 1 && segment[0] == '.')
}

/// The last segment of `p` that names something: what follows the last `/`,
/// once trailing segments that are empty or `.` have been dropped. A path
/// made of such segments alone keeps its first segment.
pub open spec fn final_component_of(p: Seq<char>) -> Seq<char>
    decreases p.len(),
{
    let cut = last_separator(p);
    let segment = p.subrange(cut + 1, p.len() as int);
    if 0 <= cut < p.len() && is_skipped(segment) {
        final_component_of(p.subrange(0, cut))
    } else {
        segment
    }
}

/// `inner` is `outer` itself or lies below it: it begins with `outer`, and a
/// `/` follows there or is what `outer` ends in, as the root does.
pub open spec fn is_within(inner: Seq<char>, outer: Seq<char>) -> bool {
    inner == outer || (inner.len() > outer.len() && inner.subrange(0, outer.len() as int) == outer
        && (inner[outer.len() as int] == '/' || (outer.len() > 0 && outer.last() == '/')))
}

/// Neither path is the other, an ancestor of it, or a descendant of it.
pub open spec fn are_apart(a: Seq<char>, b: Seq<char>) -> bool {
    !is_within(a, b) && !is_within(b, a)
}

/// `last_index_of` finds an occurrence, and nothing occurs after it.
pub proof fn lemma_last_index_of(p: Seq<char>, c: char)
    ensures
        -1 <= last_index_of(p, c) < p.len(),
        last_index_of(p, c) >= 0 ==> p[last_index_of(p, c)] == c,
        forall|i: int| last_index_of(p, c) < i < p.len() ==> p[i] != c,
    decreases p.len(),
{
    if p.len() > 0 && p.last() != c {
        let shorter = p.drop_last();
        lemma_last_index_of(shorter, c);
        assert forall|i: int| last_index_of(p, c) < i < p.len() implies p[i] != c by {
            if i < shorter.len() {
                assert(shorter[i] == p[i]);
            }
        }
    }
}

proof fn lemma_last_separator(p: Seq<char>)
    ensures
        -1 <= last_separator(p) < p.len(),
        last_separator(p) >= 0 ==> p[last_separator(p)] == '/',
        forall|i: int| last_separator(p) < i < p.len() ==> p[i] != '/',
{
    lemma_last_index_of(p, '/');
}

/// The final component holds no `/`.
pub proof fn lemma_final_component_has_no_separator(p: Seq<char>)
    ensures
        forall|i: int| 0 <= i < final_component_of(p).len() ==> final_component_of(p)[i] != '/',
    decreases p.len(),
{
    lemma_last_separator(p);
    let cut = last_separator(p);
    let segment = p.subrange(cut + 1, p.len() as int);
    if 0 <= cut < p.len() && is_skipped(segment) {
        lemma_final_component_has_no_separator(p.subrange(0, cut));
        assert(final_component_of(p) == final_component_of(p.subrange(0, cut)));
    } else {
        assert(final_component_of(p) == segment);
        assert forall|i: int| 0 <= i < segment.len() implies segment[i] != '/' by {
            assert(segment[i] == p[cut + 1 + i]);
        }
    }
}

/// A name without `/` that is neither empty nor `.` is the final component
/// of every path that ends in `/` and that name.
pub proof fn lemma_final_component_of_joined(base: Seq<char>, name: Seq<char>)
    requires
        !is_skipped(name),
        forall|i: int| 0 <= i < name.len() ==> name[i] != '/',
    ensures
        final_component_of(joined(base, name)) == name,
{
    let p = joined(base, name);
    lemma_last_separator(p);
    assert(p[base.len() as int] == '/');
    assert(forall|i: int| base.len() < i < p.len() ==> p[i] == name[i - base.len() - 1]);
    assert(last_separator(p) == base.len());
    assert(p.subrange(base.len() as int + 1, p.len() as int) =~= name);
}

/// A relative path whose final component names something keeps that
/// component under every base.
pub proof fn lemma_final_component_below(base: Seq<char>, rest: Seq<char>)
    requires
        !is_skipped(final_component_of(rest)),
    ensures
        final_component_of(joined(base, rest)) == final_component_of(rest),
    decreases rest.len(),
{
    let p = joined(base, rest);
    let shift = base.len() as int + 1;
    lemma_last_separator(p);
    lemma_last_separator(rest);
    assert(p[base.len() as int] == '/');
    assert(forall|i: int| 0 <= i < rest.len() ==> p[shift + i] == rest[i]);
    let cut = last_separator(rest);
    if cut >= 0 {
        assert(p[shift + cut] == '/');
        assert forall|i: int| shift + cut < i < p.len() implies p[i] != '/' by {
            assert(p[i] == rest[i - shift]);
        }
        assert(last_separator(p) == shift + cut);
        let segment = rest.subrange(cut + 1, rest.len() as int);
        assert(p.subrange(shift + cut + 1, p.len() as int) =~= segment);
        if is_skipped(segment) {
            assert(p.subrange(0, shift + cut) =~= joined(base, rest.subrange(0, cut)));
            lemma_final_component_below(base, rest.subrange(0, cut));
        }
    } else {
        assert forall|i: int| base.len() < i < p.len() implies p[i] != '/' by {
            assert(p[i] == rest[i - shift]);
        }
        assert(last_separator(p) == base.len());
        assert(p.subrange(shift, p.len() as int) =~= rest);
        assert(rest.subrange(0, rest.len() as int) =~= rest);
    }
}

/// What is apart from a directory is apart from everything below it.
pub proof fn lemma_apart_from_entries(other: Seq<char>, base: Seq<char>, name: Seq<char>)
    requires
        are_apart(other, base),
    ensures
        are_apart(other, joined(base, name)),
{
    let p = joined(base, name);
    let n = base.len() as int;
    let m = other.len() as int;
    assert(p.subrange(0, n) =~= base);
    assert(p[n] == '/');
    if is_within(p, other) {
        if p == other {
            assert(is_within(other, base));
        } else {
            assert forall|i: int| 0 <= i < m implies other[i] == p[i] by {
                assert(p.subrange(0, m)[i] == p[i]);
            }
            if m < n {
                assert(base.subrange(0, m) =~= other);
                assert(base[m] == p[m]);
                assert(is_within(base, other));
            } else if m == n {
                assert(other =~= base);
            } else {
                assert(other.subrange(0, n) =~= base);
                assert(other[n] == p[n]);
                assert(is_within(other, base));
            }
        }
        assert(false);
    }
    if is_within(other, p) {
        if other != p {
            assert forall|i: int| 0 <= i < p.len() implies other[i] == p[i] by {
                assert(other.subrange(0, p.len() as int)[i] == other[i]);
            }
        }
        assert(other.subrange(0, n) =~= base);
        assert(other[n] == '/');
        assert(is_within(other, base));
        assert(false);
    }
}

/// Joins `base` and `name` with one `/`.
pub fn join(base: &str, name: &str) -> (path: String)
    ensures
        path@ == joined(base@, name@),
{
    proof {
        reveal_strlit("/");
    }
    let mut path = String::from_str(base);
    path.append("/");
    path.append(name);
    assert("/"@ =~= seq!['/']);
    path
}

/// The position just after the last `c` among the first `end` characters of
/// `text`; 0 where there is none.
pub fn after_last(text: &str, end: usize, c: char) -> (start: usize)
    requires
        end <= text@.len(),
    ensures
        start == last_index_of(text@.subrange(0, end as int), c) + 1,
        start <= end,
{
    let ghost prefix = text@.subrange(0, end as int);
    let mut start: usize = end;
    assert(prefix.subrange(0, start as int) =~= prefix);
    while start > 0 && text.get_char(start - 1) != c
        invariant
            start <= end <= text@.len(),
            prefix == text@.subrange(0, end as int),
            last_index_of(prefix, c) == last_index_of(prefix.subrange(0, start as int), c),
        decreases start,
    {
        proof {
            let shorter = prefix.subrange(0, start as int);
            assert(shorter.last() == text@[start - 1]);
            assert(shorter.drop_last() =~= prefix.subrange(0, start - 1));
        }
        start = start - 1;
    }
    proof {
        let shorter = prefix.subrange(0, start as int);
        if start > 0 {
            assert(shorter.last() == text@[start - 1]);
        }
    }
    start
}

/// The final component of `path`.
pub fn final_component(path: &str) -> (name: String)
    ensures
        name@ == final_component_of(path@),
{
    let mut end: usize = path.unicode_len();
    assert(path@.subrange(0, end as int) =~= path@);
    loop
        invariant
            end <= path@.len(),
            final_component_of(path@) == final_component_of(path@.subrange(0, end as int)),
        decreases end,
    {
        let ghost prefix = path@.subrange(0, end as int);
        let start = after_last(path, end, '/');
        proof {
            assert(prefix.subrange(start as int, end as int) =~= path@.subrange(
                start as int,
                end as int,
            ));
        }
        let skipped = end - start == 0 || (end - start == 1 && path.get_char(start) == '.');
        if start > 0 && skipped {
            proof {
                assert(prefix.subrange(0, start - 1) =~= path@.subrange(0, start - 1));
            }
            end = start - 1;
        } else {
            return String::from_str(path.substring_char(start, end));
        }
    }
}

/// Whether `inner` is `outer` itself or lies below it.
pub fn lies_within(inner: &str, outer: &str) -> (within: bool)
    ensures
        within == is_within(inner@, outer@),
{
    let inner_len = inner.unicode_len();
    let outer_len = outer.unicode_len();
    if inner_len < outer_len {
        return false;
    }
    let mut i: usize = 0;
    while i < outer_len
        invariant
            i <= outer_len <= inner_len,
            inner_len == inner@.len(),
            outer_len == outer@.len(),
            forall|k: int| 0 <= k < i ==> inner@[k] == outer@[k],
        decreases outer_len - i,
    {
        if inner.get_char(i) != outer.get_char(i) {
            proof {
                if inner@ == outer@ {
                    assert(false);
                }
                if inner@.subrange(0, outer@.len() as int) == outer@ {
                    assert(inner@.subrange(0, outer@.len() as int)[i as int] == inner@[i as int]);
                }
            }
            return false;
        }
        i = i + 1;
    }
    assert(inner@.subrange(0, outer@.len() as int) =~= outer@);
    if inner_len == outer_len {
        assert(inner@ =~= outer@);
        true
    } else {
        inner.get_char(outer_len) == '/' || (outer_len > 0 && outer.get_char(outer_len - 1) == '/')
    }
}

/// Whether neither path is the other, an ancestor or a descendant of it.
pub fn lie_apart(a: &str, b: &str) -> (apart: bool)
    ensures
        apart == are_apart(a@, b@),
{
    !lies_within(a, b) && !lies_within(b, a)
}

} // verus!
