//! Stable ordering of keyed lists (nodes by latency, connections by traffic).
use vstd::prelude::*;

verus! {

/// Position at which an element with key `k` enters a key-ordered list after
/// every element whose key is at most `k`.
pub open spec fn insert_pos<T>(s: Seq<(u64, T)>, k: u64) -> int
    decreases s.len(),
{
    if s.len() == 0 {
        0
    } else if s[0].0 > k {
        0
    } else {
        1 + insert_pos(s.drop_first(), k)
    }
}

/// The stable ordering of `s` by ascending key: elements with equal keys keep
/// their relative order.
pub open spec fn stable_sorted<T>(s: Seq<(u64, T)>) -> Seq<(u64, T)>
    decreases s.len(),
{
    if s.len() == 0 {
        s
    } else {
        let p = stable_sorted(s.drop_last());
        p.insert(insert_pos(p, s.last().0), s.last())
    }
}

/// Keys ascend along `s`.
pub open spec fn keys_ascending<T>(s: Seq<(u64, T)>) -> bool {
    forall|i: int, j: int| 0 <= i <= j < s.len() ==> s[i].0 <= s[j].0
}

pub proof fn lemma_insert_pos_bounds<T>(s: Seq<(u64, T)>, k: u64)
    ensures
        0 <= insert_pos(s, k) <= s.len(),
        forall|i: int| 0 <= i < insert_pos(s, k) ==> s[i].0 <= k,
        insert_pos(s, k) < s.len() ==> s[insert_pos(s, k)].0 > k,
    decreases s.len(),
{
    if s.len() > 0 && s[0].0 <= k {
        lemma_insert_pos_bounds(s.drop_first(), k);
        assert forall|i: int| 0 <= i < insert_pos(s, k) implies s[i].0 <= k by {
            if i > 0 {
                assert(s[i] == s.drop_first()[i - 1]);
            }
        }
    }
}

/// The stable ordering has ascending keys and holds the same elements.
pub proof fn lemma_stable_sorted<T>(s: Seq<(u64, T)>)
    ensures
        stable_sorted(s).len() == s.len(),
        keys_ascending(stable_sorted(s)),
        stable_sorted(s).to_multiset() == s.to_multiset(),
    decreases s.len(),
{
    broadcast use vstd::seq_lib::group_to_multiset_ensures;
    if s.len() > 0 {
        let p = stable_sorted(s.drop_last());
        lemma_stable_sorted(s.drop_last());
        let x = s.last();
        let i = insert_pos(p, x.0);
        lemma_insert_pos_bounds(p, x.0);
        let r = p.insert(i, x);
        assert forall|a: int, b: int| 0 <= a <= b < r.len() implies r[a].0 <= r[b].0 by {
            if a < i && b < i {
            } else if a < i && b == i {
            } else if a < i && b > i {
                assert(r[b] == p[b - 1]);
                assert(p[a].0 <= p[b - 1].0);
            } else if a == i && b > i {
                assert(r[b] == p[b - 1]);
                assert(p[i].0 > x.0);
                assert(p[i].0 <= p[b - 1].0);
            } else if a > i {
                assert(r[a] == p[a - 1]);
                assert(r[b] == p[b - 1]);
            }
        }
        assert(s =~= s.drop_last().push(x));
        vstd::seq_lib::to_multiset_insert(p, i, x);
        vstd::seq_lib::to_multiset_build(s.drop_last(), x);
    }
}

fn insert_index<T>(out: &Vec<(u64, T)>, k: u64) -> (j: usize)
    ensures
        j as int == insert_pos(out@, k),
        j <= out@.len(),
{
    let mut j: usize = 0;
    assert(out@.subrange(0, out@.len() as int) =~= out@);
    while j < out.len() && out[j].0 <= k
        invariant
            j <= out.len(),
            insert_pos(out@, k) == j + insert_pos(out@.subrange(j as int, out@.len() as int), k),
        decreases out.len() - j,
    {
        assert(out@.subrange(j as int, out@.len() as int).drop_first() =~= out@.subrange(
            j + 1,
            out@.len() as int,
        ));
        j += 1;
    }
    j
}

/// The list ordered by ascending key, stably.
pub fn stable_sort<T>(v: Vec<(u64, T)>) -> (r: Vec<(u64, T)>)
    ensures
        r@ == stable_sorted(v@),
{
    let ghost orig = v@;
    let mut rest = v;
    let mut out: Vec<(u64, T)> = Vec::new();
    let ghost mut done: int = 0;
    assert(orig.take(0) =~= Seq::<(u64, T)>::empty());
    assert(orig.subrange(0, orig.len() as int) =~= orig);
    while rest.len() > 0
        invariant
            0 <= done <= orig.len(),
            out@ == stable_sorted(orig.take(done)),
            rest@ == orig.subrange(done, orig.len() as int),
        decreases rest.len(),
    {
        let x = rest.remove(0);
        let j = insert_index(&out, x.0);
        proof {
            assert(orig.take(done + 1).drop_last() =~= orig.take(done));
            assert(orig.take(done + 1).last() == x);
        }
        out.insert(j, x);
        proof {
            done = done + 1;
            assert(rest@ =~= orig.subrange(done, orig.len() as int));
        }
    }
    assert(orig.take(done) =~= orig);
    out
}


/// Lexicographic order of texts by code point, as `str`'s `Ord` orders them.
pub open spec fn lex_lt(a: Seq<char>, b: Seq<char>) -> bool
    decreases a.len(),
{
    if b.len() == 0 {
        false
    } else if a.len() == 0 {
        true
    } else if a[0] != b[0] {
        (a[0] as int) < (b[0] as int)
    } else {
        lex_lt(a.drop_first(), b.drop_first())
    }
}

/// `lex_lt` is a strict total order.
pub proof fn lemma_lex_order(a: Seq<char>, b: Seq<char>, c: Seq<char>)
    ensures
        !lex_lt(a, a),
        lex_lt(a, b) ==> !lex_lt(b, a),
        lex_lt(a, b) && lex_lt(b, c) ==> lex_lt(a, c),
        a != b ==> lex_lt(a, b) || lex_lt(b, a),
    decreases a.len(),
{
    if a.len() > 0 && b.len() > 0 && c.len() > 0 {
        lemma_lex_order(a.drop_first(), b.drop_first(), c.drop_first());
    } else if a.len() > 0 && b.len() > 0 {
        lemma_lex_order(a.drop_first(), b.drop_first(), b.drop_first());
    } else if a.len() > 0 {
        lemma_lex_order(a.drop_first(), a.drop_first(), a.drop_first());
    }
    if a.len() > 0 && b.len() > 0 {
        if a[0] == b[0] {
            if a.drop_first() == b.drop_first() {
                assert(a =~= seq![a[0]] + a.drop_first());
                assert(b =~= seq![b[0]] + b.drop_first());
            }
        } else {
            assert((a[0] as int) != (b[0] as int));
        }
    }
    if a.len() == 0 && b.len() == 0 {
        assert(a =~= b);
    }
}

/// Position at which an entry named `k` enters a name-ordered list after every
/// entry whose name is not greater.
pub open spec fn name_insert_pos<T>(s: Seq<(String, T)>, k: Seq<char>) -> int
    decreases s.len(),
{
    if s.len() == 0 {
        0
    } else if lex_lt(k, s[0].0@) {
        0
    } else {
        1 + name_insert_pos(s.drop_first(), k)
    }
}

/// The stable ordering of `s` by ascending name.
pub open spec fn name_sorted<T>(s: Seq<(String, T)>) -> Seq<(String, T)>
    decreases s.len(),
{
    if s.len() == 0 {
        s
    } else {
        let p = name_sorted(s.drop_last());
        p.insert(name_insert_pos(p, s.last().0@), s.last())
    }
}

/// Names ascend along `s`.
pub open spec fn names_ascending<T>(s: Seq<(String, T)>) -> bool {
    forall|i: int, j: int| 0 <= i <= j < s.len() ==> !lex_lt(#[trigger] s[j].0@, #[trigger] s[i].0@)
}

proof fn lemma_name_insert_pos_bounds<T>(s: Seq<(String, T)>, k: Seq<char>)
    ensures
        0 <= name_insert_pos(s, k) <= s.len(),
        forall|i: int| 0 <= i < name_insert_pos(s, k) ==> !lex_lt(k, #[trigger] s[i].0@),
        name_insert_pos(s, k) < s.len() ==> lex_lt(k, s[name_insert_pos(s, k)].0@),
    decreases s.len(),
{
    if s.len() > 0 && !lex_lt(k, s[0].0@) {
        lemma_name_insert_pos_bounds(s.drop_first(), k);
        assert forall|i: int| 0 <= i < name_insert_pos(s, k) implies !lex_lt(k, #[trigger] s[i].0@) by {
            if i > 0 {
                assert(s[i] == s.drop_first()[i - 1]);
            }
        }
    }
}

/// The name ordering has ascending names and holds the same entries.
pub proof fn lemma_name_sorted<T>(s: Seq<(String, T)>)
    ensures
        name_sorted(s).len() == s.len(),
        names_ascending(name_sorted(s)),
        name_sorted(s).to_multiset() == s.to_multiset(),
    decreases s.len(),
{
    broadcast use vstd::seq_lib::group_to_multiset_ensures;
    if s.len() > 0 {
        let p = name_sorted(s.drop_last());
        lemma_name_sorted(s.drop_last());
        let x = s.last();
        let i = name_insert_pos(p, x.0@);
        lemma_name_insert_pos_bounds(p, x.0@);
        let r = p.insert(i, x);
        assert forall|a: int, b: int| 0 <= a <= b < r.len() implies !lex_lt(
            #[trigger] r[b].0@,
            #[trigger] r[a].0@,
        ) by {
            lemma_lex_order(r[a].0@, r[a].0@, r[a].0@);
            if a < i && b < i {
            } else if a < i && b == i {
            } else if a < i && b > i {
                assert(r[b] == p[b - 1]);
                assert(!lex_lt(p[b - 1].0@, p[a].0@));
            } else if a == i && b > i {
                assert(r[b] == p[b - 1]);
                assert(lex_lt(x.0@, p[i].0@));
                assert(!lex_lt(p[b - 1].0@, p[i].0@));
                lemma_lex_order(p[b - 1].0@, x.0@, p[i].0@);
                lemma_lex_order(x.0@, p[b - 1].0@, p[i].0@);
                lemma_lex_order(x.0@, p[i].0@, p[b - 1].0@);
                if p[b - 1].0@ == p[i].0@ {
                } else {
                }
            } else if a > i {
                assert(r[a] == p[a - 1]);
                assert(r[b] == p[b - 1]);
            }
        }
        assert(s =~= s.drop_last().push(x));
        vstd::seq_lib::to_multiset_insert(p, i, x);
        vstd::seq_lib::to_multiset_build(s.drop_last(), x);
    }
}

/// Whether `a` orders before `b`.
pub fn str_lt(a: &str, b: &str) -> (r: bool)
    ensures
        r == lex_lt(a@, b@),
{
    let x = crate::text::chars_of(a);
    let y = crate::text::chars_of(b);
    let mut i: usize = 0;
    assert(x@.skip(0) =~= x@);
    assert(y@.skip(0) =~= y@);
    while i < x.len() && i < y.len() && x[i] == y[i]
        invariant
            i <= x.len(),
            i <= y.len(),
            lex_lt(x@, y@) == lex_lt(x@.skip(i as int), y@.skip(i as int)),
        decreases x.len() - i,
    {
        assert(x@.skip(i as int).drop_first() =~= x@.skip(i + 1));
        assert(y@.skip(i as int).drop_first() =~= y@.skip(i + 1));
        i += 1;
    }
    if i == y.len() {
        false
    } else if i == x.len() {
        true
    } else {
        x[i] < y[i]
    }
}

fn name_insert_index<T>(out: &Vec<(String, T)>, k: &str) -> (j: usize)
    ensures
        j as int == name_insert_pos(out@, k@),
        j <= out@.len(),
{
    let mut j: usize = 0;
    assert(out@.subrange(0, out@.len() as int) =~= out@);
    while j < out.len() && !str_lt(k, out[j].0.as_str())
        invariant
            j <= out.len(),
            name_insert_pos(out@, k@) == j + name_insert_pos(
                out@.subrange(j as int, out@.len() as int),
                k@,
            ),
        decreases out.len() - j,
    {
        assert(out@.subrange(j as int, out@.len() as int).drop_first() =~= out@.subrange(
            j + 1,
            out@.len() as int,
        ));
        j += 1;
    }
    j
}

/// The list ordered by ascending name, stably.
pub fn sort_by_name<T>(v: Vec<(String, T)>) -> (r: Vec<(String, T)>)
    ensures
        r@ == name_sorted(v@),
{
    let ghost orig = v@;
    let mut rest = v;
    let mut out: Vec<(String, T)> = Vec::new();
    let ghost mut done: int = 0;
    assert(orig.take(0) =~= Seq::<(String, T)>::empty());
    assert(orig.subrange(0, orig.len() as int) =~= orig);
    while rest.len() > 0
        invariant
            0 <= done <= orig.len(),
            out@ == name_sorted(orig.take(done)),
            rest@ == orig.subrange(done, orig.len() as int),
        decreases rest.len(),
    {
        let x = rest.remove(0);
        let j = name_insert_index(&out, x.0.as_str());
        proof {
            assert(orig.take(done + 1).drop_last() =~= orig.take(done));
            assert(orig.take(done + 1).last() == x);
        }
        out.insert(j, x);
        proof {
            done = done + 1;
            assert(rest@ =~= orig.subrange(done, orig.len() as int));
        }
    }
    assert(orig.take(done) =~= orig);
    out
}

/// Position at which an entry with name `k` enters a list ordered by name
/// after every entry whose name is not greater (names as text).
pub open spec fn view_insert_pos<T>(s: Seq<(Seq<char>, T)>, k: Seq<char>) -> int
    decreases s.len(),
{
    if s.len() == 0 {
        0
    } else if lex_lt(k, s[0].0) {
        0
    } else {
        1 + view_insert_pos(s.drop_first(), k)
    }
}

/// The stable ordering of named entries by ascending name (names as text).
pub open spec fn view_sorted<T>(s: Seq<(Seq<char>, T)>) -> Seq<(Seq<char>, T)>
    decreases s.len(),
{
    if s.len() == 0 {
        s
    } else {
        let p = view_sorted(s.drop_last());
        p.insert(view_insert_pos(p, s.last().0), s.last())
    }
}

pub open spec fn entry_views<T, U>(s: Seq<(String, T)>, f: spec_fn(T) -> U) -> Seq<(Seq<char>, U)> {
    s.map_values(|e: (String, T)| (e.0@, f(e.1)))
}

proof fn lemma_insert_pos_views<T, U>(s: Seq<(String, T)>, f: spec_fn(T) -> U, k: Seq<char>)
    ensures
        view_insert_pos(entry_views(s, f), k) == name_insert_pos(s, k),
    decreases s.len(),
{
    if s.len() > 0 {
        assert(entry_views(s, f).drop_first() =~= entry_views(s.drop_first(), f));
        lemma_insert_pos_views(s.drop_first(), f, k);
    }
}

/// Ordering exec entries by name and then viewing them is the same as
/// ordering their views.
pub proof fn lemma_name_sorted_views<T, U>(s: Seq<(String, T)>, f: spec_fn(T) -> U)
    ensures
        entry_views(name_sorted(s), f) == view_sorted(entry_views(s, f)),
    decreases s.len(),
{
    if s.len() > 0 {
        let p = name_sorted(s.drop_last());
        assert(entry_views(s, f).drop_last() =~= entry_views(s.drop_last(), f));
        lemma_name_sorted_views(s.drop_last(), f);
        lemma_name_sorted(s.drop_last());
        lemma_insert_pos_views(p, f, s.last().0@);
        let i = name_insert_pos(p, s.last().0@);
        lemma_name_insert_pos_bounds(p, s.last().0@);
        assert(entry_views(p.insert(i, s.last()), f) =~= entry_views(p, f).insert(
            i,
            (s.last().0@, f(s.last().1)),
        ));
    }
}


proof fn lemma_view_insert_pos_bounds<T>(s: Seq<(Seq<char>, T)>, k: Seq<char>)
    ensures
        0 <= view_insert_pos(s, k) <= s.len(),
        forall|i: int| 0 <= i < view_insert_pos(s, k) ==> !lex_lt(k, #[trigger] s[i].0),
        view_insert_pos(s, k) < s.len() ==> lex_lt(k, s[view_insert_pos(s, k)].0),
    decreases s.len(),
{
    if s.len() > 0 && !lex_lt(k, s[0].0) {
        lemma_view_insert_pos_bounds(s.drop_first(), k);
        assert forall|i: int| 0 <= i < view_insert_pos(s, k) implies !lex_lt(k, #[trigger] s[i].0) by {
            if i > 0 {
                assert(s[i] == s.drop_first()[i - 1]);
            }
        }
    }
}

/// The ordering of named entries by name has ascending names and holds the
/// same entries.
pub proof fn lemma_view_sorted<T>(s: Seq<(Seq<char>, T)>)
    ensures
        view_sorted(s).len() == s.len(),
        forall|a: int, b: int|
            0 <= a <= b < s.len() ==> !lex_lt(#[trigger] view_sorted(s)[b].0, #[trigger] view_sorted(s)[a].0),
        view_sorted(s).to_multiset() == s.to_multiset(),
    decreases s.len(),
{
    broadcast use vstd::seq_lib::group_to_multiset_ensures;
    if s.len() > 0 {
        let p = view_sorted(s.drop_last());
        lemma_view_sorted(s.drop_last());
        let x = s.last();
        let i = view_insert_pos(p, x.0);
        lemma_view_insert_pos_bounds(p, x.0);
        let r = p.insert(i, x);
        assert forall|a: int, b: int| 0 <= a <= b < r.len() implies !lex_lt(#[trigger] r[b].0, #[trigger] r[a].0) by {
            lemma_lex_order(r[a].0, r[a].0, r[a].0);
            if a < i && b < i {
            } else if a < i && b == i {
            } else if a < i && b > i {
                assert(r[b] == p[b - 1]);
                assert(!lex_lt(p[b - 1].0, p[a].0));
            } else if a == i && b > i {
                assert(r[b] == p[b - 1]);
                assert(lex_lt(x.0, p[i].0));
                assert(!lex_lt(p[b - 1].0, p[i].0));
                lemma_lex_order(p[b - 1].0, x.0, p[i].0);
                lemma_lex_order(x.0, p[b - 1].0, p[i].0);
                lemma_lex_order(x.0, p[i].0, p[b - 1].0);
            } else if a > i {
                assert(r[a] == p[a - 1]);
                assert(r[b] == p[b - 1]);
            }
        }
        assert(s =~= s.drop_last().push(x));
        vstd::seq_lib::to_multiset_insert(p, i, x);
        vstd::seq_lib::to_multiset_build(s.drop_last(), x);
    }
}

} // verus!
