//! Summary figures over mapping results.
use vstd::prelude::*;

use crate::migration::types::{MigrationResult, MigrationStatus};
use crate::text::{chars_of, seq_eq, string_of};
use crate::text_sort::{lex_lt, lex_lt_exec};

verus! {

/// The statuses of `rs`, in order.
pub open spec fn statuses(rs: Seq<MigrationResult>) -> Seq<MigrationStatus> {
    rs.map_values(|r: MigrationResult| r.status)
}

/// How many of `ss` are `st`.
pub open spec fn count_status(ss: Seq<MigrationStatus>, st: MigrationStatus) -> nat
    decreases ss.len(),
{
    if ss.len() == 0 {
        0
    } else {
        count_status(ss.drop_last(), st) + if ss.last() == st {
            1nat
        } else {
            0nat
        }
    }
}

pub proof fn lemma_count_status_le(ss: Seq<MigrationStatus>, st: MigrationStatus)
    ensures
        count_status(ss, st) <= ss.len(),
    decreases ss.len(),
{
    if ss.len() > 0 {
        lemma_count_status_le(ss.drop_last(), st);
    }
}

/// How many results fall under each status.
pub struct StatusBreakdown {
    pub native: usize,
    pub compatible: usize,
    pub partial: usize,
    pub unsupported: usize,
    pub unknown: usize,
}

impl StatusBreakdown {
    /// Counts the results of each status (carried-over resources are not counted).
    pub fn from_results(results: &[MigrationResult]) -> (b: Self)
        ensures
            b.native == count_status(statuses(results@), MigrationStatus::Native),
            b.compatible == count_status(statuses(results@), MigrationStatus::Compatible),
            b.partial == count_status(statuses(results@), MigrationStatus::Partial),
            b.unsupported == count_status(statuses(results@), MigrationStatus::Unsupported),
            b.unknown == count_status(statuses(results@), MigrationStatus::Unknown),
    {
        let ghost ss = statuses(results@);
        let mut b = StatusBreakdown { native: 0, compatible: 0, partial: 0, unsupported: 0, unknown: 0 };
        let mut i: usize = 0;
        while i < results.len()
            invariant
                i <= results@.len(),
                ss == statuses(results@),
                b.native == count_status(ss.take(i as int), MigrationStatus::Native),
                b.compatible == count_status(ss.take(i as int), MigrationStatus::Compatible),
                b.partial == count_status(ss.take(i as int), MigrationStatus::Partial),
                b.unsupported == count_status(ss.take(i as int), MigrationStatus::Unsupported),
                b.unknown == count_status(ss.take(i as int), MigrationStatus::Unknown),
            decreases results@.len() - i,
        {
            assert(ss.take(i + 1).drop_last() =~= ss.take(i as int));
            assert(ss.take(i + 1).last() == results@[i as int].status);
            proof {
                lemma_count_status_le(ss.take(i as int), MigrationStatus::Native);
                lemma_count_status_le(ss.take(i as int), MigrationStatus::Compatible);
                lemma_count_status_le(ss.take(i as int), MigrationStatus::Partial);
                lemma_count_status_le(ss.take(i as int), MigrationStatus::Unsupported);
                lemma_count_status_le(ss.take(i as int), MigrationStatus::Unknown);
            }
            match results[i].status {
                MigrationStatus::Native => b.native = b.native + 1,
                MigrationStatus::Compatible => b.compatible = b.compatible + 1,
                MigrationStatus::Partial => b.partial = b.partial + 1,
                MigrationStatus::Unsupported => b.unsupported = b.unsupported + 1,
                MigrationStatus::Unknown => b.unknown = b.unknown + 1,
                MigrationStatus::Passthrough => {},
            }
            i += 1;
        }
        assert(ss.take(results@.len() as int) =~= ss);
        b
    }
}

/// The first index of `m` with key `k`.
pub open spec fn find_key(m: Seq<(Seq<char>, nat)>, k: Seq<char>, i: int) -> Option<int>
    decreases m.len() - i,
{
    if i < 0 || i >= m.len() {
        None
    } else if m[i].0 == k {
        Some(i)
    } else {
        find_key(m, k, i + 1)
    }
}

pub proof fn lemma_find_key_bounds(m: Seq<(Seq<char>, nat)>, k: Seq<char>, i: int)
    requires
        0 <= i,
    ensures
        find_key(m, k, i) matches Some(j) ==> i <= j < m.len() && m[j].0 == k,
    decreases m.len() - i,
{
    if i < m.len() && m[i].0 != k {
        lemma_find_key_bounds(m, k, i + 1);
    }
}

/// One more for `k`: its count goes up, or it is added with count one.
pub open spec fn bump(m: Seq<(Seq<char>, nat)>, k: Seq<char>) -> Seq<(Seq<char>, nat)> {
    match find_key(m, k, 0) {
        Some(j) => m.update(j, (k, m[j].1 + 1)),
        None => m.push((k, 1nat)),
    }
}

/// Counts of unsupported resources by type, types in order of first appearance.
pub open spec fn unsup_counts(rs: Seq<MigrationResult>) -> Seq<(Seq<char>, nat)>
    decreases rs.len(),
{
    if rs.len() == 0 {
        seq![]
    } else {
        let m = unsup_counts(rs.drop_last());
        if rs.last().status == MigrationStatus::Unsupported {
            bump(m, rs.last().resource_type@)
        } else {
            m
        }
    }
}

/// Higher counts first; equal counts by type name.
pub open spec fn blocker_before(a: (Seq<char>, nat), b: (Seq<char>, nat)) -> bool {
    a.1 > b.1 || (a.1 == b.1 && lex_lt(a.0, b.0))
}

pub open spec fn ins_blocker(s: Seq<(Seq<char>, nat)>, x: (Seq<char>, nat)) -> Seq<(Seq<char>, nat)>
    decreases s.len(),
{
    if s.len() == 0 {
        seq![x]
    } else if blocker_before(x, s.last()) {
        ins_blocker(s.drop_last(), x).push(s.last())
    } else {
        s.push(x)
    }
}

pub open spec fn sort_blockers(s: Seq<(Seq<char>, nat)>) -> Seq<(Seq<char>, nat)>
    decreases s.len(),
{
    if s.len() == 0 {
        s
    } else {
        ins_blocker(sort_blockers(s.drop_last()), s.last())
    }
}

/// The three resource types with the most unsupported resources.
pub open spec fn spec_top_blockers(rs: Seq<MigrationResult>) -> Seq<(Seq<char>, nat)> {
    let s = sort_blockers(unsup_counts(rs));
    if s.len() <= 3 {
        s
    } else {
        s.take(3)
    }
}

pub open spec fn blockers_view(v: Seq<(Vec<char>, usize)>) -> Seq<(Seq<char>, nat)> {
    v.map_values(|p: (Vec<char>, usize)| (p.0@, p.1 as nat))
}

pub open spec fn blocker_strs_view(v: Seq<(String, usize)>) -> Seq<(Seq<char>, nat)> {
    v.map_values(|p: (String, usize)| (p.0@, p.1 as nat))
}

proof fn lemma_ins_blocker_split(s: Seq<(Seq<char>, nat)>, x: (Seq<char>, nat), p: int)
    requires
        0 < p <= s.len(),
        blocker_before(x, s[p - 1]),
    ensures
        ins_blocker(s.take(p), x) + s.skip(p) == ins_blocker(s.take(p - 1), x) + s.skip(p - 1),
{
    assert(s.take(p).drop_last() =~= s.take(p - 1));
    assert(s.take(p).last() == s[p - 1]);
    assert(ins_blocker(s.take(p), x) == ins_blocker(s.take(p - 1), x).push(s[p - 1]));
    assert(s.skip(p - 1) =~= seq![s[p - 1]] + s.skip(p));
    assert(ins_blocker(s.take(p - 1), x).push(s[p - 1]) + s.skip(p) =~= ins_blocker(
        s.take(p - 1),
        x,
    ) + (seq![s[p - 1]] + s.skip(p)));
}

fn blocker_before_exec(a: &(Vec<char>, usize), b: &(Vec<char>, usize)) -> (r: bool)
    ensures
        r == blocker_before((a.0@, a.1 as nat), (b.0@, b.1 as nat)),
{
    a.1 > b.1 || (a.1 == b.1 && lex_lt_exec(&a.0, &b.0))
}

/// The resource types with the most unsupported resources: at most three, most
/// frequent first, ties by name.
pub fn top_blockers(results: &[MigrationResult]) -> (r: Vec<(String, usize)>)
    ensures
        blocker_strs_view(r@) == spec_top_blockers(results@),
{
    // counts in order of first appearance
    let mut counts: Vec<(Vec<char>, usize)> = Vec::new();
    let mut i: usize = 0;
    while i < results.len()
        invariant
            i <= results@.len(),
            blockers_view(counts@) == unsup_counts(results@.take(i as int)),
            forall|j: int| 0 <= j < counts@.len() ==> counts@[j].1 <= i,
        decreases results@.len() - i,
    {
        assert(results@.take(i + 1).drop_last() =~= results@.take(i as int));
        assert(results@.take(i + 1).last() == results@[i as int]);
        if results[i].status == MigrationStatus::Unsupported {
            let k = chars_of(results[i].resource_type.as_str());
            let ghost m = blockers_view(counts@);
            let mut j: usize = 0;
            while j < counts.len() && !seq_eq(&counts[j].0, &k)
                invariant
                    j <= counts@.len(),
                    m == blockers_view(counts@),
                    find_key(m, k@, 0) == find_key(m, k@, j as int),
                decreases counts@.len() - j,
            {
                assert(m[j as int].0 == counts@[j as int].0@);
                j += 1;
            }
            if j < counts.len() {
                assert(m[j as int].0 == counts@[j as int].0@);
                assert(find_key(m, k@, j as int) == Some(j as int));
                let c = counts[j].1;
                counts.set(j, (k, c + 1));
                assert(blockers_view(counts@) =~= m.update(j as int, (k@, m[j as int].1 + 1)));
            } else {
                assert(find_key(m, k@, j as int) is None);
                counts.push((k, 1));
                assert(blockers_view(counts@) =~= m.push((k@, 1nat)));
            }
        }
        i += 1;
    }
    assert(results@.take(results@.len() as int) =~= results@);
    // stable insertion sort, most frequent first
    let ghost orig = blockers_view(counts@);
    let n = counts.len();
    let mut out: Vec<(Vec<char>, usize)> = Vec::new();
    let mut k: usize = 0;
    assert(orig.take(0) =~= Seq::<(Seq<char>, nat)>::empty());
    while k < n
        invariant
            n == counts@.len(),
            k <= n,
            orig == blockers_view(counts@),
            blockers_view(out@) == sort_blockers(orig.take(k as int)),
        decreases n - k,
    {
        let x = (string_to_chars(&counts[k].0), counts[k].1);
        assert(orig[k as int] == (x.0@, x.1 as nat));
        let ghost xs = (x.0@, x.1 as nat);
        let ghost cur = blockers_view(out@);
        let mut p = out.len();
        assert(cur.take(p as int) =~= cur);
        assert(cur.skip(p as int) =~= Seq::<(Seq<char>, nat)>::empty());
        while p > 0 && blocker_before_exec(&x, &out[p - 1])
            invariant
                p <= out@.len(),
                xs == (x.0@, x.1 as nat),
                cur == blockers_view(out@),
                ins_blocker(cur, xs) == ins_blocker(cur.take(p as int), xs) + cur.skip(p as int),
            decreases p,
        {
            assert(cur[p - 1] == (out@[p - 1].0@, out@[p - 1].1 as nat));
            proof {
                lemma_ins_blocker_split(cur, xs, p as int);
            }
            p -= 1;
        }
        proof {
            if p > 0 {
                assert(cur.take(p as int).last() == cur[p - 1]);
                assert(cur[p - 1] == (out@[p - 1].0@, out@[p - 1].1 as nat));
            }
            assert(ins_blocker(cur.take(p as int), xs) == cur.take(p as int).push(xs));
            assert(orig.take(k + 1).drop_last() =~= orig.take(k as int));
            assert(orig.take(k + 1).last() == xs);
        }
        out.insert(p, x);
        assert(blockers_view(out@) =~= cur.take(p as int).push(xs) + cur.skip(p as int));
        k += 1;
    }
    assert(orig.take(n as int) =~= orig);
    let ghost sorted = blockers_view(out@);
    let mut r: Vec<(String, usize)> = Vec::new();
    let mut t: usize = 0;
    while t < out.len() && t < 3
        invariant
            t <= out@.len(),
            t <= 3,
            sorted == blockers_view(out@),
            blocker_strs_view(r@) == sorted.take(t as int),
        decreases out@.len() - t,
    {
        let ghost prev = blocker_strs_view(r@);
        r.push((string_of(&out[t].0), out[t].1));
        assert(blocker_strs_view(r@) =~= prev.push(sorted[t as int]));
        assert(sorted.take(t + 1) =~= sorted.take(t as int).push(sorted[t as int]));
        t += 1;
    }
    assert(sorted.len() <= 3 ==> sorted.take(t as int) =~= sorted);
    r
}

fn string_to_chars(v: &Vec<char>) -> (r: Vec<char>)
    ensures
        r@ == v@,
{
    let r = crate::text::slice_of(v, 0, v.len());
    assert(r@ =~= v@);
    r
}

/// How many unsupported resources of type `ty` there are.
pub open spec fn unsup_count(rs: Seq<MigrationResult>, ty: Seq<char>) -> nat
    decreases rs.len(),
{
    if rs.len() == 0 {
        0
    } else {
        unsup_count(rs.drop_last(), ty) + if rs.last().status == MigrationStatus::Unsupported && rs.last().resource_type@ == ty { 1nat } else { 0nat }
    }
}

/// Counts by type: no type twice, each count that of its type and positive, and every
/// type with unsupported resources present.
pub open spec fn counts_ok(m: Seq<(Seq<char>, nat)>, rs: Seq<MigrationResult>) -> bool {
    &&& forall|i: int, j: int| 0 <= i < j < m.len() ==> (#[trigger] m[i]).0 != (#[trigger] m[j]).0
    &&& forall|i: int| 0 <= i < m.len() ==> (#[trigger] m[i]).1 == unsup_count(rs, m[i].0) && m[i].1 > 0
    &&& forall|ty: Seq<char>| #[trigger] unsup_count(rs, ty) > 0 ==> exists|i: int| 0 <= i < m.len() && (#[trigger] m[i]).0 == ty
}

proof fn lemma_find_key_none(m: Seq<(Seq<char>, nat)>, k: Seq<char>, i: int)
    requires
        0 <= i,
        find_key(m, k, i) is None,
    ensures
        forall|t: int| i <= t < m.len() ==> m[t].0 != k,
    decreases m.len() - i,
{
    if i < m.len() {
        lemma_find_key_none(m, k, i + 1);
    }
}

proof fn lemma_unsup_counts(rs: Seq<MigrationResult>)
    ensures
        counts_ok(unsup_counts(rs), rs),
    decreases rs.len(),
{
    if rs.len() > 0 {
        let d = rs.drop_last();
        lemma_unsup_counts(d);
        let m = unsup_counts(d);
        let r = unsup_counts(rs);
        let l = rs.last();
        let k = l.resource_type@;
        assert forall|ty: Seq<char>| #[trigger] unsup_count(rs, ty) == unsup_count(d, ty) + if l.status == MigrationStatus::Unsupported && k == ty { 1nat } else { 0nat } by {}
        if l.status == MigrationStatus::Unsupported {
            lemma_find_key_bounds(m, k, 0);
            match find_key(m, k, 0) {
                Some(x) => {
                    assert(r == m.update(x, (k, m[x].1 + 1)));
                    assert forall|i: int| 0 <= i < r.len() implies (#[trigger] r[i]).1 == unsup_count(rs, r[i].0) && r[i].1 > 0 by {
                        assert(m[i].1 == unsup_count(d, m[i].0));
                        if i != x {
                            assert(m[i].0 != m[x].0);
                        }
                    }
                    assert forall|ty: Seq<char>| #[trigger] unsup_count(rs, ty) > 0 implies exists|i: int| 0 <= i < r.len() && (#[trigger] r[i]).0 == ty by {
                        if ty == k {
                            assert(r[x].0 == ty);
                        } else {
                            assert(unsup_count(d, ty) > 0);
                            let i = choose|i: int| 0 <= i < m.len() && (#[trigger] m[i]).0 == ty;
                            assert(r[i].0 == ty);
                        }
                    }
                    assert forall|i: int, j: int| 0 <= i < j < r.len() implies (#[trigger] r[i]).0 != (#[trigger] r[j]).0 by {
                        assert(m[i].0 != m[j].0);
                    }
                },
                None => {
                    lemma_find_key_none(m, k, 0);
                    assert(r == m.push((k, 1nat)));
                    assert(unsup_count(d, k) == 0) by {
                        if unsup_count(d, k) > 0 {
                            let i = choose|i: int| 0 <= i < m.len() && (#[trigger] m[i]).0 == k;
                        }
                    }
                    assert forall|i: int| 0 <= i < r.len() implies (#[trigger] r[i]).1 == unsup_count(rs, r[i].0) && r[i].1 > 0 by {
                        if i < m.len() {
                            assert(m[i].1 == unsup_count(d, m[i].0));
                            assert(m[i].0 != k);
                        }
                    }
                    assert forall|ty: Seq<char>| #[trigger] unsup_count(rs, ty) > 0 implies exists|i: int| 0 <= i < r.len() && (#[trigger] r[i]).0 == ty by {
                        if ty == k {
                            assert(r[m.len() as int].0 == ty);
                        } else {
                            assert(unsup_count(d, ty) > 0);
                            let i = choose|i: int| 0 <= i < m.len() && (#[trigger] m[i]).0 == ty;
                            assert(r[i].0 == ty);
                        }
                    }
                    assert forall|i: int, j: int| 0 <= i < j < r.len() implies (#[trigger] r[i]).0 != (#[trigger] r[j]).0 by {
                        if j < m.len() {
                            assert(m[i].0 != m[j].0);
                        } else {
                            assert(m[i].0 != k);
                        }
                    }
                },
            }
        } else {
            assert(r == m);
            assert forall|i: int| 0 <= i < r.len() implies (#[trigger] r[i]).1 == unsup_count(rs, r[i].0) && r[i].1 > 0 by {
                assert(m[i].1 == unsup_count(d, m[i].0));
            }
            assert forall|ty: Seq<char>| #[trigger] unsup_count(rs, ty) > 0 implies exists|i: int| 0 <= i < r.len() && (#[trigger] r[i]).0 == ty by {
                assert(unsup_count(d, ty) > 0);
            }
        }
    }
}

/// No entry ranks before an earlier one.
pub open spec fn blockers_sorted(s: Seq<(Seq<char>, nat)>) -> bool {
    forall|i: int, j: int| 0 <= i < j < s.len() ==> !blocker_before(#[trigger] s[j], #[trigger] s[i])
}

proof fn lemma_not_before_trans(a: (Seq<char>, nat), b: (Seq<char>, nat), c: (Seq<char>, nat))
    requires
        !blocker_before(b, a),
        !blocker_before(c, b),
    ensures
        !blocker_before(c, a),
{
    if c.1 == a.1 && b.1 == a.1 {
        crate::text_sort::lemma_not_below_trans(a.0, b.0, c.0);
    }
}

proof fn lemma_before_asym(a: (Seq<char>, nat), b: (Seq<char>, nat))
    requires
        blocker_before(a, b),
    ensures
        !blocker_before(b, a),
{
    if a.1 == b.1 && lex_lt(b.0, a.0) {
        crate::text_sort::lemma_lex_trans(a.0, b.0, a.0);
        crate::text_sort::lemma_lex_irrefl(a.0);
    }
}

proof fn lemma_ins_blocker(s: Seq<(Seq<char>, nat)>, x: (Seq<char>, nat))
    requires
        blockers_sorted(s),
    ensures
        ins_blocker(s, x).len() == s.len() + 1,
        blockers_sorted(ins_blocker(s, x)),
        forall|y: (Seq<char>, nat)| #[trigger] ins_blocker(s, x).contains(y) <==> (s.contains(y) || y == x),
        s.no_duplicates() && !s.contains(x) ==> ins_blocker(s, x).no_duplicates(),
    decreases s.len(),
{
    let r = ins_blocker(s, x);
    if s.len() == 0 {
        assert(r == seq![x]);
        assert forall|y: (Seq<char>, nat)| r.contains(y) <==> (s.contains(y) || y == x) by {
            if y == x {
                assert(r[0] == x);
            }
        }
    } else {
        let l = s.last();
        let d = s.drop_last();
        if blocker_before(x, l) {
            assert(blockers_sorted(d)) by {
                assert forall|i: int, j: int| 0 <= i < j < d.len() implies !blocker_before(#[trigger] d[j], #[trigger] d[i]) by {
                    assert(d[i] == s[i] && d[j] == s[j]);
                }
            }
            lemma_ins_blocker(d, x);
            let q = ins_blocker(d, x);
            assert(q.contains(x));
            assert(r == q.push(l));
            if s.no_duplicates() && !s.contains(x) {
                assert(d.no_duplicates()) by {
                    assert forall|i: int, j: int| 0 <= i < d.len() && 0 <= j < d.len() && i != j implies d[i] != d[j] by {
                        assert(d[i] == s[i] && d[j] == s[j]);
                    }
                }
                assert(!d.contains(x)) by {
                    if d.contains(x) {
                        let k = choose|k: int| 0 <= k < d.len() && d[k] == x;
                        assert(s[k] == x);
                    }
                }
                assert(!q.contains(l)) by {
                    assert(q.contains(l) == (d.contains(l) || l == x));
                    if d.contains(l) {
                        let k = choose|k: int| 0 <= k < d.len() && d[k] == l;
                        assert(s[k] == s[s.len() - 1]);
                    }
                    assert(s[s.len() - 1] == l);
                }
                assert forall|i: int, j: int| 0 <= i < r.len() && 0 <= j < r.len() && i != j implies r[i] != r[j] by {
                    if i < q.len() && j < q.len() {
                        assert(r[i] == q[i] && r[j] == q[j]);
                    } else if i < q.len() {
                        assert(r[i] == q[i]);
                        assert(q.contains(q[i]));
                    } else {
                        assert(r[j] == q[j]);
                        assert(q.contains(q[j]));
                    }
                }
            }
            lemma_before_asym(x, l);
            assert forall|i: int, j: int| 0 <= i < j < r.len() implies !blocker_before(#[trigger] r[j], #[trigger] r[i]) by {
                if j < q.len() {
                    assert(r[i] == q[i] && r[j] == q[j]);
                } else {
                    assert(r[j] == l && r[i] == q[i]);
                    assert(q.contains(q[i]));
                    if q[i] != x {
                        assert(d.contains(q[i]));
                        let m = choose|m: int| 0 <= m < d.len() && d[m] == q[i];
                        assert(s[m] == q[i]);
                        assert(!blocker_before(s[s.len() - 1], s[m]));
                    }
                }
            }
            assert forall|y: (Seq<char>, nat)| r.contains(y) <==> (s.contains(y) || y == x) by {
                if r.contains(y) {
                    let k = choose|k: int| 0 <= k < r.len() && r[k] == y;
                    if k < q.len() {
                        assert(q[k] == y);
                        assert(q.contains(y));
                        assert(q.contains(y) == (d.contains(y) || y == x));
                        if y != x {
                            let m = choose|m: int| 0 <= m < d.len() && d[m] == y;
                            assert(s[m] == y);
                        }
                    } else {
                        assert(s[s.len() - 1] == y);
                    }
                }
                if s.contains(y) {
                    let k = choose|k: int| 0 <= k < s.len() && s[k] == y;
                    if k == s.len() - 1 {
                        assert(r[q.len() as int] == y);
                    } else {
                        assert(d[k] == y);
                        assert(d.contains(y));
                        assert(q.contains(y));
                        let m = choose|m: int| 0 <= m < q.len() && q[m] == y;
                        assert(r[m] == y);
                    }
                }
                if y == x {
                    assert(q.contains(x) == (d.contains(x) || x == x));
                    assert(q.contains(x));
                    let m = choose|m: int| 0 <= m < q.len() && q[m] == x;
                    assert(r[m] == x);
                }
            }
        } else {
            assert(r == s.push(x));
            if s.no_duplicates() && !s.contains(x) {
                assert forall|i: int, j: int| 0 <= i < r.len() && 0 <= j < r.len() && i != j implies r[i] != r[j] by {
                    if i < s.len() && j < s.len() {
                        assert(r[i] == s[i] && r[j] == s[j]);
                    } else if i < s.len() {
                        assert(r[i] == s[i]);
                    } else {
                        assert(r[j] == s[j]);
                    }
                }
            }
            assert forall|i: int, j: int| 0 <= i < j < r.len() implies !blocker_before(#[trigger] r[j], #[trigger] r[i]) by {
                assert(r[i] == s[i]);
                if j < s.len() {
                    assert(r[j] == s[j]);
                } else if i < s.len() - 1 {
                    assert(!blocker_before(s[s.len() - 1], s[i]));
                    lemma_not_before_trans(s[i], l, x);
                }
            }
            assert forall|y: (Seq<char>, nat)| r.contains(y) <==> (s.contains(y) || y == x) by {
                if r.contains(y) {
                    let k = choose|k: int| 0 <= k < r.len() && r[k] == y;
                    if k < s.len() {
                        assert(s[k] == y);
                    }
                }
                if s.contains(y) {
                    let k = choose|k: int| 0 <= k < s.len() && s[k] == y;
                    assert(r[k] == y);
                }
                if y == x {
                    assert(r[s.len() as int] == x);
                }
            }
        }
    }
}

proof fn lemma_sort_blockers(s: Seq<(Seq<char>, nat)>)
    ensures
        sort_blockers(s).len() == s.len(),
        blockers_sorted(sort_blockers(s)),
        forall|y: (Seq<char>, nat)| sort_blockers(s).contains(y) <==> s.contains(y),
        s.no_duplicates() ==> sort_blockers(s).no_duplicates(),
    decreases s.len(),
{
    if s.len() > 0 {
        let d = s.drop_last();
        lemma_sort_blockers(d);
        lemma_ins_blocker(sort_blockers(d), s.last());
        if s.no_duplicates() {
            assert(d.no_duplicates()) by {
                assert forall|i: int, j: int| 0 <= i < d.len() && 0 <= j < d.len() && i != j implies d[i] != d[j] by {
                    assert(d[i] == s[i] && d[j] == s[j]);
                }
            }
            assert(!sort_blockers(d).contains(s.last())) by {
                assert(sort_blockers(d).contains(s.last()) == d.contains(s.last()));
                if d.contains(s.last()) {
                    let k = choose|k: int| 0 <= k < d.len() && d[k] == s.last();
                    assert(s[k] == s[s.len() - 1]);
                }
            }
        }
        assert forall|y: (Seq<char>, nat)| sort_blockers(s).contains(y) <==> s.contains(y) by {
            assert(sort_blockers(d).contains(y) == d.contains(y));
            if d.contains(y) {
                let k = choose|k: int| 0 <= k < d.len() && d[k] == y;
                assert(s[k] == y);
            }
            if s.contains(y) && y != s.last() {
                let k = choose|k: int| 0 <= k < s.len() && s[k] == y;
                assert(d[k] == y);
            }
        }
    } else {
        assert(sort_blockers(s) == s);
    }
}

/// The top blockers: each entry is an unsupported resource type with its count, which is
/// positive; no type comes twice; there are three, or as many types as there are when
/// fewer; higher counts come first and equal counts by type name; and no type left out
/// ranks before the last entry.
pub proof fn top_blockers_are_the_most_frequent(rs: Seq<MigrationResult>)
    ensures
        ({
            let r = spec_top_blockers(rs);
            let all = unsup_counts(rs);
            &&& forall|i: int| 0 <= i < r.len() ==> (#[trigger] r[i]).1 == unsup_count(rs, r[i].0) && r[i].1 > 0
            &&& forall|i: int, j: int| 0 <= i < j < r.len() ==> (#[trigger] r[i]).0 != (#[trigger] r[j]).0
            &&& r.len() == if all.len() < 3 { all.len() } else { 3 }
            &&& forall|ty: Seq<char>| #[trigger] unsup_count(rs, ty) > 0 ==> exists|i: int| 0 <= i < all.len() && (#[trigger] all[i]).0 == ty
            &&& blockers_sorted(r)
            &&& forall|i: int| 0 <= i < r.len() ==> all.contains(#[trigger] r[i])
            &&& forall|y: (Seq<char>, nat)| all.contains(y) && !r.contains(y) ==> r.len() == 3 && !blocker_before(y, r[2])
        }),
{
    let all = unsup_counts(rs);
    lemma_unsup_counts(rs);
    assert(all.no_duplicates()) by {
        assert forall|i: int, j: int| 0 <= i < all.len() && 0 <= j < all.len() && i != j implies all[i] != all[j] by {
            if i < j { assert(all[i].0 != all[j].0); } else { assert(all[j].0 != all[i].0); }
        }
    }
    lemma_sort_blockers(all);
    let s = sort_blockers(all);
    let r = spec_top_blockers(rs);
    assert(forall|i: int| 0 <= i < r.len() ==> r[i] == s[i]);
    assert forall|i: int| 0 <= i < r.len() implies all.contains(#[trigger] r[i]) by {
        assert(s.contains(s[i]));
    }
    assert forall|i: int| 0 <= i < r.len() implies (#[trigger] r[i]).1 == unsup_count(rs, r[i].0) && r[i].1 > 0 by {
        assert(s.contains(s[i]));
        assert(all.contains(s[i]));
        let k = choose|k: int| 0 <= k < all.len() && all[k] == s[i];
        assert(all[k].1 == unsup_count(rs, all[k].0));
    }
    assert forall|i: int, j: int| 0 <= i < j < r.len() implies (#[trigger] r[i]).0 != (#[trigger] r[j]).0 by {
        assert(s.contains(s[i]) && s.contains(s[j]));
        assert(all.contains(s[i]) && all.contains(s[j]));
        let a = choose|a: int| 0 <= a < all.len() && all[a] == s[i];
        let b = choose|b: int| 0 <= b < all.len() && all[b] == s[j];
        if s[i].0 == s[j].0 {
            if a != b {
                if a < b { assert(all[a].0 != all[b].0); } else { assert(all[b].0 != all[a].0); }
            }
            assert(all[a].1 == unsup_count(rs, all[a].0));
            assert(all[b].1 == unsup_count(rs, all[b].0));
            assert(s[i] != s[j]);
        }
    }
    assert forall|i: int, j: int| 0 <= i < j < r.len() implies !blocker_before(#[trigger] r[j], #[trigger] r[i]) by {
        assert(r[i] == s[i] && r[j] == s[j]);
    }
    assert forall|y: (Seq<char>, nat)| all.contains(y) && !r.contains(y) implies r.len() == 3 && !blocker_before(y, r[2]) by {
        assert(s.contains(y));
        let k = choose|k: int| 0 <= k < s.len() && s[k] == y;
        if s.len() <= 3 {
            assert(r[k] == y);
        } else {
            if k < 3 {
                assert(r[k] == y);
            }
            assert(!blocker_before(s[k], s[2]));
        }
    }
}

} // verus!
