//! Lexicographic order on character sequences, and the stable insertion sort
//! that orders lists by such keys.
use vstd::prelude::*;

verus! {

/// `a < b` in the order of `str`: code point by code point, a proper prefix first.
pub open spec fn lex_lt(a: Seq<char>, b: Seq<char>) -> bool
    decreases a.len(),
{
    if a.len() == 0 {
        b.len() > 0
    } else if b.len() == 0 {
        false
    } else if a[0] != b[0] {
        (a[0] as u32) < (b[0] as u32)
    } else {
        lex_lt(a.drop_first(), b.drop_first())
    }
}

/// `a < b` on buffers.
pub fn lex_lt_exec(a: &Vec<char>, b: &Vec<char>) -> (r: bool)
    ensures
        r == lex_lt(a@, b@),
{
    let mut i: usize = 0;
    assert(a@.skip(0) =~= a@);
    assert(b@.skip(0) =~= b@);
    loop
        invariant
            i <= a@.len(),
            i <= b@.len(),
            lex_lt(a@, b@) == lex_lt(a@.skip(i as int), b@.skip(i as int)),
        decreases a@.len() - i,
    {
        if i == a.len() {
            return i < b.len();
        }
        if i == b.len() {
            return false;
        }
        if a[i] != b[i] {
            return (a[i] as u32) < (b[i] as u32);
        }
        assert(a@.skip(i as int).drop_first() =~= a@.skip(i + 1));
        assert(b@.skip(i as int).drop_first() =~= b@.skip(i + 1));
        i += 1;
    }
}

/// Inserts `x` after every element whose key is not greater than `x`'s.
pub open spec fn ins_by<T>(s: Seq<T>, x: T, key: spec_fn(T) -> Seq<char>) -> Seq<T>
    decreases s.len(),
{
    if s.len() == 0 {
        seq![x]
    } else if lex_lt(key(x), key(s.last())) {
        ins_by(s.drop_last(), x, key).push(s.last())
    } else {
        s.push(x)
    }
}

/// The stable sort of `s` by `key` (equal keys keep their order).
pub open spec fn isort_by<T>(s: Seq<T>, key: spec_fn(T) -> Seq<char>) -> Seq<T>
    decreases s.len(),
{
    if s.len() == 0 {
        s
    } else {
        ins_by(isort_by(s.drop_last(), key), s.last(), key)
    }
}

pub proof fn lemma_ins_by_split<T>(s: Seq<T>, x: T, key: spec_fn(T) -> Seq<char>, p: int)
    requires
        0 < p <= s.len(),
        lex_lt(key(x), key(s[p - 1])),
    ensures
        ins_by(s.take(p), x, key) + s.skip(p) == ins_by(s.take(p - 1), x, key) + s.skip(p - 1),
{
    assert(s.take(p).drop_last() =~= s.take(p - 1));
    assert(s.take(p).last() == s[p - 1]);
    assert(ins_by(s.take(p), x, key) == ins_by(s.take(p - 1), x, key).push(s[p - 1]));
    assert(s.skip(p - 1) =~= seq![s[p - 1]] + s.skip(p));
    assert(ins_by(s.take(p - 1), x, key).push(s[p - 1]) + s.skip(p) =~= ins_by(
        s.take(p - 1),
        x,
        key,
    ) + (seq![s[p - 1]] + s.skip(p)));
}

pub open spec fn vec_key() -> spec_fn(Vec<char>) -> Seq<char> {
    |v: Vec<char>| v@
}

/// Sorts character buffers in `str` order, stably.
pub fn sort_char_vecs(input: Vec<Vec<char>>) -> (r: Vec<Vec<char>>)
    ensures
        r@ == isort_by(input@, vec_key()),
{
    let ghost orig = input@;
    let mut rest = input;
    let mut out: Vec<Vec<char>> = Vec::new();
    let mut k: usize = 0;
    let n = rest.len();
    assert(orig.take(0) =~= Seq::<Vec<char>>::empty());
    while k < n
        invariant
            n == orig.len(),
            k <= n,
            rest@ == orig.skip(k as int),
            out@ == isort_by(orig.take(k as int), vec_key()),
        decreases n - k,
    {
        let x = rest.remove(0);
        assert(x == orig[k as int]);
        assert(rest@ =~= orig.skip(k + 1));
        let mut p = out.len();
        assert(out@.take(p as int) =~= out@);
        assert(out@.skip(p as int) =~= Seq::<Vec<char>>::empty());
        while p > 0 && lex_lt_exec(&x, &out[p - 1])
            invariant
                p <= out@.len(),
                ins_by(out@, x, vec_key()) == ins_by(out@.take(p as int), x, vec_key()) + out@.skip(
                    p as int,
                ),
            decreases p,
        {
            proof {
                lemma_ins_by_split(out@, x, vec_key(), p as int);
            }
            p -= 1;
        }
        let ghost before = out@;
        proof {
            if p > 0 {
                assert(out@.take(p as int).last() == out@[p - 1]);
            }
            assert(ins_by(out@.take(p as int), x, vec_key()) == out@.take(p as int).push(x));
            assert(orig.take(k + 1).drop_last() =~= orig.take(k as int));
        }
        out.insert(p, x);
        assert(out@ =~= before.take(p as int).push(x) + before.skip(p as int));
        k += 1;
    }
    assert(orig.take(n as int) =~= orig);
    out
}

/// `s` without consecutive repeats (`Vec::dedup`).
pub open spec fn dedup_adj(s: Seq<Seq<char>>) -> Seq<Seq<char>>
    decreases s.len(),
{
    if s.len() <= 1 {
        s
    } else if s.last() == s[s.len() - 2] {
        dedup_adj(s.drop_last())
    } else {
        dedup_adj(s.drop_last()).push(s.last())
    }
}

pub proof fn lemma_dedup_adj_last(s: Seq<Seq<char>>)
    requires
        s.len() > 0,
    ensures
        dedup_adj(s).len() > 0,
        dedup_adj(s).last() == s.last(),
    decreases s.len(),
{
    if s.len() > 1 && s.last() == s[s.len() - 2] {
        lemma_dedup_adj_last(s.drop_last());
    }
}

/// `Vec::dedup` on character buffers.
pub fn dedup_char_vecs(input: &Vec<Vec<char>>) -> (r: Vec<Vec<char>>)
    ensures
        r@.map_values(|v: Vec<char>| v@) == dedup_adj(input@.map_values(|v: Vec<char>| v@)),
{
    let ghost vs = input@.map_values(|v: Vec<char>| v@);
    let mut out: Vec<Vec<char>> = Vec::new();
    let mut i: usize = 0;
    while i < input.len()
        invariant
            i <= input@.len(),
            vs == input@.map_values(|v: Vec<char>| v@),
            out@.map_values(|v: Vec<char>| v@) == dedup_adj(vs.take(i as int)),
        decreases input@.len() - i,
    {
        let ghost prev = out@.map_values(|v: Vec<char>| v@);
        assert(vs.take(i + 1).drop_last() =~= vs.take(i as int));
        assert(vs.take(i + 1).last() == input@[i as int]@);
        if i > 0 {
            proof {
                lemma_dedup_adj_last(vs.take(i as int));
            }
            assert(vs.take(i + 1)[i - 1] == vs.take(i as int).last());
            let same = crate::text::seq_eq(&input[i], &out[out.len() - 1]);
            if !same {
                out.push(slice_all(&input[i]));
                assert(out@.map_values(|v: Vec<char>| v@) =~= prev.push(input@[i as int]@));
            }
        } else {
            out.push(slice_all(&input[i]));
            assert(out@.map_values(|v: Vec<char>| v@) =~= seq![input@[0]@]);
            assert(vs.take(1) =~= seq![input@[0]@]);
        }
        i += 1;
    }
    assert(vs.take(input@.len() as int) =~= vs);
    out
}

fn slice_all(v: &Vec<char>) -> (r: Vec<char>)
    ensures
        r@ == v@,
{
    let r = crate::text::slice_of(v, 0, v.len());
    assert(r@ =~= v@);
    r
}


pub proof fn lemma_ins_by_map<T, U>(
    s: Seq<T>,
    x: T,
    k1: spec_fn(T) -> Seq<char>,
    k2: spec_fn(U) -> Seq<char>,
    f: spec_fn(T) -> U,
)
    requires
        forall|y: T| #[trigger] k1(y) == k2(f(y)),
    ensures
        ins_by(s, x, k1).map_values(f) == ins_by(s.map_values(f), f(x), k2),
    decreases s.len(),
{
    assert(k1(x) == k2(f(x)));
    if s.len() == 0 {
        assert(ins_by(s, x, k1).map_values(f) =~= seq![f(x)]);
    } else {
        let l = s.last();
        assert(k1(l) == k2(f(l)));
        assert(s.map_values(f).last() == f(l));
        assert(s.map_values(f).drop_last() =~= s.drop_last().map_values(f));
        if lex_lt(k1(x), k1(l)) {
            lemma_ins_by_map(s.drop_last(), x, k1, k2, f);
            assert(ins_by(s, x, k1).map_values(f) =~= ins_by(s.drop_last(), x, k1).map_values(
                f,
            ).push(f(l)));
        } else {
            assert(ins_by(s, x, k1).map_values(f) =~= s.map_values(f).push(f(x)));
        }
    }
}

pub proof fn lemma_isort_by_map<T, U>(
    s: Seq<T>,
    k1: spec_fn(T) -> Seq<char>,
    k2: spec_fn(U) -> Seq<char>,
    f: spec_fn(T) -> U,
)
    requires
        forall|y: T| #[trigger] k1(y) == k2(f(y)),
    ensures
        isort_by(s, k1).map_values(f) == isort_by(s.map_values(f), k2),
    decreases s.len(),
{
    if s.len() == 0 {
        assert(isort_by(s, k1).map_values(f) =~= isort_by(s.map_values(f), k2));
    } else {
        lemma_isort_by_map(s.drop_last(), k1, k2, f);
        lemma_ins_by_map(isort_by(s.drop_last(), k1), s.last(), k1, k2, f);
        assert(s.map_values(f).drop_last() =~= s.drop_last().map_values(f));
        assert(s.map_values(f).last() == f(s.last()));
    }
}

/// `s` is ordered by `key`: no element's key is below an earlier one's.
pub open spec fn sorted_by<T>(s: Seq<T>, key: spec_fn(T) -> Seq<char>) -> bool {
    forall|i: int, j: int| 0 <= i < j < s.len() ==> !lex_lt(#[trigger] key(s[j]), #[trigger] key(s[i]))
}

pub proof fn lemma_lex_trans(a: Seq<char>, b: Seq<char>, c: Seq<char>)
    requires
        lex_lt(a, b),
        lex_lt(b, c),
    ensures
        lex_lt(a, c),
    decreases a.len(),
{
    if a.len() > 0 && b.len() > 0 && c.len() > 0 && a[0] == b[0] && b[0] == c[0] {
        lemma_lex_trans(a.drop_first(), b.drop_first(), c.drop_first());
    }
}

pub proof fn lemma_lex_total(a: Seq<char>, b: Seq<char>)
    ensures
        a =~= b || lex_lt(a, b) || lex_lt(b, a),
    decreases a.len(),
{
    if a.len() > 0 && b.len() > 0 && a[0] == b[0] {
        lemma_lex_total(a.drop_first(), b.drop_first());
        if a.drop_first() =~= b.drop_first() {
            assert(a =~= seq![a[0]] + a.drop_first());
            assert(b =~= seq![b[0]] + b.drop_first());
        }
    } else if a.len() > 0 && b.len() > 0 {
        vstd::utf8::char_u32_cast(a[0], a[0] as u32);
        vstd::utf8::char_u32_cast(b[0], b[0] as u32);
        assert((a[0] as u32) != (b[0] as u32));
    }
}

/// "Not below" is transitive.
pub proof fn lemma_not_below_trans(a: Seq<char>, b: Seq<char>, c: Seq<char>)
    requires
        !lex_lt(b, a),
        !lex_lt(c, b),
    ensures
        !lex_lt(c, a),
{
    lemma_lex_total(a, b);
    if lex_lt(c, a) {
        if lex_lt(a, b) {
            lemma_lex_trans(c, a, b);
        } else {
            assert(a =~= b);
        }
    }
}

pub proof fn lemma_ins_by_elems<T>(s: Seq<T>, x: T, key: spec_fn(T) -> Seq<char>)
    ensures
        ins_by(s, x, key).len() == s.len() + 1,
        forall|i: int| 0 <= i < ins_by(s, x, key).len() ==> #[trigger] ins_by(s, x, key)[i] == x || s.contains(ins_by(s, x, key)[i]),
    decreases s.len(),
{
    if s.len() > 0 && lex_lt(key(x), key(s.last())) {
        lemma_ins_by_elems(s.drop_last(), x, key);
        let r = ins_by(s, x, key);
        let q = ins_by(s.drop_last(), x, key);
        assert forall|i: int| 0 <= i < r.len() implies #[trigger] r[i] == x || s.contains(r[i]) by {
            if i < q.len() {
                assert(r[i] == q[i]);
                if q[i] != x {
                    let j = choose|j: int| 0 <= j < s.drop_last().len() && s.drop_last()[j] == q[i];
                    assert(s[j] == q[i]);
                }
            } else {
                assert(r[i] == s[s.len() - 1]);
            }
        }
    } else if s.len() > 0 {
        let r = ins_by(s, x, key);
        assert forall|i: int| 0 <= i < r.len() implies #[trigger] r[i] == x || s.contains(r[i]) by {
            if i < s.len() {
                assert(r[i] == s[i]);
            }
        }
    }
}

proof fn lemma_ins_by_sorted<T>(s: Seq<T>, x: T, key: spec_fn(T) -> Seq<char>)
    requires
        sorted_by(s, key),
    ensures
        sorted_by(ins_by(s, x, key), key),
    decreases s.len(),
{
    if s.len() > 0 {
        let l = s.last();
        if lex_lt(key(x), key(l)) {
            let d = s.drop_last();
            assert(sorted_by(d, key)) by {
                assert forall|i: int, j: int| 0 <= i < j < d.len() implies !lex_lt(#[trigger] key(d[j]), #[trigger] key(d[i])) by {
                    assert(d[i] == s[i] && d[j] == s[j]);
                }
            }
            lemma_ins_by_sorted(d, x, key);
            lemma_ins_by_elems(d, x, key);
            let q = ins_by(d, x, key);
            let r = ins_by(s, x, key);
            assert(r == q.push(l));
            assert forall|i: int, j: int| 0 <= i < j < r.len() implies !lex_lt(#[trigger] key(r[j]), #[trigger] key(r[i])) by {
                if j < q.len() {
                    assert(r[i] == q[i] && r[j] == q[j]);
                } else {
                    assert(r[j] == l);
                    assert(r[i] == q[i]);
                    if q[i] == x {
                        lemma_lex_total(key(x), key(l));
                        if lex_lt(key(l), key(x)) {
                            lemma_lex_trans(key(l), key(x), key(l));
                            lemma_lex_irrefl(key(l));
                        }
                    } else {
                        let m = choose|m: int| 0 <= m < d.len() && d[m] == q[i];
                        assert(s[m] == q[i]);
                        assert(!lex_lt(key(s[s.len() - 1]), key(s[m])));
                    }
                }
            }
        } else {
            let r = ins_by(s, x, key);
            assert(r == s.push(x));
            assert forall|i: int, j: int| 0 <= i < j < r.len() implies !lex_lt(#[trigger] key(r[j]), #[trigger] key(r[i])) by {
                assert(r[i] == s[i]);
                if j < s.len() {
                    assert(r[j] == s[j]);
                } else {
                    assert(r[j] == x);
                    if i < s.len() - 1 {
                        assert(!lex_lt(key(s[s.len() - 1]), key(s[i])));
                        lemma_not_below_trans(key(s[i]), key(l), key(x));
                    }
                }
            }
        }
    }
}

pub proof fn lemma_lex_irrefl(a: Seq<char>)
    ensures
        !lex_lt(a, a),
    decreases a.len(),
{
    if a.len() > 0 {
        lemma_lex_irrefl(a.drop_first());
    }
}

/// The insertion sort orders its result by the key.
pub proof fn isort_by_sorts<T>(s: Seq<T>, key: spec_fn(T) -> Seq<char>)
    ensures
        sorted_by(isort_by(s, key), key),
    decreases s.len(),
{
    if s.len() > 0 {
        isort_by_sorts(s.drop_last(), key);
        lemma_ins_by_sorted(isort_by(s.drop_last(), key), s.last(), key);
    }
}

proof fn lemma_ins_by_has<T>(s: Seq<T>, x: T, key: spec_fn(T) -> Seq<char>)
    ensures
        ins_by(s, x, key).contains(x),
        forall|i: int| 0 <= i < s.len() ==> ins_by(s, x, key).contains(#[trigger] s[i]),
    decreases s.len(),
{
    let r = ins_by(s, x, key);
    if s.len() == 0 {
        assert(r[0] == x);
    } else if lex_lt(key(x), key(s.last())) {
        let d = s.drop_last();
        lemma_ins_by_has(d, x, key);
        let q = ins_by(d, x, key);
        assert(r == q.push(s.last()));
        let k = choose|k: int| 0 <= k < q.len() && q[k] == x;
        assert(r[k] == x);
        assert forall|i: int| 0 <= i < s.len() implies r.contains(#[trigger] s[i]) by {
            if i == s.len() - 1 {
                assert(r[q.len() as int] == s[i]);
            } else {
                assert(d[i] == s[i]);
                let m = choose|m: int| 0 <= m < q.len() && q[m] == d[i];
                assert(r[m] == s[i]);
            }
        }
    } else {
        assert(r == s.push(x));
        assert(r[s.len() as int] == x);
        assert forall|i: int| 0 <= i < s.len() implies r.contains(#[trigger] s[i]) by {
            assert(r[i] == s[i]);
        }
    }
}

proof fn lemma_ins_by_distinct<T>(s: Seq<T>, x: T, key: spec_fn(T) -> Seq<char>)
    requires
        s.no_duplicates(),
        !s.contains(x),
    ensures
        ins_by(s, x, key).no_duplicates(),
    decreases s.len(),
{
    let r = ins_by(s, x, key);
    if s.len() == 0 {
    } else if lex_lt(key(x), key(s.last())) {
        let d = s.drop_last();
        assert forall|i: int, j: int| 0 <= i < d.len() && 0 <= j < d.len() && i != j implies d[i] != d[j] by {
            assert(d[i] == s[i] && d[j] == s[j]);
        }
        assert(!d.contains(x)) by {
            if d.contains(x) {
                let k = choose|k: int| 0 <= k < d.len() && d[k] == x;
                assert(s[k] == x);
            }
        }
        lemma_ins_by_distinct(d, x, key);
        lemma_ins_by_elems(d, x, key);
        let q = ins_by(d, x, key);
        assert(r == q.push(s.last()));
        assert forall|i: int, j: int| 0 <= i < r.len() && 0 <= j < r.len() && i != j implies r[i] != r[j] by {
            if i < q.len() && j < q.len() {
                assert(r[i] == q[i] && r[j] == q[j]);
            } else {
                let k = if i < q.len() { i } else { j };
                assert(r[k] == q[k]);
                assert(q[k] == x || d.contains(q[k]));
                assert(s[s.len() - 1] == s.last());
                if d.contains(q[k]) {
                    let m = choose|m: int| 0 <= m < d.len() && d[m] == q[k];
                    assert(s[m] == d[m]);
                }
            }
        }
    } else {
        assert forall|i: int, j: int| 0 <= i < r.len() && 0 <= j < r.len() && i != j implies r[i] != r[j] by {
            if i < s.len() && j < s.len() {
            } else if i < s.len() {
                assert(r[i] == s[i]);
            } else {
                assert(r[j] == s[j]);
            }
        }
    }
}

/// Sorting keeps a sequence free of repeats.
pub proof fn isort_by_keeps_distinct<T>(s: Seq<T>, key: spec_fn(T) -> Seq<char>)
    requires
        s.no_duplicates(),
    ensures
        isort_by(s, key).no_duplicates(),
    decreases s.len(),
{
    if s.len() > 0 {
        let d = s.drop_last();
        assert forall|i: int, j: int| 0 <= i < d.len() && 0 <= j < d.len() && i != j implies d[i] != d[j] by {
            assert(d[i] == s[i] && d[j] == s[j]);
        }
        isort_by_keeps_distinct(d, key);
        isort_by_same_elements(d, key);
        assert(!d.contains(s.last())) by {
            if d.contains(s.last()) {
                let k = choose|k: int| 0 <= k < d.len() && d[k] == s.last();
                assert(s[k] == s[s.len() - 1]);
            }
        }
        lemma_ins_by_distinct(isort_by(d, key), s.last(), key);
    }
}

/// The insertion sort keeps the elements: the same length, and an element is in the
/// result exactly when it is in the input.
pub proof fn isort_by_same_elements<T>(s: Seq<T>, key: spec_fn(T) -> Seq<char>)
    ensures
        isort_by(s, key).len() == s.len(),
        forall|y: T| isort_by(s, key).contains(y) <==> s.contains(y),
    decreases s.len(),
{
    if s.len() > 0 {
        let d = s.drop_last();
        isort_by_same_elements(d, key);
        let q = isort_by(d, key);
        let r = isort_by(s, key);
        lemma_ins_by_elems(q, s.last(), key);
        lemma_ins_by_has(q, s.last(), key);
        assert forall|y: T| r.contains(y) <==> s.contains(y) by {
            if r.contains(y) {
                let k = choose|k: int| 0 <= k < r.len() && r[k] == y;
                if r[k] != s.last() {
                    assert(q.contains(y));
                    assert(q.contains(y) == d.contains(y));
                    let m = choose|m: int| 0 <= m < d.len() && d[m] == y;
                    assert(s[m] == y);
                } else {
                    assert(s[s.len() - 1] == y);
                }
            }
            if s.contains(y) {
                let k = choose|k: int| 0 <= k < s.len() && s[k] == y;
                if k == s.len() - 1 {
                    assert(r.contains(s.last()));
                } else {
                    assert(d[k] == y);
                    assert(d.contains(y));
                    assert(q.contains(y) == d.contains(y));
                    let m = choose|m: int| 0 <= m < q.len() && q[m] == y;
                    assert(r.contains(q[m]));
                }
            }
        }
    }
}

} // verus!
