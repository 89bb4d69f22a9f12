//! Text primitives over character sequences, with their mathematical models.
//!
//! Every operation is specified over `Seq<char>`; the executable versions work
//! on `Vec<char>` buffers and build `String` results.
use vstd::prelude::*;

verus! {

// ───────────────────────────── models ─────────────────────────────

/// `char::is_whitespace`: the Unicode `White_Space` property.
pub open spec fn is_ws(c: char) -> bool {
    let u = c as u32;
    ||| u == 0x20
    ||| (0x09 <= u && u <= 0x0D)
    ||| u == 0x85
    ||| u == 0xA0
    ||| u == 0x1680
    ||| (0x2000 <= u && u <= 0x200A)
    ||| u == 0x2028
    ||| u == 0x2029
    ||| u == 0x202F
    ||| u == 0x205F
    ||| u == 0x3000
}

/// `s` without its leading whitespace.
pub open spec fn trim_start(s: Seq<char>) -> Seq<char>
    decreases s.len(),
{
    if s.len() > 0 && is_ws(s[0]) {
        trim_start(s.drop_first())
    } else {
        s
    }
}

/// `s` without its trailing whitespace.
pub open spec fn trim_end(s: Seq<char>) -> Seq<char>
    decreases s.len(),
{
    if s.len() > 0 && is_ws(s.last()) {
        trim_end(s.drop_last())
    } else {
        s
    }
}

/// `s` without leading and trailing whitespace.
pub open spec fn trim(s: Seq<char>) -> Seq<char> {
    trim_end(trim_start(s))
}

/// `s` without any leading occurrence of `c`.
pub open spec fn trim_start_char(s: Seq<char>, c: char) -> Seq<char>
    decreases s.len(),
{
    if s.len() > 0 && s[0] == c {
        trim_start_char(s.drop_first(), c)
    } else {
        s
    }
}

/// `s` without any trailing occurrence of `c`.
pub open spec fn trim_end_char(s: Seq<char>, c: char) -> Seq<char>
    decreases s.len(),
{
    if s.len() > 0 && s.last() == c {
        trim_end_char(s.drop_last(), c)
    } else {
        s
    }
}

/// `str::trim_matches` with a single character.
pub open spec fn trim_char(s: Seq<char>, c: char) -> Seq<char> {
    trim_end_char(trim_start_char(s, c), c)
}

pub open spec fn starts_with(s: Seq<char>, p: Seq<char>) -> bool {
    p.len() <= s.len() && s.subrange(0, p.len() as int) == p
}

pub open spec fn ends_with(s: Seq<char>, p: Seq<char>) -> bool {
    p.len() <= s.len() && s.subrange(s.len() - p.len(), s.len() as int) == p
}

/// `p` occurs in `s` at index `i`.
pub open spec fn matches_at(s: Seq<char>, p: Seq<char>, i: int) -> bool {
    0 <= i && i + p.len() <= s.len() && s.subrange(i, i + p.len()) == p
}

/// The first index `>= i` at which `p` occurs in `s`.
pub open spec fn find_from(s: Seq<char>, p: Seq<char>, i: int) -> Option<int>
    decreases s.len() + 1 - i,
{
    if i < 0 || i + p.len() > s.len() {
        None
    } else if matches_at(s, p, i) {
        Some(i)
    } else {
        find_from(s, p, i + 1)
    }
}

/// `str::find`: the first index at which `p` occurs in `s`.
pub open spec fn find(s: Seq<char>, p: Seq<char>) -> Option<int> {
    find_from(s, p, 0)
}

pub open spec fn contains(s: Seq<char>, p: Seq<char>) -> bool {
    find(s, p) is Some
}

/// The last index `< i` at which `p` occurs in `s` (searching down from `i - 1`).
pub open spec fn rfind_below(s: Seq<char>, p: Seq<char>, i: int) -> Option<int>
    decreases i,
{
    if i <= 0 {
        None
    } else if matches_at(s, p, i - 1) {
        Some(i - 1)
    } else {
        rfind_below(s, p, i - 1)
    }
}

/// `str::rfind`: the last index at which `p` occurs in `s`.
pub open spec fn rfind(s: Seq<char>, p: Seq<char>) -> Option<int> {
    rfind_below(s, p, s.len() + 1int)
}

/// Number of occurrences of the character `c` in `s`.
pub open spec fn count_char(s: Seq<char>, c: char) -> nat
    decreases s.len(),
{
    if s.len() == 0 {
        0
    } else {
        count_char(s.drop_last(), c) + if s.last() == c { 1nat } else { 0nat }
    }
}

/// A line as `str::lines` yields it: a trailing `'\r'` is removed.
pub open spec fn strip_cr(l: Seq<char>) -> Seq<char> {
    if l.len() > 0 && l.last() == '\r' {
        l.drop_last()
    } else {
        l
    }
}

/// `str::lines`: split at `'\n'`; the final line ending is optional.
pub open spec fn lines(s: Seq<char>) -> Seq<Seq<char>>
    decreases s.len(),
{
    if s.len() == 0 {
        seq![]
    } else {
        match find(s, seq!['\n']) {
            Some(i) => {
                proof {
                    lemma_find_from_bounds(s, seq!['\n'], 0);
                }
                seq![strip_cr(s.take(i))] + lines(s.skip(i + 1))
            },
            None => seq![s],
        }
    }
}

/// `str::replace`: every non-overlapping occurrence of `from`, left to right, becomes `to`.
pub open spec fn replace(s: Seq<char>, from: Seq<char>, to: Seq<char>) -> Seq<char>
    decreases s.len(),
{
    if from.len() == 0 {
        s
    } else {
        match find(s, from) {
            Some(i) => {
                proof {
                    lemma_find_from_bounds(s, from, 0);
                }
                s.take(i) + to + replace(s.skip(i + from.len()), from, to)
            },
            None => s,
        }
    }
}

/// `str::replacen(.., 1)`: the first occurrence of `from` becomes `to`.
pub open spec fn replace_first(s: Seq<char>, from: Seq<char>, to: Seq<char>) -> Seq<char> {
    match find(s, from) {
        Some(i) => s.take(i) + to + s.skip(i + from.len()),
        None => s,
    }
}

/// Every occurrence of the character `c` becomes `to`.
pub open spec fn replace_char(s: Seq<char>, c: char, to: Seq<char>) -> Seq<char>
    decreases s.len(),
{
    if s.len() == 0 {
        s
    } else {
        replace_char(s.drop_last(), c, to) + if s.last() == c { to } else { seq![s.last()] }
    }
}

// ───────────────────────────── lemmas ─────────────────────────────

pub proof fn lemma_find_from_bounds(s: Seq<char>, p: Seq<char>, i: int)
    requires
        0 <= i,
    ensures
        find_from(s, p, i) matches Some(k) ==> i <= k && matches_at(s, p, k),
        find_from(s, p, i) matches Some(k) ==> forall|j: int| i <= j < k ==> !matches_at(s, p, j),
        find_from(s, p, i) is None ==> forall|j: int| i <= j ==> !matches_at(s, p, j),
    decreases s.len() + 1 - i,
{
    if i + p.len() > s.len() {
    } else if matches_at(s, p, i) {
    } else {
        lemma_find_from_bounds(s, p, i + 1);
    }
}

// ───────────────────────────── executable ─────────────────────────────

/// The characters of `s`, in order.
pub fn chars_of(s: &str) -> (v: Vec<char>)
    ensures
        v@ == s@,
{
    let mut v: Vec<char> = Vec::new();
    for c in it: s.chars()
        invariant
            v@ == it.seq().take(it.index() as int),
    {
        v.push(c);
    }
    v
}

/// Appends one character to a string (`String::push`).
#[verifier::external_body]
pub(crate) fn push_char(s: &mut String, c: char)
    ensures
        final(s)@ == old(s)@.push(c),
{
    s.push(c);
}

/// Appends the characters `v[lo..hi]` to `s`.
pub fn push_range(s: &mut String, v: &Vec<char>, lo: usize, hi: usize)
    requires
        lo <= hi <= v@.len(),
    ensures
        final(s)@ == old(s)@ + v@.subrange(lo as int, hi as int),
{
    let mut i = lo;
    while i < hi
        invariant
            lo <= i <= hi <= v@.len(),
            s@ == old(s)@ + v@.subrange(lo as int, i as int),
        decreases hi - i,
    {
        push_char(s, v[i]);
        assert(v@.subrange(lo as int, i + 1) == v@.subrange(lo as int, i as int).push(v@[i as int]));
        i += 1;
    }
}

/// Appends all of `v` to `s`.
pub fn push_vec(s: &mut String, v: &Vec<char>)
    ensures
        final(s)@ == old(s)@ + v@,
{
    push_range(s, v, 0, v.len());
    assert(v@.subrange(0, v@.len() as int) == v@);
}

/// Appends `t` to `s`.
pub fn push_str(s: &mut String, t: &str)
    ensures
        final(s)@ == old(s)@ + t@,
{
    s.append(t);
}

/// A string holding the characters of `v`.
pub fn string_of(v: &Vec<char>) -> (s: String)
    ensures
        s@ == v@,
{
    let mut s = String::new();
    push_vec(&mut s, v);
    s
}

/// A string holding the characters `v[lo..hi]`.
pub fn string_of_range(v: &Vec<char>, lo: usize, hi: usize) -> (s: String)
    requires
        lo <= hi <= v@.len(),
    ensures
        s@ == v@.subrange(lo as int, hi as int),
{
    let mut s = String::new();
    push_range(&mut s, v, lo, hi);
    s
}

/// The characters `v[lo..hi]`.
pub fn slice_of(v: &Vec<char>, lo: usize, hi: usize) -> (r: Vec<char>)
    requires
        lo <= hi <= v@.len(),
    ensures
        r@ == v@.subrange(lo as int, hi as int),
{
    let mut r: Vec<char> = Vec::new();
    let mut i = lo;
    while i < hi
        invariant
            lo <= i <= hi <= v@.len(),
            r@ == v@.subrange(lo as int, i as int),
        decreases hi - i,
    {
        r.push(v[i]);
        assert(v@.subrange(lo as int, i + 1) == v@.subrange(lo as int, i as int).push(v@[i as int]));
        i += 1;
    }
    r
}

/// Whether `p` occurs in `s` at index `i`.
pub fn matches_at_exec(s: &Vec<char>, p: &Vec<char>, i: usize) -> (r: bool)
    ensures
        r == matches_at(s@, p@, i as int),
{
    if i > s.len() || p.len() > s.len() - i {
        return false;
    }
    let n = s.len();
    let mut j: usize = 0;
    while j < p.len()
        invariant
            n == s@.len(),
            i + p@.len() <= n,
            j <= p@.len(),
            forall|k: int| 0 <= k < j ==> s@[i + k] == p@[k],
        decreases p@.len() - j,
    {
        if s[i + j] != p[j] {
            assert(s@.subrange(i as int, i + p@.len())[j as int] != p@[j as int]);
            return false;
        }
        j += 1;
    }
    assert(s@.subrange(i as int, i + p@.len()) =~= p@);
    true
}

/// Whether `s` and `t` hold the same characters.
pub fn seq_eq(s: &Vec<char>, t: &Vec<char>) -> (r: bool)
    ensures
        r == (s@ == t@),
{
    if s.len() != t.len() {
        return false;
    }
    let r = matches_at_exec(s, t, 0);
    proof {
        if r {
            assert(s@.subrange(0, s@.len() as int) =~= s@);
        } else {
            assert(s@.subrange(0, t@.len() as int) =~= s@);
        }
    }
    r
}

/// Whether `s` holds exactly the characters of `t`.
pub fn eq_str(s: &Vec<char>, t: &str) -> (r: bool)
    ensures
        r == (s@ == t@),
{
    let tv = chars_of(t);
    seq_eq(s, &tv)
}

/// Whether `s` starts with `p`.
pub fn starts_with_exec(s: &Vec<char>, p: &str) -> (r: bool)
    ensures
        r == starts_with(s@, p@),
{
    let pv = chars_of(p);
    matches_at_exec(s, &pv, 0)
}

/// Whether `s` ends with `p`.
pub fn ends_with_exec(s: &Vec<char>, p: &str) -> (r: bool)
    ensures
        r == ends_with(s@, p@),
{
    let pv = chars_of(p);
    if pv.len() > s.len() {
        return false;
    }
    matches_at_exec(s, &pv, s.len() - pv.len())
}

/// `find_from` on buffers.
pub fn find_from_exec(s: &Vec<char>, p: &Vec<char>, from: usize) -> (r: Option<usize>)
    ensures
        r matches Some(k) ==> find_from(s@, p@, from as int) == Some(k as int),
        r is None ==> find_from(s@, p@, from as int) is None,
{
    let mut i = from;
    while i <= s.len() && p.len() <= s.len() - i
        invariant
            from <= i,
            find_from(s@, p@, from as int) == find_from(s@, p@, i as int),
        decreases s@.len() + 1 - i,
    {
        if matches_at_exec(s, p, i) {
            return Some(i);
        }
        if i == s.len() {
            assert(find_from(s@, p@, i + 1) is None);
            return None;
        }
        i += 1;
    }
    None
}

/// `find` on buffers.
pub fn find_exec(s: &Vec<char>, p: &Vec<char>) -> (r: Option<usize>)
    ensures
        r matches Some(k) ==> find(s@, p@) == Some(k as int),
        r is None ==> find(s@, p@) is None,
{
    find_from_exec(s, p, 0)
}

/// `find` with a literal pattern.
pub fn find_str(s: &Vec<char>, p: &str) -> (r: Option<usize>)
    ensures
        r matches Some(k) ==> find(s@, p@) == Some(k as int),
        r is None ==> find(s@, p@) is None,
{
    let pv = chars_of(p);
    find_from_exec(s, &pv, 0)
}

/// Whether `p` occurs in `s`.
pub fn contains_str(s: &Vec<char>, p: &str) -> (r: bool)
    ensures
        r == contains(s@, p@),
{
    find_str(s, p).is_some()
}

/// Whether `p` occurs in `s`.
pub fn contains_vec(s: &Vec<char>, p: &Vec<char>) -> (r: bool)
    ensures
        r == contains(s@, p@),
{
    find_exec(s, p).is_some()
}


// ───────────────────────────── trimming ─────────────────────────────

/// `char::is_whitespace`.
pub fn is_ws_exec(c: char) -> (r: bool)
    ensures
        r == is_ws(c),
{
    let u = c as u32;
    u == 0x20 || (0x09 <= u && u <= 0x0D) || u == 0x85 || u == 0xA0 || u == 0x1680 || (0x2000
        <= u && u <= 0x200A) || u == 0x2028 || u == 0x2029 || u == 0x202F || u == 0x205F || u
        == 0x3000
}

/// `str::trim_start`.
pub fn trim_start_v(v: &Vec<char>) -> (r: Vec<char>)
    ensures
        r@ == trim_start(v@),
{
    let n = v.len();
    let mut i: usize = 0;
    assert(v@.skip(0) =~= v@);
    while i < n && is_ws_exec(v[i])
        invariant
            n == v@.len(),
            i <= n,
            trim_start(v@) == trim_start(v@.skip(i as int)),
        decreases n - i,
    {
        assert(v@.skip(i as int).drop_first() =~= v@.skip(i + 1));
        i += 1;
    }
    assert(v@.skip(i as int) =~= v@.subrange(i as int, n as int));
    slice_of(v, i, n)
}

/// `str::trim_end`.
pub fn trim_end_v(v: &Vec<char>) -> (r: Vec<char>)
    ensures
        r@ == trim_end(v@),
{
    let mut j: usize = v.len();
    assert(v@.take(j as int) =~= v@);
    while j > 0 && is_ws_exec(v[j - 1])
        invariant
            j <= v@.len(),
            trim_end(v@) == trim_end(v@.take(j as int)),
        decreases j,
    {
        assert(v@.take(j as int).drop_last() =~= v@.take(j - 1));
        j -= 1;
    }
    assert(v@.take(j as int) =~= v@.subrange(0, j as int));
    slice_of(v, 0, j)
}

/// `str::trim`.
pub fn trim_v(v: &Vec<char>) -> (r: Vec<char>)
    ensures
        r@ == trim(v@),
{
    let a = trim_start_v(v);
    trim_end_v(&a)
}

/// `str::trim_matches(c)`.
pub fn trim_char_v(v: &Vec<char>, c: char) -> (r: Vec<char>)
    ensures
        r@ == trim_char(v@, c),
{
    let n = v.len();
    let mut i: usize = 0;
    assert(v@.skip(0) =~= v@);
    while i < n && v[i] == c
        invariant
            n == v@.len(),
            i <= n,
            trim_start_char(v@, c) == trim_start_char(v@.skip(i as int), c),
        decreases n - i,
    {
        assert(v@.skip(i as int).drop_first() =~= v@.skip(i + 1));
        i += 1;
    }
    assert(v@.skip(i as int) =~= v@.subrange(i as int, n as int));
    let a = slice_of(v, i, n);
    let mut j: usize = a.len();
    assert(a@.take(j as int) =~= a@);
    while j > 0 && a[j - 1] == c
        invariant
            j <= a@.len(),
            trim_end_char(a@, c) == trim_end_char(a@.take(j as int), c),
        decreases j,
    {
        assert(a@.take(j as int).drop_last() =~= a@.take(j - 1));
        j -= 1;
    }
    assert(a@.take(j as int) =~= a@.subrange(0, j as int));
    slice_of(&a, 0, j)
}

/// `str::trim_end_matches(c)`.
pub fn trim_end_char_v(v: &Vec<char>, c: char) -> (r: Vec<char>)
    ensures
        r@ == trim_end_char(v@, c),
{
    let mut j: usize = v.len();
    assert(v@.take(j as int) =~= v@);
    while j > 0 && v[j - 1] == c
        invariant
            j <= v@.len(),
            trim_end_char(v@, c) == trim_end_char(v@.take(j as int), c),
        decreases j,
    {
        assert(v@.take(j as int).drop_last() =~= v@.take(j - 1));
        j -= 1;
    }
    assert(v@.take(j as int) =~= v@.subrange(0, j as int));
    slice_of(v, 0, j)
}

// ───────────────────────────── lines ─────────────────────────────

/// An optional buffer, as characters.
pub open spec fn opt_vec_view(o: Option<Vec<char>>) -> Option<Seq<char>> {
    match o {
        Some(v) => Some(v@),
        None => None,
    }
}

/// The character views of a sequence of buffers.
pub open spec fn views(ls: Seq<Vec<char>>) -> Seq<Seq<char>> {
    ls.map_values(|l: Vec<char>| l@)
}

/// The first index `>= st` holding `c`, as an offset into `v[st..]`.
pub fn find_char_from(v: &Vec<char>, c: char, st: usize) -> (r: Option<usize>)
    requires
        st <= v@.len(),
    ensures
        r matches Some(k) ==> st <= k < v@.len() && find(v@.skip(st as int), seq![c]) == Some(
            k - st,
        ),
        r is None ==> find(v@.skip(st as int), seq![c]) is None,
{
    let n = v.len();
    let ghost s = v@.skip(st as int);
    let mut i = st;
    while i < n
        invariant
            n == v@.len(),
            st <= i <= n,
            s == v@.skip(st as int),
            find(s, seq![c]) == find_from(s, seq![c], i - st),
        decreases n - i,
    {
        if v[i] == c {
            assert(s.subrange(i - st, i - st + 1) =~= seq![c]);
            return Some(i);
        }
        assert(!(s.subrange(i - st, i - st + 1) =~= seq![c]) ==> !matches_at(s, seq![c], i - st));
        assert(s.subrange(i - st, i - st + 1)[0] == v@[i as int]);
        i += 1;
    }
    None
}

/// `str::lines`.
pub fn lines_v(v: &Vec<char>) -> (ls: Vec<Vec<char>>)
    ensures
        views(ls@) == lines(v@),
{
    let n = v.len();
    let mut ls: Vec<Vec<char>> = Vec::new();
    let mut st: usize = 0;
    assert(v@.skip(0) =~= v@);
    while st < n
        invariant
            n == v@.len(),
            st <= n,
            lines(v@) == views(ls@) + lines(v@.skip(st as int)),
        decreases n - st,
    {
        let ghost s = v@.skip(st as int);
        match find_char_from(v, '\n', st) {
            Some(k) => {
                let mut line = slice_of(v, st, k);
                if line.len() > 0 && line[line.len() - 1] == '\r' {
                    line = slice_of(v, st, k - 1);
                    assert(line@ =~= strip_cr(s.take(k - st)));
                } else {
                    assert(line@ =~= strip_cr(s.take(k - st)));
                }
                assert(s.skip(k - st + 1) =~= v@.skip(k + 1));
                assert(lines(s) == seq![strip_cr(s.take(k - st))] + lines(s.skip(k - st + 1)));
                let ghost prev = ls@;
                ls.push(line);
                assert(views(ls@) =~= views(prev).push(line@));
                st = k + 1;
            },
            None => {
                let line = slice_of(v, st, n);
                assert(line@ =~= s);
                let ghost prev = ls@;
                ls.push(line);
                assert(views(ls@) =~= views(prev).push(line@));
                st = n;
                assert(v@.skip(n as int) =~= Seq::<char>::empty());
            },
        }
    }
    assert(v@.skip(st as int) =~= Seq::<char>::empty());
    ls
}


// ───────────────────────────── replacing ─────────────────────────────

/// `str::replace` on buffers.
pub fn replace_v(s: &Vec<char>, from: &Vec<char>, to: &Vec<char>) -> (r: Vec<char>)
    requires
        from@.len() > 0,
    ensures
        r@ == replace(s@, from@, to@),
{
    let n = s.len();
    let mut out: Vec<char> = Vec::new();
    let mut st: usize = 0;
    assert(s@.skip(0) =~= s@);
    loop
        invariant
            n == s@.len(),
            st <= n,
            from@.len() > 0,
            replace(s@, from@, to@) == out@ + replace(s@.skip(st as int), from@, to@),
        decreases n - st,
    {
        let rest = slice_of(s, st, n);
        assert(rest@ =~= s@.skip(st as int));
        match find_exec(&rest, from) {
            Some(k) => {
                proof {
                    lemma_find_from_bounds(rest@, from@, 0);
                }
                let ghost prev = out@;
                let mut j: usize = 0;
                while j < k
                    invariant
                        j <= k,
                        k <= rest@.len(),
                        out@ == prev + rest@.take(j as int),
                    decreases k - j,
                {
                    out.push(rest[j]);
                    assert(rest@.take(j + 1) =~= rest@.take(j as int).push(rest@[j as int]));
                    j += 1;
                }
                let mut t: usize = 0;
                while t < to.len()
                    invariant
                        t <= to@.len(),
                        out@ == prev + rest@.take(k as int) + to@.take(t as int),
                    decreases to@.len() - t,
                {
                    out.push(to[t]);
                    assert(to@.take(t + 1) =~= to@.take(t as int).push(to@[t as int]));
                    t += 1;
                }
                assert(to@.take(to@.len() as int) =~= to@);
                assert(rest@.skip(k + from@.len()) =~= s@.skip(st + k + from@.len()));
                st = st + k + from.len();
            },
            None => {
                let ghost prev = out@;
                let mut j: usize = 0;
                while j < rest.len()
                    invariant
                        j <= rest@.len(),
                        out@ == prev + rest@.take(j as int),
                    decreases rest@.len() - j,
                {
                    out.push(rest[j]);
                    assert(rest@.take(j + 1) =~= rest@.take(j as int).push(rest@[j as int]));
                    j += 1;
                }
                assert(rest@.take(rest@.len() as int) =~= rest@);
                return out;
            },
        }
    }
}

/// `str::replace` with literal patterns.
pub fn replace_str(s: &Vec<char>, from: &str, to: &str) -> (r: Vec<char>)
    requires
        from@.len() > 0,
    ensures
        r@ == replace(s@, from@, to@),
{
    let f = chars_of(from);
    let t = chars_of(to);
    replace_v(s, &f, &t)
}

/// `str::replacen(.., 1)` on buffers.
pub fn replace_first_v(s: &Vec<char>, from: &Vec<char>, to: &Vec<char>) -> (r: Vec<char>)
    ensures
        r@ == replace_first(s@, from@, to@),
{
    match find_exec(s, from) {
        Some(k) => {
            proof {
                lemma_find_from_bounds(s@, from@, 0);
            }
            let mut out = slice_of(s, 0, k);
            let ghost a = out@;
            let mut t: usize = 0;
            while t < to.len()
                invariant
                    t <= to@.len(),
                    out@ == a + to@.take(t as int),
                decreases to@.len() - t,
            {
                out.push(to[t]);
                assert(to@.take(t + 1) =~= to@.take(t as int).push(to@[t as int]));
                t += 1;
            }
            assert(to@.take(to@.len() as int) =~= to@);
            let ghost b = out@;
            let n = s.len();
            assert(k + from@.len() <= n);
            let mut j = k + from.len();
            while j < s.len()
                invariant
                    k + from@.len() <= j <= s@.len(),
                    out@ == b + s@.subrange(k + from@.len(), j as int),
                decreases s@.len() - j,
            {
                out.push(s[j]);
                assert(s@.subrange(k + from@.len(), j + 1) =~= s@.subrange(
                    k + from@.len(),
                    j as int,
                ).push(s@[j as int]));
                j += 1;
            }
            assert(s@.subrange(k + from@.len(), s@.len() as int) =~= s@.skip(k + from@.len()));
            assert(s@.take(k as int) =~= s@.subrange(0, k as int));
            out
        },
        None => {
            let r = slice_of(s, 0, s.len());
            assert(r@ =~= s@);
            r
        },
    }
}


/// Every occurrence of `c` in `s` replaced by `to`.
pub fn replace_char_v(s: &Vec<char>, c: char, to: &str) -> (r: Vec<char>)
    ensures
        r@ == replace_char(s@, c, to@),
{
    let tv = chars_of(to);
    let mut out: Vec<char> = Vec::new();
    let mut i: usize = 0;
    while i < s.len()
        invariant
            i <= s@.len(),
            tv@ == to@,
            out@ == replace_char(s@.take(i as int), c, to@),
        decreases s@.len() - i,
    {
        let ghost prev = out@;
        assert(s@.take(i + 1).drop_last() =~= s@.take(i as int));
        if s[i] == c {
            let mut t: usize = 0;
            while t < tv.len()
                invariant
                    t <= tv@.len(),
                    out@ == prev + tv@.take(t as int),
                decreases tv@.len() - t,
            {
                out.push(tv[t]);
                assert(tv@.take(t + 1) =~= tv@.take(t as int).push(tv@[t as int]));
                t += 1;
            }
            assert(tv@.take(tv@.len() as int) =~= tv@);
        } else {
            out.push(s[i]);
            assert(out@ =~= prev + seq![s@[i as int]]);
        }
        i += 1;
    }
    assert(s@.take(s@.len() as int) =~= s@);
    out
}

/// Number of occurrences of `c` in `s`.
pub fn count_char_v(s: &Vec<char>, c: char) -> (r: usize)
    ensures
        r == count_char(s@, c),
{
    let mut n: usize = 0;
    let mut i: usize = 0;
    while i < s.len()
        invariant
            i <= s@.len(),
            n == count_char(s@.take(i as int), c),
            n <= i,
        decreases s@.len() - i,
    {
        assert(s@.take(i + 1).drop_last() =~= s@.take(i as int));
        if s[i] == c {
            n += 1;
        }
        i += 1;
    }
    assert(s@.take(s@.len() as int) =~= s@);
    n
}

/// Whether the character `c` occurs in `s`.
pub fn has_char(s: &Vec<char>, c: char) -> (r: bool)
    ensures
        r == s@.contains(c),
{
    let mut i: usize = 0;
    while i < s.len()
        invariant
            i <= s@.len(),
            forall|j: int| 0 <= j < i ==> s@[j] != c,
        decreases s@.len() - i,
    {
        if s[i] == c {
            return true;
        }
        i += 1;
    }
    false
}

/// `str::rfind` on buffers, restricted to matches starting below `below`.
pub fn rfind_below_exec(s: &Vec<char>, p: &Vec<char>, below: usize) -> (r: Option<usize>)
    ensures
        r matches Some(k) ==> rfind_below(s@, p@, below as int) == Some(k as int),
        r is None ==> rfind_below(s@, p@, below as int) is None,
{
    let mut i = below;
    while i > 0
        invariant
            i <= below,
            rfind_below(s@, p@, below as int) == rfind_below(s@, p@, i as int),
        decreases i,
    {
        if matches_at_exec(s, p, i - 1) {
            return Some(i - 1);
        }
        i -= 1;
    }
    None
}


// ───────────────────────────── character classes ─────────────────────────────

/// What `char::is_alphanumeric` returns for `c` (Unicode `Alphabetic` or `Numeric`).
pub uninterp spec fn spec_is_alphanumeric(c: char) -> bool;

/// ASCII letters and digits.
pub open spec fn is_ascii_alnum(c: char) -> bool {
    ('0' <= c && c <= '9') || ('a' <= c && c <= 'z') || ('A' <= c && c <= 'Z')
}

/// Calls `char::is_alphanumeric`. Its contract names the result by `spec_is_alphanumeric`
/// and states, as the std documentation of `is_alphabetic`/`is_numeric` gives it, that an
/// ASCII character is alphanumeric exactly when it is an ASCII letter or digit. What it
/// returns for other characters is left unsaid.
#[verifier::external_body]
pub(crate) fn is_alphanumeric(c: char) -> (r: bool)
    ensures
        r == spec_is_alphanumeric(c),
        (c as u32) < 128 ==> (r <==> is_ascii_alnum(c)),
{
    c.is_alphanumeric()
}

/// `char::is_alphanumeric`, stated by [`alnum`].
pub fn is_alnum(c: char) -> (r: bool)
    ensures
        r == alnum(c),
{
    is_alphanumeric(c)
}

/// `char::is_alphanumeric`: for ASCII, a letter or digit; beyond ASCII, as named by
/// [`spec_is_alphanumeric`].
pub open spec fn alnum(c: char) -> bool {
    if (c as u32) < 128 {
        is_ascii_alnum(c)
    } else {
        spec_is_alphanumeric(c)
    }
}

/// A character that may continue a Terraform identifier: alphanumeric or `_`.
pub open spec fn is_ident_char(c: char) -> bool {
    alnum(c) || c == '_'
}

/// Length of the longest prefix of `s` made of identifier characters.
pub open spec fn ident_len(s: Seq<char>) -> nat
    decreases s.len(),
{
    if s.len() > 0 && is_ident_char(s[0]) {
        1 + ident_len(s.drop_first())
    } else {
        0
    }
}

pub proof fn lemma_ident_len_bound(s: Seq<char>)
    ensures
        ident_len(s) <= s.len(),
    decreases s.len(),
{
    if s.len() > 0 && is_ident_char(s[0]) {
        lemma_ident_len_bound(s.drop_first());
    }
}

/// Index of the first character at or after `from` that is not an identifier
/// character, or `v.len()` when there is none.
pub fn ident_end(v: &Vec<char>, from: usize) -> (r: usize)
    requires
        from <= v@.len(),
    ensures
        from <= r <= v@.len(),
        r - from == ident_len(v@.skip(from as int)),
{
    let n = v.len();
    let mut i = from;
    assert(v@.skip(from as int).skip(0) =~= v@.skip(from as int));
    while i < n && (is_alnum(v[i]) || v[i] == '_')
        invariant
            n == v@.len(),
            from <= i <= n,
            ident_len(v@.skip(from as int)) == (i - from) + ident_len(v@.skip(i as int)),
        decreases n - i,
    {
        assert(v@.skip(i as int).drop_first() =~= v@.skip(i + 1));
        i += 1;
    }
    assert(v@.skip(i as int).len() > 0 ==> v@.skip(i as int)[0] == v@[i as int]);
    i
}

/// What `str::to_uppercase` returns for `s` (Unicode uppercase mapping).
pub uninterp spec fn spec_to_uppercase(s: Seq<char>) -> Seq<char>;

/// The ASCII upper and lower case of a character (others unchanged).
pub open spec fn ascii_upper(c: char) -> char {
    if 'a' <= c && c <= 'z' { ((c as u32) - 32) as char } else { c }
}

pub open spec fn ascii_lower(c: char) -> char {
    if 'A' <= c && c <= 'Z' { ((c as u32) + 32) as char } else { c }
}

/// All characters of `s` are ASCII.
pub open spec fn all_ascii(s: Seq<char>) -> bool {
    forall|i: int| 0 <= i < s.len() ==> (#[trigger] s[i] as u32) < 128
}

/// Calls `str::to_uppercase`. The result is named by `spec_to_uppercase` of the input's
/// characters; on ASCII text it is the ASCII upper case, each letter `a`–`z` mapped to
/// `A`–`Z` and every other character kept. The Unicode case mapping of other characters
/// is left unsaid.
#[verifier::external_body]
pub(crate) fn to_uppercase(s: &str) -> (r: String)
    ensures
        r@ == spec_to_uppercase(s@),
        all_ascii(s@) ==> r@ == s@.map_values(|c: char| ascii_upper(c)),
{
    s.to_uppercase()
}

/// What `str::to_lowercase` returns for `s` (Unicode lowercase mapping).
pub uninterp spec fn spec_to_lowercase(s: Seq<char>) -> Seq<char>;

/// Calls `str::to_lowercase`. The result is named by `spec_to_lowercase` of the input's
/// characters; on ASCII text it is the ASCII lower case, each letter `A`–`Z` mapped to
/// `a`–`z` and every other character kept. The Unicode case mapping of other characters
/// is left unsaid.
#[verifier::external_body]
pub(crate) fn to_lowercase(s: &str) -> (r: String)
    ensures
        r@ == spec_to_lowercase(s@),
        all_ascii(s@) ==> r@ == s@.map_values(|c: char| ascii_lower(c)),
{
    s.to_lowercase()
}

// ───────────────────────────── numbers ─────────────────────────────

pub open spec fn digit_char(d: nat) -> char {
    ((d + 48) as u32) as char
}

/// Decimal digits of `n`, most significant first, without leading zeros.
pub open spec fn dec(n: nat) -> Seq<char>
    decreases n,
{
    if n < 10 {
        seq![digit_char(n)]
    } else {
        dec(n / 10).push(digit_char(n % 10))
    }
}

/// Decimal text of a signed integer.
pub open spec fn dec_int(n: int) -> Seq<char> {
    if n < 0 {
        seq!['-'] + dec((-n) as nat)
    } else {
        dec(n as nat)
    }
}

/// Appends the decimal text of `n` to `s`.
pub fn push_u64(s: &mut String, n: u64)
    ensures
        final(s)@ == old(s)@ + dec(n as nat),
    decreases n,
{
    if n >= 10 {
        push_u64(s, n / 10);
    }
    let d = (n % 10) as u32 + 48;
    let c = char_from_digit(d);
    push_char(s, c);
}

fn char_from_digit(d: u32) -> (c: char)
    requires
        48 <= d <= 57,
    ensures
        c == (d as char),
{
    if d == 48 { '0' }
    else if d == 49 { '1' }
    else if d == 50 { '2' }
    else if d == 51 { '3' }
    else if d == 52 { '4' }
    else if d == 53 { '5' }
    else if d == 54 { '6' }
    else if d == 55 { '7' }
    else if d == 56 { '8' }
    else { '9' }
}

/// Appends the decimal text of `n` to `s`.
pub fn push_i64(s: &mut String, n: i64)
    ensures
        final(s)@ == old(s)@ + dec_int(n as int),
{
    if n < 0 {
        push_char(s, '-');
        let m: u64 = if n == i64::MIN { 9223372036854775808u64 } else { (-n) as u64 };
        push_u64(s, m);
    } else {
        push_u64(s, n as u64);
    }
}

pub open spec fn is_digit(c: char) -> bool {
    '0' <= c && c <= '9'
}

pub open spec fn all_digits(s: Seq<char>) -> bool {
    forall|i: int| 0 <= i < s.len() ==> is_digit(#[trigger] s[i])
}

/// Value of a string of decimal digits.
pub open spec fn digits_value(s: Seq<char>) -> nat
    decreases s.len(),
{
    if s.len() == 0 {
        0
    } else {
        digits_value(s.drop_last()) * 10 + ((s.last() as u32) - 48) as nat
    }
}

/// `<u32 as FromStr>::from_str`: an optional `+`, then one or more ASCII digits whose
/// value fits in a `u32`.
pub open spec fn parse_u32(s: Seq<char>) -> Option<u32> {
    let d = if s.len() > 0 && s[0] == '+' { s.drop_first() } else { s };
    if d.len() > 0 && all_digits(d) && digits_value(d) <= u32::MAX {
        Some(digits_value(d) as u32)
    } else {
        None
    }
}

proof fn lemma_digits_value_grows(s: Seq<char>, c: char)
    requires
        is_digit(c),
    ensures
        digits_value(s.push(c)) >= digits_value(s),
        digits_value(s.push(c)) == digits_value(s) * 10 + ((c as u32) - 48) as nat,
{
    assert(s.push(c).drop_last() =~= s);
    assert(digits_value(s) * 10 >= digits_value(s)) by (nonlinear_arith);
}

/// `str::parse::<u32>` on buffers.
pub fn parse_u32_v(v: &Vec<char>) -> (r: Option<u32>)
    ensures
        r == parse_u32(v@),
{
    let n = v.len();
    let start: usize = if n > 0 && v[0] == '+' { 1 } else { 0 };
    let ghost d = if v@.len() > 0 && v@[0] == '+' { v@.drop_first() } else { v@ };
    assert(d =~= v@.skip(start as int));
    if start == n {
        return None;
    }
    let mut acc: u64 = 0;
    let mut big = false;
    let mut i = start;
    while i < n
        invariant
            n == v@.len(),
            start <= i <= n,
            d == v@.skip(start as int),
            d == (if v@.len() > 0 && v@[0] == '+' { v@.drop_first() } else { v@ }),
            all_digits(d.take(i - start)),
            big ==> digits_value(d.take(i - start)) > u32::MAX,
            !big ==> acc == digits_value(d.take(i - start)) && acc <= u32::MAX,
        decreases n - i,
    {
        let c = v[i];
        if !('0' <= c && c <= '9') {
            assert(d[i - start] == c);
            assert(!is_digit(d[i - start]));
            return None;
        }
        proof {
            assert(d.take(i - start + 1) =~= d.take(i - start).push(c));
            lemma_digits_value_grows(d.take(i - start), c);
        }
        if !big {
            let dv = (c as u32 - 48) as u64;
            acc = acc * 10 + dv;
            if acc > 4294967295u64 {
                big = true;
            }
        }
        i += 1;
    }
    assert(d.take(n - start) =~= d);
    if big {
        None
    } else {
        Some(acc as u32)
    }
}

/// `str::parse::<u32>`.
pub fn parse_u32_str(s: &str) -> (r: Option<u32>)
    ensures
        r == parse_u32(s@),
{
    let v = chars_of(s);
    parse_u32_v(&v)
}


pub proof fn lemma_rfind_below_bounds(s: Seq<char>, p: Seq<char>, i: int)
    ensures
        rfind_below(s, p, i) matches Some(k) ==> k < i && matches_at(s, p, k),
    decreases i,
{
    if i > 0 && !matches_at(s, p, i - 1) {
        lemma_rfind_below_bounds(s, p, i - 1);
    }
}

/// No line that [`lines`] gives holds a line feed.
pub proof fn lemma_lines_no_newline(s: Seq<char>)
    ensures
        forall|k: int, j: int|
            0 <= k < lines(s).len() && 0 <= j < lines(s)[k].len() ==> #[trigger] lines(s)[k][j]
                != '\n',
    decreases s.len(),
{
    if s.len() > 0 {
        lemma_find_from_bounds(s, seq!['\n'], 0);
        match find(s, seq!['\n']) {
            Some(i) => {
                lemma_lines_no_newline(s.skip(i + 1));
                let head = strip_cr(s.take(i));
                assert forall|j: int| 0 <= j < head.len() implies head[j] != '\n' by {
                    assert(head[j] == s[j]);
                    assert(!matches_at(s, seq!['\n'], j));
                    if s[j] == '\n' {
                        assert(s.subrange(j, j + 1) =~= seq!['\n']);
                    }
                }
                assert(lines(s) == seq![head] + lines(s.skip(i + 1)));
                assert forall|k: int, j: int|
                    0 <= k < lines(s).len() && 0 <= j < lines(s)[k].len() implies #[trigger] lines(
                    s,
                )[k][j] != '\n' by {
                    if k > 0 {
                        assert(lines(s)[k] == lines(s.skip(i + 1))[k - 1]);
                    }
                }
            },
            None => {
                assert forall|j: int| 0 <= j < s.len() implies s[j] != '\n' by {
                    assert(!matches_at(s, seq!['\n'], j));
                    if s[j] == '\n' {
                        assert(s.subrange(j, j + 1) =~= seq!['\n']);
                    }
                }
                assert(lines(s) == seq![s]);
            },
        }
    }
}

/// The search down from `i` finds an occurrence no lower than any occurrence below `i`.
pub proof fn lemma_rfind_below_max(s: Seq<char>, p: Seq<char>, i: int, q: int)
    requires
        q < i,
        matches_at(s, p, q),
    ensures
        rfind_below(s, p, i) matches Some(k) && q <= k,
    decreases i,
{
    if !matches_at(s, p, i - 1) {
        lemma_rfind_below_max(s, p, i - 1, q);
    }
}

pub proof fn lemma_rfind_bounds(s: Seq<char>, p: Seq<char>)
    ensures
        rfind(s, p) matches Some(k) ==> matches_at(s, p, k),
{
    lemma_rfind_below_bounds(s, p, s.len() + 1int);
}


// ───────────────────────────── counting lemmas ─────────────────────────────

pub proof fn lemma_count_char_concat(a: Seq<char>, b: Seq<char>, c: char)
    ensures
        count_char(a + b, c) == count_char(a, c) + count_char(b, c),
    decreases b.len(),
{
    if b.len() == 0 {
        assert(a + b =~= a);
    } else {
        assert((a + b).drop_last() =~= a + b.drop_last());
        lemma_count_char_concat(a, b.drop_last(), c);
    }
}

pub proof fn lemma_count_char_le_len(s: Seq<char>, c: char)
    ensures
        count_char(s, c) <= s.len(),
    decreases s.len(),
{
    if s.len() > 0 {
        lemma_count_char_le_len(s.drop_last(), c);
    }
}

pub proof fn lemma_count_char_subrange(s: Seq<char>, lo: int, hi: int, c: char)
    requires
        0 <= lo <= hi <= s.len(),
    ensures
        count_char(s.subrange(lo, hi), c) <= count_char(s, c),
{
    assert(s =~= s.subrange(0, lo) + s.subrange(lo, hi) + s.subrange(hi, s.len() as int));
    lemma_count_char_concat(s.subrange(0, lo) + s.subrange(lo, hi), s.subrange(hi, s.len() as int), c);
    lemma_count_char_concat(s.subrange(0, lo), s.subrange(lo, hi), c);
}

/// The number of characters in all of `ls` together.
pub open spec fn total_len(ls: Seq<Seq<char>>) -> nat
    decreases ls.len(),
{
    if ls.len() == 0 {
        0
    } else {
        total_len(ls.drop_last()) + ls.last().len()
    }
}

pub proof fn lemma_total_len_concat(a: Seq<Seq<char>>, b: Seq<Seq<char>>)
    ensures
        total_len(a + b) == total_len(a) + total_len(b),
    decreases b.len(),
{
    if b.len() == 0 {
        assert(a + b =~= a);
    } else {
        assert((a + b).drop_last() =~= a + b.drop_last());
        lemma_total_len_concat(a, b.drop_last());
    }
}

pub proof fn lemma_total_len_single(x: Seq<char>)
    ensures
        total_len(seq![x]) == x.len(),
{
    assert(seq![x].drop_last() =~= Seq::<Seq<char>>::empty());
    assert(total_len(Seq::<Seq<char>>::empty()) == 0);
    assert(seq![x].last() == x);
}

/// The lines of `s` hold no more characters than `s`.
pub proof fn lemma_lines_total_len(s: Seq<char>)
    ensures
        total_len(lines(s)) <= s.len(),
    decreases s.len(),
{
    if s.len() > 0 {
        match find(s, seq!['\n']) {
            Some(i) => {
                lemma_find_from_bounds(s, seq!['\n'], 0);
                assert(matches_at(s, seq!['\n'], i));
                assert(i + 1 <= s.len());
                lemma_lines_total_len(s.skip(i + 1));
                let x = strip_cr(s.take(i));
                assert(x.len() <= i);
                assert(lines(s) == seq![x] + lines(s.skip(i + 1)));
                lemma_total_len_concat(seq![x], lines(s.skip(i + 1)));
                lemma_total_len_single(x);
            },
            None => {
                assert(lines(s) == seq![s]);
                lemma_total_len_single(s);
            },
        }
    }
}

/// A prefix of `ls` holds no more characters than `ls`.
pub proof fn lemma_total_len_take(ls: Seq<Seq<char>>, i: int)
    requires
        0 <= i <= ls.len(),
    ensures
        total_len(ls.take(i)) <= total_len(ls),
        i < ls.len() ==> total_len(ls.take(i + 1)) == total_len(ls.take(i)) + ls[i].len(),
{
    assert(ls =~= ls.take(i) + ls.skip(i));
    lemma_total_len_concat(ls.take(i), ls.skip(i));
    if i < ls.len() {
        assert(ls.take(i + 1).drop_last() =~= ls.take(i));
    }
}


// ───────────────────────────── occurrence counting ─────────────────────────────

/// Number of positions at which `p` occurs in `s` (overlapping occurrences count).
pub open spec fn occ(s: Seq<char>, p: Seq<char>) -> nat
    decreases s.len(),
{
    if p.len() == 0 || s.len() < p.len() {
        0
    } else {
        (if s.take(p.len() as int) == p {
            1nat
        } else {
            0nat
        }) + occ(s.drop_first(), p)
    }
}

/// Occurrences inside either part are occurrences of the whole.
pub proof fn lemma_occ_super(x: Seq<char>, y: Seq<char>, p: Seq<char>)
    ensures
        occ(x + y, p) >= occ(x, p) + occ(y, p),
    decreases x.len(),
{
    if x.len() == 0 {
        assert(x + y =~= y);
    } else if p.len() > 0 && (x + y).len() >= p.len() {
        assert((x + y).drop_first() =~= x.drop_first() + y);
        lemma_occ_super(x.drop_first(), y, p);
        if x.len() >= p.len() {
            assert((x + y).take(p.len() as int) =~= x.take(p.len() as int));
        }
    }
}

/// No occurrence crosses into `y` when `y` starts with a character that `p` lacks.
pub proof fn lemma_occ_split_left(x: Seq<char>, y: Seq<char>, p: Seq<char>, c: char)
    requires
        y.len() > 0,
        y[0] == c,
        !p.contains(c),
    ensures
        occ(x + y, p) == occ(x, p) + occ(y, p),
    decreases x.len(),
{
    if x.len() == 0 {
        assert(x + y =~= y);
    } else if p.len() > 0 && (x + y).len() >= p.len() {
        assert((x + y).drop_first() =~= x.drop_first() + y);
        lemma_occ_split_left(x.drop_first(), y, p, c);
        if x.len() >= p.len() {
            assert((x + y).take(p.len() as int) =~= x.take(p.len() as int));
        } else {
            if (x + y).take(p.len() as int) == p {
                assert(p[x.len() as int] == (x + y)[x.len() as int]);
                assert(false);
            }
        }
    } else if p.len() > 0 {
        assert(occ(y, p) == 0);
    }
}

/// No occurrence crosses out of `x` when `x` ends with a character that `p` lacks.
pub proof fn lemma_occ_split_right(x: Seq<char>, y: Seq<char>, p: Seq<char>, c: char)
    requires
        x.len() > 0,
        x.last() == c,
        !p.contains(c),
    ensures
        occ(x + y, p) == occ(x, p) + occ(y, p),
    decreases x.len(),
{
    if p.len() > 0 && (x + y).len() >= p.len() {
        assert((x + y).drop_first() =~= x.drop_first() + y);
        if x.len() == 1 {
            assert(x.drop_first() + y =~= y);
            if (x + y).take(p.len() as int) == p {
                assert(p[0] == (x + y)[0]);
                assert(false);
            }
            assert(occ(x.drop_first(), p) == 0);
            if p.len() <= x.len() && x.take(p.len() as int) == p {
                assert(p[0] == x.take(p.len() as int)[0]);
                assert(false);
            }
            assert(occ(x, p) == 0);
        } else {
            lemma_occ_split_right(x.drop_first(), y, p, c);
            if x.len() >= p.len() {
                assert((x + y).take(p.len() as int) =~= x.take(p.len() as int));
            } else {
                if (x + y).take(p.len() as int) == p {
                    assert(p[x.len() - 1] == (x + y)[x.len() - 1]);
                    assert(false);
                }
            }
        }
    } else if p.len() > 0 {
        assert(occ(y, p) == 0);
    }
}

/// A text in which `p` never occurs has no occurrences.
pub proof fn lemma_occ_none(r: Seq<char>, p: Seq<char>)
    requires
        forall|j: int| 0 <= j ==> !matches_at(r, p, j),
    ensures
        occ(r, p) == 0,
    decreases r.len(),
{
    if p.len() > 0 && r.len() >= p.len() {
        assert(!matches_at(r, p, 0));
        assert(r.subrange(0, p.len() as int) =~= r.take(p.len() as int));
        assert forall|j: int| 0 <= j implies !matches_at(r.drop_first(), p, j) by {
            assert(!matches_at(r, p, j + 1));
            if matches_at(r.drop_first(), p, j) {
                assert(r.subrange(j + 1, j + 1 + p.len()) =~= r.drop_first().subrange(j, j + p.len()));
            }
        }
        lemma_occ_none(r.drop_first(), p);
    }
}

/// Replacing a stretch that begins with `p` by a text that holds no `p` and is
/// fenced by characters `p` lacks removes at least one occurrence of `p`.
pub proof fn lemma_occ_replace(s: Seq<char>, q: int, l: int, r: Seq<char>, p: Seq<char>, lo: char, hi: char)
    requires
        0 <= q,
        p.len() > 0,
        p.len() <= l,
        q + l <= s.len(),
        s.subrange(q, q + p.len()) == p,
        r.len() > 0,
        r[0] == lo,
        r.last() == hi,
        !p.contains(lo),
        !p.contains(hi),
        forall|j: int| 0 <= j ==> !matches_at(r, p, j),
    ensures
        occ(s.take(q) + r + s.skip(q + l), p) < occ(s, p),
{
    let a = s.take(q);
    let x = s.subrange(q, q + l);
    let b = s.skip(q + l);
    assert(s =~= a + (x + b));
    lemma_occ_super(a, x + b, p);
    assert((x + b).take(p.len() as int) =~= p);
    assert((x + b).drop_first() =~= x.drop_first() + b);
    lemma_occ_super(x.drop_first(), b, p);
    lemma_occ_split_right(a + r, b, p, hi);
    lemma_occ_split_left(a, r, p, lo);
    lemma_occ_none(r, p);
}

/// Characters of a reference traversal: alphanumerics, `.`, `_`, and with
/// `brackets` also `[`, `]` and `*`.
pub open spec fn ref_char(c: char, brackets: bool) -> bool {
    alnum(c) || c == '.' || c == '_' || (brackets && (c == '[' || c == ']' || c == '*'))
}

/// The first index at or after `i` that does not hold a reference character, or the length.
pub open spec fn ref_end(s: Seq<char>, i: int, brackets: bool) -> int
    decreases s.len() - i,
{
    if i < 0 || i >= s.len() {
        s.len() as int
    } else if !ref_char(s[i], brackets) {
        i
    } else {
        ref_end(s, i + 1, brackets)
    }
}

pub proof fn lemma_ref_end_bounds(s: Seq<char>, i: int, k: int, brackets: bool)
    requires
        0 <= i <= k <= s.len(),
        forall|j: int| i <= j < k ==> ref_char(#[trigger] s[j], brackets),
    ensures
        k <= ref_end(s, i, brackets) <= s.len(),
    decreases k - i,
{
    if i < k {
        lemma_ref_end_bounds(s, i + 1, k, brackets);
    } else {
        lemma_ref_end_le(s, i, brackets);
    }
}

pub proof fn lemma_ref_end_le(s: Seq<char>, i: int, brackets: bool)
    requires
        0 <= i <= s.len(),
    ensures
        i <= ref_end(s, i, brackets) <= s.len(),
    decreases s.len() - i,
{
    if i < s.len() && ref_char(s[i], brackets) {
        lemma_ref_end_le(s, i + 1, brackets);
    }
}

/// [`ref_end`] on buffers.
pub fn ref_end_exec(v: &Vec<char>, i: usize, brackets: bool) -> (r: usize)
    requires
        i <= v@.len(),
    ensures
        r == ref_end(v@, i as int, brackets),
        i <= r <= v@.len(),
{
    let n = v.len();
    let mut j = i;
    proof {
        lemma_ref_end_le(v@, i as int, brackets);
    }
    while j < n
        invariant
            n == v@.len(),
            i <= j <= n,
            ref_end(v@, i as int, brackets) == ref_end(v@, j as int, brackets),
        decreases n - j,
    {
        let c = v[j];
        let rc = is_alnum(c) || c == '.' || c == '_' || (brackets && (c == '[' || c == ']' || c
            == '*'));
        if !rc {
            return j;
        }
        j += 1;
    }
    j
}

/// `<i32 as FromStr>::from_str`: an optional sign, then one or more ASCII digits whose
/// value fits in an `i32`.
pub open spec fn parse_i32(s: Seq<char>) -> Option<i32> {
    if s.len() > 0 && s[0] == '-' {
        let d = s.drop_first();
        if d.len() > 0 && d[0] != '+' {
            match parse_u32(d) {
                Some(n) => if n <= 2147483648 {
                    Some((-(n as int)) as i32)
                } else {
                    None
                },
                None => None,
            }
        } else {
            None
        }
    } else {
        match parse_u32(s) {
            Some(n) => if n <= 2147483647 {
                Some(n as i32)
            } else {
                None
            },
            None => None,
        }
    }
}

/// [`parse_i32`] on buffers.
pub fn parse_i32_v(v: &Vec<char>) -> (r: Option<i32>)
    ensures
        r == parse_i32(v@),
{
    let n = v.len();
    if n > 0 && v[0] == '-' {
        let d = slice_of(v, 1, n);
        assert(d@ =~= v@.drop_first());
        if d.len() > 0 && d[0] != '+' {
            match parse_u32_v(&d) {
                Some(k) => if k <= 2147483648 {
                    let w: i64 = -(k as i64);
                    Some(w as i32)
                } else {
                    None
                },
                None => None,
            }
        } else {
            None
        }
    } else {
        match parse_u32_v(v) {
            Some(k) => if k <= 2147483647 {
                Some(k as i32)
            } else {
                None
            },
            None => None,
        }
    }
}

/// The part of `s` before the first `c` (`s.split(c).next()`).
pub open spec fn before_char(s: Seq<char>, c: char) -> Seq<char> {
    match find(s, seq![c]) {
        Some(i) => s.take(i),
        None => s,
    }
}

/// `s.split(c).next()` on buffers.
pub fn before_char_v(s: &Vec<char>, c: char) -> (r: Vec<char>)
    ensures
        r@ == before_char(s@, c),
{
    match find_char_from(s, c, 0) {
        Some(k) => {
            assert(s@.skip(0) =~= s@);
            let r = slice_of(s, 0, k);
            assert(r@ =~= s@.take(k as int));
            r
        },
        None => {
            assert(s@.skip(0) =~= s@);
            let r = slice_of(s, 0, s.len());
            assert(r@ =~= s@);
            r
        },
    }
}

/// `s.split_once(c)`: the text before and after the first `c`.
pub open spec fn split_once_char(s: Seq<char>, c: char) -> Option<(Seq<char>, Seq<char>)> {
    match find(s, seq![c]) {
        Some(i) => Some((s.take(i), s.skip(i + 1))),
        None => None,
    }
}

pub fn split_once_char_v(s: &Vec<char>, c: char) -> (r: Option<(Vec<char>, Vec<char>)>)
    ensures
        match r {
            Some(p) => split_once_char(s@, c) == Some((p.0@, p.1@)),
            None => split_once_char(s@, c) is None,
        },
{
    assert(s@.skip(0) =~= s@);
    let n = s.len();
    match find_char_from(s, c, 0) {
        Some(k) => {
            let a = slice_of(s, 0, k);
            let b = slice_of(s, k + 1, n);
            assert(a@ =~= s@.take(k as int));
            assert(b@ =~= s@.skip(k + 1));
            Some((a, b))
        },
        None => None,
    }
}

} // verus!
