//! Helpers of the output generator: TODO-marker handling and firewall merging.
use vstd::prelude::*;

use crate::migration::types::strs_view;
use crate::text::{
    matches_at,
    before_char, before_char_v, chars_of, contains, count_char, find, find_str, has_char,
    lemma_count_char_concat, lemma_count_char_subrange, lemma_find_from_bounds, lines, lines_v,
    push_str, push_vec, replace, replace_first, replace_first_v, replace_str, rfind,
    rfind_below_exec, seq_eq, slice_of, starts_with, starts_with_exec, string_of, trim, trim_start,
    trim_start_v, trim_v, views, matches_at_exec, lemma_rfind_bounds, count_char_v, total_len,
    push_char, lemma_rfind_below_max,
};

verus! {

/// Prefix that identifies an unresolved TODO placeholder in generated HCL.
pub const TODO_PLACEHOLDER_PREFIX: &'static str = "<TODO";

/// Sentinel stored for resources that were intentionally skipped during generation.
pub const SKIPPED_SENTINEL: &'static str = "\x00SKIPPED";

/// Whether character position `pos` of `s` lies inside an open `<TODO: ...>` marker:
/// a `<TODO` starts before `pos` with no `>` between it and `pos`.
pub open spec fn spec_inside_todo_marker(s: Seq<char>, pos: int) -> bool {
    match rfind(s.take(pos), "<TODO"@) {
        Some(lo) => !s.subrange(lo, pos).contains('>'),
        None => false,
    }
}

/// A position inside an open marker stays inside it across text that holds no `>`.
pub proof fn lemma_inside_marker_extends(s: Seq<char>, start: int, p: int)
    requires
        spec_inside_todo_marker(s, start),
        0 <= start <= p <= s.len(),
        forall|j: int| start <= j < p ==> s[j] != '>',
    ensures
        spec_inside_todo_marker(s, p),
{
    let t = "<TODO"@;
    let a = s.take(start);
    let b = s.take(p);
    lemma_rfind_bounds(a, t);
    let lo = rfind(a, t).unwrap();
    assert(b.subrange(lo, lo + t.len()) =~= a.subrange(lo, lo + t.len()));
    lemma_rfind_below_max(b, t, b.len() + 1int, lo);
    lemma_rfind_bounds(b, t);
    let q = rfind(b, t).unwrap();
    assert(!s.subrange(q, p).contains('>')) by {
        if s.subrange(q, p).contains('>') {
            let k = choose|k: int| 0 <= k < p - q && s.subrange(q, p)[k] == '>';
            let j = q + k;
            assert(s[j] == '>');
            if j < start {
                assert(s.subrange(lo, start)[j - lo] == '>');
            }
        }
    }
}

/// Returns true if character position `pos` in `s` is inside an open `<TODO: ...>` marker,
/// i.e. there is a `<TODO` before `pos` with no closing `>` between them.
pub fn inside_todo_marker(s: &Vec<char>, pos: usize) -> (r: bool)
    requires
        pos <= s@.len(),
    ensures
        r == spec_inside_todo_marker(s@, pos as int),
{
    let head = slice_of(s, 0, pos);
    assert(head@ =~= s@.take(pos as int));
    let pat = chars_of(TODO_PLACEHOLDER_PREFIX);
    proof {
        reveal_strlit("<TODO");
        assert(!crate::text::matches_at(head@, pat@, head@.len() as int));
    }
    match rfind_below_exec(&head, &pat, head.len()) {
        Some(lo) => {
            proof {
                lemma_rfind_bounds(head@, pat@);
            }
            let between = slice_of(s, lo, pos);
            !has_char(&between, '>')
        },
        None => false,
    }
}

// ── `${<TODO: ...>...}` interpolations ───────────────────────────────────────

/// First index `>= j` holding a character other than a space.
pub open spec fn skip_spaces(s: Seq<char>, j: int) -> int
    decreases s.len() - j,
{
    if j >= 0 && j < s.len() && s[j] == ' ' {
        skip_spaces(s, j + 1)
    } else {
        j
    }
}

/// First index `>= i` where `${`, optional spaces and `<TODO:` begin.
pub open spec fn find_todo_interp(s: Seq<char>, i: int) -> Option<int>
    decreases s.len() - i,
{
    if i < 0 || i + 1 >= s.len() {
        None
    } else if s[i] == '$' && s[i + 1] == '{' && starts_with(
        s.skip(skip_spaces(s, i + 2)),
        "<TODO:"@,
    ) {
        Some(i)
    } else {
        find_todo_interp(s, i + 1)
    }
}

/// Index just past the `}` closing a brace opened before `i` at nesting `depth`,
/// or `s.len()` when it is never closed.
pub open spec fn close_brace(s: Seq<char>, i: int, depth: nat) -> int
    decreases s.len() - i,
{
    if i < 0 || i >= s.len() {
        s.len() as int
    } else if s[i] == '{' {
        close_brace(s, i + 1, depth + 1)
    } else if s[i] == '}' {
        if depth <= 1 {
            i + 1
        } else {
            close_brace(s, i + 1, (depth - 1) as nat)
        }
    } else {
        close_brace(s, i + 1, depth)
    }
}

/// The text that replaces `${...}` found at `start` and closing at `end`: the first
/// `<TODO: ...>` marker inside it, or a generic TODO when it holds none.
pub open spec fn todo_interp_replacement(s: Seq<char>, start: int, end: int) -> Seq<char> {
    let inner = trim(s.subrange(start + 2, end - 1));
    match find(inner, "<TODO:"@) {
        Some(ts) => {
            let te = match find(inner.skip(ts), seq!['>']) {
                Some(p) => ts + p + 1,
                None => inner.len() as int,
            };
            inner.subrange(ts, te)
        },
        None => "<TODO: remove source provider resource ref>"@,
    }
}

pub proof fn lemma_close_brace_bounds(s: Seq<char>, i: int, depth: nat)
    requires
        0 <= i <= s.len(),
    ensures
        i <= close_brace(s, i, depth) <= s.len(),
        close_brace(s, i, depth) < s.len() ==> i < close_brace(s, i, depth),
    decreases s.len() - i,
{
    if i < s.len() {
        if s[i] == '{' {
            lemma_close_brace_bounds(s, i + 1, depth + 1);
        } else if s[i] == '}' {
            if depth > 1 {
                lemma_close_brace_bounds(s, i + 1, (depth - 1) as nat);
            }
        } else {
            lemma_close_brace_bounds(s, i + 1, depth);
        }
    }
}

pub proof fn lemma_find_todo_interp_bounds(s: Seq<char>, i: int)
    requires
        0 <= i,
    ensures
        find_todo_interp(s, i) matches Some(k) ==> i <= k && k + 1 < s.len() && s[k] == '$',
    decreases s.len() - i,
{
    if i + 1 < s.len() && !(s[i] == '$' && s[i + 1] == '{' && starts_with(
        s.skip(skip_spaces(s, i + 2)),
        "<TODO:"@,
    )) {
        lemma_find_todo_interp_bounds(s, i + 1);
    }
}

/// One rewriting step: the interpolation at `start` replaced by its TODO text.
pub open spec fn todo_interp_step(s: Seq<char>, start: int) -> Seq<char> {
    let end = close_brace(s, start + 2, 1);
    s.take(start) + todo_interp_replacement(s, start, end) + s.skip(end)
}

pub proof fn lemma_todo_interp_step_dollars(s: Seq<char>, start: int)
    requires
        0 <= start,
        start + 1 < s.len(),
        s[start] == '$',
        s[start + 1] == '{',
        start + 2 < close_brace(s, start + 2, 1),
    ensures
        count_char(todo_interp_step(s, start), '$') < count_char(s, '$'),
{
    let end = close_brace(s, start + 2, 1);
    lemma_close_brace_bounds(s, start + 2, 1);
    let inner0 = s.subrange(start + 2, end - 1);
    let inner = trim(inner0);
    let rep = todo_interp_replacement(s, start, end);
    // the replacement is a piece of `s[start+2 .. end-1]`, or holds no `$`
    assert(count_char(rep, '$') <= count_char(s.subrange(start + 2, end - 1), '$')) by {
        lemma_trim_sub(inner0);
        let (a, b) = trim_bounds(inner0);
        assert(inner == inner0.subrange(a, b));
        match find(inner, "<TODO:"@) {
            Some(ts) => {
                lemma_find_from_bounds(inner, "<TODO:"@, 0);
                let te = match find(inner.skip(ts), seq!['>']) {
                    Some(p) => ts + p + 1,
                    None => inner.len() as int,
                };
                lemma_find_from_bounds(inner.skip(ts), seq!['>'], 0);
                assert(rep == inner.subrange(ts, te));
                assert(inner.subrange(ts, te) =~= inner0.subrange(a + ts, a + te));
                lemma_count_char_subrange(inner0, a + ts, a + te, '$');
            },
            None => {
                reveal_strlit("<TODO: remove source provider resource ref>");
                assert(count_char("<TODO: remove source provider resource ref>"@, '$') == 0) by {
                    lemma_no_char_count("<TODO: remove source provider resource ref>"@, '$');
                }
            },
        }
    }
    assert(s.subrange(start, end) =~= seq!['$', '{'] + s.subrange(start + 2, end - 1) + s.subrange(
        end - 1,
        end,
    ));
    lemma_count_char_concat(seq!['$', '{'] + s.subrange(start + 2, end - 1), s.subrange(end - 1, end), '$');
    lemma_count_char_concat(seq!['$', '{'], s.subrange(start + 2, end - 1), '$');
    assert(count_char(seq!['$', '{'], '$') == 1) by {
        assert(seq!['$', '{'].drop_last() =~= seq!['$']);
        assert(seq!['$'].drop_last() =~= Seq::<char>::empty());
        assert(count_char(seq!['$'], '$') == count_char(Seq::<char>::empty(), '$') + 1);
        assert(count_char(seq!['$', '{'], '$') == count_char(seq!['$'], '$') + 0);
    }
    assert(s =~= s.take(start) + s.subrange(start, end) + s.skip(end));
    lemma_count_char_concat(s.take(start) + s.subrange(start, end), s.skip(end), '$');
    lemma_count_char_concat(s.take(start), s.subrange(start, end), '$');
    lemma_count_char_concat(s.take(start) + rep, s.skip(end), '$');
    lemma_count_char_concat(s.take(start), rep, '$');
}

pub proof fn lemma_no_char_count(s: Seq<char>, c: char)
    requires
        !s.contains(c),
    ensures
        count_char(s, c) == 0,
    decreases s.len(),
{
    if s.len() > 0 {
        assert(!s.drop_last().contains(c)) by {
            if s.drop_last().contains(c) {
                let i = choose|i: int| 0 <= i < s.drop_last().len() && s.drop_last()[i] == c;
                assert(s[i] == c);
            }
        }
        lemma_no_char_count(s.drop_last(), c);
    }
}

/// Indices `(a, b)` with `trim(s) == s[a..b]`.
pub open spec fn trim_bounds(s: Seq<char>) -> (int, int) {
    let a = s.len() - crate::text::trim_start(s).len();
    (a, a + trim(s).len())
}

pub proof fn lemma_trim_start_suffix(s: Seq<char>)
    ensures
        crate::text::trim_start(s) == s.skip(s.len() - crate::text::trim_start(s).len()),
        crate::text::trim_start(s).len() <= s.len(),
    decreases s.len(),
{
    if s.len() > 0 && crate::text::is_ws(s[0]) {
        lemma_trim_start_suffix(s.drop_first());
        assert(s.drop_first().skip(s.drop_first().len() - crate::text::trim_start(s.drop_first()).len())
            =~= s.skip(s.len() - crate::text::trim_start(s).len()));
    } else {
        assert(s.skip(0) =~= s);
    }
}

pub proof fn lemma_trim_end_prefix(s: Seq<char>)
    ensures
        crate::text::trim_end(s) == s.take(crate::text::trim_end(s).len() as int),
        crate::text::trim_end(s).len() <= s.len(),
    decreases s.len(),
{
    if s.len() > 0 && crate::text::is_ws(s.last()) {
        lemma_trim_end_prefix(s.drop_last());
        assert(s.drop_last().take(crate::text::trim_end(s.drop_last()).len() as int) =~= s.take(
            crate::text::trim_end(s).len() as int,
        ));
    } else {
        assert(s.take(s.len() as int) =~= s);
    }
}

pub proof fn lemma_trim_sub(s: Seq<char>)
    ensures
        0 <= trim_bounds(s).0 <= trim_bounds(s).1 <= s.len(),
        trim(s) == s.subrange(trim_bounds(s).0, trim_bounds(s).1),
{
    lemma_trim_start_suffix(s);
    let t = crate::text::trim_start(s);
    lemma_trim_end_prefix(t);
    let a = s.len() - t.len();
    assert(trim(s) =~= s.subrange(a, a + trim(s).len()));
}

/// Repeatedly replaces the first `${ <TODO: ...> ... }` interpolation by its TODO text,
/// until none is left; `fuel` bounds the steps (each step removes a `$`).
pub open spec fn remove_todo_interps_fuel(s: Seq<char>, fuel: nat) -> Seq<char>
    decreases fuel,
{
    if fuel == 0 {
        s
    } else {
        match find_todo_interp(s, 0) {
            None => s,
            Some(start) => remove_todo_interps_fuel(todo_interp_step(s, start), (fuel - 1) as nat),
        }
    }
}

/// Every `${<TODO: ...>...}` template interpolation replaced by the plain TODO text
/// inside it. Each step removes one `$`, so `count('$') + 1` steps always suffice.
pub open spec fn spec_remove_todo_interpolations(s: Seq<char>) -> Seq<char> {
    remove_todo_interps_fuel(s, count_char(s, '$') + 1)
}

fn find_todo_interp_exec(s: &Vec<char>) -> (r: Option<usize>)
    ensures
        r matches Some(k) ==> find_todo_interp(s@, 0) == Some(k as int),
        r is None ==> find_todo_interp(s@, 0) is None,
{
    let n = s.len();
    let todo = chars_of("<TODO:");
    let mut i: usize = 0;
    while n > 0 && i < n - 1
        invariant
            n == s@.len(),
            todo@ == "<TODO:"@,
            find_todo_interp(s@, 0) == find_todo_interp(s@, i as int),
        decreases n - i,
    {
        if s[i] == '$' && s[i + 1] == '{' {
            let mut j = i + 2;
            while j < n && s[j] == ' '
                invariant
                    n == s@.len(),
                    i + 2 <= j <= n,
                    skip_spaces(s@, i + 2) == skip_spaces(s@, j as int),
                decreases n - j,
            {
                j += 1;
            }
            let rest = slice_of(s, j, n);
            assert(rest@ =~= s@.skip(j as int));
            if crate::text::matches_at_exec(&rest, &todo, 0) {
                return Some(i);
            }
        }
        i += 1;
    }
    None
}

fn close_brace_exec(s: &Vec<char>, from: usize) -> (r: usize)
    requires
        1 <= from <= s@.len(),
    ensures
        r == close_brace(s@, from as int, 1),
{
    let n = s.len();
    let mut depth: usize = 1;
    let mut i = from;
    while i < n
        invariant
            n == s@.len(),
            1 <= from <= i <= n,
            1 <= depth <= i - from + 1,
            close_brace(s@, from as int, 1) == close_brace(s@, i as int, depth as nat),
        decreases n - i,
    {
        let c = s[i];
        if c == '{' {
            depth += 1;
        } else if c == '}' {
            if depth <= 1 {
                return i + 1;
            }
            depth -= 1;
        }
        i += 1;
    }
    n
}

/// Replace every `${<TODO: ...>...}` template interpolation with the plain TODO
/// text extracted from inside.
pub fn remove_todo_interpolations(s: String) -> (r: String)
    ensures
        r@ == spec_remove_todo_interpolations(s@),
{
    let mut cur = chars_of(s.as_str());
    let ghost fuel0 = count_char(s@, '$') + 1;
    let ghost mut fuel: nat = fuel0;
    loop
        invariant
            count_char(cur@, '$') < fuel,
            spec_remove_todo_interpolations(s@) == remove_todo_interps_fuel(cur@, fuel),
        decreases count_char(cur@, '$'),
    {
        let start = match find_todo_interp_exec(&cur) {
            None => {
                return string_of(&cur);
            },
            Some(k) => k,
        };
        proof {
            lemma_find_todo_interp_bounds(cur@, 0);
        }
        let n = cur.len();
        assert(start + 2 <= n);
        let inner_start = start + 2;
        let end = close_brace_exec(&cur, inner_start);
        proof {
            lemma_close_brace_bounds(cur@, inner_start as int, 1);
            // "<TODO:" follows "${" and spaces, so the closing brace lies beyond it
            lemma_close_after_todo(cur@, start as int);
        }
        let inner0 = slice_of(&cur, inner_start, end - 1);
        let inner = trim_v(&inner0);
        let replacement: Vec<char> = match find_str(&inner, "<TODO:") {
            Some(ts) => {
                proof {
                    lemma_find_from_bounds(inner@, "<TODO:"@, 0);
                }
                let tail = slice_of(&inner, ts, inner.len());
                assert(tail@ =~= inner@.skip(ts as int));
                let te = match crate::text::find_char_from(&tail, '>', 0) {
                    Some(p) => {
                        assert(tail@.skip(0) =~= tail@);
                        ts + p + 1
                    },
                    None => {
                        assert(tail@.skip(0) =~= tail@);
                        inner.len()
                    },
                };
                slice_of(&inner, ts, te)
            },
            None => chars_of("<TODO: remove source provider resource ref>"),
        };
        let ghost old_cur = cur@;
        let mut next = slice_of(&cur, 0, start);
        let mut t: usize = 0;
        while t < replacement.len()
            invariant
                t <= replacement@.len(),
                next@ == old_cur.take(start as int) + replacement@.take(t as int),
            decreases replacement@.len() - t,
        {
            next.push(replacement[t]);
            assert(replacement@.take(t + 1) =~= replacement@.take(t as int).push(replacement@[t as int]));
            t += 1;
        }
        let mut u = end;
        let ghost mid = next@;
        while u < cur.len()
            invariant
                end <= u <= cur@.len(),
                cur@ == old_cur,
                next@ == mid + old_cur.subrange(end as int, u as int),
            decreases cur@.len() - u,
        {
            next.push(cur[u]);
            assert(old_cur.subrange(end as int, u + 1) =~= old_cur.subrange(end as int, u as int).push(old_cur[u as int]));
            u += 1;
        }
        assert(replacement@.take(replacement@.len() as int) =~= replacement@);
        assert(old_cur.subrange(end as int, old_cur.len() as int) =~= old_cur.skip(end as int));
        assert(replacement@ == todo_interp_replacement(old_cur, start as int, end as int));
        assert(next@ =~= todo_interp_step(old_cur, start as int));
        proof {
            lemma_find_todo_interp_at(old_cur, 0, start as int);
            lemma_todo_interp_step_dollars(old_cur, start as int);
            fuel = (fuel - 1) as nat;
        }
        cur = next;
    }
}

pub proof fn lemma_close_after_todo(s: Seq<char>, start: int)
    requires
        0 <= start,
        find_todo_interp(s, 0) == Some(start),
    ensures
        start + 2 < close_brace(s, start + 2, 1),
{
    lemma_find_todo_interp_at(s, 0, start);
    let j = skip_spaces(s, start + 2);
    lemma_skip_spaces(s, start + 2);
    reveal_strlit("<TODO:");
    assert("<TODO:"@ =~= seq!['<', 'T', 'O', 'D', 'O', ':']);
    assert(s.skip(j).subrange(0, 6) == "<TODO:"@);
    assert(s.skip(j).subrange(0, 6)[0] == '<');
    assert(s[j] == s.skip(j)[0]);
    lemma_close_brace_spaces(s, start + 2, j);
}

proof fn lemma_find_todo_interp_at(s: Seq<char>, i: int, start: int)
    requires
        0 <= i,
        find_todo_interp(s, i) == Some(start),
    ensures
        s[start] == '$' && s[start + 1] == '{' && starts_with(s.skip(skip_spaces(s, start + 2)), "<TODO:"@),
        start + 1 < s.len(),
    decreases s.len() - i,
{
    if i + 1 < s.len() && !(s[i] == '$' && s[i + 1] == '{' && starts_with(
        s.skip(skip_spaces(s, i + 2)),
        "<TODO:"@,
    )) {
        lemma_find_todo_interp_at(s, i + 1, start);
    }
}

proof fn lemma_skip_spaces(s: Seq<char>, j: int)
    requires
        0 <= j <= s.len(),
    ensures
        j <= skip_spaces(s, j) <= s.len(),
        forall|k: int| j <= k < skip_spaces(s, j) ==> s[k] == ' ',
    decreases s.len() - j,
{
    if j < s.len() && s[j] == ' ' {
        lemma_skip_spaces(s, j + 1);
    }
}

proof fn lemma_close_brace_spaces(s: Seq<char>, i: int, j: int)
    requires
        0 <= i <= j < s.len(),
        forall|k: int| i <= k < j ==> s[k] == ' ',
        s[j] == '<',
    ensures
        j < close_brace(s, i, 1),
    decreases j - i,
{
    if i < j {
        lemma_close_brace_spaces(s, i + 1, j);
    } else {
        lemma_close_brace_bounds(s, j + 1, 1);
    }
}


// ── Firewall merging ──────────────────────────────────────────────────────────

/// The first line among `ls` whose trimmed start begins with `key` and holds `=`
/// (and, when `not_index`, does not begin with `count.index`).
pub open spec fn first_attr_line(ls: Seq<Seq<char>>, key: Seq<char>, not_index: bool) -> Option<Seq<char>>
    decreases ls.len(),
{
    if ls.len() == 0 {
        None
    } else {
        let t = trim_start(ls[0]);
        if starts_with(t, key) && t.contains('=') && !(not_index && starts_with(t, "count.index"@)) {
            Some(ls[0])
        } else {
            first_attr_line(ls.drop_first(), key, not_index)
        }
    }
}

fn first_attr_line_exec(ls: &Vec<Vec<char>>, key: &str, not_index: bool) -> (r: Option<usize>)
    ensures
        r matches Some(i) ==> i < ls@.len() && first_attr_line(views(ls@), key@, not_index) == Some(ls@[i as int]@),
        r is None ==> first_attr_line(views(ls@), key@, not_index) is None,
{
    let mut i: usize = 0;
    assert(views(ls@).skip(0) =~= views(ls@));
    while i < ls.len()
        invariant
            i <= ls@.len(),
            first_attr_line(views(ls@), key@, not_index) == first_attr_line(
                views(ls@).skip(i as int),
                key@,
                not_index,
            ),
        decreases ls@.len() - i,
    {
        assert(views(ls@).skip(i as int)[0] == ls@[i as int]@);
        let t = trim_start_v(&ls[i]);
        if starts_with_exec(&t, key) && has_char(&t, '=') && !(not_index && starts_with_exec(
            &t,
            "count.index",
        )) {
            return Some(i);
        }
        assert(views(ls@).skip(i as int).drop_first() =~= views(ls@).skip(i + 1));
        i += 1;
    }
    None
}

/// The count value of generated `upcloud_server` HCL: the text between the first and
/// second `=` of the first `count ... = ...` line, trimmed.
pub open spec fn spec_extract_count(hcl: Seq<char>) -> Option<Seq<char>> {
    match first_attr_line(lines(hcl), "count"@, false) {
        Some(l) => match find(l, seq!['=']) {
            Some(i) => Some(trim(before_char(l.skip(i + 1), '='))),
            None => None,
        },
        None => None,
    }
}

/// Extract the count value from generated upcloud_server HCL.
/// Looks for a line like `  count    = 2`.
pub fn extract_count_from_hcl(hcl: &str) -> (r: Option<String>)
    ensures
        crate::migration::var_detector::opt_string_view(r) == spec_extract_count(hcl@),
{
    let v = chars_of(hcl);
    let ls = lines_v(&v);
    match first_attr_line_exec(&ls, "count", false) {
        Some(i) => {
            let l = &ls[i];
            match crate::text::find_char_from(l, '=', 0) {
                Some(k) => {
                    assert(l@.skip(0) =~= l@);
                    let ln = l.len();
                    assert(k + 1 <= ln);
                    let rest = slice_of(l, k + 1, ln);
                    assert(rest@ =~= l@.skip(k + 1));
                    let seg = before_char_v(&rest, '=');
                    Some(string_of(&trim_v(&seg)))
                },
                None => {
                    assert(l@.skip(0) =~= l@);
                    None
                },
            }
        },
        None => None,
    }
}

/// The right-hand side of the first `server_id = ...` line, trimmed.
pub open spec fn spec_extract_fw_server_id(hcl: Seq<char>) -> Option<Seq<char>> {
    match first_attr_line(lines(hcl), "server_id"@, false) {
        Some(l) => match find(l, seq!['=']) {
            Some(i) => Some(trim(l.skip(i + 1))),
            None => None,
        },
        None => None,
    }
}

/// Extract the `server_id = <expr>` RHS from a resolved `upcloud_firewall_rules` HCL block.
pub fn extract_fw_server_id_expr(hcl: &str) -> (r: Option<String>)
    ensures
        crate::migration::var_detector::opt_string_view(r) == spec_extract_fw_server_id(hcl@),
{
    let v = chars_of(hcl);
    let ls = lines_v(&v);
    match first_attr_line_exec(&ls, "server_id", false) {
        Some(i) => {
            let l = &ls[i];
            match crate::text::find_char_from(l, '=', 0) {
                Some(k) => {
                    assert(l@.skip(0) =~= l@);
                    let ln = l.len();
                    assert(k + 1 <= ln);
                    let rest = slice_of(l, k + 1, ln);
                    assert(rest@ =~= l@.skip(k + 1));
                    Some(string_of(&trim_v(&rest)))
                },
                None => {
                    assert(l@.skip(0) =~= l@);
                    None
                },
            }
        },
        None => None,
    }
}

/// The first `count = <expr>` line (not `count.index`), with a newline.
pub open spec fn spec_extract_fw_count_line(hcl: Seq<char>) -> Option<Seq<char>> {
    match first_attr_line(lines(hcl), "count"@, true) {
        Some(l) => Some(l + seq!['\n']),
        None => None,
    }
}

/// Extract the `count = <expr>` line (with leading spaces) from HCL, if present.
pub fn extract_fw_count_line(hcl: &str) -> (r: Option<String>)
    ensures
        crate::migration::var_detector::opt_string_view(r) == spec_extract_fw_count_line(hcl@),
{
    let v = chars_of(hcl);
    let ls = lines_v(&v);
    match first_attr_line_exec(&ls, "count", true) {
        Some(i) => {
            let mut s = string_of(&ls[i]);
            crate::text::push_char(&mut s, '\n');
            Some(s)
        },
        None => None,
    }
}

/// Scanner state of [`extract_fw_rule_blocks`]: finished blocks, the block being
/// collected, and its brace depth.
pub struct FwScan {
    pub blocks: Seq<Seq<char>>,
    pub current: Option<Seq<char>>,
    pub depth: int,
}

pub open spec fn fw_step(st: FwScan, line: Seq<char>) -> FwScan {
    match st.current {
        None => {
            let t = trim_start(line);
            if starts_with(t, "firewall_rule"@) && t.contains('{') {
                FwScan { current: Some(line + seq!['\n']), depth: 1, ..st }
            } else {
                st
            }
        },
        Some(cur) => {
            let block = cur + line + seq!['\n'];
            let depth = st.depth + count_char(line, '{') - count_char(line, '}');
            if depth <= 0 {
                FwScan { blocks: st.blocks.push(block), current: None, depth: 0 }
            } else {
                FwScan { current: Some(block), depth, ..st }
            }
        },
    }
}

pub open spec fn fw_fold(ls: Seq<Seq<char>>, st: FwScan) -> FwScan
    decreases ls.len(),
{
    if ls.len() == 0 {
        st
    } else {
        fw_fold(ls.drop_first(), fw_step(st, ls[0]))
    }
}

/// The complete `firewall_rule { ... }` blocks, each with its lines and newlines.
pub open spec fn spec_extract_fw_rule_blocks(hcl: Seq<char>) -> Seq<Seq<char>> {
    fw_fold(lines(hcl), FwScan { blocks: seq![], current: None, depth: 0 }).blocks
}

/// Extract all `firewall_rule { ... }` blocks from a resolved `upcloud_firewall_rules` HCL.
/// Returns each block as a string including its leading indentation.
pub fn extract_fw_rule_blocks(hcl: &str) -> (r: Vec<String>)
    ensures
        strs_view(r@) == spec_extract_fw_rule_blocks(hcl@),
{
    let v = chars_of(hcl);
    let ls = lines_v(&v);
    let mut blocks: Vec<String> = Vec::new();
    let mut current: Option<Vec<char>> = None;
    let mut depth: i128 = 0;
    let vn = v.len();
    let ghost init = FwScan { blocks: seq![], current: None, depth: 0 };
    let mut i: usize = 0;
    assert(views(ls@).skip(0) =~= views(ls@));
    assert(strs_view(blocks@) =~= seq![]);
    proof {
        crate::text::lemma_lines_total_len(v@);
        crate::text::lemma_total_len_take(views(ls@), 0);
    }
    while i < ls.len()
        invariant
            i <= ls@.len(),
            views(ls@) == lines(hcl@),
            total_len(views(ls@)) <= v@.len(),
            v@.len() == vn,
            0 <= depth <= total_len(views(ls@).take(i as int)) + i,
            fw_fold(views(ls@), init) == fw_fold(
                views(ls@).skip(i as int),
                FwScan {
                    blocks: strs_view(blocks@),
                    current: crate::text::opt_vec_view(current),
                    depth: depth as int,
                },
            ),
        decreases ls@.len() - i,
    {
        assert(views(ls@).skip(i as int)[0] == ls@[i as int]@);
        assert(views(ls@).skip(i as int).drop_first() =~= views(ls@).skip(i + 1));
        let line = &ls[i];
        proof {
            crate::text::lemma_total_len_take(views(ls@), i as int);
            crate::text::lemma_total_len_take(views(ls@), i + 1);
            assert(views(ls@)[i as int] == line@);
        }
        if current.is_none() {
            let t = trim_start_v(line);
            if starts_with_exec(&t, "firewall_rule") && has_char(&t, '{') {
                let mut c = slice_of(line, 0, line.len());
                c.push('\n');
                assert(c@ =~= line@ + seq!['\n']);
                current = Some(c);
                depth = 1;
            }
        } else {
            let mut c = current.unwrap();
            let ghost c0 = c@;
            let mut k: usize = 0;
            while k < line.len()
                invariant
                    k <= line@.len(),
                    c@ == c0 + line@.take(k as int),
                decreases line@.len() - k,
            {
                c.push(line[k]);
                assert(line@.take(k + 1) =~= line@.take(k as int).push(line@[k as int]));
                k += 1;
            }
            c.push('\n');
            assert(line@.take(line@.len() as int) =~= line@);
            assert(c@ =~= c0 + line@ + seq!['\n']);
            let opens = count_char_v(line, '{');
            let closes = count_char_v(line, '}');
            proof {
                crate::text::lemma_count_char_le_len(line@, '{');
                crate::text::lemma_count_char_le_len(line@, '}');
            }
            let nd: i128 = depth + (opens as i128) - (closes as i128);
            if nd <= 0 {
                let ghost prev = strs_view(blocks@);
                blocks.push(string_of(&c));
                assert(strs_view(blocks@) =~= prev.push(c@));
                current = None;
                depth = 0;
            } else {
                current = Some(c);
                depth = nd;
            }
        }
        i += 1;
    }
    assert(views(ls@).skip(i as int) =~= Seq::<Seq<char>>::empty());
    blocks
}

/// `bs` with every block that already occurred earlier removed; first occurrences
/// keep their order.
pub open spec fn dedup_first(bs: Seq<Seq<char>>) -> Seq<Seq<char>>
    decreases bs.len(),
{
    if bs.len() == 0 {
        seq![]
    } else {
        let r = dedup_first(bs.drop_last());
        if bs.drop_last().contains(bs.last()) {
            r
        } else {
            r.push(bs.last())
        }
    }
}

/// A merged firewall block writes each distinct rule block exactly once: the blocks
/// it joins hold no repeats, and they are exactly the blocks that were collected.
pub proof fn merged_rule_blocks_are_distinct(bs: Seq<Seq<char>>)
    ensures
        dedup_first(bs).no_duplicates(),
        forall|b: Seq<char>| dedup_first(bs).contains(b) <==> bs.contains(b),
    decreases bs.len(),
{
    if bs.len() > 0 {
        let pre = bs.drop_last();
        merged_rule_blocks_are_distinct(pre);
        let r = dedup_first(pre);
        assert forall|b: Seq<char>| bs.contains(b) <==> (pre.contains(b) || b == bs.last()) by {
            if bs.contains(b) {
                let k = choose|k: int| 0 <= k < bs.len() && bs[k] == b;
                if k < bs.len() - 1 {
                    assert(pre[k] == b);
                }
            }
            if pre.contains(b) {
                let k = choose|k: int| 0 <= k < pre.len() && pre[k] == b;
                assert(bs[k] == b);
            }
            if b == bs.last() {
                assert(bs[bs.len() - 1] == b);
            }
        }
        if !pre.contains(bs.last()) {
            let t = r.push(bs.last());
            assert forall|b: Seq<char>| t.contains(b) <==> (r.contains(b) || b == bs.last()) by {
                if t.contains(b) {
                    let k = choose|k: int| 0 <= k < t.len() && t[k] == b;
                    if k < r.len() {
                        assert(r[k] == b);
                    }
                }
                if r.contains(b) {
                    let k = choose|k: int| 0 <= k < r.len() && r[k] == b;
                    assert(t[k] == b);
                }
                if b == bs.last() {
                    assert(t[t.len() - 1] == b);
                }
            }
            assert forall|i: int, j: int| 0 <= i < t.len() && 0 <= j < t.len() && i != j implies t[i]
                != t[j] by {
                if i < r.len() && j < r.len() {
                } else if i < r.len() {
                    assert(r.contains(t[i]));
                } else {
                    assert(r.contains(t[j]));
                }
            }
        }
    }
}

/// Each block preceded by a blank line separator.
pub open spec fn join_rule_blocks(bs: Seq<Seq<char>>) -> Seq<char>
    decreases bs.len(),
{
    if bs.len() == 0 {
        seq![]
    } else {
        join_rule_blocks(bs.drop_last()) + seq!['\n'] + bs.last()
    }
}

pub open spec fn opt_str_or_empty(o: Option<&str>) -> Seq<char> {
    match o {
        Some(t) => t@,
        None => seq![],
    }
}

pub open spec fn fw_header(resource_name: Seq<char>) -> Seq<char> {
    "resource \"upcloud_firewall_rules\" \""@ + resource_name + "\" {\n"@
}

/// The merged `upcloud_firewall_rules` resource: header, optional count line,
/// `server_id`, each distinct rule block once in first-seen order, closing brace.
pub open spec fn spec_build_merged_fw_hcl(
    resource_name: Seq<char>,
    server_id_expr: Seq<char>,
    count_line: Seq<char>,
    rule_blocks: Seq<Seq<char>>,
) -> Seq<char> {
    fw_header(resource_name) + count_line + "  server_id = "@ + server_id_expr + "\n"@
        + join_rule_blocks(dedup_first(rule_blocks)) + "}\n"@
}

/// Build a merged `upcloud_firewall_rules` HCL block from collected rule blocks.
/// Identical rule blocks (such as the catch-all outbound rule every group adds)
/// are written once.
pub fn build_merged_fw_hcl(
    resource_name: &str,
    server_id_expr: &str,
    count_line: Option<&str>,
    rule_blocks: &[String],
) -> (r: String)
    ensures
        r@ == spec_build_merged_fw_hcl(
            resource_name@,
            server_id_expr@,
            opt_str_or_empty(count_line),
            strs_view(rule_blocks@),
        ),
{
    let mut s = String::new();
    push_str(&mut s, "resource \"upcloud_firewall_rules\" \"");
    push_str(&mut s, resource_name);
    push_str(&mut s, "\" {\n");
    match count_line {
        Some(c) => push_str(&mut s, c),
        None => {},
    }
    push_str(&mut s, "  server_id = ");
    push_str(&mut s, server_id_expr);
    push_str(&mut s, "\n");
    let ghost head = s@;
    assert(head =~= fw_header(resource_name@) + opt_str_or_empty(count_line) + "  server_id = "@
        + server_id_expr@ + "\n"@);
    let ghost bs = strs_view(rule_blocks@);
    let n = rule_blocks.len();
    let mut i: usize = 0;
    assert(bs.take(0) =~= Seq::<Seq<char>>::empty());
    while i < n
        invariant
            n == rule_blocks@.len(),
            bs == strs_view(rule_blocks@),
            i <= n,
            s@ == head + join_rule_blocks(dedup_first(bs.take(i as int))),
        decreases n - i,
    {
        let cur = chars_of(rule_blocks[i].as_str());
        assert(bs[i as int] == rule_blocks@[i as int]@);
        let mut dup = false;
        let mut j: usize = 0;
        while j < i
            invariant
                i < n,
                n == rule_blocks@.len(),
                bs == strs_view(rule_blocks@),
                j <= i,
                cur@ == bs[i as int],
                dup <==> exists|k: int| 0 <= k < j && bs[k] == bs[i as int],
            decreases i - j,
        {
            let other = chars_of(rule_blocks[j].as_str());
            assert(bs[j as int] == rule_blocks@[j as int]@);
            if seq_eq(&other, &cur) {
                dup = true;
            }
            j += 1;
        }
        let ghost pre = bs.take(i as int);
        assert(bs.take(i + 1).drop_last() =~= pre);
        assert(bs.take(i + 1).last() == bs[i as int]);
        assert(dup <==> pre.contains(bs[i as int])) by {
            if dup {
                let k = choose|k: int| 0 <= k < i && bs[k] == bs[i as int];
                assert(pre[k] == bs[i as int]);
            }
            if pre.contains(bs[i as int]) {
                let k = choose|k: int| 0 <= k < pre.len() && pre[k] == bs[i as int];
                assert(bs[k] == bs[i as int]);
            }
        }
        if !dup {
            push_char(&mut s, '\n');
            push_str(&mut s, rule_blocks[i].as_str());
            let ghost d = dedup_first(pre);
            assert(dedup_first(bs.take(i + 1)) == d.push(bs[i as int]));
            assert(join_rule_blocks(d.push(bs[i as int])) =~= join_rule_blocks(d) + seq!['\n']
                + bs[i as int]) by {
                assert(d.push(bs[i as int]).drop_last() =~= d);
            }
        }
        i += 1;
    }
    assert(bs.take(n as int) =~= bs);
    push_str(&mut s, "}\n");
    s
}

/// The server name inside `upcloud_server.NAME.id` or `upcloud_server.NAME[...].id`;
/// `server` when the expression does not start with `upcloud_server.`.
pub open spec fn spec_server_name_from_server_id_expr(expr: Seq<char>) -> Seq<char> {
    if starts_with(expr, "upcloud_server."@) {
        before_char(before_char(expr.skip(15), '['), '.')
    } else {
        "server"@
    }
}

/// Extract the server logical name from a server_id expression.
/// `upcloud_server.myserver.id` → `"myserver"`
/// `upcloud_server.myserver[count.index].id` → `"myserver"`
pub fn server_name_from_server_id_expr(expr: &str) -> (r: String)
    ensures
        r@ == spec_server_name_from_server_id_expr(expr@),
{
    let v = chars_of(expr);
    proof {
        reveal_strlit("upcloud_server.");
    }
    if starts_with_exec(&v, "upcloud_server.") {
        let rest = slice_of(&v, 15, v.len());
        assert(rest@ =~= v@.skip(15));
        let a = before_char_v(&rest, '[');
        let b = before_char_v(&a, '.');
        string_of(&b)
    } else {
        String::from_str("server")
    }
}

/// First entry for `key` in a list of (server name, optional count) pairs.
pub open spec fn server_info_get(m: Seq<(String, Option<String>)>, key: Seq<char>) -> Option<
    Option<Seq<char>>,
>
    decreases m.len(),
{
    if m.len() == 0 {
        None
    } else if m[0].0@ == key {
        Some(crate::migration::var_detector::opt_string_view(m[0].1))
    } else {
        server_info_get(m.drop_first(), key)
    }
}

pub open spec fn spec_resolve_firewall_server(
    hcl: Seq<char>,
    server_name: Seq<char>,
    info: Option<Option<Seq<char>>>,
) -> Seq<char> {
    match info {
        None => hcl,
        Some(None) => replace(
            hcl,
            "upcloud_server.<TODO>.id"@,
            "upcloud_server."@ + server_name + ".id"@,
        ),
        Some(Some(n)) => replace_first(
            replace(
                hcl,
                "upcloud_server.<TODO>.id"@,
                "upcloud_server."@ + server_name + "[count.index].id"@,
            ),
            "  server_id ="@,
            "  count     = "@ + n + "\n  server_id ="@,
        ),
    }
}

/// Index of the first entry for `key`.
fn server_info_find(m: &[(String, Option<String>)], key: &str) -> (r: Option<usize>)
    ensures
        r is None ==> server_info_get(m@, key@) is None,
        r matches Some(i) ==> i < m@.len() && server_info_get(m@, key@) == Some(
            crate::migration::var_detector::opt_string_view(m@[i as int].1),
        ),
{
    let kv = chars_of(key);
    let mut i: usize = 0;
    assert(m@.skip(0) =~= m@);
    while i < m.len()
        invariant
            i <= m@.len(),
            kv@ == key@,
            server_info_get(m@, key@) == server_info_get(m@.skip(i as int), key@),
        decreases m@.len() - i,
    {
        assert(m@.skip(i as int)[0] == m@[i as int]);
        assert(m@.skip(i as int).drop_first() =~= m@.skip(i + 1));
        let k = chars_of(m[i].0.as_str());
        if seq_eq(&k, &kv) {
            return Some(i);
        }
        i += 1;
    }
    assert(m@.skip(i as int) =~= Seq::<(String, Option<String>)>::empty());
    None
}

/// Resolve `upcloud_server.<TODO>.id` in a `upcloud_firewall_rules` block using name-matching.
///
/// - If the name matches a server with no count: simple `upcloud_server.NAME.id`
/// - If the name matches a server with count N: adds `count = N` and uses
///   `upcloud_server.NAME[count.index].id`
/// - If no match: returns the HCL unchanged (TODO stays for manual editing)
pub fn resolve_firewall_server(
    hcl: &str,
    server_name: &str,
    server_info_map: &[(String, Option<String>)],
) -> (r: String)
    ensures
        r@ == spec_resolve_firewall_server(
            hcl@,
            server_name@,
            server_info_get(server_info_map@, server_name@),
        ),
{
    let found = server_info_find(server_info_map, server_name);
    let v = chars_of(hcl);
    proof {
        reveal_strlit("upcloud_server.<TODO>.id");
    }
    match found {
        None => String::from_str(hcl),
        Some(idx) => {
            match &server_info_map[idx].1 {
                None => {
                    let mut to = String::from_str("upcloud_server.");
                    push_str(&mut to, server_name);
                    push_str(&mut to, ".id");
                    let r = replace_str(&v, "upcloud_server.<TODO>.id", to.as_str());
                    string_of(&r)
                },
                Some(n) => {
                    let mut to = String::from_str("upcloud_server.");
                    push_str(&mut to, server_name);
                    push_str(&mut to, "[count.index].id");
                    let r1 = replace_str(&v, "upcloud_server.<TODO>.id", to.as_str());
                    let from2 = chars_of("  server_id =");
                    let mut to2 = String::from_str("  count     = ");
                    push_str(&mut to2, n.as_str());
                    push_str(&mut to2, "\n  server_id =");
                    let to2v = chars_of(to2.as_str());
                    let r2 = replace_first_v(&r1, &from2, &to2v);
                    string_of(&r2)
                },
            }
        },
    }
}

/// The unresolved server reference of a firewall.
pub open spec fn unresolved_server_ref() -> Seq<char> {
    "upcloud_server.<TODO>.id"@
}

proof fn lemma_unresolved_chars()
    ensures
        unresolved_server_ref() == seq!['u', 'p', 'c', 'l', 'o', 'u', 'd', '_', 's', 'e', 'r', 'v', 'e', 'r', '.', '<', 'T', 'O', 'D', 'O', '>', '.', 'i', 'd'],
{
    reveal_strlit("upcloud_server.<TODO>.id");
    assert(unresolved_server_ref() =~= seq!['u', 'p', 'c', 'l', 'o', 'u', 'd', '_', 's', 'e', 'r', 'v', 'e', 'r', '.', '<', 'T', 'O', 'D', 'O', '>', '.', 'i', 'd']);
}

/// Replacing every unresolved server reference by a reference that starts with `u`,
/// ends with `id` and holds no `<` leaves none.
proof fn lemma_replace_clears(s: Seq<char>, to: Seq<char>)
    requires
        !to.contains('<'),
        to.len() >= 16,
        to[0] == 'u',
        to[to.len() - 1] == 'd',
        to[to.len() - 2] == 'i',
    ensures
        forall|j: int| !matches_at(replace(s, unresolved_server_ref(), to), unresolved_server_ref(), j),
    decreases s.len(),
{
    let f = unresolved_server_ref();
    lemma_unresolved_chars();
    lemma_find_from_bounds(s, f, 0);
    match find(s, f) {
        None => {},
        Some(i) => {
            assert(matches_at(s, f, i));
            let a = s.take(i);
            let rest = s.skip(i + 24);
            lemma_replace_clears(rest, to);
            let r = replace(rest, f, to);
            let res = replace(s, f, to);
            assert(res == a + to + r);
            assert forall|j: int| !matches_at(res, f, j) by {
                if matches_at(res, f, j) {
                    let w = res.subrange(j, j + 24);
                    assert(w == f);
                    if j + 24 <= i {
                        assert(s.subrange(j, j + 24) =~= w);
                        assert(matches_at(s, f, j));
                    } else if j < i {
                        if j + 15 < i {
                            let d = i - j;
                            assert(w[d] == res[i]);
                            assert(res[i] == to[0]);
                            assert(f[d] == 'u');
                        } else {
                            assert(w[15] == res[j + 15]);
                            assert(res[j + 15] == to[j + 15 - i]);
                            assert(to.contains('<'));
                        }
                    } else if j < i + to.len() {
                        let e = j - i;
                        if e + 15 < to.len() {
                            assert(w[15] == res[j + 15]);
                            assert(res[j + 15] == to[e + 15]);
                            assert(to.contains('<'));
                        } else {
                            let m = to.len() - 1 - e;
                            assert(w[m] == res[j + m]);
                            assert(res[j + m] == to[to.len() - 1]);
                            assert(f[m] == 'd');
                            assert(m == 6);
                            assert(w[5] == res[j + 5]);
                            assert(res[j + 5] == to[to.len() - 2]);
                        }
                    } else {
                        let o = j - i - to.len();
                        assert(r.subrange(o, o + 24) =~= w);
                        assert(matches_at(r, f, o));
                    }
                }
            }
        },
    }
}

/// Adding the `count` line before `server_id` brings back no unresolved server reference.
proof fn lemma_count_insert_clear(b: Seq<char>, n: Seq<char>)
    requires
        forall|j: int| !matches_at(b, unresolved_server_ref(), j),
        !n.contains('<'),
    ensures
        forall|j: int| !matches_at(replace_first(b, "  server_id ="@, "  count     = "@ + n + "\n  server_id ="@), unresolved_server_ref(), j),
{
    let f = unresolved_server_ref();
    lemma_unresolved_chars();
    let p = "  server_id ="@;
    let head = "  count     = "@;
    let tail = "\n  server_id ="@;
    reveal_strlit("  server_id =");
    reveal_strlit("  count     = ");
    reveal_strlit("\n  server_id =");
    let ins = head + n + tail;
    lemma_find_from_bounds(b, p, 0);
    match find(b, p) {
        None => {},
        Some(q) => {
            assert(matches_at(b, p, q));
            let res = replace_first(b, p, ins);
            let a = b.take(q);
            let c = b.skip(q + p.len());
            assert(res == a + ins + c);
            assert(!ins.contains('<')) by {
                if ins.contains('<') {
                    let k = choose|k: int| 0 <= k < ins.len() && ins[k] == '<';
                    if k < head.len() {
                        assert(ins[k] == head[k]);
                    } else if k < head.len() + n.len() {
                        assert(ins[k] == n[k - head.len()]);
                        assert(n.contains('<'));
                    } else {
                        assert(ins[k] == tail[k - head.len() - n.len()]);
                    }
                }
            }
            assert(ins[0] == ' ');
            assert(ins[ins.len() - 1] == '=');
            assert forall|j: int| !matches_at(res, f, j) by {
                if matches_at(res, f, j) {
                    let w = res.subrange(j, j + 24);
                    assert(w == f);
                    if j + 24 <= q {
                        assert(b.subrange(j, j + 24) =~= w);
                        assert(matches_at(b, f, j));
                    } else if j >= q + ins.len() {
                        let o = j - q - ins.len() + q + p.len();
                        assert(b.subrange(o, o + 24) =~= w);
                        assert(matches_at(b, f, o));
                    } else if j < q {
                        assert(w[q - j] == res[q]);
                        assert(res[q] == ins[0]);
                    } else if j + 24 > q + ins.len() {
                        let t = q + ins.len() - 1 - j;
                        assert(w[t] == res[q + ins.len() - 1]);
                        assert(res[q + ins.len() - 1] == ins[ins.len() - 1]);
                    } else {
                        assert(w[15] == res[j + 15]);
                        assert(res[j + 15] == ins[j + 15 - q]);
                        assert(ins.contains('<'));
                    }
                }
            }
        },
    }
}

/// A firewall whose server is known has its server reference resolved: no
/// `upcloud_server.<TODO>.id` is left, for a server name and instance count without `<`.
pub proof fn known_server_resolves_firewall(hcl: Seq<char>, server: Seq<char>, count: Option<Seq<char>>)
    requires
        !server.contains('<'),
        count matches Some(n) ==> !n.contains('<'),
    ensures
        !contains(spec_resolve_firewall_server(hcl, server, Some(count)), unresolved_server_ref()),
{
    let f = unresolved_server_ref();
    let pre = "upcloud_server."@;
    reveal_strlit("upcloud_server.");
    reveal_strlit(".id");
    reveal_strlit("[count.index].id");
    let suffix = match count { Some(_) => "[count.index].id"@, None => ".id"@ };
    let to = pre + server + suffix;
    assert(!to.contains('<')) by {
        if to.contains('<') {
            let k = choose|k: int| 0 <= k < to.len() && to[k] == '<';
            if k < pre.len() {
                assert(to[k] == pre[k]);
            } else if k < pre.len() + server.len() {
                assert(to[k] == server[k - pre.len()]);
                assert(server.contains('<'));
            } else {
                assert(to[k] == suffix[k - pre.len() - server.len()]);
            }
        }
    }
    assert(to[0] == 'u');
    assert(to[to.len() - 1] == 'd');
    assert(to[to.len() - 2] == 'i');
    lemma_replace_clears(hcl, to);
    let r1 = replace(hcl, f, to);
    let res = spec_resolve_firewall_server(hcl, server, Some(count));
    match count {
        None => {
            assert(res == r1);
        },
        Some(n) => {
            lemma_count_insert_clear(r1, n);
        },
    }
    lemma_find_from_bounds(res, f, 0);
}

proof fn lemma_skip_spaces_ge(s: Seq<char>, j: int)
    requires
        0 <= j,
    ensures
        j <= skip_spaces(s, j),
    decreases s.len() - j,
{
    if j < s.len() && s[j] == ' ' {
        lemma_skip_spaces_ge(s, j + 1);
    }
}

proof fn lemma_find_todo_interp_found(s: Seq<char>, i: int)
    requires
        0 <= i,
    ensures
        find_todo_interp(s, i) matches Some(k) ==> i <= k && k + 2 < s.len() && s[k] == '$' && s[k + 1] == '{',
    decreases s.len() - i,
{
    if i + 1 < s.len() {
        if s[i] == '$' && s[i + 1] == '{' && starts_with(s.skip(skip_spaces(s, i + 2)), "<TODO:"@) {
            lemma_skip_spaces_ge(s, i + 2);
            reveal_strlit("<TODO:");
        } else {
            lemma_find_todo_interp_found(s, i + 1);
        }
    }
}

proof fn lemma_remove_fuel_clears(s: Seq<char>, fuel: nat)
    requires
        fuel > count_char(s, '$'),
    ensures
        find_todo_interp(remove_todo_interps_fuel(s, fuel), 0) is None,
    decreases fuel,
{
    match find_todo_interp(s, 0) {
        None => {},
        Some(start) => {
            lemma_find_todo_interp_found(s, 0);
            lemma_close_brace_bounds(s, start + 2, 1);
            lemma_todo_interp_step_dollars(s, start);
            lemma_remove_fuel_clears(todo_interp_step(s, start), (fuel - 1) as nat);
        },
    }
}

/// No interpolated TODO is left: the result holds no `${`, optional spaces and `<TODO:`;
/// and text that holds none is returned as it is.
pub proof fn todo_interpolations_removed(s: Seq<char>)
    ensures
        find_todo_interp(spec_remove_todo_interpolations(s), 0) is None,
        find_todo_interp(s, 0) is None ==> spec_remove_todo_interpolations(s) == s,
{
    lemma_remove_fuel_clears(s, count_char(s, '$') + 1);
}

proof fn lemma_remove_fuel_stable(s: Seq<char>, f1: nat, f2: nat)
    requires
        f1 > count_char(s, '$'),
        f2 > count_char(s, '$'),
    ensures
        remove_todo_interps_fuel(s, f1) == remove_todo_interps_fuel(s, f2),
    decreases f1,
{
    match find_todo_interp(s, 0) {
        None => {},
        Some(start) => {
            lemma_find_todo_interp_found(s, 0);
            lemma_close_brace_bounds(s, start + 2, 1);
            lemma_todo_interp_step_dollars(s, start);
            lemma_remove_fuel_stable(todo_interp_step(s, start), (f1 - 1) as nat, (f2 - 1) as nat);
        },
    }
}

proof fn lemma_close_brace_skip(s: Seq<char>, i: int, k: int, d: nat)
    requires
        0 <= i <= k <= s.len(),
        forall|j: int| i <= j < k ==> s[j] != '{' && s[j] != '}',
    ensures
        close_brace(s, i, d) == close_brace(s, k, d),
    decreases k - i,
{
    if i < k {
        lemma_close_brace_skip(s, i + 1, k, d);
    }
}

proof fn lemma_trim_start_spaces(x: Seq<char>, k: int)
    requires
        0 <= k < x.len(),
        forall|j: int| 0 <= j < k ==> x[j] == ' ',
        !crate::text::is_ws(x[k]),
    ensures
        crate::text::trim_start(x) == x.skip(k),
    decreases k,
{
    if k == 0 {
        assert(x.skip(0) =~= x);
    } else {
        let d = x.drop_first();
        assert forall|j: int| 0 <= j < k - 1 implies d[j] == ' ' by {
            assert(d[j] == x[j + 1]);
        }
        assert(d[k - 1] == x[k]);
        lemma_trim_start_spaces(d, k - 1);
        assert(d.skip(k - 1) =~= x.skip(k));
    }
}

proof fn lemma_trim_end_keeps(t: Seq<char>, k: int)
    requires
        0 <= k < t.len(),
        !crate::text::is_ws(t[k]),
    ensures
        crate::text::trim_end(t).len() > k,
    decreases t.len(),
{
    if is_ws_last(t) {
        assert(k < t.len() - 1);
        let d = t.drop_last();
        assert(d[k] == t[k]);
        lemma_trim_end_keeps(d, k);
    }
}

spec fn is_ws_last(t: Seq<char>) -> bool {
    t.len() > 0 && crate::text::is_ws(t.last())
}

/// An interpolated TODO whose marker is not cut off by the end of the text is replaced by
/// that marker: the wrapper's trimmed content begins with `<TODO:`, the text put in its
/// place is that content up to and including its first `>` (all of it when it has none),
/// and the rest of the rewriting goes on from there.
pub proof fn todo_interpolation_becomes_its_marker(s: Seq<char>, start: int)
    requires
        find_todo_interp(s, 0) == Some(start),
        skip_spaces(s, start + 2) + 6 < s.len(),
    ensures
        ({
            let end = close_brace(s, start + 2, 1);
            let inner = trim(s.subrange(start + 2, end - 1));
            let m = todo_interp_replacement(s, start, end);
            &&& starts_with(inner, "<TODO:"@)
            &&& m == inner.take(
                match find(inner, seq!['>']) {
                    Some(q) => q + 1,
                    None => inner.len() as int,
                },
            )
            &&& spec_remove_todo_interpolations(s) == spec_remove_todo_interpolations(
                s.take(start) + m + s.skip(end),
            )
        }),
{
    let end = close_brace(s, start + 2, 1);
    let p = skip_spaces(s, start + 2);
    let t = "<TODO:"@;
    reveal_strlit("<TODO:");
    lemma_find_todo_interp_at(s, 0, start);
    lemma_find_todo_interp_found(s, 0);
    lemma_skip_spaces(s, start + 2);
    assert(t.len() == 6);
    assert(s.skip(p).subrange(0, 6) == t);
    assert forall|j: int| p <= j < p + 6 implies s[j] != '{' && s[j] != '}' by {
        assert(s[j] == s.skip(p).subrange(0, 6)[j - p]);
    }
    assert forall|j: int| start + 2 <= j < p + 6 implies s[j] != '{' && s[j] != '}' by {
        if j >= p {
            assert(s[j] == s.skip(p).subrange(0, 6)[j - p]);
        }
    }
    lemma_close_brace_skip(s, start + 2, p + 6, 1);
    lemma_close_brace_bounds(s, p + 6, 1);
    assert(p + 6 <= end - 1);
    let inner0 = s.subrange(start + 2, end - 1);
    let k = p - (start + 2);
    assert(inner0[k] == s[p]);
    assert(s[p] == t[0]);
    assert forall|j: int| 0 <= j < k implies inner0[j] == ' ' by {
        assert(inner0[j] == s[start + 2 + j]);
    }
    lemma_trim_start_spaces(inner0, k);
    let ts = inner0.skip(k);
    assert(ts =~= s.subrange(p, end - 1));
    assert(ts[5] == s[p + 5]);
    assert(s[p + 5] == t[5]);
    lemma_trim_end_keeps(ts, 5);
    lemma_trim_end_prefix(ts);
    let inner = trim(inner0);
    assert(inner == crate::text::trim_end(ts));
    assert(inner.subrange(0, 6) =~= t) by {
        assert forall|j: int| 0 <= j < 6 implies inner[j] == t[j] by {
            assert(inner[j] == ts[j]);
            assert(ts[j] == s[p + j]);
            assert(s[p + j] == s.skip(p).subrange(0, 6)[j]);
        }
    }
    assert(matches_at(inner, t, 0));
    assert(find(inner, t) == Some(0int));
    assert(inner.skip(0) =~= inner);
    let te = match find(inner, seq!['>']) {
        Some(q) => q + 1,
        None => inner.len() as int,
    };
    assert(inner.subrange(0, te) =~= inner.take(te));
    let c = count_char(s, '$');
    lemma_close_brace_bounds(s, start + 2, 1);
    lemma_todo_interp_step_dollars(s, start);
    let st = todo_interp_step(s, start);
    assert(spec_remove_todo_interpolations(s) == remove_todo_interps_fuel(st, c));
    lemma_remove_fuel_stable(st, c, count_char(st, '$') + 1);
}

} // verus!

