//! Line scanners over Terraform source text: references after a prefix, keyed
//! attribute lines, and simple `attr = value` lookups.
use vstd::prelude::*;

use crate::migration::types::strs_view;
use crate::migration::var_detector::opt_string_view;
use crate::text::{
    before_char, before_char_v, chars_of, find, find_str, has_char, ident_end, ident_len,
    lemma_find_from_bounds, lines, lines_v, opt_vec_view, slice_of, starts_with,
    starts_with_exec, string_of, trim, trim_char, trim_char_v, trim_start, trim_start_v, trim_v,
    views,
};

verus! {

/// Identifiers following each occurrence of `prefix` in `search` (empty ones
/// skipped); the search resumes one character after each occurrence.
pub open spec fn refs_in(search: Seq<char>, prefix: Seq<char>) -> Seq<Seq<char>>
    decreases search.len(),
{
    if prefix.len() == 0 {
        seq![]
    } else {
    match find(search, prefix) {
        Some(pos) => {
            proof {
                lemma_find_from_bounds(search, prefix, 0);
            }
            let after = search.skip(pos + prefix.len());
            let name = after.take(ident_len(after) as int);
            (if name.len() > 0 {
                seq![name]
            } else {
                seq![]
            }) + refs_in(search.skip(pos + 1), prefix)
        },
        None => seq![],
    }
    }
}

pub open spec fn refs_lines(ls: Seq<Seq<char>>, prefix: Seq<char>) -> Seq<Seq<char>>
    decreases ls.len(),
{
    if ls.len() == 0 {
        seq![]
    } else {
        refs_lines(ls.drop_last(), prefix) + refs_in(ls.last(), prefix)
    }
}

/// Every identifier after `prefix`, line by line, in order.
pub open spec fn spec_collect_refs(hcl: Seq<char>, prefix: Seq<char>) -> Seq<Seq<char>> {
    refs_lines(lines(hcl), prefix)
}

fn refs_in_exec(line: &Vec<char>, prefix: &str, out: &mut Vec<String>)
    requires
        prefix@.len() > 0,
    ensures
        strs_view(final(out)@) == strs_view(old(out)@) + refs_in(line@, prefix@),
{
    let plen = chars_of(prefix).len();
    let mut search = slice_of(line, 0, line.len());
    assert(search@ =~= line@);
    let ghost orig = strs_view(out@);
    loop
        invariant
            plen == prefix@.len(),
            prefix@.len() > 0,
            orig == strs_view(old(out)@),
            strs_view(out@) + refs_in(search@, prefix@) == orig + refs_in(line@, prefix@),
        decreases search@.len(),
    {
        match find_str(&search, prefix) {
            None => {
                assert(strs_view(out@) + refs_in(search@, prefix@) =~= strs_view(out@));
                return;
            },
            Some(pos) => {
                proof {
                    lemma_find_from_bounds(search@, prefix@, 0);
                }
                let n = search.len();
                let after = slice_of(&search, pos + plen, n);
                assert(after@ =~= search@.skip(pos + prefix@.len()));
                let e = ident_end(&after, 0);
                assert(after@.skip(0) =~= after@);
                let name = slice_of(&after, 0, e);
                assert(name@ =~= after@.take(ident_len(after@) as int));
                let ghost prev = strs_view(out@);
                if e > 0 {
                    out.push(string_of(&name));
                    assert(strs_view(out@) =~= prev.push(name@));
                }
                let next = slice_of(&search, pos + 1, n);
                assert(next@ =~= search@.skip(pos + 1));
                search = next;
            },
        }
    }
}

/// Every identifier that follows `prefix` in `hcl`, line by line.
pub fn collect_refs(hcl: &str, prefix: &str) -> (r: Vec<String>)
    requires
        prefix@.len() > 0,
    ensures
        strs_view(r@) == spec_collect_refs(hcl@, prefix@),
{
    let ls = lines_v(&chars_of(hcl));
    let mut refs: Vec<String> = Vec::new();
    let mut i: usize = 0;
    assert(views(ls@).take(0) =~= Seq::<Seq<char>>::empty());
    while i < ls.len()
        invariant
            i <= ls@.len(),
            prefix@.len() > 0,
            views(ls@) == lines(hcl@),
            strs_view(refs@) == refs_lines(views(ls@).take(i as int), prefix@),
        decreases ls@.len() - i,
    {
        refs_in_exec(&ls[i], prefix, &mut refs);
        assert(views(ls@).take(i + 1).drop_last() =~= views(ls@).take(i as int));
        assert(views(ls@).take(i + 1).last() == ls@[i as int]@);
        i += 1;
    }
    assert(views(ls@).take(i as int) =~= views(ls@));
    refs
}

/// The name after a reference prefix ending at `start`: either the identifier
/// characters (`ident`), or everything up to the next `.` with quotes trimmed.
pub open spec fn ref_name_at(t: Seq<char>, start: int, ident: bool) -> Seq<char> {
    let after = t.skip(start);
    if ident {
        after.take(ident_len(after) as int)
    } else {
        trim_char(before_char(after, '.'), '"')
    }
}

fn ref_name_at_exec(t: &Vec<char>, start: usize, ident: bool) -> (r: Vec<char>)
    requires
        start <= t@.len(),
    ensures
        r@ == ref_name_at(t@, start as int, ident),
{
    let n = t.len();
    let after = slice_of(t, start, n);
    assert(after@ =~= t@.skip(start as int));
    if ident {
        let e = ident_end(&after, 0);
        assert(after@.skip(0) =~= after@);
        let name = slice_of(&after, 0, e);
        assert(name@ =~= after@.take(ident_len(after@) as int));
        name
    } else {
        trim_char_v(&before_char_v(&after, '.'), '"')
    }
}

/// The reference name a line gives: its trimmed text starts with `key`, holds `=`
/// when `need_eq`, and contains `prefix`; the name after the first `prefix` must
/// be non-empty.
pub open spec fn keyed_ref(line: Seq<char>, key: Seq<char>, prefix: Seq<char>, need_eq: bool, ident: bool) -> Option<Seq<char>> {
    let t = trim(line);
    if starts_with(t, key) && (!need_eq || t.contains('=')) {
        match find(t, prefix) {
            Some(pos) => {
                let name = ref_name_at(t, pos + prefix.len(), ident);
                if name.len() > 0 {
                    Some(name)
                } else {
                    None
                }
            },
            None => None,
        }
    } else {
        None
    }
}

/// The first line that gives a reference name by [`keyed_ref`].
pub open spec fn first_keyed_ref(ls: Seq<Seq<char>>, key: Seq<char>, prefix: Seq<char>, need_eq: bool, ident: bool) -> Option<Seq<char>>
    decreases ls.len(),
{
    if ls.len() == 0 {
        None
    } else {
        match keyed_ref(ls[0], key, prefix, need_eq, ident) {
            Some(n) => Some(n),
            None => first_keyed_ref(ls.drop_first(), key, prefix, need_eq, ident),
        }
    }
}

fn keyed_ref_exec(line: &Vec<char>, key: &str, prefix: &str, need_eq: bool, ident: bool) -> (r: Option<Vec<char>>)
    ensures
        opt_vec_view(r) == keyed_ref(line@, key@, prefix@, need_eq, ident),
{
    let t = trim_v(line);
    if starts_with_exec(&t, key) && (!need_eq || has_char(&t, '=')) {
        match find_str(&t, prefix) {
            Some(pos) => {
                proof {
                    lemma_find_from_bounds(t@, prefix@, 0);
                }
                let plen = chars_of(prefix).len();
                let tn = t.len();
                assert(pos + plen <= tn);
                let name = ref_name_at_exec(&t, pos + plen, ident);
                if name.len() > 0 {
                    Some(name)
                } else {
                    None
                }
            },
            None => None,
        }
    } else {
        None
    }
}

/// The first reference name that a `key ... prefix NAME` line of `hcl` gives.
pub fn find_keyed_ref(hcl: &str, key: &str, prefix: &str, need_eq: bool, ident: bool) -> (r: Option<String>)
    ensures
        opt_string_view(r) == first_keyed_ref(lines(hcl@), key@, prefix@, need_eq, ident),
{
    let ls = lines_v(&chars_of(hcl));
    let mut i: usize = 0;
    assert(views(ls@).skip(0) =~= views(ls@));
    while i < ls.len()
        invariant
            i <= ls@.len(),
            views(ls@) == lines(hcl@),
            first_keyed_ref(lines(hcl@), key@, prefix@, need_eq, ident) == first_keyed_ref(views(ls@).skip(i as int), key@, prefix@, need_eq, ident),
        decreases ls@.len() - i,
    {
        assert(views(ls@).skip(i as int)[0] == ls@[i as int]@);
        assert(views(ls@).skip(i as int).drop_first() =~= views(ls@).skip(i + 1));
        match keyed_ref_exec(&ls[i], key, prefix, need_eq, ident) {
            Some(n) => {
                return Some(string_of(&n));
            },
            None => {},
        }
        i += 1;
    }
    None
}

/// Two references looked for line by line, each taken from the first line that gives one.
pub open spec fn keyed_pair_fold(
    ls: Seq<Seq<char>>,
    k1: Seq<char>,
    p1: Seq<char>,
    i1: bool,
    k2: Seq<char>,
    p2: Seq<char>,
    i2: bool,
) -> (Option<Seq<char>>, Option<Seq<char>>)
    decreases ls.len(),
{
    if ls.len() == 0 {
        (None, None)
    } else {
        let (a, b) = keyed_pair_fold(ls.drop_last(), k1, p1, i1, k2, p2, i2);
        (
            if a is None { keyed_ref(ls.last(), k1, p1, false, i1) } else { a },
            if b is None { keyed_ref(ls.last(), k2, p2, false, i2) } else { b },
        )
    }
}

pub open spec fn spec_keyed_pair(
    hcl: Seq<char>,
    k1: Seq<char>,
    p1: Seq<char>,
    i1: bool,
    k2: Seq<char>,
    p2: Seq<char>,
    i2: bool,
) -> Option<(Seq<char>, Seq<char>)> {
    match keyed_pair_fold(lines(hcl), k1, p1, i1, k2, p2, i2) {
        (Some(a), Some(b)) => Some((a, b)),
        _ => None,
    }
}

/// Both references of [`keyed_pair_fold`], when both are found.
pub fn find_keyed_pair(
    hcl: &str,
    k1: &str,
    p1: &str,
    i1: bool,
    k2: &str,
    p2: &str,
    i2: bool,
) -> (r: Option<(String, String)>)
    ensures
        match r {
            Some((a, b)) => spec_keyed_pair(hcl@, k1@, p1@, i1, k2@, p2@, i2) == Some((a@, b@)),
            None => spec_keyed_pair(hcl@, k1@, p1@, i1, k2@, p2@, i2) is None,
        },
{
    let ls = lines_v(&chars_of(hcl));
    let mut a: Option<Vec<char>> = None;
    let mut b: Option<Vec<char>> = None;
    let mut i: usize = 0;
    assert(views(ls@).take(0) =~= Seq::<Seq<char>>::empty());
    while i < ls.len()
        invariant
            i <= ls@.len(),
            views(ls@) == lines(hcl@),
            keyed_pair_fold(views(ls@).take(i as int), k1@, p1@, i1, k2@, p2@, i2) == (opt_vec_view(a), opt_vec_view(b)),
        decreases ls@.len() - i,
    {
        assert(views(ls@).take(i + 1).drop_last() =~= views(ls@).take(i as int));
        assert(views(ls@).take(i + 1).last() == ls@[i as int]@);
        if a.is_none() {
            a = keyed_ref_exec(&ls[i], k1, p1, false, i1);
        }
        if b.is_none() {
            b = keyed_ref_exec(&ls[i], k2, p2, false, i2);
        }
        i += 1;
    }
    assert(views(ls@).take(i as int) =~= views(ls@));
    match (a, b) {
        (Some(x), Some(y)) => Some((string_of(&x), string_of(&y))),
        _ => None,
    }
}

/// The first line whose trimmed text starts with `key` (and, when `needle` is
/// non-empty, contains it).
pub open spec fn first_line_with(ls: Seq<Seq<char>>, key: Seq<char>, needle: Seq<char>) -> Option<Seq<char>>
    decreases ls.len(),
{
    if ls.len() == 0 {
        None
    } else if starts_with(trim(ls[0]), key) && (needle.len() == 0 || find(trim(ls[0]), needle) is Some) {
        Some(ls[0])
    } else {
        first_line_with(ls.drop_first(), key, needle)
    }
}

/// From the first line selected by [`first_line_with`], the name after the first
/// `prefix` in the (untrimmed) line, if non-empty.
pub open spec fn spec_line_ref(hcl: Seq<char>, key: Seq<char>, needle: Seq<char>, prefix: Seq<char>, ident: bool) -> Option<Seq<char>> {
    match first_line_with(lines(hcl), key, needle) {
        Some(l) => match find(l, prefix) {
            Some(p) => {
                let name = ref_name_at(l, p + prefix.len(), ident);
                if name.len() > 0 {
                    Some(name)
                } else {
                    None
                }
            },
            None => None,
        },
        None => None,
    }
}

/// The name that the first `key` line of `hcl` gives after `prefix`.
pub fn find_line_ref(hcl: &str, key: &str, needle: &str, prefix: &str, ident: bool) -> (r: Option<String>)
    ensures
        opt_string_view(r) == spec_line_ref(hcl@, key@, needle@, prefix@, ident),
{
    let ls = lines_v(&chars_of(hcl));
    let nlen = chars_of(needle).len();
    let mut i: usize = 0;
    assert(views(ls@).skip(0) =~= views(ls@));
    while i < ls.len()
        invariant
            i <= ls@.len(),
            nlen == needle@.len(),
            views(ls@) == lines(hcl@),
            first_line_with(lines(hcl@), key@, needle@) == first_line_with(views(ls@).skip(i as int), key@, needle@),
        decreases ls@.len() - i,
    {
        assert(views(ls@).skip(i as int)[0] == ls@[i as int]@);
        assert(views(ls@).skip(i as int).drop_first() =~= views(ls@).skip(i + 1));
        let l = &ls[i];
        let t = trim_v(l);
        if starts_with_exec(&t, key) && (nlen == 0 || find_str(&t, needle).is_some()) {
            match find_str(l, prefix) {
                Some(p) => {
                    proof {
                        lemma_find_from_bounds(l@, prefix@, 0);
                    }
                    let plen = chars_of(prefix).len();
                    let ln = l.len();
                    assert(p + plen <= ln);
                    let name = ref_name_at_exec(l, p + plen, ident);
                    if name.len() > 0 {
                        return Some(string_of(&name));
                    } else {
                        return None;
                    }
                },
                None => {
                    return None;
                },
            }
        }
        i += 1;
    }
    None
}

/// The first line whose trimmed text starts with `attr` followed (after spaces) by `=`.
pub open spec fn first_attr_assign(ls: Seq<Seq<char>>, attr: Seq<char>) -> Option<Seq<char>>
    decreases ls.len(),
{
    if ls.len() == 0 {
        None
    } else if starts_with(trim(ls[0]), attr) && starts_with(trim_start(trim(ls[0]).skip(attr.len() as int)), "="@) {
        Some(ls[0])
    } else {
        first_attr_assign(ls.drop_first(), attr)
    }
}

/// `attr = "value"` or `attr = value` of the first such line, quotes trimmed; `None`
/// when absent or empty.
pub open spec fn spec_extract_hcl_attr(hcl: Seq<char>, attr: Seq<char>) -> Option<Seq<char>> {
    match first_attr_assign(lines(hcl), attr) {
        Some(l) => match find(l, seq!['=']) {
            Some(pos) => {
                let v = trim_char(trim(l.skip(pos + 1)), '"');
                if v.len() > 0 {
                    Some(v)
                } else {
                    None
                }
            },
            None => None,
        },
        None => None,
    }
}

fn is_attr_assign_line(l: &Vec<char>, attr: &str) -> (r: bool)
    ensures
        r == (starts_with(trim(l@), attr@) && starts_with(
            trim_start(trim(l@).skip(attr@.len() as int)),
            "="@,
        )),
{
    let alen = chars_of(attr).len();
    let t = trim_v(l);
    if starts_with_exec(&t, attr) {
        let tn = t.len();
        let rest = slice_of(&t, alen, tn);
        assert(rest@ =~= t@.skip(attr@.len() as int));
        starts_with_exec(&trim_start_v(&rest), "=")
    } else {
        false
    }
}

fn first_attr_assign_index(ls: &Vec<Vec<char>>, attr: &str) -> (r: Option<usize>)
    ensures
        r is None ==> first_attr_assign(views(ls@), attr@) is None,
        r matches Some(i) ==> i < ls@.len() && first_attr_assign(views(ls@), attr@) == Some(
            ls@[i as int]@,
        ),
{
    let mut i: usize = 0;
    assert(views(ls@).skip(0) =~= views(ls@));
    while i < ls.len()
        invariant
            i <= ls@.len(),
            first_attr_assign(views(ls@), attr@) == first_attr_assign(views(ls@).skip(i as int), attr@),
        decreases ls@.len() - i,
    {
        assert(views(ls@).skip(i as int)[0] == ls@[i as int]@);
        assert(views(ls@).skip(i as int).drop_first() =~= views(ls@).skip(i + 1));
        if is_attr_assign_line(&ls[i], attr) {
            return Some(i);
        }
        i += 1;
    }
    None
}

/// Extract a simple `attr = "value"` or `attr = value` from source HCL.
pub fn extract_hcl_attr(hcl: &str, attr: &str) -> (r: Option<String>)
    ensures
        opt_string_view(r) == spec_extract_hcl_attr(hcl@, attr@),
{
    let ls = lines_v(&chars_of(hcl));
    match first_attr_assign_index(&ls, attr) {
        None => None,
        Some(i) => {
            let l = &ls[i];
            let ln = l.len();
            match crate::text::find_char_from(l, '=', 0) {
                Some(pos) => {
                    assert(l@.skip(0) =~= l@);
                    let after = slice_of(l, pos + 1, ln);
                    assert(after@ =~= l@.skip(pos + 1));
                    let v = trim_char_v(&trim_v(&after), '"');
                    if v.len() > 0 {
                        Some(string_of(&v))
                    } else {
                        None
                    }
                },
                None => {
                    assert(l@.skip(0) =~= l@);
                    None
                },
            }
        },
    }
}

} // verus!
